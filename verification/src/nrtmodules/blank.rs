use vstd::prelude::*;

verus! {

/// The module that stands where nothing has been chosen yet; it produces silence.
#[derive(Debug)]
pub struct Blank {}

impl Blank {
    /// The module; it has no settings.
    pub fn new() -> (m: Self) {
        Self {}
    }
}

} // verus!
