use vstd::prelude::*;

verus! {

/// A test module: the product of two constant values.
#[derive(Debug)]
pub struct NRTTest {}

impl NRTTest {
    /// The module; it has no settings.
    pub fn new() -> (m: Self) {
        Self {}
    }
}

} // verus!
