use vstd::prelude::*;

verus! {

/// A test module that passes the audio input on.
#[derive(Debug)]
pub struct NRTTestInput {}

impl NRTTestInput {
    /// The module; it has no settings.
    pub fn new() -> (m: Self) {
        Self {}
    }
}

} // verus!
