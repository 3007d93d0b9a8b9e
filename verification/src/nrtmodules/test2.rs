use vstd::prelude::*;

verus! {

/// A test module: the product of two constant values, the first one signed.
#[derive(Debug)]
pub struct NRTTest2 {}

impl NRTTest2 {
    /// The module; it has no settings.
    pub fn new() -> (m: Self) {
        Self {}
    }
}

} // verus!
