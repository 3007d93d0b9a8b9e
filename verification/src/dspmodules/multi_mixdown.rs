use vstd::prelude::*;

verus! {

/// How a mixdown combines the values of a multichannel signal into one.
pub enum MixdownMode {
    /// Divide the sum of the chains by the square root of the number of chains.
    Sqrt,
    /// Add the chains together, with no other scaling.
    Add,
}

} // verus!
