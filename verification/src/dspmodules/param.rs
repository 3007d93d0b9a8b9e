use vstd::prelude::*;

use crate::text::{decimal, decimal_string};

verus! {

/// Reads the plugin parameter in one of the parameter slots.
pub struct Param {
    slot: usize,
}

impl Param {
    /// The index of the parameter slot that this module reads.
    pub closed spec fn slot_index(&self) -> nat {
        self.slot as nat
    }

    /// A module that reads parameter slot `slot`.
    pub fn new(slot: usize) -> (p: Self)
        ensures
            p.slot_index() == slot,
    {
        Self { slot: slot }
    }

    /// `Param::new`, on the heap.
    pub fn new_boxxed(slot: usize) -> (p: Box<Self>)
        ensures
            p.slot_index() == slot,
    {
        Box::new(Param::new(slot))
    }

    /// The index of the parameter slot that this module reads.
    pub fn slot(&self) -> (s: usize)
        ensures
            s == self.slot_index(),
    {
        self.slot
    }

    /// The module's debug text: `PARAM: ` and the slot index in decimal.
    pub fn dbg_log(&self) -> (s: String)
        ensures
            s@ == "PARAM: "@ + decimal(self.slot_index()),
    {
        let mut s = String::from_str("PARAM: ");
        let n = decimal_string(self.slot);
        s.append(n.as_str());
        s
    }
}

} // verus!
