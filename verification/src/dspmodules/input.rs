use vstd::prelude::*;

verus! {

/// Passes on the audio input sample that the host hands to the plugin.
pub struct Input {}

impl Input {
    /// The input module; it has no settings.
    pub fn new() -> (i: Self) {
        Self {}
    }

    /// `Input::new`, on the heap.
    pub fn new_boxxed() -> (i: Box<Self>) {
        Box::new(Input::new())
    }

    /// The module's debug text, `INPUT`.
    pub fn dbg_log(&self) -> (s: String)
        ensures
            s@ == "INPUT"@,
    {
        String::from_str("INPUT")
    }
}

} // verus!
