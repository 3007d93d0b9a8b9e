use vstd::prelude::*;

verus! {

/// A drawing instruction handed to the user interface.
pub enum UICommand {
    Label(String),
}

} // verus!
