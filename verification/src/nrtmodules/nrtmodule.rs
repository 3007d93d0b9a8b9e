use vstd::prelude::*;

use crate::text::{decimal, decimal_string};

verus! {

/// The text of a connector that is bound to the parameter in slot `slot`:
/// `param: ` and the slot index in decimal.
pub fn parameter_connector_text(slot: usize) -> (s: String)
    ensures
        s@ == "param: "@ + decimal(slot as nat),
{
    let mut s = String::from_str("param: ");
    let n = decimal_string(slot);
    s.append(n.as_str());
    s
}

} // verus!
