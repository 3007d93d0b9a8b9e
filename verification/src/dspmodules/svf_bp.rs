use vstd::prelude::*;

verus! {

/// The debug text of a state-variable band-pass filter whose input has the
/// debug text `inner`: `SVF_bp [inner]`.
pub fn svf_bp_dbg_log(inner: &str) -> (s: String)
    ensures
        s@ == "SVF_bp ["@ + inner@ + "]"@,
{
    let mut s = String::from_str("SVF_bp [");
    s.append(inner);
    s.append("]");
    s
}

} // verus!
