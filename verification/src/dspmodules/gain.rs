use vstd::prelude::*;

verus! {

/// The debug text of a gain module whose two inputs have the debug texts
/// `input_a` and `input_b`: `GAIN [a, b]`.
pub fn gain_dbg_log(input_a: &str, input_b: &str) -> (s: String)
    ensures
        s@ == "GAIN ["@ + input_a@ + ", "@ + input_b@ + "]"@,
{
    let mut s = String::from_str("GAIN [");
    s.append(input_a);
    s.append(", ");
    s.append(input_b);
    s.append("]");
    s
}

} // verus!
