use vstd::prelude::*;

use crate::text::{decimal, decimal_string};

verus! {

/// The debug text of a module that runs `num_chains` parallel copies of a
/// module whose debug text is `inner`: `PARALLEl [n chains, inner]`.
pub fn multi_parallel_dbg_log(num_chains: usize, inner: &str) -> (s: String)
    ensures
        s@ == "PARALLEl ["@ + decimal(num_chains as nat) + " chains, "@ + inner@ + "]"@,
{
    let mut s = String::from_str("PARALLEl [");
    let n = decimal_string(num_chains);
    s.append(n.as_str());
    s.append(" chains, ");
    s.append(inner);
    s.append("]");
    s
}

} // verus!
