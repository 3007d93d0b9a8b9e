use vstd::prelude::*;

use crate::dspmodules::dspmodule::Signal;

verus! {

/// One step of a single-sample delay: the signal held from the previous step
/// is handed out, and `input` is held in its place until the next step.
pub fn delay_step<T>(held: &mut Signal<T>, input: Signal<T>) -> (out: Signal<T>)
    ensures
        out == *old(held),
        *final(held) == input,
{
    let mut input = input;
    std::mem::swap(held, &mut input);
    input
}

/// A run of `delay_step` calls: `held[0]` is held before the first call, and
/// call `k` (counted from zero) takes `inputs[k]`, hands out `outputs[k]` and
/// leaves `held[k + 1]` held, each call as `delay_step` states it.
pub open spec fn is_delay_run<T>(
    held: Seq<Signal<T>>,
    inputs: Seq<Signal<T>>,
    outputs: Seq<Signal<T>>,
) -> bool {
    &&& held.len() == inputs.len() + 1
    &&& outputs.len() == inputs.len()
    &&& forall|k: int|
        0 <= k < inputs.len() ==> #[trigger] outputs[k] == held[k] && held[k + 1] == inputs[k]
}

/// A sample delay outputs its input exactly one call later: over any run of
/// delay steps, the first output is the signal held at the start, every later
/// output is the input of the call before it, and the last input stays held.
pub proof fn lemma_delay_run_shifts_by_one<T>(
    held: Seq<Signal<T>>,
    inputs: Seq<Signal<T>>,
    outputs: Seq<Signal<T>>,
)
    requires
        is_delay_run(held, inputs, outputs),
    ensures
        inputs.len() > 0 ==> outputs[0] == held[0],
        forall|k: int| 1 <= k < outputs.len() ==> #[trigger] outputs[k] == inputs[k - 1],
        inputs.len() > 0 ==> held.last() == inputs.last(),
{
    assert forall|k: int| 1 <= k < outputs.len() implies #[trigger] outputs[k] == inputs[k - 1] by {
        assert(outputs[k - 1] == held[k - 1]);
        assert(outputs[k] == held[k]);
    }
    if inputs.len() > 0 {
        assert(outputs[inputs.len() - 1] == held[inputs.len() - 1]);
    }
}

/// The debug text of a sample delay whose input has the debug text `inner`:
/// `SAMPLEDELAY [inner]`.
pub fn sample_delay_dbg_log(inner: &str) -> (s: String)
    ensures
        s@ == "SAMPLEDELAY ["@ + inner@ + "]"@,
{
    let mut s = String::from_str("SAMPLEDELAY [");
    s.append(inner);
    s.append("]");
    s
}

} // verus!
