//! The filter coefficient never exceeds unity, and the lowpass signals stay
//! within the span of the samples.

use vstd::prelude::*;
use crate::fixed::{lemma_move_towards, wrap_i32};
use crate::smoother::{SmootherState, UNITY};

verus! {

/// The filter coefficient is at most unity in every state.
pub proof fn lemma_coefficient_at_most_unity(state: SmootherState)
    ensures
        state.coefficient() <= UNITY,
{
}

/// Once the rectified difference reaches `(1 - g0) / sense`, the coefficient
/// is exactly unity. The difference has 8 fractional bits, `g0` and `sense`
/// have 16, and the condition is written without the division.
pub proof fn lemma_coefficient_clamped(state: SmootherState)
    requires
        state.band() * state.sense >= (UNITY - state.g0) * 0x100,
    ensures
        state.coefficient() == UNITY,
{
    let band = state.band();
    assert(state.sense * band / 0x100 >= UNITY - state.g0) by (nonlinear_arith)
        requires
            band * state.sense >= (UNITY - state.g0) * 0x100,
    ;
}

/// Once the rectified difference reaches `(1 - g0) / sense`, a sample that
/// fits in 32 bits with its 8 fractional bits is passed on as it is: both
/// lowpass signals become the sample, and so does the output.
pub proof fn lemma_clamped_step_arrives(state: SmootherState, input: int)
    requires
        state.band() * state.sense >= (UNITY - state.g0) * 0x100,
        i32::MIN <= input * 0x100 <= i32::MAX,
    ensures
        state.step(input).low1 == input * 0x100,
        state.step(input).low2 == input * 0x100,
        state.step(input).output() == input,
{
    lemma_coefficient_clamped(state);
    lemma_move_towards(UNITY as int, input * 0x100 - state.low1);
    lemma_move_towards(UNITY as int, input * 0x100 - state.low2);
}

/// With coefficients that are not negative, the coefficient lies between
/// zero and unity and is at least the smaller of the base coefficient and
/// unity.
pub proof fn lemma_coefficient_range(state: SmootherState)
    requires
        0 <= state.g0,
        0 <= state.sense,
    ensures
        0 <= state.coefficient() <= UNITY,
        state.g0 <= UNITY ==> state.g0 <= state.coefficient(),
        state.g0 >= UNITY ==> state.coefficient() == UNITY,
{
    let band = state.band();
    assert(0 <= state.sense * band / 0x100) by (nonlinear_arith)
        requires
            0 <= state.sense,
            0 <= band,
    ;
}

/// With headroom for the span from `lo` to `hi`, a sample from that span
/// takes a state within the span to the state that the recurrence gives over
/// the integers: nothing wraps around, and the state stays within the span.
pub proof fn lemma_step_exact(state: SmootherState, input: int, lo: int, hi: int)
    requires
        state.headroom(lo, hi),
        state.within(lo, hi),
        lo <= input <= hi,
    ensures
        0 <= state.coefficient() <= UNITY,
        state.step(input).low1 == state.low1 + state.coefficient() * (input * 0x100 - state.low1)
            / 0x1_0000,
        state.step(input).low2 == state.low2 + state.coefficient() * (state.step(input).low1
            - state.low2) / 0x1_0000,
        state.step(input).g0 == state.g0,
        state.step(input).sense == state.sense,
        state.step(input).within(lo, hi),
{
    lemma_coefficient_range(state);
    let g = state.coefficient();
    let e1 = input * 0x100 - state.low1;
    lemma_move_towards(g, e1);
    let low1 = state.low1 + g * e1 / 0x1_0000;
    assert(wrap_i32(low1) == low1);
    lemma_move_towards(g, low1 - state.low2);
}

/// With headroom for the span from `lo` to `hi`, a sample from that span
/// leaves both lowpass signals, and the output, within the span.
pub proof fn lemma_step_bounded(state: SmootherState, input: int, lo: int, hi: int)
    requires
        state.headroom(lo, hi),
        state.within(lo, hi),
        lo <= input <= hi,
    ensures
        state.step(input).headroom(lo, hi),
        state.step(input).within(lo, hi),
        lo <= state.step(input).output() <= hi,
{
    lemma_step_exact(state, input, lo, hi);
}

/// With headroom for the span from `lo` to `hi`, any number of samples from
/// that span leaves both lowpass signals, and the output, within the span.
pub proof fn lemma_run_bounded(state: SmootherState, inputs: Seq<int>, lo: int, hi: int)
    requires
        state.headroom(lo, hi),
        state.within(lo, hi),
        forall|i: int| 0 <= i < inputs.len() ==> lo <= #[trigger] inputs[i] <= hi,
    ensures
        state.run(inputs).headroom(lo, hi),
        state.run(inputs).within(lo, hi),
        lo <= state.run(inputs).output() <= hi,
    decreases inputs.len(),
{
    if inputs.len() > 0 {
        lemma_step_bounded(state, inputs[0], lo, hi);
        lemma_run_bounded(state.step(inputs[0]), inputs.skip(1), lo, hi);
    }
}

/// With headroom for the span from `lo` to `hi`, both lowpass signals, and
/// the output, are within the span after each one of any number of samples
/// from that span.
pub proof fn lemma_run_bounded_throughout(
    state: SmootherState,
    inputs: Seq<int>,
    lo: int,
    hi: int,
)
    requires
        state.headroom(lo, hi),
        state.within(lo, hi),
        forall|i: int| 0 <= i < inputs.len() ==> lo <= #[trigger] inputs[i] <= hi,
    ensures
        forall|n: int|
            0 <= n <= inputs.len() ==> (#[trigger] state.run(inputs.take(n))).within(lo, hi) && lo
                <= state.run(inputs.take(n)).output() <= hi,
{
    assert forall|n: int| 0 <= n <= inputs.len() implies (#[trigger] state.run(
        inputs.take(n),
    )).within(lo, hi) && lo <= state.run(inputs.take(n)).output() <= hi by {
        lemma_run_bounded(state, inputs.take(n), lo, hi);
    }
}

} // verus!
