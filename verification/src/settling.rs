//! What a smoother does after `clear`, and where it comes to rest while the
//! input holds one value.

use vstd::prelude::*;
use crate::fixed::{lemma_move_towards, magnitude};
use crate::smoother::{SmootherState, UNITY};
use crate::stability::{lemma_coefficient_range, lemma_step_exact};

verus! {

/// Samples change the two lowpass signals only: the coefficients stay.
pub proof fn lemma_run_keeps_coefficients(state: SmootherState, inputs: Seq<int>)
    ensures
        state.run(inputs).g0 == state.g0,
        state.run(inputs).sense == state.sense,
    decreases inputs.len(),
{
    if inputs.len() > 0 {
        lemma_run_keeps_coefficients(state.step(inputs[0]), inputs.skip(1));
    }
}

/// A smoother that has seen any samples and is then cleared answers the next
/// sample as it answered when it was new.
pub proof fn lemma_clear_restores_fresh(fresh: SmootherState, inputs: Seq<int>, input: int)
    requires
        fresh.low1 == 0,
        fresh.low2 == 0,
    ensures
        fresh.run(inputs).cleared() == fresh,
        fresh.run(inputs).cleared().step(input) == fresh.step(input),
        fresh.run(inputs).cleared().step(input).output() == fresh.step(input).output(),
{
    lemma_run_keeps_coefficients(fresh, inputs);
}

/// How far a state is from rest at the sample `input`: twice the distance of
/// the first lowpass signal from the input, plus the distance between the two
/// lowpass signals.
pub open spec fn unrest(state: SmootherState, input: int) -> int {
    2 * magnitude(input * 0x100 - state.low1) + magnitude(state.low1 - state.low2)
}

/// A state is at rest at the sample `input` when neither lowpass signal is
/// above its target, and what is missing, times the coefficient, is below one
/// unit of the lowpass signals.
pub open spec fn at_rest(state: SmootherState, input: int) -> bool {
    &&& 0 <= state.coefficient() * (input * 0x100 - state.low1) < 0x1_0000
    &&& 0 <= state.coefficient() * (state.low1 - state.low2) < 0x1_0000
}

/// What being at rest comes to where the base coefficient is above zero:
/// neither lowpass signal is above its target, each is short of it by less
/// than `2^16 / g`, where `g` is the smaller of the base coefficient and
/// unity, and the output is not above the input. With the base coefficient at
/// unity or above, both lowpass signals are the input, and so is the output.
pub open spec fn settled(state: SmootherState, input: int) -> bool {
    let g = if state.g0 < UNITY {
        state.g0
    } else {
        UNITY as int
    };
    &&& 0 <= g * (input * 0x100 - state.low1) < 0x1_0000
    &&& 0 <= g * (state.low1 - state.low2) < 0x1_0000
    &&& 0 <= g * (input * 0x100 - state.low2) < 0x2_0000
    &&& state.low2 <= state.low1 <= input * 0x100
    &&& state.output() <= input
    &&& state.g0 >= UNITY ==> state.low1 == input * 0x100 && state.low2 == input * 0x100
        && state.output() == input
}

/// A smoother whose two lowpass signals are the input stays as it is and
/// puts the input out, whatever its coefficients are.
pub proof fn lemma_rest_at_input(state: SmootherState, input: int)
    requires
        i32::MIN <= input * 0x100 <= i32::MAX,
        state.low1 == input * 0x100,
        state.low2 == input * 0x100,
    ensures
        state.step(input) == state,
        state.step(input).output() == input,
{
    let g = state.coefficient();
    assert(g * 0 / 0x1_0000 == 0) by (nonlinear_arith);
}

/// With headroom for the span from `lo` to `hi`, a sample from that span
/// either leaves a state within the span as it is, and then the state is at
/// rest, or it brings the state closer to rest.
pub proof fn lemma_step_settles(state: SmootherState, input: int, lo: int, hi: int)
    requires
        state.headroom(lo, hi),
        state.within(lo, hi),
        lo <= input <= hi,
    ensures
        state.step(input) == state <==> at_rest(state, input),
        state.step(input) != state ==> unrest(state.step(input), input) < unrest(state, input),
{
    lemma_step_exact(state, input, lo, hi);
    let g = state.coefficient();
    let e1 = input * 0x100 - state.low1;
    let e2 = state.step(input).low1 - state.low2;
    lemma_move_towards(g, e1);
    lemma_move_towards(g, e2);
}

/// A state at rest stays as it is for as long as the input holds.
pub proof fn lemma_rest_holds(state: SmootherState, input: int, n: nat)
    requires
        state.step(input) == state,
    ensures
        state.hold(input, n) == state,
    decreases n,
{
    if n > 0 {
        lemma_rest_holds(state, input, (n - 1) as nat);
    }
}

/// With headroom for the span from `lo` to `hi` and a base coefficient above
/// zero, holding the input at one sample of that span brings a state within
/// the span to rest: after `unrest` samples at the latest the state no longer
/// changes and is settled just below the input.
pub proof fn lemma_hold_settles(state: SmootherState, input: int, lo: int, hi: int, n: nat)
    requires
        state.headroom(lo, hi),
        state.within(lo, hi),
        lo <= input <= hi,
        state.g0 >= 1,
        n >= unrest(state, input),
    ensures
        state.hold(input, n).step(input) == state.hold(input, n),
        at_rest(state.hold(input, n), input),
        state.hold(input, n).within(lo, hi),
        state.hold(input, n).g0 == state.g0,
        settled(state.hold(input, n), input),
    decreases n,
{
    lemma_step_settles(state, input, lo, hi);
    lemma_step_exact(state, input, lo, hi);
    if state.step(input) == state {
        lemma_rest_holds(state, input, n);
        lemma_rest_is_settled(state, input);
    } else {
        lemma_hold_settles(state.step(input), input, lo, hi, (n - 1) as nat);
    }
}

/// At rest, what each lowpass signal is short of its target is bounded by
/// the base coefficient too, which the coefficient is never below unless
/// unity is.
pub proof fn lemma_rest_is_settled(state: SmootherState, input: int)
    requires
        state.g0 >= 1,
        state.sense >= 0,
        at_rest(state, input),
    ensures
        settled(state, input),
{
    lemma_coefficient_range(state);
    let g = if state.g0 < UNITY {
        state.g0
    } else {
        UNITY as int
    };
    let short1 = input * 0x100 - state.low1;
    let short2 = state.low1 - state.low2;
    lemma_smaller_factor(g, state.coefficient(), short1);
    lemma_smaller_factor(g, state.coefficient(), short2);
    assert(g * (short1 + short2) == g * short1 + g * short2) by (nonlinear_arith);
}

/// If `c * e` is a non-negative value below `2^16` for a factor `c` of at
/// least `g`, and `g` is at least one, then `e` is not negative and `g * e` is
/// below `2^16` as well; with `g` at `2^16`, `e` is zero.
proof fn lemma_smaller_factor(g: int, c: int, e: int)
    by (nonlinear_arith)
    requires
        1 <= g <= c,
        0 <= c * e < 0x1_0000,
    ensures
        0 <= e,
        0 <= g * e < 0x1_0000,
        g >= 0x1_0000 ==> e == 0,
{
}

} // verus!
