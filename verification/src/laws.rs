//! Laws of the steering step, stated and proved once and for all inputs.

use vstd::prelude::*;

verus! {

use crate::model::MAX_ANGLE_URAD;
use crate::model::lemma_turn_delta_props;
use crate::model::steered_heading;

/// Clamping invariant: whatever heading a turn starts from, for every
/// non-negative elapsed time — however large — and either actual turn
/// direction, the steered heading lies in
/// `[-MAX_ANGLE_URAD, MAX_ANGLE_URAD]`.
pub proof fn lemma_heading_stays_in_range(heading: int, sign: int, elapsed_ms: int)
    requires
        sign == -1 || sign == 1,
        0 <= elapsed_ms,
    ensures
        -(MAX_ANGLE_URAD as int) <= steered_heading(heading, sign, elapsed_ms)
            <= MAX_ANGLE_URAD as int,
{
}

/// No-op law: a steering step under neutral input returns the heading
/// exactly as it was, whatever the elapsed time and the prior heading.
pub proof fn lemma_neutral_input_is_noop(heading: int, elapsed_ms: int)
    ensures
        steered_heading(heading, 0, elapsed_ms) == heading,
{
}

/// Monotonicity, one step: a left turn never decreases a legal heading and
/// never exceeds the limit; the limit is absorbing; and a step of at least a
/// whole millisecond either reaches the limit or gains at least a
/// millisecond's worth of turn.
pub proof fn lemma_left_turn_monotone(heading: int, elapsed_ms: int)
    requires
        -(MAX_ANGLE_URAD as int) <= heading <= MAX_ANGLE_URAD as int,
        0 <= elapsed_ms,
    ensures
        heading <= steered_heading(heading, 1, elapsed_ms) <= MAX_ANGLE_URAD as int,
        heading == MAX_ANGLE_URAD as int ==> steered_heading(heading, 1, elapsed_ms)
            == MAX_ANGLE_URAD as int,
        1 <= elapsed_ms ==> (steered_heading(heading, 1, elapsed_ms) == MAX_ANGLE_URAD as int
            || steered_heading(heading, 1, elapsed_ms) >= heading + 1919),
{
    lemma_turn_delta_props(elapsed_ms);
}

/// The heading after `n` left turns of `elapsed_ms` milliseconds each.
pub open spec fn heading_after_left_turns(heading: int, elapsed_ms: int, n: nat) -> int
    decreases n,
{
    if n == 0 {
        heading
    } else {
        steered_heading(heading_after_left_turns(heading, elapsed_ms, (n - 1) as nat), 1, elapsed_ms)
    }
}

/// Monotonicity, the whole run: repeated left turns with a fixed elapsed time
/// stay in the legal range, never decrease from one call to the next, and by
/// the `n`th call have gained at least a millisecond's worth of turn per call
/// unless the limit was reached first.
pub proof fn lemma_repeated_left_turns_monotone(heading: int, elapsed_ms: int, n: nat)
    requires
        -(MAX_ANGLE_URAD as int) <= heading <= MAX_ANGLE_URAD as int,
        0 <= elapsed_ms,
    ensures
        -(MAX_ANGLE_URAD as int) <= heading_after_left_turns(heading, elapsed_ms, n)
            <= MAX_ANGLE_URAD as int,
        heading_after_left_turns(heading, elapsed_ms, n)
            <= heading_after_left_turns(heading, elapsed_ms, (n + 1) as nat),
        1 <= elapsed_ms ==> (heading_after_left_turns(heading, elapsed_ms, n)
            == MAX_ANGLE_URAD as int
            || heading_after_left_turns(heading, elapsed_ms, n) >= heading + 1919 * n),
    decreases n,
{
    if n == 0 {
        lemma_left_turn_monotone(heading, elapsed_ms);
    } else {
        lemma_repeated_left_turns_monotone(heading, elapsed_ms, (n - 1) as nat);
        let before = heading_after_left_turns(heading, elapsed_ms, (n - 1) as nat);
        lemma_left_turn_monotone(before, elapsed_ms);
        let here = heading_after_left_turns(heading, elapsed_ms, n);
        lemma_left_turn_monotone(here, elapsed_ms);
    }
}

/// Saturation: with any fixed elapsed time of at least a millisecond, enough
/// repeated left turns pin the heading exactly at the limit, from any legal
/// starting heading.
pub proof fn lemma_left_turns_saturate(heading: int, elapsed_ms: int, n: nat)
    requires
        -(MAX_ANGLE_URAD as int) <= heading <= MAX_ANGLE_URAD as int,
        1 <= elapsed_ms,
        1365 <= n,
    ensures
        heading_after_left_turns(heading, elapsed_ms, n) == MAX_ANGLE_URAD as int,
{
    lemma_repeated_left_turns_monotone(heading, elapsed_ms, n);
    assert(1919 * n >= 1919 * 1365);
}

/// Antisymmetric response: from a straight heading, turning left for some
/// duration lands exactly opposite to turning right for the same duration,
/// saturation included.
pub proof fn lemma_symmetric_response(elapsed_ms: int)
    requires
        0 <= elapsed_ms,
    ensures
        steered_heading(0, 1, elapsed_ms) == -steered_heading(0, -1, elapsed_ms),
{
    lemma_turn_delta_props(elapsed_ms);
}

} // verus!
