//! The steering model: heading, turn input, and the per-tick update rule.

use vstd::prelude::*;

verus! {

use vstd::arithmetic::div_mod::lemma_div_is_ordered;
use vstd::arithmetic::div_mod::lemma_div_pos_is_pos;
use vstd::arithmetic::mul::lemma_mul_inequality;
use vstd::arithmetic::mul::lemma_mul_is_commutative;
use vstd::arithmetic::mul::lemma_mul_nonnegative;

/// How fast the box turns while a turn key is held, in microradians per
/// second: 110 degrees per second, rounded to the nearest microradian.
pub const TURN_RATE_URAD_PER_S: u64 = 1919862;

/// The largest steering angle in either direction, in microradians:
/// 75 degrees, rounded to the nearest microradian.
pub const MAX_ANGLE_URAD: i64 = 1308997;

/// The angle gained by turning for `elapsed_ms` milliseconds, before
/// clamping, in microradians.
pub open spec fn turn_delta_urad(elapsed_ms: int) -> int {
    (TURN_RATE_URAD_PER_S as int) * elapsed_ms / 1000
}

/// `angle` clamped to the closed interval `[-MAX_ANGLE_URAD, MAX_ANGLE_URAD]`.
pub open spec fn clamp_heading(angle: int) -> int {
    if angle > MAX_ANGLE_URAD as int {
        MAX_ANGLE_URAD as int
    } else if angle < -(MAX_ANGLE_URAD as int) {
        -(MAX_ANGLE_URAD as int)
    } else {
        angle
    }
}

/// The heading after one steering step: with no input the heading is left
/// exactly as it was (clamping included), otherwise the turn delta is applied
/// in the input's direction and the result clamped to the legal range.
pub open spec fn steered_heading(heading: int, sign: int, elapsed_ms: int) -> int {
    if sign == 0 {
        heading
    } else {
        clamp_heading(heading + sign * turn_delta_urad(elapsed_ms))
    }
}

/// The discrete turn input currently held: left, right, or neither.
/// A positive heading is a turn to the left.
#[derive(Clone, Copy, Debug, PartialEq, Eq, Structural)]
pub enum TurnInput {
    Left,
    Neutral,
    Right,
}

impl TurnInput {
    /// The sign this input applies to the turn delta.
    pub open spec fn sign(self) -> int {
        match self {
            TurnInput::Left => 1,
            TurnInput::Neutral => 0,
            TurnInput::Right => -1,
        }
    }
}

/// The input-source state: which turn input is currently held.
#[derive(Clone, Copy, Debug, PartialEq, Eq, Structural)]
pub struct InputState {
    pub to_turn: TurnInput,
}

impl Default for InputState {
    /// A fresh input state: nothing held.
    fn default() -> (s: Self)
        ensures
            s.to_turn == TurnInput::Neutral,
    {
        InputState { to_turn: TurnInput::Neutral }
    }
}

/// The steering model behind the on-screen box: the current heading, the
/// elapsed time of the tick being processed, the clock reading of the last
/// tick, and the input state.
#[derive(Clone, Copy, Debug, PartialEq, Eq, Structural)]
pub struct Screen {
    /// Current heading in microradians; always within
    /// `[-MAX_ANGLE_URAD, MAX_ANGLE_URAD]`.
    pub direction_urad: i64,
    /// Elapsed time, in milliseconds, that the next steering step covers.
    pub period_ms: u64,
    /// The absolute clock reading, in milliseconds, at the last tick.
    pub previous_frame_time_ms: u64,
    /// The turn input currently held.
    pub input: InputState,
}

impl Screen {
    /// The heading never leaves the legal steering range.
    pub open spec fn wf(self) -> bool {
        -(MAX_ANGLE_URAD as int) <= self.direction_urad <= MAX_ANGLE_URAD as int
    }

    /// A fresh model: heading straight ahead, no input held, clock at zero.
    pub fn new() -> (s: Screen)
        ensures
            s.wf(),
            s.direction_urad == 0,
            s.period_ms == 0,
            s.previous_frame_time_ms == 0,
            s.input.to_turn == TurnInput::Neutral,
    {
        Screen {
            direction_urad: 0,
            period_ms: 0,
            previous_frame_time_ms: 0,
            input: InputState::default(),
        }
    }

    /// The current heading in microradians.
    pub fn current_heading(&self) -> (h: i64)
        ensures
            h == self.direction_urad,
    {
        self.direction_urad
    }

    /// One steering step: turn in the direction of `side` for the stored
    /// period, then clamp the heading to the legal range. With `side`
    /// neutral this is a strict no-op on the heading.
    pub fn steer(&mut self, side: TurnInput)
        requires
            old(self).wf(),
        ensures
            final(self).wf(),
            final(self).direction_urad == steered_heading(
                old(self).direction_urad as int,
                side.sign(),
                old(self).period_ms as int,
            ),
            final(self).period_ms == old(self).period_ms,
            final(self).previous_frame_time_ms == old(self).previous_frame_time_ms,
            final(self).input == old(self).input,
    {
        if side == TurnInput::Neutral {
            return;
        }
        proof {
            lemma_turn_delta_props(self.period_ms as int);
        }
        // Beyond two seconds the turn delta alone exceeds the whole legal
        // range, so the period can be capped without changing the clamped
        // result; the capped product then fits comfortably in u64.
        let capped_ms: u64 = if self.period_ms >= 2000 {
            2000
        } else {
            self.period_ms
        };
        let delta: i64 = (TURN_RATE_URAD_PER_S * capped_ms / 1000) as i64;
        let moved: i64 = if side == TurnInput::Left {
            self.direction_urad + delta
        } else {
            self.direction_urad - delta
        };
        let clamped: i64 = if moved > MAX_ANGLE_URAD {
            MAX_ANGLE_URAD
        } else if moved < 0 - MAX_ANGLE_URAD {
            0 - MAX_ANGLE_URAD
        } else {
            moved
        };
        self.direction_urad = clamped;
    }

    /// Record the turn input now held. Nothing else changes; in particular
    /// the heading keeps its value until the next steering step.
    pub fn set_turn_input(&mut self, direction: TurnInput)
        ensures
            final(self).input.to_turn == direction,
            final(self).direction_urad == old(self).direction_urad,
            final(self).period_ms == old(self).period_ms,
            final(self).previous_frame_time_ms == old(self).previous_frame_time_ms,
    {
        self.input.to_turn = direction;
    }

    /// Advance the model by `elapsed_ms` milliseconds under the turn input
    /// currently held: store the period and take one steering step.
    pub fn advance(&mut self, elapsed_ms: u64)
        requires
            old(self).wf(),
        ensures
            final(self).wf(),
            final(self).direction_urad == steered_heading(
                old(self).direction_urad as int,
                old(self).input.to_turn.sign(),
                elapsed_ms as int,
            ),
            final(self).period_ms == elapsed_ms,
            final(self).previous_frame_time_ms == old(self).previous_frame_time_ms,
            final(self).input == old(self).input,
    {
        self.period_ms = elapsed_ms;
        let side: TurnInput = self.input.to_turn;
        self.steer(side);
    }

    /// One tick of the host loop, at absolute clock reading `now_ms`: the
    /// elapsed time is the difference from the previous tick's reading, and
    /// the model advances by it. The host clock must not run backwards.
    pub fn update(&mut self, now_ms: u64)
        requires
            old(self).wf(),
            old(self).previous_frame_time_ms <= now_ms,
        ensures
            final(self).wf(),
            final(self).direction_urad == steered_heading(
                old(self).direction_urad as int,
                old(self).input.to_turn.sign(),
                now_ms - old(self).previous_frame_time_ms,
            ),
            final(self).period_ms == now_ms - old(self).previous_frame_time_ms,
            final(self).previous_frame_time_ms == now_ms,
            final(self).input == old(self).input,
    {
        let elapsed_ms: u64 = now_ms - self.previous_frame_time_ms;
        self.previous_frame_time_ms = now_ms;
        self.advance(elapsed_ms);
    }

    /// A key went down: a turn key sets the matching turn input; any other
    /// key is ignored.
    pub fn key_down(&mut self, key: Key)
        ensures
            final(self).input.to_turn == input_after_key_down(key, old(self).input.to_turn),
            final(self).direction_urad == old(self).direction_urad,
            final(self).period_ms == old(self).period_ms,
            final(self).previous_frame_time_ms == old(self).previous_frame_time_ms,
    {
        match key {
            Key::TurnLeft => {
                self.input.to_turn = TurnInput::Left;
            },
            Key::TurnRight => {
                self.input.to_turn = TurnInput::Right;
            },
            Key::Other => {},
        }
    }

    /// A key came up: releasing either turn key drops the turn input to
    /// neutral, whichever of the two was released; any other key is ignored.
    pub fn key_up(&mut self, key: Key)
        ensures
            final(self).input.to_turn == input_after_key_up(key, old(self).input.to_turn),
            final(self).direction_urad == old(self).direction_urad,
            final(self).period_ms == old(self).period_ms,
            final(self).previous_frame_time_ms == old(self).previous_frame_time_ms,
    {
        match key {
            Key::TurnLeft | Key::TurnRight => {
                self.input.to_turn = TurnInput::Neutral;
            },
            Key::Other => {},
        }
    }
}

/// The logical keys the model reacts to. A host maps whatever physical keys
/// it likes onto the two turn controls and sends everything else as `Other`.
#[derive(Clone, Copy, Debug, PartialEq, Eq, Structural)]
pub enum Key {
    TurnLeft,
    TurnRight,
    Other,
}

/// The turn input held after `key` goes down while `cur` was held.
pub open spec fn input_after_key_down(key: Key, cur: TurnInput) -> TurnInput {
    match key {
        Key::TurnLeft => TurnInput::Left,
        Key::TurnRight => TurnInput::Right,
        Key::Other => cur,
    }
}

/// The turn input held after `key` comes up while `cur` was held.
pub open spec fn input_after_key_up(key: Key, cur: TurnInput) -> TurnInput {
    match key {
        Key::TurnLeft | Key::TurnRight => TurnInput::Neutral,
        Key::Other => cur,
    }
}

/// The turn delta is never negative, is at least a whole millisecond's turn
/// of 1919 microradians once the period reaches a millisecond, is capped by
/// the two-second delta on short periods, and reaches it on long ones. The
/// two-second delta itself exceeds twice the largest legal heading.
pub(crate) proof fn lemma_turn_delta_props(p: int)
    requires
        0 <= p,
    ensures
        0 <= turn_delta_urad(p),
        1 <= p ==> 1919 <= turn_delta_urad(p),
        p <= 2000 ==> (TURN_RATE_URAD_PER_S as int) * p <= 3839724000,
        p <= 2000 ==> turn_delta_urad(p) <= 3839724,
        2000 <= p ==> 3839724 <= turn_delta_urad(p),
{
    let rate: int = TURN_RATE_URAD_PER_S as int;
    let two_sec_product: int = 3839724000;
    lemma_mul_nonnegative(rate, p);
    lemma_div_pos_is_pos(rate * p, 1000);
    lemma_mul_is_commutative(rate, p);
    lemma_mul_is_commutative(rate, 2000);
    if 1 <= p {
        lemma_mul_inequality(1, p, rate);
        assert(rate <= rate * p);
        lemma_div_is_ordered(rate, rate * p, 1000);
        assert(rate / 1000 == 1919);
    }
    if p <= 2000 {
        lemma_mul_inequality(p, 2000, rate);
        assert(rate * p <= two_sec_product);
        lemma_div_is_ordered(rate * p, two_sec_product, 1000);
        assert(two_sec_product / 1000 == 3839724);
    }
    if 2000 <= p {
        lemma_mul_inequality(2000, p, rate);
        assert(two_sec_product <= rate * p);
        lemma_div_is_ordered(two_sec_product, rate * p, 1000);
    }
}

} // verus!
