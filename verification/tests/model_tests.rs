use steering::model::Key;
use steering::model::Screen;
use steering::model::TurnInput;
use steering::model::MAX_ANGLE_URAD;
use steering::model::TURN_RATE_URAD_PER_S;

/// The fixed-point constants are the advertised angles to within a
/// microradian: 75 degrees and 110 degrees per second, in radians.
#[test]
fn constants_match_their_angles() {
    let max_angle_rad = 75.0 / 180.0 * std::f64::consts::PI;
    let turn_rate_rad = 110.0 / 180.0 * std::f64::consts::PI;
    assert!((MAX_ANGLE_URAD as f64 - max_angle_rad * 1e6).abs() < 1.0);
    assert!((TURN_RATE_URAD_PER_S as f64 - turn_rate_rad * 1e6).abs() < 1.0);
}

#[test]
fn new_model_defaults() {
    let s = Screen::new();
    assert_eq!(s.current_heading(), 0);
    assert_eq!(s.input.to_turn, TurnInput::Neutral);
    assert_eq!(s.period_ms, 0);
    assert_eq!(s.previous_frame_time_ms, 0);
}

/// Clamping holds for every input, including an enormous elapsed time.
#[test]
fn huge_elapsed_time_is_clamped() {
    let mut s = Screen::new();
    s.set_turn_input(TurnInput::Left);
    s.advance(10_000_000_000);
    assert_eq!(s.current_heading(), MAX_ANGLE_URAD);

    let mut t = Screen::new();
    t.set_turn_input(TurnInput::Right);
    t.advance(u64::MAX);
    assert_eq!(t.current_heading(), -MAX_ANGLE_URAD);
}

/// Advancing under neutral input changes nothing, whatever the elapsed time
/// and the prior heading.
#[test]
fn neutral_advance_is_noop() {
    let mut s = Screen::new();
    s.set_turn_input(TurnInput::Left);
    s.advance(200);
    let before = s.current_heading();
    assert!(before > 0);
    s.set_turn_input(TurnInput::Neutral);
    s.advance(123_456);
    assert_eq!(s.current_heading(), before);
}

/// Repeated left turns with a fixed positive elapsed time give a
/// non-decreasing run of headings that saturates at the limit.
#[test]
fn repeated_left_turns_are_monotone() {
    let mut s = Screen::new();
    s.set_turn_input(TurnInput::Left);
    let mut previous = s.current_heading();
    for _ in 0..20 {
        s.advance(100);
        let h = s.current_heading();
        assert!(h >= previous);
        assert!(h <= MAX_ANGLE_URAD);
        previous = h;
    }
    assert_eq!(previous, MAX_ANGLE_URAD);
}

/// Turning right mirrors turning left exactly, from a straight heading.
#[test]
fn left_and_right_turns_mirror() {
    for elapsed in [0u64, 1, 37, 300, 500, 1000, 5000] {
        let mut l = Screen::new();
        l.set_turn_input(TurnInput::Left);
        l.advance(elapsed);

        let mut r = Screen::new();
        r.set_turn_input(TurnInput::Right);
        r.advance(elapsed);

        assert_eq!(l.current_heading(), -r.current_heading());
    }
}

/// Half a second of turning left from straight ahead lands near 0.9600 rad.
#[test]
fn half_second_left_turn() {
    let mut s = Screen::new();
    s.set_turn_input(TurnInput::Left);
    s.advance(500);
    assert_eq!(s.current_heading(), 959_931);
    let rad = s.current_heading() as f64 * 1e-6;
    assert!((rad - 0.9600).abs() < 1e-4);
}

/// Two whole seconds of turning left saturate at the limit, near 1.3090 rad.
#[test]
fn two_seconds_saturate() {
    let mut s = Screen::new();
    s.set_turn_input(TurnInput::Left);
    s.advance(1000);
    s.advance(1000);
    assert_eq!(s.current_heading(), MAX_ANGLE_URAD);
    let rad = s.current_heading() as f64 * 1e-6;
    assert!((rad - 1.3090).abs() < 1e-4);
}

/// Zeroing the turn input before advancing leaves the heading exactly where
/// it stood when the input was zeroed.
#[test]
fn zeroed_input_keeps_heading() {
    let mut s = Screen::new();
    s.set_turn_input(TurnInput::Left);
    s.set_turn_input(TurnInput::Neutral);
    s.advance(5000);
    assert_eq!(s.current_heading(), 0);
}

/// A steering step uses the period stored in the model.
#[test]
fn steer_uses_stored_period() {
    let mut s = Screen::new();
    s.period_ms = 500;
    s.steer(TurnInput::Left);
    assert_eq!(s.current_heading(), 959_931);
    s.steer(TurnInput::Neutral);
    assert_eq!(s.current_heading(), 959_931);
}

/// A tick advances by the time elapsed since the previous tick.
#[test]
fn update_advances_by_clock_difference() {
    let mut s = Screen::new();
    s.update(1000);
    assert_eq!(s.current_heading(), 0);
    assert_eq!(s.previous_frame_time_ms, 1000);

    s.set_turn_input(TurnInput::Left);
    s.update(1500);
    assert_eq!(s.current_heading(), 959_931);
    assert_eq!(s.previous_frame_time_ms, 1500);

    s.update(1500);
    assert_eq!(s.current_heading(), 959_931);
}

#[test]
fn turn_keys_set_and_release_input() {
    let mut s = Screen::new();
    s.key_down(Key::TurnLeft);
    assert_eq!(s.input.to_turn, TurnInput::Left);
    s.key_up(Key::TurnLeft);
    assert_eq!(s.input.to_turn, TurnInput::Neutral);

    s.key_down(Key::TurnRight);
    assert_eq!(s.input.to_turn, TurnInput::Right);

    // Releasing either turn key zeroes the input, whichever was released.
    s.key_up(Key::TurnLeft);
    assert_eq!(s.input.to_turn, TurnInput::Neutral);
}

#[test]
fn other_keys_are_ignored() {
    let mut s = Screen::new();
    s.key_down(Key::Other);
    assert_eq!(s.input.to_turn, TurnInput::Neutral);

    s.key_down(Key::TurnLeft);
    s.key_up(Key::Other);
    assert_eq!(s.input.to_turn, TurnInput::Left);
}
