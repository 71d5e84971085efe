use knob::button::Error;
use knob::encoder::{Encoder, EncoderAction, EncoderError, TimeEncoder, TimeEncoderAction};
use knob::rotary::{RotaryError, Rotation};
use knob::time::Instant;

#[test]
fn press_rotate_release_suppresses_click() {
    let mut e = Encoder::new(1);
    // Press while resting.
    assert_eq!(e.update(false, false, true), EncoderAction::Press);
    // Rotate while still pressed: the rotation consumes the gesture.
    assert_eq!(e.update(false, true, true), EncoderAction::RotatePressed(Rotation(1)));
    assert!(e.rotated_on_hold);
    // Release: no independent click.
    assert_eq!(e.update(false, true, false), EncoderAction::Idle);
    assert!(!e.rotated_on_hold);
}

#[test]
fn plain_press_release_still_clicks() {
    let mut e = Encoder::new(1);
    assert_eq!(e.update(false, false, true), EncoderAction::Press);
    assert_eq!(e.update(false, false, false), EncoderAction::Click);
}

#[test]
fn rotation_on_idle_button_reports_rotate_even_with_flag_set() {
    let mut e = Encoder::new(1);
    e.rotated_on_hold = true;
    assert_eq!(e.update(false, true, false), EncoderAction::Rotate(Rotation(1)));
    assert!(!e.rotated_on_hold);

    let mut t = TimeEncoder::new(1);
    t.rotated_on_hold = true;
    assert_eq!(
        t.update(false, true, false, Instant::from_millis(0)),
        TimeEncoderAction::Rotate(Rotation(1))
    );
    assert!(!t.rotated_on_hold);
}

#[test]
fn rotation_alone_reports_rotate() {
    let mut e = Encoder::new(1);
    assert_eq!(e.update(false, true, false), EncoderAction::Rotate(Rotation(1)));
    assert_eq!(e.update(true, true, false), EncoderAction::Rotate(Rotation(1)));
}

#[test]
fn held_with_no_rotation_stays_held_without_drift() {
    let mut e = Encoder::new(4);
    assert_eq!(e.update(false, false, true), EncoderAction::Press);
    assert_eq!(e.update(false, false, true), EncoderAction::Held);
    let state_before = (e.rotary.state, e.rotary.switches, e.button.state, e.rotated_on_hold);
    for _ in 0..5 {
        assert_eq!(e.update(false, false, true), EncoderAction::Held);
        let state_after = (e.rotary.state, e.rotary.switches, e.button.state, e.rotated_on_hold);
        assert_eq!(state_after, state_before);
    }
}

#[test]
fn encoder_handle_press_clears_flag_and_forwards() {
    let mut e = Encoder::new(1);
    assert_eq!(e.update(false, false, true), EncoderAction::Press);
    assert_eq!(e.update(false, true, true), EncoderAction::RotatePressed(Rotation(1)));
    e.handle_press();
    assert!(!e.rotated_on_hold);
    // The button acknowledgment suppresses the held report too.
    assert_eq!(e.update(false, true, true), EncoderAction::Idle);
}

#[test]
fn encoder_error_wraps_pin_errors() {
    let a: EncoderError<u8, u16, u32> = EncoderError::from(RotaryError::APin(7u8));
    assert!(matches!(a, EncoderError::APin(7)));
    let b: EncoderError<u8, u16, u32> = EncoderError::from(RotaryError::BPin(9u16));
    assert!(matches!(b, EncoderError::BPin(9)));
    let k: EncoderError<u8, u16, u32> = EncoderError::from(Error::KPin(5u32));
    assert!(matches!(k, EncoderError::KPin(5)));
}

#[test]
fn time_encoder_press_rotate_release() {
    let mut e = TimeEncoder::new(1);
    assert_eq!(e.update(false, false, true, Instant::from_millis(1000)), TimeEncoderAction::Press);
    assert_eq!(
        e.update(false, true, true, Instant::from_millis(1500)),
        TimeEncoderAction::RotatePressed(Rotation(1))
    );
    assert_eq!(
        e.update(false, true, false, Instant::from_millis(2000)),
        TimeEncoderAction::Idle
    );
}

#[test]
fn time_encoder_held_and_click_durations() {
    let mut e = TimeEncoder::new(4);
    assert_eq!(e.update(false, false, true, Instant::from_millis(1000)), TimeEncoderAction::Press);
    assert_eq!(
        e.update(false, false, true, Instant::from_millis(1250)),
        TimeEncoderAction::Held(250)
    );
    assert_eq!(
        e.update(false, false, false, Instant::from_millis(1600)),
        TimeEncoderAction::Click(600)
    );
}

#[test]
fn time_encoder_handle_press_suppresses_click() {
    let mut e = TimeEncoder::new(4);
    assert_eq!(e.update(false, false, true, Instant::from_millis(10)), TimeEncoderAction::Press);
    e.handle_press();
    assert_eq!(
        e.update(false, false, false, Instant::from_millis(20)),
        TimeEncoderAction::Idle
    );
}
