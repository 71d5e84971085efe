use knob::button::{update_state, Button, ButtonAction, TimeButton, TimeButtonAction};
use knob::time::Instant;

#[test]
fn press_then_release_yields_press_then_click() {
    let mut b = Button::new();
    assert_eq!(b.update(true), ButtonAction::Press);
    assert_eq!(b.update(false), ButtonAction::Click);
}

#[test]
fn press_acknowledged_suppresses_click() {
    let mut b = Button::new();
    assert_eq!(b.update(true), ButtonAction::Press);
    b.handle_press();
    assert_eq!(b.update(false), ButtonAction::Idle);
    // The acknowledgment auto-clears: the next press-release works as usual.
    assert_eq!(b.update(true), ButtonAction::Press);
    assert_eq!(b.update(false), ButtonAction::Click);
}

#[test]
fn two_pressed_samples_yield_held() {
    let mut b = Button::new();
    assert_eq!(b.update(true), ButtonAction::Press);
    assert_eq!(b.update(true), ButtonAction::Held);
    assert_eq!(b.update(true), ButtonAction::Held);
}

#[test]
fn held_acknowledged_reports_idle_until_release() {
    let mut b = Button::new();
    assert_eq!(b.update(true), ButtonAction::Press);
    assert_eq!(b.update(true), ButtonAction::Held);
    b.handle_press();
    assert_eq!(b.update(true), ButtonAction::Idle);
    assert_eq!(b.update(false), ButtonAction::Idle);
    assert_eq!(b.update(true), ButtonAction::Press);
}

#[test]
fn handle_press_outside_press_does_nothing() {
    let mut b = Button::new();
    b.handle_press();
    assert_eq!(b.update(true), ButtonAction::Press);
    assert_eq!(b.update(false), ButtonAction::Click);
}

#[test]
fn update_state_shifts_two_bit_window() {
    let mut s = 0u8;
    assert_eq!(update_state(&mut s, true), 0b10);
    assert_eq!(update_state(&mut s, true), 0b11);
    assert_eq!(update_state(&mut s, false), 0b01);
    assert_eq!(update_state(&mut s, false), 0b00);
}

#[test]
fn time_button_attaches_press_relative_durations() {
    let mut b = TimeButton::new();
    assert_eq!(b.update(true, Instant::from_millis(1000)), TimeButtonAction::Press);
    assert_eq!(b.update(true, Instant::from_millis(1400)), TimeButtonAction::Held(400));
    assert_eq!(b.update(false, Instant::from_millis(1900)), TimeButtonAction::Click(900));
}

#[test]
fn time_button_idle_and_acknowledgment() {
    let mut b = TimeButton::new();
    assert_eq!(b.update(false, Instant::from_millis(5)), TimeButtonAction::Idle);
    assert_eq!(b.update(true, Instant::from_millis(10)), TimeButtonAction::Press);
    b.handle_press();
    assert_eq!(b.update(false, Instant::from_millis(20)), TimeButtonAction::Idle);
}
