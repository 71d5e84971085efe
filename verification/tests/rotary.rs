use knob::rotary::{Direction, Rotary, Rotation, TimeRotary};
use knob::time::Instant;

// One clean forward quadrature cycle as (a_low, b_low) sample pairs, starting
// from the resting position (both phases high).
const FORWARD: [(bool, bool); 4] = [(false, true), (true, true), (true, false), (false, false)];

#[test]
fn forward_full_cycle_emits_single_step() {
    let mut r = Rotary::new(4);
    let mut angles = Vec::new();
    for (a, b) in FORWARD {
        angles.push(r.update(a, b).angle());
    }
    assert_eq!(angles, vec![0, 0, 0, 1]);
    assert_eq!(r.switches, 0);
}

#[test]
fn forward_half_cycle_emits_nothing() {
    let mut r = Rotary::new(4);
    assert_eq!(r.update(false, true).angle(), 0);
    assert_eq!(r.update(true, true).angle(), 0);
    assert_eq!(r.switches, 2);
}

#[test]
fn round_trip_cancels() {
    let mut r = Rotary::new(4);
    // Two forward sub-steps, then the same two retraced backwards.
    assert_eq!(r.update(false, true).angle(), 0);
    assert_eq!(r.update(true, true).angle(), 0);
    assert_eq!(r.update(false, true).angle(), 0);
    assert_eq!(r.update(false, false).angle(), 0);
    assert_eq!(r.switches, 0);
}

#[test]
fn full_round_trip_cancels() {
    let mut r = Rotary::new(4);
    let mut net = 0;
    for (a, b) in FORWARD {
        net += r.update(a, b).angle();
    }
    assert_eq!(net, 1);
    let backward = [(true, false), (true, true), (false, true), (false, false)];
    for (a, b) in backward {
        net += r.update(a, b).angle();
    }
    assert_eq!(net, 0);
    assert_eq!(r.switches, 0);
}

#[test]
fn divider_one_steps_every_transition() {
    let mut r = Rotary::new(1);
    assert_eq!(r.update(false, true).angle(), 1);
    assert_eq!(r.update(true, true).angle(), 1);
}

#[test]
fn home_position_settles_residual() {
    let mut r = Rotary::new(4);
    assert_eq!(r.update(false, true).angle(), 0);
    assert_eq!(r.update(true, true).angle(), 0);
    // Jumping straight back to rest reaches a home window: the residual
    // accumulator settles into one sign-only step.
    assert_eq!(r.update(false, false).angle(), 1);
    assert_eq!(r.switches, 0);
}

#[test]
fn rotation_direction_and_accessors() {
    assert_eq!(Rotation::new(0).direction(), Direction::Still);
    assert_eq!(Rotation::new(3).direction(), Direction::Cw);
    assert_eq!(Rotation::new(-2).direction(), Direction::Ccw);
    assert_eq!(Rotation::new(7).angle(), 7);
    assert!(Rotation::new(0).is_zero());
    assert!(!Rotation::new(-1).is_zero());
}

#[test]
fn direction_to_rotation_units() {
    assert_eq!(Direction::Still.to_rotation().angle(), 0);
    assert_eq!(Direction::Cw.to_rotation().angle(), 1);
    assert_eq!(Direction::Ccw.to_rotation().angle(), -1);
}

#[test]
fn direction_round_trips_through_its_unit_rotation() {
    for d in [Direction::Still, Direction::Cw, Direction::Ccw] {
        assert_eq!(d.to_rotation().direction(), d);
    }
}

#[test]
fn acceleration_full_at_zero_gap() {
    let mut r = TimeRotary::with_acceleration(1, 5);
    // The very first nonzero step has no prior reference: unscaled.
    assert_eq!(r.update(false, true, Instant::from_millis(1000)).angle(), 1);
    // A second step with no time elapsed gets the full factor.
    assert_eq!(r.update(true, true, Instant::from_millis(1000)).angle(), 5);
}

#[test]
fn acceleration_unscaled_at_slow_gap() {
    let mut r = TimeRotary::with_acceleration(1, 5);
    assert_eq!(r.update(false, true, Instant::from_millis(1000)).angle(), 1);
    assert_eq!(r.update(true, true, Instant::from_millis(1100)).angle(), 1);
}

#[test]
fn acceleration_interpolates_between_thresholds() {
    let mut r = TimeRotary::with_thresholds(1, 10, 20, 100);
    assert_eq!(r.update(false, true, Instant::from_millis(0)).angle(), 1);
    // dt = 60 ms: multiplier = 10 - 10 * (60 - 20) / (100 - 20) = 5.
    assert_eq!(r.update(true, true, Instant::from_millis(60)).angle(), 5);
}

#[test]
fn zero_step_keeps_last_instant() {
    let mut r = TimeRotary::new(4);
    assert!(r.last_rot_at.is_none());
    assert_eq!(r.update(false, true, Instant::from_millis(10)).angle(), 0);
    assert!(r.last_rot_at.is_none());
    let mut q = TimeRotary::new(1);
    assert_eq!(q.update(false, true, Instant::from_millis(10)).angle(), 1);
    assert_eq!(q.last_rot_at, Some(Instant::from_millis(10)));
}

#[test]
fn set_acceleration_changes_factor() {
    let mut r = TimeRotary::new(1);
    assert_eq!(r.acceleration, 1);
    r.set_acceleration(3);
    assert_eq!(r.update(false, true, Instant::from_millis(0)).angle(), 1);
    assert_eq!(r.update(true, true, Instant::from_millis(0)).angle(), 3);
}
