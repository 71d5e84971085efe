use knob::time::{Instant, ZeroClock, ZeroInstant};

#[test]
fn duration_since_counts_millis() {
    let a = Instant::from_millis(1000);
    let b = Instant::from_millis(1500);
    assert_eq!(b.duration_since(a), 500);
}

#[test]
fn duration_since_clamps_negative_to_zero() {
    let a = Instant::from_millis(1000);
    let b = Instant::from_millis(400);
    assert_eq!(b.duration_since(a), 0);
    assert_eq!(a.duration_since(a), 0);
}

#[test]
fn duration_since_saturates_on_huge_gaps() {
    let a = Instant::zero();
    let b = Instant::from_millis(u64::MAX);
    assert_eq!(b.duration_since(a), u32::MAX);
}

#[test]
fn zero_instant_elapses_nothing() {
    let z = ZeroInstant::zero();
    assert_eq!(z.duration_since(ZeroInstant), 0);
}

#[test]
fn zero_clock_reports_the_origin() {
    let mut c = ZeroClock;
    assert_eq!(c.now().millis, 0);
    assert_eq!(c.now(), Instant::zero());
}
