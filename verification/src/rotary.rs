//! A quadrature rotary decoder.
//!
//! Two phase samples are combined into a four-bit window of the previous and
//! current quadrature state. Each window value either moves a bounded sub-step
//! accumulator, settles it at a home position, or is ignored as transient
//! noise. When the accumulator reaches the configured divider a unit step in
//! its sign is emitted and it resets. A time-aware layer scales unit steps by
//! a velocity-dependent acceleration multiplier.
//!
//! The transition table used here treats the two home windows — both phases
//! back at rest, and both resting after both were mid-transition — as
//! immediate settlers: any residual accumulator leaves as a sign-only unit
//! step and resets. The remaining ambiguous windows are ignored. On clean
//! signals this behaves like a plain counting table; the variants differ
//! only on noisy transition sequences.

use crate::time::{millis_between, Instant};
use vstd::prelude::*;

verus! {

/// The rotational sense of a step.
#[derive(Clone, Copy, PartialEq, Eq, Structural, Debug)]
pub enum Direction {
    Still,
    Cw,
    Ccw,
}

impl Direction {
    /// The unit rotation of this sense.
    pub fn to_rotation(self) -> (r: Rotation)
        ensures
            self == Direction::Still ==> r.0 == 0,
            self == Direction::Cw ==> r.0 == 1,
            self == Direction::Ccw ==> r.0 == -1,
    {
        match self {
            Direction::Still => Rotation(0),
            Direction::Cw => Rotation(1),
            Direction::Ccw => Rotation(-1),
        }
    }
}

/// A signed step count produced by one decoder tick: the sign is the sense,
/// the magnitude a (possibly acceleration-scaled) number of logical steps.
#[derive(Clone, Copy, PartialEq, Eq, Structural, Debug)]
pub struct Rotation(pub i32);

impl Rotation {
    pub fn new(angle: i32) -> (r: Rotation)
        ensures
            r.0 == angle,
    {
        Rotation(angle)
    }

    /// The sense of this step: the inverse of `Direction::to_rotation`, so
    /// that the direction of a sense's unit rotation is that sense again.
    pub fn direction(self) -> (d: Direction)
        ensures
            self.0 == 0 ==> d == Direction::Still,
            self.0 > 0 ==> d == Direction::Cw,
            self.0 < 0 ==> d == Direction::Ccw,
    {
        if self.0 == 0 {
            Direction::Still
        } else if self.0 > 0 {
            Direction::Cw
        } else {
            Direction::Ccw
        }
    }

    pub fn angle(self) -> (a: i32)
        ensures
            a == self.0,
    {
        self.0
    }

    pub fn is_zero(self) -> (z: bool)
        ensures
            z == (self.0 == 0),
    {
        self.0 == 0
    }
}

/// A failed read of one of the two phase pins, carrying the pin's own error.
pub enum RotaryError<A, B> {
    APin(A),
    BPin(B),
}

/// The sign of an integer: -1, 0 or 1.
pub open spec fn sign(x: int) -> int {
    if x > 0 {
        1int
    } else if x < 0 {
        -1int
    } else {
        0int
    }
}

/// The two phase levels packed into the high two bits of a window: phase A is
/// the topmost bit, phase B the one below it.
pub open spec fn pair_code(a_low: bool, b_low: bool) -> u8 {
    ((if a_low {
        8u8
    } else {
        0u8
    }) + (if b_low {
        4u8
    } else {
        0u8
    })) as u8
}

/// The four-bit window after one sample: the previous pair moves to the low
/// two bits and the new pair takes the high two.
pub open spec fn next_window(state: u8, a_low: bool, b_low: bool) -> u8 {
    (state / 4 + pair_code(a_low, b_low)) as u8
}

/// Window values that move the accumulator one sub-step in the negative
/// (toward counter-clockwise) direction.
pub open spec fn steps_down(w: u8) -> bool {
    w == 0b0001 || w == 0b0111 || w == 0b1110 || w == 0b1000 || w == 0b0110
}

/// Window values that move the accumulator one sub-step in the positive
/// (toward clockwise) direction.
pub open spec fn steps_up(w: u8) -> bool {
    w == 0b0010 || w == 0b1011 || w == 0b1101 || w == 0b0100 || w == 0b1001
}

/// Window values of a home position: any residual accumulator settles into a
/// sign-only unit step.
pub open spec fn is_home(w: u8) -> bool {
    w == 0b0000 || w == 0b0011
}

/// A moved accumulator either fires a unit step and resets, once its
/// magnitude reaches the divider, or is merely stored.
pub open spec fn settle(sw: int, divider: int) -> (int, int) {
    if sw >= divider || sw <= -divider {
        (0int, sign(sw))
    } else {
        (sw, 0int)
    }
}

/// One whole decoder tick on a pair of phase samples: the window shifts, and
/// its value moves, settles or keeps the sub-step accumulator.
pub open spec fn rotary_step(r: Rotary, a_low: bool, b_low: bool) -> (Rotary, Rotation) {
    let w = next_window(r.state, a_low, b_low);
    let sw_ang = if steps_down(w) {
        settle(r.switches - 1, r.divider as int)
    } else if steps_up(w) {
        settle(r.switches + 1, r.divider as int)
    } else if is_home(w) {
        (0int, sign(r.switches as int))
    } else {
        (r.switches as int, 0int)
    };
    (
        (Rotary { state: w, switches: sw_ang.0 as i8, divider: r.divider }),
        Rotation(sw_ang.1 as i32),
    )
}

/// A quadrature decoder accumulating sub-steps against a configurable
/// divider.
pub struct Rotary {
    /// The previous and current phase pair, packed into four bits.
    pub state: u8,
    /// Sub-steps accumulated since the last emitted step.
    pub switches: i8,
    /// How many sub-steps make one logical step.
    pub divider: i8,
}

impl Rotary {
    /// Between ticks the accumulator magnitude stays below the divider.
    pub open spec fn wf(self) -> bool {
        &&& self.state < 16
        &&& self.divider >= 1
        &&& -self.divider < self.switches < self.divider
    }

    pub fn new(divider: i8) -> (r: Rotary)
        requires
            divider >= 1,
        ensures
            r.state == 0,
            r.switches == 0,
            r.divider == divider,
            r.wf(),
    {
        Rotary { state: 0u8, switches: 0i8, divider }
    }

    /// Feed one pair of phase samples and return the emitted step, `0` while
    /// the accumulator has not yet reached the divider and `1` or `-1` when
    /// it has (or a home position settles a residual).
    pub fn update(&mut self, a_low: bool, b_low: bool) -> (r: Rotation)
        requires
            old(self).wf(),
        ensures
            (*final(self), r) == rotary_step(*old(self), a_low, b_low),
            final(self).wf(),
            -1 <= r.0 <= 1,
    {
        let x: u8 = self.state;
        let pair: u8 = match (a_low, b_low) {
            (false, false) => 0b0000,
            (false, true) => 0b0100,
            (true, false) => 0b1000,
            (true, true) => 0b1100,
        };
        let state = x >> 2 | pair;
        proof {
            assert(x >> 2 | pair == x / 4 + pair) by (bit_vector)
                requires
                    x < 16 && (pair == 0 || pair == 4 || pair == 8 || pair == 12),
            ;
        }
        self.state = state;

        if state == 0b0001 || state == 0b0111 || state == 0b1110 || state == 0b1000 || state
            == 0b0110 {
            let sw = self.switches - 1;
            self.settle_switches(sw)
        } else if state == 0b0010 || state == 0b1011 || state == 0b1101 || state == 0b0100 || state
            == 0b1001 {
            let sw = self.switches + 1;
            self.settle_switches(sw)
        } else if state == 0b0000 || state == 0b0011 {
            let s = self.switches;
            self.switches = 0;
            Rotation(
                if s > 0 {
                    1
                } else if s < 0 {
                    -1
                } else {
                    0
                },
            )
        } else {
            Rotation(0)
        }
    }

    /// Store a moved accumulator value, or fire a unit step and reset once
    /// its magnitude has reached the divider.
    fn settle_switches(&mut self, sw: i8) -> (r: Rotation)
        requires
            old(self).divider >= 1,
            -old(self).divider <= sw <= old(self).divider,
        ensures
            final(self).state == old(self).state,
            final(self).divider == old(self).divider,
            (final(self).switches as int, r.0 as int) == settle(sw as int, old(self).divider as int),
            -old(self).divider < final(self).switches < old(self).divider,
            -1 <= r.0 <= 1,
    {
        if sw >= self.divider || sw <= -self.divider {
            self.switches = 0;
            Rotation(
                if sw > 0 {
                    1
                } else if sw < 0 {
                    -1
                } else {
                    0
                },
            )
        } else {
            self.switches = sw;
            Rotation(0)
        }
    }
}

/// The default slow-turn threshold: at this many milliseconds between steps
/// (or more) a step passes through unscaled.
pub const SINGLE_ROTATION_MS: u32 = 100;

/// The default fast-turn threshold: at this many milliseconds between steps
/// (or fewer) a step is scaled by the full acceleration factor.
pub const LIMITED_ROTATION_MS: u32 = 20;

/// The velocity-dependent step multiplier: the full acceleration factor at or
/// below the fast-turn threshold, one at or above the slow-turn threshold,
/// and in between a linear interpolation (in integer arithmetic) that falls
/// from the factor toward one as the gap widens.
pub open spec fn accel_multiplier(acc: int, dt: int, limited: int, single: int) -> int
    recommends
        0 <= limited < single,
{
    if dt <= limited {
        acc
    } else if dt >= single {
        1int
    } else {
        acc - acc * (dt - limited) / (single - limited)
    }
}

/// One whole tick of a time-aware decoder: a zero step passes through and
/// leaves the last-step instant alone; a nonzero step records `now` and is
/// scaled by the multiplier for the gap since the previous nonzero step, the
/// very first such step passing through unscaled.
pub open spec fn time_rotary_step(t: TimeRotary, a_low: bool, b_low: bool, now: Instant) -> (
    TimeRotary,
    Rotation,
) {
    let step = rotary_step(t.rotary, a_low, b_low);
    let r2 = step.0;
    let rot = step.1;
    if rot.0 == 0 {
        (
            (TimeRotary {
                rotary: r2,
                last_rot_at: t.last_rot_at,
                acceleration: t.acceleration,
                limited_rotation_ms: t.limited_rotation_ms,
                single_rotation_ms: t.single_rotation_ms,
            }),
            rot,
        )
    } else {
        let t2 = TimeRotary {
            rotary: r2,
            last_rot_at: Some(now),
            acceleration: t.acceleration,
            limited_rotation_ms: t.limited_rotation_ms,
            single_rotation_ms: t.single_rotation_ms,
        };
        match t.last_rot_at {
            None => (t2, rot),
            Some(last) => {
                let dt = millis_between(now, last);
                let m = accel_multiplier(
                    t.acceleration as int,
                    dt as int,
                    t.limited_rotation_ms as int,
                    t.single_rotation_ms as int,
                );
                (t2, Rotation((rot.0 * m) as i32))
            },
        }
    }
}

/// A quadrature decoder whose steps are scaled by how quickly they follow
/// one another.
pub struct TimeRotary {
    pub rotary: Rotary,
    /// The instant of the previous nonzero step, none until the first one.
    pub last_rot_at: Option<Instant>,
    /// The step multiplier applied at the fastest turn rate.
    pub acceleration: u16,
    /// Gaps at or below this many milliseconds get the full factor.
    pub limited_rotation_ms: u32,
    /// Gaps at or above this many milliseconds stay unscaled.
    pub single_rotation_ms: u32,
}

impl TimeRotary {
    pub open spec fn wf(self) -> bool {
        &&& self.rotary.wf()
        &&& self.limited_rotation_ms < self.single_rotation_ms
    }

    pub fn set_acceleration(&mut self, acceleration: u16)
        ensures
            *final(self) == (TimeRotary { acceleration, ..*old(self) }),
    {
        self.acceleration = acceleration;
    }

    pub fn new(divider: i8) -> (r: TimeRotary)
        requires
            divider >= 1,
        ensures
            r == (TimeRotary {
                rotary: Rotary { state: 0, switches: 0, divider },
                last_rot_at: None,
                acceleration: 1,
                limited_rotation_ms: LIMITED_ROTATION_MS,
                single_rotation_ms: SINGLE_ROTATION_MS,
            }),
            r.wf(),
    {
        Self::with_acceleration(divider, 1)
    }

    pub fn with_acceleration(divider: i8, acceleration: u16) -> (r: TimeRotary)
        requires
            divider >= 1,
        ensures
            r == (TimeRotary {
                rotary: Rotary { state: 0, switches: 0, divider },
                last_rot_at: None,
                acceleration,
                limited_rotation_ms: LIMITED_ROTATION_MS,
                single_rotation_ms: SINGLE_ROTATION_MS,
            }),
            r.wf(),
    {
        Self::with_thresholds(divider, acceleration, LIMITED_ROTATION_MS, SINGLE_ROTATION_MS)
    }

    /// Build with an explicit pair of turn-rate thresholds.
    pub fn with_thresholds(
        divider: i8,
        acceleration: u16,
        limited_rotation_ms: u32,
        single_rotation_ms: u32,
    ) -> (r: TimeRotary)
        requires
            divider >= 1,
            limited_rotation_ms < single_rotation_ms,
        ensures
            r == (TimeRotary {
                rotary: Rotary { state: 0, switches: 0, divider },
                last_rot_at: None,
                acceleration,
                limited_rotation_ms,
                single_rotation_ms,
            }),
            r.wf(),
    {
        TimeRotary {
            rotary: Rotary::new(divider),
            last_rot_at: None,
            acceleration,
            limited_rotation_ms,
            single_rotation_ms,
        }
    }

    /// Feed one pair of phase samples together with the current instant.
    pub fn update(&mut self, a_low: bool, b_low: bool, now: Instant) -> (r: Rotation)
        requires
            old(self).wf(),
        ensures
            (*final(self), r) == time_rotary_step(*old(self), a_low, b_low, now),
            final(self).wf(),
    {
        let rot = self.rotary.update(a_low, b_low);
        let base = rot.angle();
        let r = if base == 0 {
            rot
        } else {
            let had_last = self.last_rot_at;
            self.last_rot_at = Some(now);
            match had_last {
                None => rot,
                Some(last) => {
                    let dt = now.duration_since(last);
                    if dt <= self.limited_rotation_ms {
                        proof {
                            assert(-65535 <= base * (self.acceleration as int) <= 65535)
                                by (nonlinear_arith)
                                requires
                                    -1 <= base <= 1 && 0 <= self.acceleration <= 65535,
                            ;
                        }
                        Rotation(base * self.acceleration as i32)
                    } else if dt >= self.single_rotation_ms {
                        rot
                    } else {
                        let low_plus_dt: u32 = dt - self.limited_rotation_ms;
                        let size: u32 = self.single_rotation_ms - self.limited_rotation_ms;
                        let acc: u64 = self.acceleration as u64;
                        proof {
                            let a = acc as int;
                            let x = low_plus_dt as int;
                            let s = size as int;
                            assert(a * x <= 65535 * 0xffff_ffff) by (nonlinear_arith)
                                requires
                                    0 <= a <= 65535 && 0 <= x <= 0xffff_ffff,
                            ;
                            assert(a * x <= a * s) by (nonlinear_arith)
                                requires
                                    0 <= a && 0 <= x <= s,
                            ;
                            assert(a * s / s == a) by (nonlinear_arith)
                                requires
                                    s > 0 && 0 <= a,
                            ;
                            vstd::arithmetic::div_mod::lemma_div_is_ordered(a * x, a * s, s);
                        }
                        let scaled: u64 = acc * low_plus_dt as u64 / size as u64;
                        let m: u32 = self.acceleration as u32 - scaled as u32;
                        proof {
                            assert(-65535 <= base * (m as int) <= 65535) by (nonlinear_arith)
                                requires
                                    -1 <= base <= 1 && 0 <= m <= 65535,
                            ;
                        }
                        Rotation(base * m as i32)
                    }
                },
            }
        };
        proof {
            assert((*self, r) =~= time_rotary_step(*old(self), a_low, b_low, now));
        }
        r
    }
}

/// Run the decoder over a whole sequence of phase sample pairs, collecting
/// the emitted step of every tick.
pub open spec fn rotary_run(r: Rotary, samples: Seq<(bool, bool)>) -> (Rotary, Seq<Rotation>)
    decreases samples.len(),
{
    if samples.len() == 0 {
        (r, Seq::empty())
    } else {
        let first = rotary_step(r, samples[0].0, samples[0].1);
        let rest = rotary_run(first.0, samples.drop_first());
        (rest.0, seq![first.1] + rest.1)
    }
}

/// The signed sum of all emitted steps of a run.
pub open spec fn net_steps(outs: Seq<Rotation>) -> int
    decreases outs.len(),
{
    if outs.len() == 0 {
        0int
    } else {
        outs[0].0 + net_steps(outs.drop_first())
    }
}

/// Running over a sequence extended by one sample is running over the
/// sequence and then stepping once.
pub proof fn lemma_rotary_run_push(r: Rotary, samples: Seq<(bool, bool)>, x: (bool, bool))
    ensures
        ({
            let whole = rotary_run(r, samples.push(x));
            let pre = rotary_run(r, samples);
            let last = rotary_step(pre.0, x.0, x.1);
            whole.0 == last.0 && whole.1 =~= pre.1.push(last.1)
        }),
    decreases samples.len(),
{
    reveal_with_fuel(rotary_run, 3);
    if samples.len() == 0 {
        assert(samples.push(x).drop_first() =~= samples);
        assert(samples.push(x)[0] == x);
        assert(rotary_run(r, samples.push(x)).1 =~= Seq::<Rotation>::empty().push(
            rotary_step(r, x.0, x.1).1,
        ));
    } else {
        assert(samples.push(x).drop_first() =~= samples.drop_first().push(x));
        assert(samples.push(x)[0] == samples[0]);
        let first = rotary_step(r, samples[0].0, samples[0].1);
        lemma_rotary_run_push(first.0, samples.drop_first(), x);
        let pre_rest = rotary_run(first.0, samples.drop_first());
        let last = rotary_step(rotary_run(r, samples).0, x.0, x.1);
        assert(rotary_run(r, samples.push(x)).1 =~= seq![first.1] + pre_rest.1.push(last.1));
        assert(rotary_run(r, samples).1.push(last.1) =~= seq![first.1] + pre_rest.1.push(last.1));
    }
}

/// Appending one emitted step adds its angle to the net sum.
pub proof fn lemma_net_steps_push(outs: Seq<Rotation>, x: Rotation)
    ensures
        net_steps(outs.push(x)) == net_steps(outs) + x.0,
    decreases outs.len(),
{
    if outs.len() == 0 {
        assert(outs.push(x).drop_first() =~= outs);
    } else {
        assert(outs.push(x).drop_first() =~= outs.drop_first().push(x));
        lemma_net_steps_push(outs.drop_first(), x);
    }
}

/// A run of all-zero steps sums to no net rotation.
pub proof fn lemma_net_steps_zeros(k: nat)
    ensures
        net_steps(Seq::new(k, |i: int| Rotation(0))) == 0,
    decreases k,
{
    if k > 0 {
        assert(Seq::new(k, |i: int| Rotation(0)).drop_first() =~= Seq::new(
            (k - 1) as nat,
            |i: int| Rotation(0),
        ));
        lemma_net_steps_zeros((k - 1) as nat);
    }
}

/// The phase pair sampled at tick `i` (counting from zero) of a clean
/// forward quadrature cycle started from the resting position; negative
/// indices continue the cycle backwards into the resting position.
pub open spec fn forward_pair(i: int) -> (bool, bool) {
    if i % 4 == 0 {
        (false, true)
    } else if i % 4 == 1 {
        (true, true)
    } else if i % 4 == 2 {
        (true, false)
    } else {
        (false, false)
    }
}

/// The first `n` samples of the clean forward cycle.
pub open spec fn forward_seq(n: nat) -> Seq<(bool, bool)> {
    Seq::new(n, |i: int| forward_pair(i))
}

/// `n` samples retracing the forward cycle backwards after `k` forward
/// ticks: the pairs of forward ticks `k - 2`, `k - 3`, and so on.
pub open spec fn backward_seq(k: int, n: nat) -> Seq<(bool, bool)> {
    Seq::new(n, |j: int| forward_pair(k - 2 - j))
}

/// The decoder window after tick `k` of the clean forward cycle.
pub open spec fn forward_window(k: int) -> u8 {
    if k <= 0 {
        0u8
    } else if k % 4 == 1 {
        4u8
    } else if k % 4 == 2 {
        13u8
    } else if k % 4 == 3 {
        11u8
    } else {
        2u8
    }
}

/// The decoder window while retracing: the window whose newest pair is the
/// pair of forward tick `m - 1` and whose older pair is that of tick `m`.
pub open spec fn backward_window(m: int) -> u8 {
    if m % 4 == 0 {
        1u8
    } else if m % 4 == 1 {
        7u8
    } else if m % 4 == 2 {
        14u8
    } else {
        8u8
    }
}

/// A clean forward sequence shorter than the divider emits no step at all:
/// every tick accumulates one sub-step and the accumulator ends at the
/// sequence's length. (In particular, a sequence half the divider's length
/// yields all-zero steps.)
pub proof fn lemma_forward_partial(d: i8, k: nat)
    requires
        1 <= d,
        k < d,
    ensures
        ({
            let run = rotary_run((Rotary { state: 0, switches: 0, divider: d }), forward_seq(k));
            run.0 == (Rotary { state: forward_window(k as int), switches: k as i8, divider: d })
                && run.1 =~= Seq::new(k, |i: int| Rotation(0))
        }),
    decreases k,
{
    if k == 0 {
        assert(forward_seq(0) =~= Seq::<(bool, bool)>::empty());
    } else {
        let r0 = Rotary { state: 0, switches: 0, divider: d };
        lemma_forward_partial(d, (k - 1) as nat);
        lemma_rotary_run_push(r0, forward_seq((k - 1) as nat), forward_pair(k - 1));
        assert(forward_seq(k) =~= forward_seq((k - 1) as nat).push(forward_pair(k - 1)));
        assert(rotary_run(r0, forward_seq(k)).1 =~= Seq::new(k, |i: int| Rotation(0)));
    }
}

/// A clean forward sequence of exactly the divider's length emits a single
/// `+1` step on its last tick, zero steps before it, and leaves the
/// accumulator empty again.
pub proof fn lemma_forward_full_turn(d: i8)
    requires
        1 <= d,
    ensures
        ({
            let run = rotary_run(
                (Rotary { state: 0, switches: 0, divider: d }),
                forward_seq(d as nat),
            );
            run.0 == (Rotary { state: forward_window(d as int), switches: 0, divider: d })
                && run.1.len() == d && (forall|i: int| 0 <= i < d - 1 ==> run.1[i] == Rotation(0))
                && run.1[d - 1] == Rotation(1) && net_steps(run.1) == 1
        }),
{
    let r0 = Rotary { state: 0, switches: 0, divider: d };
    lemma_forward_partial(d, (d - 1) as nat);
    lemma_rotary_run_push(r0, forward_seq((d - 1) as nat), forward_pair(d - 1));
    assert(forward_seq(d as nat) =~= forward_seq((d - 1) as nat).push(forward_pair(d - 1)));
    lemma_net_steps_zeros((d - 1) as nat);
    lemma_net_steps_push(Seq::new((d - 1) as nat, |i: int| Rotation(0)), Rotation(1));
    assert(rotary_run(r0, forward_seq(d as nat)).1 =~= Seq::new(
        (d - 1) as nat,
        |i: int| Rotation(0),
    ).push(Rotation(1)));
}

/// Retracing the forward cycle: after `k` clean forward ticks, each of `j`
/// backward ticks takes one sub-step off the accumulator again (crossing
/// `-divider` exactly when the forward ticks had completed a full step, which
/// settles back with a single `-1`).
pub proof fn lemma_backward_partial(d: i8, k: nat, j: nat)
    requires
        1 <= d,
        1 <= k <= d,
        j <= k,
    ensures
        ({
            let run = rotary_run(
                (Rotary { state: 0, switches: 0, divider: d }),
                forward_seq(k) + backward_seq(k as int, j),
            );
            run.0.state == (if j == 0 {
                forward_window(k as int)
            } else {
                backward_window(k - j)
            }) && run.0.divider == d && run.0.switches == (if k < d {
                k - j
            } else if j < k {
                -(j as int)
            } else {
                0int
            }) && net_steps(run.1) == (if k < d || j == k {
                0int
            } else {
                1int
            })
        }),
    decreases j,
{
    let r0 = Rotary { state: 0, switches: 0, divider: d };
    if j == 0 {
        assert(forward_seq(k) + backward_seq(k as int, 0) =~= forward_seq(k));
        if k < d {
            lemma_forward_partial(d, k);
            lemma_net_steps_zeros(k);
        } else {
            lemma_forward_full_turn(d);
        }
    } else {
        lemma_backward_partial(d, k, (j - 1) as nat);
        let pre_samples = forward_seq(k) + backward_seq(k as int, (j - 1) as nat);
        let x = forward_pair(k - 1 - j);
        assert(forward_seq(k) + backward_seq(k as int, j) =~= pre_samples.push(x));
        lemma_rotary_run_push(r0, pre_samples, x);
        let pre = rotary_run(r0, pre_samples);
        lemma_net_steps_push(pre.1, rotary_step(pre.0, x.0, x.1).1);
    }
}

/// Round-trip cancellation: a clean forward sequence followed at once by an
/// equal-length backward sequence (of at most the divider's length) returns
/// the accumulator to zero and emits no net step.
pub proof fn lemma_round_trip(d: i8, k: nat)
    requires
        1 <= d,
        k <= d,
    ensures
        ({
            let run = rotary_run(
                (Rotary { state: 0, switches: 0, divider: d }),
                forward_seq(k) + backward_seq(k as int, k),
            );
            run.0.switches == 0 && net_steps(run.1) == 0
        }),
{
    if k == 0 {
        assert(forward_seq(0) + backward_seq(0, 0) =~= Seq::<(bool, bool)>::empty());
    } else {
        lemma_backward_partial(d, k, k);
    }
}

/// At a zero gap between steps the multiplier is the full acceleration
/// factor, and at any gap at or past the slow-turn threshold it is one.
pub proof fn lemma_accel_extremes(acc: int, dt: int, limited: int, single: int)
    requires
        0 <= limited < single,
    ensures
        accel_multiplier(acc, 0, limited, single) == acc,
        dt >= single ==> accel_multiplier(acc, dt, limited, single) == 1,
{
}

} // verus!
