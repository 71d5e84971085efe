//! A plain model of monotonic time: an instant is a millisecond count since an
//! arbitrary origin, and elapsed time between two instants saturates instead
//! of overflowing.

use vstd::prelude::*;

verus! {

/// Elapsed milliseconds from `earlier` to `later`: zero when `earlier` is not
/// in the past, saturating at `u32::MAX` on very large gaps.
pub open spec fn millis_between(later: Instant, earlier: Instant) -> u32 {
    if later.millis <= earlier.millis {
        0u32
    } else if later.millis - earlier.millis >= u32::MAX {
        u32::MAX
    } else {
        (later.millis - earlier.millis) as u32
    }
}

/// A monotonic time point, counted in milliseconds since an arbitrary origin.
#[derive(Clone, Copy, PartialEq, Eq, Structural, Debug)]
pub struct Instant {
    pub millis: u64,
}

impl Instant {
    /// The sentinel instant: the origin itself.
    pub fn zero() -> (r: Instant)
        ensures
            r.millis == 0,
    {
        Instant { millis: 0 }
    }

    pub fn from_millis(millis: u64) -> (r: Instant)
        ensures
            r.millis == millis,
    {
        Instant { millis }
    }

    /// Milliseconds elapsed since `earlier`, zero if `earlier` is not in the
    /// past, saturating at `u32::MAX`.
    pub fn duration_since(self, earlier: Instant) -> (d: u32)
        ensures
            d == millis_between(self, earlier),
    {
        if self.millis <= earlier.millis {
            0
        } else {
            let diff = self.millis - earlier.millis;
            if diff >= u32::MAX as u64 {
                u32::MAX
            } else {
                diff as u32
            }
        }
    }
}

/// The degenerate instant of a system without a time source: every elapsed
/// duration is zero.
#[derive(Clone, Copy, PartialEq, Eq, Structural, Debug)]
pub struct ZeroInstant;

impl ZeroInstant {
    pub fn zero() -> ZeroInstant {
        ZeroInstant
    }

    pub fn duration_since(self, _earlier: ZeroInstant) -> (d: u32)
        ensures
            d == 0,
    {
        0
    }
}

/// The degenerate time source: it always reports the origin instant.
pub struct ZeroClock;

impl ZeroClock {
    pub fn now(&mut self) -> (r: Instant)
        ensures
            r.millis == 0,
            *final(self) == *old(self),
    {
        Instant { millis: 0 }
    }
}

} // verus!
