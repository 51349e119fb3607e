//! Microsecond-resolution time primitives with reserved infinity values.
//!
//! A [`Timestamp`] is a point in time and a [`TimeDelta`] a signed duration,
//! both counted in microseconds in an `i64`. The extreme `i64` values stand
//! for plus and minus infinity; arithmetic treats them as absorbing in the
//! direction of their sign and saturates finite results that would leave the
//! representable range.

use vstd::prelude::*;

use crate::arith::{clamp_i, diff_inf, div_t, sum_inf};

verus! {

/// Microsecond count that stands for plus infinity.
pub const PLUS_INFINITY_US: i64 = i64::MAX;

/// Microsecond count that stands for minus infinity.
pub const MINUS_INFINITY_US: i64 = i64::MIN;

/// A point in time, in microseconds.
#[derive(Debug, Clone, Copy, PartialEq, Eq, Structural, PartialOrd, Ord)]
pub struct Timestamp {
    pub us_count: i64,
}

/// A signed duration, in microseconds.
#[derive(Debug, Clone, Copy, PartialEq, Eq, Structural, PartialOrd, Ord)]
pub struct TimeDelta {
    pub us_count: i64,
}

impl Timestamp {
    pub fn from_seconds(value: i64) -> (r: Self)
        requires
            i64::MIN <= 1_000_000 * value <= i64::MAX,
        ensures
            r.us_count == 1_000_000 * value,
    {
        Timestamp { us_count: 1_000_000 * value }
    }

    pub fn from_millis(value: i64) -> (r: Self)
        requires
            i64::MIN <= 1_000 * value <= i64::MAX,
        ensures
            r.us_count == 1_000 * value,
    {
        Timestamp { us_count: 1_000 * value }
    }

    pub fn from_micros(value: i64) -> (r: Self)
        ensures
            r.us_count == value,
    {
        Timestamp { us_count: value }
    }

    pub fn zero() -> (r: Self)
        ensures
            r.us_count == 0,
    {
        Timestamp { us_count: 0 }
    }

    pub fn plus_infinity() -> (r: Self)
        ensures
            r.us_count == PLUS_INFINITY_US,
    {
        Timestamp { us_count: PLUS_INFINITY_US }
    }

    pub fn minus_infinity() -> (r: Self)
        ensures
            r.us_count == MINUS_INFINITY_US,
    {
        Timestamp { us_count: MINUS_INFINITY_US }
    }

    pub fn seconds(&self) -> (r: i64)
        ensures
            r as int == div_t(self.us_count as int, 1_000_000),
    {
        self.us_count / 1_000_000
    }

    pub fn ms(&self) -> (r: i64)
        ensures
            r as int == div_t(self.us_count as int, 1_000),
    {
        self.us_count / 1_000
    }

    pub fn us(&self) -> (r: i64)
        ensures
            r == self.us_count,
    {
        self.us_count
    }

    pub open spec fn spec_is_plus_infinity(&self) -> bool {
        self.us_count == PLUS_INFINITY_US
    }

    pub open spec fn spec_is_minus_infinity(&self) -> bool {
        self.us_count == MINUS_INFINITY_US
    }

    pub open spec fn spec_is_infinite(&self) -> bool {
        self.spec_is_plus_infinity() || self.spec_is_minus_infinity()
    }

    pub open spec fn spec_is_finite(&self) -> bool {
        !self.spec_is_infinite()
    }

    pub fn is_plus_infinity(&self) -> (r: bool)
        ensures
            r == self.spec_is_plus_infinity(),
    {
        self.us_count == PLUS_INFINITY_US
    }

    pub fn is_minus_infinity(&self) -> (r: bool)
        ensures
            r == self.spec_is_minus_infinity(),
    {
        self.us_count == MINUS_INFINITY_US
    }

    pub fn is_infinite(&self) -> (r: bool)
        ensures
            r == self.spec_is_infinite(),
    {
        self.us_count == PLUS_INFINITY_US || self.us_count == MINUS_INFINITY_US
    }

    pub fn is_finite(&self) -> (r: bool)
        ensures
            r == self.spec_is_finite(),
    {
        !(self.us_count == PLUS_INFINITY_US || self.us_count == MINUS_INFINITY_US)
    }

    /// The time `rhs` later than `self`.
    pub fn plus(self, rhs: TimeDelta) -> (r: Timestamp)
        ensures
            r.us_count as int == sum_inf(self.us_count as int, rhs.us_count as int),
    {
        if self.us_count == PLUS_INFINITY_US || rhs.us_count == PLUS_INFINITY_US {
            Timestamp { us_count: PLUS_INFINITY_US }
        } else if self.us_count == MINUS_INFINITY_US || rhs.us_count == MINUS_INFINITY_US {
            Timestamp { us_count: MINUS_INFINITY_US }
        } else {
            let s: i128 = self.us_count as i128 + rhs.us_count as i128;
            Timestamp { us_count: crate::arith::sat_cast_i64(s) }
        }
    }

    /// The duration from `earlier` to `self`.
    pub fn since(self, earlier: Timestamp) -> (r: TimeDelta)
        ensures
            r.us_count as int == diff_inf(self.us_count as int, earlier.us_count as int),
    {
        if self.us_count == PLUS_INFINITY_US || earlier.us_count == MINUS_INFINITY_US {
            TimeDelta { us_count: PLUS_INFINITY_US }
        } else if self.us_count == MINUS_INFINITY_US || earlier.us_count == PLUS_INFINITY_US {
            TimeDelta { us_count: MINUS_INFINITY_US }
        } else {
            let s: i128 = self.us_count as i128 - earlier.us_count as i128;
            TimeDelta { us_count: crate::arith::sat_cast_i64(s) }
        }
    }
}

impl TimeDelta {
    pub fn from_seconds(value: i64) -> (r: Self)
        requires
            i64::MIN <= 1_000_000 * value <= i64::MAX,
        ensures
            r.us_count == 1_000_000 * value,
    {
        TimeDelta { us_count: 1_000_000 * value }
    }

    pub fn from_millis(value: i64) -> (r: Self)
        requires
            i64::MIN <= 1_000 * value <= i64::MAX,
        ensures
            r.us_count == 1_000 * value,
    {
        TimeDelta { us_count: 1_000 * value }
    }

    pub fn from_micros(value: i64) -> (r: Self)
        ensures
            r.us_count == value,
    {
        TimeDelta { us_count: value }
    }

    pub fn zero() -> (r: Self)
        ensures
            r.us_count == 0,
    {
        TimeDelta { us_count: 0 }
    }

    pub fn plus_infinity() -> (r: Self)
        ensures
            r.us_count == PLUS_INFINITY_US,
    {
        TimeDelta { us_count: PLUS_INFINITY_US }
    }

    pub fn minus_infinity() -> (r: Self)
        ensures
            r.us_count == MINUS_INFINITY_US,
    {
        TimeDelta { us_count: MINUS_INFINITY_US }
    }

    pub fn seconds(&self) -> (r: i64)
        ensures
            r as int == div_t(self.us_count as int, 1_000_000),
    {
        self.us_count / 1_000_000
    }

    pub fn ms(&self) -> (r: i64)
        ensures
            r as int == div_t(self.us_count as int, 1_000),
    {
        self.us_count / 1_000
    }

    pub fn us(&self) -> (r: i64)
        ensures
            r == self.us_count,
    {
        self.us_count
    }

    pub open spec fn spec_is_zero(&self) -> bool {
        self.us_count == 0
    }

    pub open spec fn spec_is_plus_infinity(&self) -> bool {
        self.us_count == PLUS_INFINITY_US
    }

    pub open spec fn spec_is_minus_infinity(&self) -> bool {
        self.us_count == MINUS_INFINITY_US
    }

    pub open spec fn spec_is_infinite(&self) -> bool {
        self.spec_is_plus_infinity() || self.spec_is_minus_infinity()
    }

    pub open spec fn spec_is_finite(&self) -> bool {
        !self.spec_is_infinite()
    }

    pub fn is_zero(&self) -> (r: bool)
        ensures
            r == self.spec_is_zero(),
    {
        self.us_count == 0
    }

    pub fn is_plus_infinity(&self) -> (r: bool)
        ensures
            r == self.spec_is_plus_infinity(),
    {
        self.us_count == PLUS_INFINITY_US
    }

    pub fn is_minus_infinity(&self) -> (r: bool)
        ensures
            r == self.spec_is_minus_infinity(),
    {
        self.us_count == MINUS_INFINITY_US
    }

    pub fn is_infinite(&self) -> (r: bool)
        ensures
            r == self.spec_is_infinite(),
    {
        self.us_count == PLUS_INFINITY_US || self.us_count == MINUS_INFINITY_US
    }

    pub fn is_finite(&self) -> (r: bool)
        ensures
            r == self.spec_is_finite(),
    {
        !(self.us_count == PLUS_INFINITY_US || self.us_count == MINUS_INFINITY_US)
    }

    /// The sum of two durations.
    pub fn plus(self, rhs: TimeDelta) -> (r: TimeDelta)
        ensures
            r.us_count as int == sum_inf(self.us_count as int, rhs.us_count as int),
    {
        if self.us_count == PLUS_INFINITY_US || rhs.us_count == PLUS_INFINITY_US {
            TimeDelta { us_count: PLUS_INFINITY_US }
        } else if self.us_count == MINUS_INFINITY_US || rhs.us_count == MINUS_INFINITY_US {
            TimeDelta { us_count: MINUS_INFINITY_US }
        } else {
            let s: i128 = self.us_count as i128 + rhs.us_count as i128;
            TimeDelta { us_count: crate::arith::sat_cast_i64(s) }
        }
    }

    /// The difference of two durations.
    pub fn minus(self, rhs: TimeDelta) -> (r: TimeDelta)
        ensures
            r.us_count as int == diff_inf(self.us_count as int, rhs.us_count as int),
    {
        if self.us_count == PLUS_INFINITY_US || rhs.us_count == MINUS_INFINITY_US {
            TimeDelta { us_count: PLUS_INFINITY_US }
        } else if self.us_count == MINUS_INFINITY_US || rhs.us_count == PLUS_INFINITY_US {
            TimeDelta { us_count: MINUS_INFINITY_US }
        } else {
            let s: i128 = self.us_count as i128 - rhs.us_count as i128;
            TimeDelta { us_count: crate::arith::sat_cast_i64(s) }
        }
    }

    /// The duration clamped to the closed interval `[lo, hi]`.
    pub fn clamp(self, lo: TimeDelta, hi: TimeDelta) -> (r: TimeDelta)
        requires
            lo.us_count <= hi.us_count,
        ensures
            r.us_count as int == clamp_i(self.us_count as int, lo.us_count as int, hi.us_count as int),
    {
        if self.us_count < lo.us_count {
            lo
        } else if self.us_count > hi.us_count {
            hi
        } else {
            self
        }
    }
}

} // verus!
