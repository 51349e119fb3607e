//! Bits-per-second rate and byte-count primitives with reserved infinities.
//!
//! A [`DataRate`] is a bit rate in bits per second and a [`DataSize`] a byte
//! count, both held in an `i64`. The extreme `i64` values of a rate stand for
//! plus and minus infinity. The cross-type products and quotients round as
//! stated on each operation; division by zero does not trap but yields the
//! infinity whose sign matches the dividend.

use vstd::prelude::*;

use crate::arith::{diff_inf, div_t, sat_i64, sum_inf};
use crate::time::TimeDelta;

verus! {

/// Bit-per-second count that stands for plus infinity.
pub const PLUS_INFINITY_BPS: i64 = i64::MAX;

/// Bit-per-second count that stands for minus infinity.
pub const MINUS_INFINITY_BPS: i64 = i64::MIN;

/// Bytes obtained when a rate of `bps` bits per second flows for `us`
/// microseconds, rounded half-up at half a byte and saturated into `i64`:
/// `(bps * us + 4_000_000) / 8_000_000` with truncating division.
pub open spec fn rate_mul_time_bytes(bps: int, us: int) -> int {
    sat_i64(div_t(bps * us + 4_000_000, 8_000_000))
}

/// Microseconds a size of `bytes` takes at `bps` bits per second, truncated
/// toward zero and saturated into `i64`. A zero rate yields the infinity
/// whose sign matches the size.
pub open spec fn size_div_rate_us(bytes: int, bps: int) -> int {
    if bps == 0 {
        if bytes >= 0 {
            i64::MAX as int
        } else {
            i64::MIN as int
        }
    } else {
        sat_i64(div_t(bytes * 8_000_000, bps))
    }
}

/// Bits per second at which a size of `bytes` passes in `us` microseconds,
/// truncated toward zero and saturated into `i64`. A zero duration yields the
/// infinity whose sign matches the size.
pub open spec fn size_div_time_bps(bytes: int, us: int) -> int {
    if us == 0 {
        if bytes >= 0 {
            i64::MAX as int
        } else {
            i64::MIN as int
        }
    } else {
        sat_i64(div_t(bytes * 8_000_000, us))
    }
}

/// `bps` scaled by `permille / 1000`, truncated toward zero and saturated
/// into `i64`.
pub open spec fn rate_mul_permille_bps(bps: int, permille: int) -> int {
    sat_i64(div_t(bps * permille, 1000))
}

/// A bit rate, in bits per second.
#[derive(Debug, Clone, Copy, PartialEq, Eq, Structural, PartialOrd, Ord)]
pub struct DataRate {
    pub bps_count: i64,
}

/// A size, in bytes.
#[derive(Debug, Clone, Copy, PartialEq, Eq, Structural, PartialOrd, Ord)]
pub struct DataSize {
    pub bytes_count: i64,
}

impl DataRate {
    pub fn from_bits_per_sec(value: i64) -> (r: Self)
        ensures
            r.bps_count == value,
    {
        DataRate { bps_count: value }
    }

    pub fn from_bytes_per_sec(value: i64) -> (r: Self)
        requires
            i64::MIN <= 8 * value <= i64::MAX,
        ensures
            r.bps_count == 8 * value,
    {
        DataRate { bps_count: 8 * value }
    }

    pub fn from_kilobits_per_sec(value: i64) -> (r: Self)
        requires
            i64::MIN <= 1_000 * value <= i64::MAX,
        ensures
            r.bps_count == 1_000 * value,
    {
        DataRate { bps_count: 1_000 * value }
    }

    pub fn infinity() -> (r: Self)
        ensures
            r.bps_count == PLUS_INFINITY_BPS,
    {
        DataRate { bps_count: PLUS_INFINITY_BPS }
    }

    pub fn bps(&self) -> (r: i64)
        ensures
            r == self.bps_count,
    {
        self.bps_count
    }

    pub fn bytes_per_sec(&self) -> (r: i64)
        ensures
            r as int == div_t(self.bps_count as int, 8),
    {
        self.bps_count / 8
    }

    pub fn kbps(&self) -> (r: i64)
        ensures
            r as int == div_t(self.bps_count as int, 1_000),
    {
        self.bps_count / 1_000
    }

    pub fn zero() -> (r: Self)
        ensures
            r.bps_count == 0,
    {
        DataRate { bps_count: 0 }
    }

    pub fn plus_infinity() -> (r: Self)
        ensures
            r.bps_count == PLUS_INFINITY_BPS,
    {
        DataRate { bps_count: PLUS_INFINITY_BPS }
    }

    pub fn minus_infinity() -> (r: Self)
        ensures
            r.bps_count == MINUS_INFINITY_BPS,
    {
        DataRate { bps_count: MINUS_INFINITY_BPS }
    }

    pub open spec fn spec_is_zero(&self) -> bool {
        self.bps_count == 0
    }

    pub open spec fn spec_is_plus_infinity(&self) -> bool {
        self.bps_count == PLUS_INFINITY_BPS
    }

    pub open spec fn spec_is_minus_infinity(&self) -> bool {
        self.bps_count == MINUS_INFINITY_BPS
    }

    pub open spec fn spec_is_infinite(&self) -> bool {
        self.spec_is_plus_infinity() || self.spec_is_minus_infinity()
    }

    pub open spec fn spec_is_finite(&self) -> bool {
        !self.spec_is_infinite()
    }

    pub fn is_zero(&self) -> (r: bool)
        ensures
            r == self.spec_is_zero(),
    {
        self.bps_count == 0
    }

    pub fn is_plus_infinity(&self) -> (r: bool)
        ensures
            r == self.spec_is_plus_infinity(),
    {
        self.bps_count == PLUS_INFINITY_BPS
    }

    pub fn is_minus_infinity(&self) -> (r: bool)
        ensures
            r == self.spec_is_minus_infinity(),
    {
        self.bps_count == MINUS_INFINITY_BPS
    }

    pub fn is_infinite(&self) -> (r: bool)
        ensures
            r == self.spec_is_infinite(),
    {
        self.bps_count == PLUS_INFINITY_BPS || self.bps_count == MINUS_INFINITY_BPS
    }

    pub fn is_finite(&self) -> (r: bool)
        ensures
            r == self.spec_is_finite(),
    {
        !(self.bps_count == PLUS_INFINITY_BPS || self.bps_count == MINUS_INFINITY_BPS)
    }

    /// The sum of two rates: infinities absorb, finite sums saturate.
    pub fn plus(self, rhs: DataRate) -> (r: DataRate)
        ensures
            r.bps_count as int == sum_inf(self.bps_count as int, rhs.bps_count as int),
    {
        if self.bps_count == PLUS_INFINITY_BPS || rhs.bps_count == PLUS_INFINITY_BPS {
            DataRate { bps_count: PLUS_INFINITY_BPS }
        } else if self.bps_count == MINUS_INFINITY_BPS || rhs.bps_count == MINUS_INFINITY_BPS {
            DataRate { bps_count: MINUS_INFINITY_BPS }
        } else {
            let s: i128 = self.bps_count as i128 + rhs.bps_count as i128;
            DataRate { bps_count: crate::arith::sat_cast_i64(s) }
        }
    }

    /// The difference of two rates: infinities absorb with sign, finite
    /// differences saturate.
    pub fn minus(self, rhs: DataRate) -> (r: DataRate)
        ensures
            r.bps_count as int == diff_inf(self.bps_count as int, rhs.bps_count as int),
    {
        if self.bps_count == PLUS_INFINITY_BPS || rhs.bps_count == MINUS_INFINITY_BPS {
            DataRate { bps_count: PLUS_INFINITY_BPS }
        } else if self.bps_count == MINUS_INFINITY_BPS || rhs.bps_count == PLUS_INFINITY_BPS {
            DataRate { bps_count: MINUS_INFINITY_BPS }
        } else {
            let s: i128 = self.bps_count as i128 - rhs.bps_count as i128;
            DataRate { bps_count: crate::arith::sat_cast_i64(s) }
        }
    }

    /// The size that flows at this rate over the given duration, rounded
    /// half-up at half a byte: `(bps * us + 4_000_000) / 8_000_000`.
    pub fn mul_time(self, rhs: TimeDelta) -> (r: DataSize)
        ensures
            r.bytes_count as int == rate_mul_time_bytes(self.bps_count as int, rhs.us_count as int),
    {
        let p: i128 = crate::arith::mul_i64(self.bps_count, rhs.us_count) + 4_000_000;
        let b: i128 = crate::arith::div_trunc_i128(p, 8_000_000);
        DataSize { bytes_count: crate::arith::sat_cast_i64(b) }
    }

    /// The rate scaled by `permille / 1000`, truncated toward zero.
    pub fn mul_permille(self, permille: i64) -> (r: DataRate)
        ensures
            r.bps_count as int == rate_mul_permille_bps(self.bps_count as int, permille as int),
    {
        let p: i128 = crate::arith::mul_i64(self.bps_count, permille);
        let b: i128 = crate::arith::div_trunc_i128(p, 1000);
        DataRate { bps_count: crate::arith::sat_cast_i64(b) }
    }
}

impl DataSize {
    pub fn from_bytes(value: i64) -> (r: Self)
        ensures
            r.bytes_count == value,
    {
        DataSize { bytes_count: value }
    }

    pub fn microbits(&self) -> (r: i64)
        requires
            i64::MIN <= 8_000_000 * self.bytes_count <= i64::MAX,
        ensures
            r == 8_000_000 * self.bytes_count,
    {
        8_000_000 * self.bytes_count
    }

    pub fn bytes(&self) -> (r: i64)
        ensures
            r == self.bytes_count,
    {
        self.bytes_count
    }

    pub fn zero() -> (r: Self)
        ensures
            r.bytes_count == 0,
    {
        DataSize { bytes_count: 0 }
    }

    /// The time this size takes at the given rate: `bytes * 8_000_000 / bps`
    /// microseconds, truncated toward zero. A zero rate yields the infinity
    /// whose sign matches the size.
    pub fn div_rate(self, rhs: DataRate) -> (r: TimeDelta)
        ensures
            r.us_count as int == size_div_rate_us(self.bytes_count as int, rhs.bps_count as int),
    {
        if rhs.bps_count == 0 {
            if self.bytes_count >= 0 {
                TimeDelta::plus_infinity()
            } else {
                TimeDelta::minus_infinity()
            }
        } else {
            let microbits: i128 = crate::arith::mul_i64(self.bytes_count, 8_000_000);
            let q: i128 = if rhs.bps_count > 0 {
                microbits / (rhs.bps_count as i128)
            } else {
                proof {
                    crate::arith::lemma_div_t_magnitude(microbits as int, -(rhs.bps_count as int));
                }
                -(microbits / (-(rhs.bps_count as i128)))
            };
            TimeDelta::from_micros(crate::arith::sat_cast_i64(q))
        }
    }

    /// The rate at which this size passes in the given time:
    /// `bytes * 8_000_000 / us` bits per second, truncated toward zero. A
    /// zero duration yields the infinity whose sign matches the size.
    pub fn div_time(self, rhs: TimeDelta) -> (r: DataRate)
        ensures
            r.bps_count as int == size_div_time_bps(self.bytes_count as int, rhs.us_count as int),
    {
        if rhs.us_count == 0 {
            if self.bytes_count >= 0 {
                DataRate::plus_infinity()
            } else {
                DataRate::minus_infinity()
            }
        } else {
            let microbits: i128 = crate::arith::mul_i64(self.bytes_count, 8_000_000);
            let q: i128 = if rhs.us_count > 0 {
                microbits / (rhs.us_count as i128)
            } else {
                proof {
                    crate::arith::lemma_div_t_magnitude(microbits as int, -(rhs.us_count as int));
                }
                -(microbits / (-(rhs.us_count as i128)))
            };
            DataRate::from_bits_per_sec(crate::arith::sat_cast_i64(q))
        }
    }
}

} // verus!
