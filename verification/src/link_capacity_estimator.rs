//! Exponentially-weighted estimate of link capacity with normalized variance.
//!
//! The estimate and its normalized deviation are held in fixed point at a
//! scale of 1000: `estimate_milli_kbps` is thousandths of a kilobit per
//! second, and `deviation_milli` thousandths of the dimensionless normalized
//! variance, clamped to `[0.4, 2.5]` (here `[400, 2500]`). Updates at
//! over-use weigh the new sample at 0.05 (50 per mille), probe updates at 0.5
//! (500 per mille).

use vstd::prelude::*;

use crate::arith::{clamp_i, div_t, min_i, sat_i64};
use crate::data_rate::DataRate;

verus! {

/// Sample weight, in per mille, of an over-use update.
pub const OVERUSE_ALPHA_PERMILLE: i64 = 50;

/// Sample weight, in per mille, of a probe update.
pub const PROBE_ALPHA_PERMILLE: i64 = 500;

/// Smallest normalized deviation, in thousandths.
pub const MIN_DEVIATION_MILLI: i64 = 400;

/// Largest normalized deviation, in thousandths.
pub const MAX_DEVIATION_MILLI: i64 = 2500;

/// The estimate after one EWMA step: `((1000 - alpha) * est + alpha * sample)
/// / 1000`, truncated and saturated into `i64`.
pub open spec fn ewma_milli(est: int, sample: int, alpha_permille: int) -> int {
    sat_i64(div_t((1000 - alpha_permille) * est + alpha_permille * sample, 1000))
}

/// The normalized squared error `err * err / norm` that a sample adds to the
/// deviation, with the error saturated into `i64` and the quotient capped at
/// a bound far above the deviation clamp.
pub open spec fn deviation_term_milli(est: int, sample: int, norm: int) -> int {
    min_i(div_t(sat_i64(est - sample) * sat_i64(est - sample), norm), 1_000_000_000)
}

/// The deviation after one update: the EWMA of the old deviation and the
/// normalized squared error, clamped to `[400, 2500]`.
pub open spec fn next_deviation_milli(
    dev: int,
    est: int,
    sample: int,
    alpha_permille: int,
) -> int {
    let norm = max_norm_milli(est);
    let term = deviation_term_milli(est, sample, norm);
    clamp_i(
        div_t((1000 - alpha_permille) * dev + alpha_permille * term, 1000),
        MIN_DEVIATION_MILLI as int,
        MAX_DEVIATION_MILLI as int,
    )
}

/// The normalization floor: the estimate, but at least one kilobit per
/// second (1000 in milli-kbps).
pub open spec fn max_norm_milli(est: int) -> int {
    if est >= 1000 {
        est
    } else {
        1000
    }
}

/// The integer square root: the largest `r` with `r * r <= x`.
pub fn isqrt_u128(x: u128) -> (r: u128)
    ensures
        r * r <= x,
        x < (r + 1) * (r + 1),
{
    let mut lo: u128 = 0;
    let mut hi: u128 = 0x1_0000_0000_0000_0000;
    proof {
        assert((0x1_0000_0000_0000_0000u128 as int) * (0x1_0000_0000_0000_0000u128 as int)
            == 0x1_0000_0000_0000_0000_0000_0000_0000_0000int) by (nonlinear_arith);
    }
    while lo + 1 < hi
        invariant
            lo < hi <= 0x1_0000_0000_0000_0000,
            lo * lo <= x as int,
            (x as int) < hi * hi,
        decreases hi - lo,
    {
        let mid = lo + (hi - lo) / 2;
        proof {
            assert(lo < mid < hi);
            assert(mid * mid < 0x1_0000_0000_0000_0000i128 as int * 0x1_0000_0000_0000_0000i128 as int)
                by (nonlinear_arith)
                requires
                    0 <= mid < 0x1_0000_0000_0000_0000i128 as int,
            ;
            assert(0x1_0000_0000_0000_0000i128 as int * 0x1_0000_0000_0000_0000i128 as int
                == 0x1_0000_0000_0000_0000_0000_0000_0000_0000int) by (nonlinear_arith);
        }
        if mid * mid <= x {
            lo = mid;
        } else {
            hi = mid;
        }
    }
    lo
}

/// EWMA of observed link capacity in kilobits per second, with a normalized
/// deviation used to derive confidence bounds.
#[derive(Debug, Clone, Copy, PartialEq, Eq, Structural)]
pub struct LinkCapacityEstimator {
    pub estimate_milli_kbps: Option<i64>,
    pub deviation_milli: i64,
}

impl LinkCapacityEstimator {
    pub fn new() -> (r: Self)
        ensures
            r.estimate_milli_kbps is None,
            r.deviation_milli == MIN_DEVIATION_MILLI,
    {
        LinkCapacityEstimator { estimate_milli_kbps: None, deviation_milli: MIN_DEVIATION_MILLI }
    }

    /// Three standard deviations, in milli-kbps: `3 * sqrt(deviation * est)`
    /// (meaningful only when the product is nonnegative; the bounds below
    /// collapse to zero otherwise, before reading this offset).
    pub open spec fn spec_bound_offset_milli(&self, est: int) -> int {
        let p = self.deviation_milli * est;
        if p < 0 {
            0
        } else {
            sat_i64(3 * sqrt_floor(p))
        }
    }

    /// The rate `bound_milli / 1000` kilobits per second, saturated.
    pub open spec fn spec_rate_from_milli_kbps(milli: int) -> int {
        sat_i64(1000 * div_t(milli, 1000))
    }

    /// The upper confidence bound in bits per second: plus infinity with no
    /// estimate, and zero when `deviation * estimate` is negative (no real
    /// standard deviation exists there, so the bound collapses).
    pub open spec fn spec_upper_bound_bps(&self) -> int {
        match self.estimate_milli_kbps {
            Some(est) => {
                if self.deviation_milli * est < 0 {
                    0
                } else {
                    Self::spec_rate_from_milli_kbps(est + self.spec_bound_offset_milli(est as int))
                }
            },
            None => i64::MAX as int,
        }
    }

    /// The lower confidence bound in bits per second: zero with no estimate,
    /// and zero when `deviation * estimate` is negative.
    pub open spec fn spec_lower_bound_bps(&self) -> int {
        match self.estimate_milli_kbps {
            Some(est) => {
                if self.deviation_milli * est < 0 {
                    0
                } else {
                    Self::spec_rate_from_milli_kbps(
                        crate::arith::max_i(0, est - self.spec_bound_offset_milli(est as int)),
                    )
                }
            },
            None => 0,
        }
    }

    /// The estimate in bits per second (meaningful only with an estimate).
    pub open spec fn spec_estimate_bps(&self) -> int {
        match self.estimate_milli_kbps {
            Some(est) => Self::spec_rate_from_milli_kbps(est as int),
            None => 0,
        }
    }

    /// The upper confidence bound: `estimate + 3 * sqrt(deviation *
    /// estimate)` kilobits per second; plus infinity with no estimate, zero
    /// when the product under the square root is negative.
    pub fn upper_bound(&self) -> (r: DataRate)
        ensures
            r.bps_count as int == self.spec_upper_bound_bps(),
    {
        match self.estimate_milli_kbps {
            Some(est) => {
                let p: i128 = crate::arith::mul_i64(self.deviation_milli, est);
                if p < 0 {
                    return DataRate::zero();
                }
                let off: i64 = self.bound_offset_milli(est);
                let u: i128 = est as i128 + off as i128;
                let kbps: i128 = crate::arith::div_trunc_i128(u, 1000);
                DataRate::from_bits_per_sec(crate::arith::sat_cast_i64(kbps * 1000))
            },
            None => DataRate::infinity(),
        }
    }

    /// The lower confidence bound: `max(0, estimate - 3 * sqrt(deviation *
    /// estimate))` kilobits per second; zero with no estimate or when the
    /// product under the square root is negative.
    pub fn lower_bound(&self) -> (r: DataRate)
        ensures
            r.bps_count as int == self.spec_lower_bound_bps(),
    {
        match self.estimate_milli_kbps {
            Some(est) => {
                let p: i128 = crate::arith::mul_i64(self.deviation_milli, est);
                if p < 0 {
                    return DataRate::zero();
                }
                let off: i64 = self.bound_offset_milli(est);
                let l: i128 = est as i128 - off as i128;
                let l: i128 = if l < 0 {
                    0
                } else {
                    l
                };
                let kbps: i128 = crate::arith::div_trunc_i128(l, 1000);
                DataRate::from_bits_per_sec(crate::arith::sat_cast_i64(kbps * 1000))
            },
            None => DataRate::zero(),
        }
    }

    /// The state after a reset: no estimate, deviation kept.
    pub open spec fn spec_reset_value(self) -> Self {
        LinkCapacityEstimator { estimate_milli_kbps: None, ..self }
    }

    /// Clears the estimate; the deviation persists.
    pub fn reset(&mut self)
        ensures
            *final(self) == old(self).spec_reset_value(),
    {
        self.estimate_milli_kbps = None;
    }

    /// Records throughput observed at an over-use detection (weight 0.05).
    pub fn on_overuse_detected(&mut self, acknowledged_rate: DataRate)
        ensures
            *final(self) == old(self).spec_update(
                acknowledged_rate,
                OVERUSE_ALPHA_PERMILLE as int,
            ),
    {
        self.update(acknowledged_rate, OVERUSE_ALPHA_PERMILLE);
    }

    /// Records the rate measured by a probe (weight 0.5).
    pub fn on_probe_rate(&mut self, probe_rate: DataRate)
        ensures
            *final(self) == old(self).spec_update(probe_rate, PROBE_ALPHA_PERMILLE as int),
    {
        self.update(probe_rate, PROBE_ALPHA_PERMILLE);
    }

    /// One EWMA update: a first sample seeds the estimate; later samples are
    /// weighed in at `alpha_permille / 1000`. The deviation tracks the
    /// normalized squared error and stays in `[400, 2500]`.
    pub open spec fn spec_update(
        self,
        capacity_sample: DataRate,
        alpha_permille: int,
    ) -> LinkCapacityEstimator {
        let sample_milli = 1000 * div_t(capacity_sample.bps_count as int, 1000);
        let est1 = match self.estimate_milli_kbps {
            Some(est) => ewma_milli(est as int, sample_milli, alpha_permille),
            None => sample_milli,
        };
        LinkCapacityEstimator {
            estimate_milli_kbps: Some(est1 as i64),
            deviation_milli: next_deviation_milli(
                self.deviation_milli as int,
                est1,
                sample_milli,
                alpha_permille,
            ) as i64,
        }
    }

    fn update(&mut self, capacity_sample: DataRate, alpha_permille: i64)
        requires
            0 < alpha_permille < 1000,
        ensures
            *final(self) == old(self).spec_update(capacity_sample, alpha_permille as int),
    {
        let sample_milli: i64 = capacity_sample.kbps() * 1000;
        let est1: i64 = match self.estimate_milli_kbps {
            Some(est) => {
                let a: i128 = crate::arith::mul_i64(1000 - alpha_permille, est);
                let b: i128 = crate::arith::mul_i64(alpha_permille, sample_milli);
                proof {
                    crate::arith::lemma_mul_le(
                        1000 - alpha_permille as int,
                        est as int,
                        1000,
                        0x8000000000000000,
                    );
                    crate::arith::lemma_mul_le(
                        alpha_permille as int,
                        sample_milli as int,
                        1000,
                        0x8000000000000000,
                    );
                }
                crate::arith::sat_cast_i64(crate::arith::div_trunc_i128(a + b, 1000))
            },
            None => sample_milli,
        };
        self.estimate_milli_kbps = Some(est1);
        // Estimate the variance of the link capacity estimate and normalize
        // the variance with the link capacity estimate.
        let norm: i64 = if est1 >= 1000 {
            est1
        } else {
            1000
        };
        let err: i64 = crate::arith::sat_cast_i64(est1 as i128 - sample_milli as i128);
        let e2: i128 = crate::arith::mul_i64(err, err);
        proof {
            crate::arith::lemma_square_nonneg(err as int);
            crate::arith::lemma_div_t_bounds(
                e2 as int,
                norm as int,
                0x40000000000000000000000000000000,
            );
        }
        let term128: i128 = crate::arith::div_trunc_i128(e2, norm as i128);
        let term: i64 = if term128 > 1_000_000_000 {
            1_000_000_000
        } else {
            term128 as i64
        };
        let da: i128 = crate::arith::mul_i64(1000 - alpha_permille, self.deviation_milli);
        let db: i128 = crate::arith::mul_i64(alpha_permille, term);
        proof {
            crate::arith::lemma_mul_le(
                1000 - alpha_permille as int,
                self.deviation_milli as int,
                1000,
                0x8000000000000000,
            );
            crate::arith::lemma_mul_le(alpha_permille as int, term as int, 1000, 0x8000000000000000);
        }
        let dev: i128 = crate::arith::div_trunc_i128(da + db, 1000);
        // 0.4 is roughly 14 kbit/s at 500 kbit/s; 2.5 roughly 35 kbit/s.
        self.deviation_milli = if dev < MIN_DEVIATION_MILLI as i128 {
            MIN_DEVIATION_MILLI
        } else if dev > MAX_DEVIATION_MILLI as i128 {
            MAX_DEVIATION_MILLI
        } else {
            dev as i64
        };
    }

    pub fn has_estimate(&self) -> (r: bool)
        ensures
            r == (self.estimate_milli_kbps is Some),
    {
        self.estimate_milli_kbps.is_some()
    }

    /// The estimated capacity as a rate. There must be an estimate.
    pub fn estimate(&self) -> (r: DataRate)
        requires
            self.estimate_milli_kbps is Some,
        ensures
            r.bps_count as int == self.spec_estimate_bps(),
    {
        match self.estimate_milli_kbps {
            Some(est) => {
                let kbps: i128 = crate::arith::div_trunc_i128(est as i128, 1000);
                DataRate::from_bits_per_sec(crate::arith::sat_cast_i64(kbps * 1000))
            },
            None => DataRate::zero(),
        }
    }

    /// Three standard deviations in milli-kbps: `3 * sqrt(deviation_milli *
    /// est_milli)` with a negative product treated as zero.
    fn bound_offset_milli(&self, est: i64) -> (r: i64)
        ensures
            r as int == self.spec_bound_offset_milli(est as int),
    {
        let p: i128 = crate::arith::mul_i64(self.deviation_milli, est);
        if p < 0 {
            0
        } else {
            let s: u128 = isqrt_u128(p as u128);
            proof {
                lemma_sqrt_floor_unique(p as int, s as int);
                assert(s * s <= p < 0x40000000000000000000000000000001);
                assert(s as int <= 0x8000000000000000i128 as int) by (nonlinear_arith)
                    requires
                        (s as int) * (s as int) < 0x40000000000000000000000000000001int,
                        s as int >= 0,
                ;
            }
            crate::arith::sat_cast_i64(3 * (s as i128))
        }
    }
}

/// The integer square root as a mathematical function: for `x >= 0` the
/// `r >= 0` with `r * r <= x < (r + 1) * (r + 1)`.
pub open spec fn sqrt_floor(x: int) -> int
    decreases x,
{
    if x <= 0 {
        0
    } else {
        let p = sqrt_floor(x - 1);
        if (p + 1) * (p + 1) <= x {
            p + 1
        } else {
            p
        }
    }
}

/// `sqrt_floor(x)` is the nonnegative root with
/// `sqrt_floor(x)^2 <= x < (sqrt_floor(x) + 1)^2`, by induction on `x`.
pub proof fn lemma_sqrt_floor_bounds(x: int)
    requires
        x >= 0,
    ensures
        0 <= sqrt_floor(x),
        sqrt_floor(x) * sqrt_floor(x) <= x,
        x < (sqrt_floor(x) + 1) * (sqrt_floor(x) + 1),
    decreases x,
{
    if x > 0 {
        lemma_sqrt_floor_bounds(x - 1);
        let p = sqrt_floor(x - 1);
        if (p + 1) * (p + 1) <= x {
            assert((p + 1) + 1 >= 1);
            assert(((p + 1) + 1) * ((p + 1) + 1) == (p + 1) * (p + 1) + 2 * (p + 1) + 1)
                by (nonlinear_arith);
        }
    }
}

/// A nonnegative `s` with `s * s <= x < (s + 1) * (s + 1)` is `sqrt_floor(x)`:
/// no other integer satisfies the same bounds, since squaring is monotone on
/// nonnegative integers.
pub proof fn lemma_sqrt_floor_unique(x: int, s: int)
    requires
        0 <= s,
        s * s <= x,
        x < (s + 1) * (s + 1),
    ensures
        sqrt_floor(x) == s,
{
    lemma_sqrt_floor_bounds(x);
    let r = sqrt_floor(x);
    if r < s {
        assert((r + 1) * (r + 1) <= s * s) by (nonlinear_arith)
            requires
                0 <= r,
                r < s,
        ;
    }
    if s < r {
        assert((s + 1) * (s + 1) <= r * r) by (nonlinear_arith)
            requires
                0 <= s,
                s < r,
        ;
    }
}

} // verus!
