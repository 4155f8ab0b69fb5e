//! Per-pixel accumulation of radiance samples.
//!
//! One `RadianceSample` is created per output pixel; each jittered ray's
//! linear color is added to it, and it is consumed once to produce the
//! pixel's average linear radiance. The average is the exact integer
//! quotient of the channel sum by the sample count, so a constant input
//! color averages to itself for every sample count.

use vstd::prelude::*;
use vstd::arithmetic::div_mod::lemma_div_multiples_vanish;

use crate::color::RADIANCE_MAX;

verus! {

/// One linear color, three fixed-point channels in micro-units.
#[derive(Clone, Copy, Debug, PartialEq, Eq, Structural)]
pub struct LinearColor {
    pub r: i64,
    pub g: i64,
    pub b: i64,
}

impl LinearColor {
    /// A channel triple usable as one radiance sample: each channel
    /// non-negative and within the pipeline's radiance bound.
    pub open spec fn wf(self) -> bool {
        0 <= self.r <= RADIANCE_MAX && 0 <= self.g <= RADIANCE_MAX && 0 <= self.b
            <= RADIANCE_MAX
    }
}

/// The running sum of radiance samples for one pixel.
pub struct RadianceSample {
    pub sum_r: i64,
    pub sum_g: i64,
    pub sum_b: i64,
    pub count: u32,
}

impl RadianceSample {
    /// Channel sums stay bounded by the count times the radiance bound,
    /// so they can never overflow before `u32::MAX` samples.
    pub open spec fn wf(self) -> bool {
        0 <= self.sum_r <= self.count * RADIANCE_MAX && 0 <= self.sum_g <= self.count
            * RADIANCE_MAX && 0 <= self.sum_b <= self.count * RADIANCE_MAX
    }

    /// Starts an empty accumulation.
    pub fn new() -> (s: RadianceSample)
        ensures
            s.wf(),
            s.sum_r == 0 && s.sum_g == 0 && s.sum_b == 0,
            s.count == 0,
    {
        RadianceSample { sum_r: 0, sum_g: 0, sum_b: 0, count: 0 }
    }

    /// Adds one ray's linear color to the running sum.
    pub fn add(&mut self, c: LinearColor)
        requires
            old(self).wf(),
            c.wf(),
            old(self).count < u32::MAX,
        ensures
            final(self).wf(),
            final(self).sum_r == old(self).sum_r + c.r,
            final(self).sum_g == old(self).sum_g + c.g,
            final(self).sum_b == old(self).sum_b + c.b,
            final(self).count == old(self).count + 1,
    {
        proof {
            let n = old(self).count as int;
            assert((n + 1) * RADIANCE_MAX == n * RADIANCE_MAX + RADIANCE_MAX) by (nonlinear_arith);
            assert(n * RADIANCE_MAX <= u32::MAX * RADIANCE_MAX) by (nonlinear_arith)
                requires
                    n <= u32::MAX,
            ;
        }
        self.sum_r = self.sum_r + c.r;
        self.sum_g = self.sum_g + c.g;
        self.sum_b = self.sum_b + c.b;
        self.count = self.count + 1;
    }

    /// Consumes the accumulation: each channel sum divided by the sample
    /// count, the exact integer average.
    pub fn average(&self) -> (c: LinearColor)
        requires
            self.wf(),
            self.count >= 1,
        ensures
            c.r == self.sum_r as int / self.count as int,
            c.g == self.sum_g as int / self.count as int,
            c.b == self.sum_b as int / self.count as int,
            c.wf(),
    {
        proof {
            lemma_avg_in_range(self.sum_r as int, self.count as int);
            lemma_avg_in_range(self.sum_g as int, self.count as int);
            lemma_avg_in_range(self.sum_b as int, self.count as int);
        }
        LinearColor {
            r: self.sum_r / (self.count as i64),
            g: self.sum_g / (self.count as i64),
            b: self.sum_b / (self.count as i64),
        }
    }
}

proof fn lemma_avg_in_range(sum: int, count: int)
    requires
        1 <= count,
        0 <= sum <= count * RADIANCE_MAX,
    ensures
        0 <= sum / count <= RADIANCE_MAX,
{
    assert(0 <= sum / count <= RADIANCE_MAX) by (nonlinear_arith)
        requires
            1 <= count,
            0 <= sum <= count * RADIANCE_MAX,
    ;
}

/// A pixel whose every sample is the same color `c` averages to exactly
/// `c`, whatever the sample count: if `n` samples have been accumulated
/// and each channel sum is `n` times the corresponding channel of `c`,
/// the average equals `c`.
pub proof fn lemma_constant_samples_average(s: RadianceSample, c: LinearColor)
    requires
        s.wf(),
        c.wf(),
        s.count >= 1,
        s.sum_r == s.count * c.r,
        s.sum_g == s.count * c.g,
        s.sum_b == s.count * c.b,
    ensures
        s.sum_r as int / s.count as int == c.r,
        s.sum_g as int / s.count as int == c.g,
        s.sum_b as int / s.count as int == c.b,
{
    lemma_div_multiples_vanish(c.r as int, s.count as int);
    lemma_div_multiples_vanish(c.g as int, s.count as int);
    lemma_div_multiples_vanish(c.b as int, s.count as int);
}

} // verus!
