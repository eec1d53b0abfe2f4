use vstd::prelude::*;
use crate::fraction::{Frac, Ratio};

verus! {

/// The sampling distribution of one arm's mean: its mean and its variance
/// (the square of the standard error), as exact fractions.
pub struct ArmModel {
    pub mean: Frac,
    pub var: Frac,
}

/// Binomial arm: `c` conversions out of `n` trials. The mean is the proportion
/// `p = c / n` and the variance is `p * (1 - p) / n = c * (n - c) / n^3`.
pub open spec fn binomial_model(c: int, n: int) -> ArmModel {
    ArmModel {
        mean: Frac { num: c, den: n },
        var: Frac { num: c * (n - c), den: n * n * n },
    }
}

/// Normal arm: observed mean `x` and population variance `v` of the metric
/// over `n` samples. The variance of the mean is `v / n`.
pub open spec fn normal_model(x: Frac, v: Frac, n: int) -> ArmModel {
    ArmModel { mean: x, var: Frac { num: v.num, den: v.den * n } }
}

/// Executable sampling distribution of one arm.
#[derive(Clone, Copy, Debug, PartialEq, Eq)]
pub struct SampleDistribution {
    pub mean: Ratio,
    pub var: Ratio,
}

impl View for SampleDistribution {
    type V = ArmModel;

    open spec fn view(&self) -> ArmModel {
        ArmModel { mean: self.mean@, var: self.var@ }
    }
}

impl SampleDistribution {
    /// The mean fits the ranges that the z-test's cross products rely on:
    /// a numerator of 64 bits and a denominator of 32 bits, never negative.
    pub open spec fn wf(&self) -> bool {
        i64::MIN <= self.mean.num <= i64::MAX && 0 <= self.mean.den <= u32::MAX
    }
}

/// Sampling distribution of a binomial arm with `c` conversions out of `n` trials.
pub fn binomial_arm(c: u32, n: u32) -> (r: SampleDistribution)
    ensures
        r@ == binomial_model(c as int, n as int),
        r.wf(),
{
    let ci = c as i128;
    let ni = n as i128;
    let d = ni - ci;
    assert(-0x1_0000_0000_0000_0000 <= ci * d <= 0x1_0000_0000_0000_0000) by (nonlinear_arith)
        requires
            0 <= ci <= u32::MAX,
            -0x1_0000_0000 <= d <= u32::MAX,
    ;
    assert(0 <= ni * ni <= 0x1_0000_0000_0000_0000) by (nonlinear_arith)
        requires
            0 <= ni <= u32::MAX,
    ;
    let nn = ni * ni;
    assert(0 <= nn * ni <= 0x1_0000_0000_0000_0000_0000_0000) by (nonlinear_arith)
        requires
            0 <= ni <= u32::MAX,
            nn == ni * ni,
    ;
    SampleDistribution {
        mean: Ratio { num: ci, den: ni },
        var: Ratio { num: ci * d, den: nn * ni },
    }
}

/// Sampling distribution of the mean of an arm with observed mean `x` and
/// variance `v` over `n` samples.
pub fn normal_arm(x: Ratio, v: Ratio, n: u32) -> (r: SampleDistribution)
    requires
        x.fits(),
        v.fits(),
    ensures
        r@ == normal_model(x@, v@, n as int),
        r.wf(),
{
    let ni = n as i128;
    assert(0 <= v.den * ni <= 0x1_0000_0000_0000_0000) by (nonlinear_arith)
        requires
            0 < v.den <= u32::MAX,
            0 <= ni <= u32::MAX,
    ;
    SampleDistribution { mean: x, var: Ratio { num: v.num, den: v.den * ni } }
}

} // verus!
