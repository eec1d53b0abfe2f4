use vstd::prelude::*;
use crate::fraction::{Frac, Ratio};
use crate::distribution::{ArmModel, SampleDistribution};

verus! {

/// Difference of the means, `mean_b - mean_a`: the numerator of `z`.
pub open spec fn mean_difference(a: ArmModel, b: ArmModel) -> Frac {
    Frac {
        num: b.mean.num * a.mean.den - a.mean.num * b.mean.den,
        den: a.mean.den * b.mean.den,
    }
}

/// Relative uplift of B over A, `mean_b / mean_a - 1`.
pub open spec fn uplift(a: ArmModel, b: ArmModel) -> Frac {
    Frac {
        num: b.mean.num * a.mean.den - a.mean.num * b.mean.den,
        den: a.mean.num * b.mean.den,
    }
}

/// Variance of the difference of two independent arms, `var_a + var_b`:
/// the square of the denominator of `z`.
pub open spec fn pooled_variance(a: ArmModel, b: ArmModel) -> Frac {
    Frac {
        num: a.var.num * b.var.den + b.var.num * a.var.den,
        den: a.var.den * b.var.den,
    }
}

/// The standardized statistic `d1 / sqrt(v1)` lies strictly below
/// `d2 / sqrt(v2)`, both variances being positive. Squares compare the
/// magnitudes without square roots: `d1^2 * v2 < d2^2 * v1` over a common
/// positive denominator.
pub open spec fn z_below(d1: Frac, v1: Frac, d2: Frac, v2: Frac) -> bool {
    let l = d1.num * d1.num * v2.num * (d2.den * d2.den * v1.den);
    let r = d2.num * d2.num * v1.num * (d1.den * d1.den * v2.den);
    &&& d1.den > 0 && d2.den > 0
    &&& v1.num > 0 && v1.den > 0 && v2.num > 0 && v2.den > 0
    &&& if d1.num < 0 && d2.num >= 0 {
        true
    } else if d1.num >= 0 && d2.num >= 0 {
        l < r
    } else if d1.num < 0 && d2.num < 0 {
        l > r
    } else {
        false
    }
}

/// Exact result of the z-test of arm B against arm A. The standardized
/// statistic is `z = mean_diff / sqrt(var_a + var_b)`.
#[derive(Clone, Copy, Debug, PartialEq, Eq)]
pub struct ZTest {
    pub mean_diff: Ratio,
    pub var_a: Ratio,
    pub var_b: Ratio,
    pub uplift: Ratio,
}

/// Compares arm B against arm A.
pub fn ztest(a: &SampleDistribution, b: &SampleDistribution) -> (r: ZTest)
    requires
        a.wf(),
        b.wf(),
    ensures
        r.mean_diff@ == mean_difference(a@, b@),
        r.uplift@ == uplift(a@, b@),
        r.var_a@ == a.var@,
        r.var_b@ == b.var@,
{
    let an = a.mean.num;
    let ad = a.mean.den;
    let bn = b.mean.num;
    let bd = b.mean.den;
    assert(-0x8000_0000_0000_0000_0000_0000 <= bn * ad <= 0x8000_0000_0000_0000_0000_0000)
        by (nonlinear_arith)
        requires
            i64::MIN <= bn <= i64::MAX,
            0 <= ad <= u32::MAX,
    ;
    assert(-0x8000_0000_0000_0000_0000_0000 <= an * bd <= 0x8000_0000_0000_0000_0000_0000)
        by (nonlinear_arith)
        requires
            i64::MIN <= an <= i64::MAX,
            0 <= bd <= u32::MAX,
    ;
    assert(0 <= ad * bd <= 0x1_0000_0000_0000_0000) by (nonlinear_arith)
        requires
            0 <= ad <= u32::MAX,
            0 <= bd <= u32::MAX,
    ;
    let an_bd = an * bd;
    let diff = bn * ad - an_bd;
    ZTest {
        mean_diff: Ratio { num: diff, den: ad * bd },
        var_a: a.var,
        var_b: b.var,
        uplift: Ratio { num: diff, den: an_bd },
    }
}

} // verus!
