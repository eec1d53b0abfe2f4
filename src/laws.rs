use vstd::prelude::*;
use crate::fraction::{Frac, Ratio};
use crate::experiment::{arm_models, Command};
use crate::ztest::{mean_difference, pooled_variance, uplift, z_below};

verus! {

/// The same experiment with arms A and B exchanged.
pub open spec fn swapped(cmd: Command) -> Command {
    match cmd {
        Command::Binomial { c1, c2 } => Command::Binomial { c1: c2, c2: c1 },
        Command::Normal { x1, x2, v1, v2 } => Command::Normal { x1: x2, x2: x1, v1: v2, v2: v1 },
    }
}

/// Two identical binomial arms: the difference of the means is zero, so
/// `z = 0` wherever it is defined, and both arms have the same variance. With
/// some but not all trials converting, the variance of the difference is
/// positive, so `z = 0` exactly. The uplift is zero as soon as arm A has
/// conversions.
pub proof fn lemma_identical_binomial_arms(n: u32, c: u32)
    ensures
        ({
            let (a, b) = arm_models(n as int, n as int, Command::Binomial { c1: c, c2: c });
            &&& a.var == b.var
            &&& mean_difference(a, b).num == 0
            &&& n != 0 ==> mean_difference(a, b).is_zero()
            &&& n != 0 && c != 0 ==> uplift(a, b).is_zero()
            &&& 0 < c < n ==> pooled_variance(a, b).num > 0 && pooled_variance(a, b).den > 0
        }),
{
    assert(n != 0 ==> n * n != 0) by (nonlinear_arith);
    assert(n != 0 && c != 0 ==> c * n != 0) by (nonlinear_arith);
    if 0 < c < n {
        let (c, n) = (c as int, n as int);
        let (vn, vd) = (c * (n - c), n * n * n);
        assert(vn > 0 && vd > 0) by (nonlinear_arith)
            requires 0 < c < n, vn == c * (n - c), vd == n * n * n;
        assert(vn * vd + vn * vd > 0 && vd * vd > 0) by (nonlinear_arith)
            requires vn > 0, vd > 0;
    }
}

/// Two identical normal arms: the difference of the means is zero, so `z = 0`
/// wherever it is defined, and both arms have the same variance. With samples
/// and a positive variance, the variance of the difference is positive, so
/// `z = 0` exactly. The uplift is zero as soon as the mean is not zero.
pub proof fn lemma_identical_normal_arms(n: u32, x: Ratio, v: Ratio)
    requires
        x.fits(),
        v.fits(),
    ensures
        ({
            let (a, b) = arm_models(n as int, n as int, Command::Normal { x1: x, x2: x, v1: v, v2: v });
            &&& a.var == b.var
            &&& mean_difference(a, b).is_zero()
            &&& x.num != 0 ==> uplift(a, b).is_zero()
            &&& n > 0 && v.num > 0 ==> pooled_variance(a, b).num > 0 && pooled_variance(a, b).den > 0
        }),
{
    let (xn, xd, vn, vd, n) = (x.num as int, x.den as int, v.num as int, v.den as int, n as int);
    assert(xd * xd > 0) by (nonlinear_arith)
        requires xd > 0;
    assert(xn != 0 ==> xn * xd != 0) by (nonlinear_arith)
        requires xd > 0;
    if n > 0 && vn > 0 {
        let w = vd * n;
        assert(w > 0) by (nonlinear_arith)
            requires vd > 0, n > 0, w == vd * n;
        assert(vn * w + vn * w > 0 && w * w > 0) by (nonlinear_arith)
            requires vn > 0, w > 0;
    }
}

/// Exchanging the arms negates the difference of the means and keeps the
/// variance of the difference, so `z` becomes `-z`. The uplift is recomputed
/// from the exchanged means, `mean_a / mean_b - 1`, so that
/// `(1 + uplift) * (1 + uplift') = 1`.
pub proof fn lemma_swapped_arms(n1: u32, n2: u32, cmd: Command)
    ensures
        ({
            let (a, b) = arm_models(n1 as int, n2 as int, cmd);
            let (sa, sb) = arm_models(n2 as int, n1 as int, swapped(cmd));
            let u = uplift(a, b);
            let su = uplift(sa, sb);
            &&& mean_difference(sa, sb) == mean_difference(a, b).neg()
            &&& pooled_variance(sa, sb) == pooled_variance(a, b)
            &&& su == (Frac {
                num: a.mean.num * b.mean.den - b.mean.num * a.mean.den,
                den: b.mean.num * a.mean.den,
            })
            &&& (u.num + u.den) * (su.num + su.den) == u.den * su.den
        }),
{
    let (a, b) = arm_models(n1 as int, n2 as int, cmd);
    let (an, ad, bn, bd) = (a.mean.num, a.mean.den, b.mean.num, b.mean.den);
    let (avn, avd, bvn, bvd) = (a.var.num, a.var.den, b.var.num, b.var.den);
    assert(ad * bd == bd * ad) by (nonlinear_arith);
    assert(avd * bvd == bvd * avd) by (nonlinear_arith);
    assert((bn * ad - an * bd + an * bd) * (an * bd - bn * ad + bn * ad)
        == (an * bd) * (bn * ad)) by (nonlinear_arith);
}

/// With arm A and the variances fixed, a larger mean of arm B gives a strictly
/// larger difference of the means over the same variance of the difference,
/// hence a strictly larger `z` wherever that variance is positive.
pub proof fn lemma_normal_mean_b_monotone(
    n1: u32,
    n2: u32,
    x1: Ratio,
    v1: Ratio,
    v2: Ratio,
    x2: Ratio,
    y2: Ratio,
)
    requires
        x1.fits(),
        v1.fits(),
        v2.fits(),
        x2.fits(),
        y2.fits(),
        x2@.less_than(y2@),
    ensures
        ({
            let (a, b) = arm_models(n1 as int, n2 as int, Command::Normal { x1, x2, v1, v2 });
            let (c, d) = arm_models(n1 as int, n2 as int, Command::Normal { x1, x2: y2, v1, v2 });
            let v = pooled_variance(a, b);
            &&& mean_difference(a, b).less_than(mean_difference(c, d))
            &&& pooled_variance(c, d) == v
            &&& v.num > 0 && v.den > 0 ==> z_below(mean_difference(a, b), v, mean_difference(c, d), v)
        }),
{
    let (a, b) = arm_models(n1 as int, n2 as int, Command::Normal { x1, x2, v1, v2 });
    let (c, d) = arm_models(n1 as int, n2 as int, Command::Normal { x1, x2: y2, v1, v2 });
    let (an, ad, bn, bd, cn, cd) = (x1.num as int, x1.den as int, x2.num as int, x2.den as int, y2.num as int, y2.den as int);
    let (k, l) = (ad * cd, ad * bd);
    assert(k > 0 && l > 0) by (nonlinear_arith)
        requires ad > 0, bd > 0, cd > 0, k == ad * cd, l == ad * bd;
    assert((bn * ad - an * bd) * k == bn * ad * k - an * bd * k) by (nonlinear_arith);
    assert((cn * ad - an * cd) * l == cn * ad * l - an * cd * l) by (nonlinear_arith);
    assert(an * bd * k == an * cd * l) by (nonlinear_arith)
        requires k == ad * cd, l == ad * bd;
    assert(bn * ad * k == ad * ad * (bn * cd)) by (nonlinear_arith)
        requires k == ad * cd;
    assert(cn * ad * l == ad * ad * (cn * bd)) by (nonlinear_arith)
        requires l == ad * bd;
    assert(ad * ad * (bn * cd) < ad * ad * (cn * bd)) by (nonlinear_arith)
        requires ad > 0, bn * cd < cn * bd;
    let v = pooled_variance(a, b);
    if v.num > 0 && v.den > 0 {
        lemma_z_below_same_variance(mean_difference(a, b), mean_difference(c, d), v);
    }
}

/// Over one positive variance, a smaller difference of the means gives a
/// smaller standardized statistic.
proof fn lemma_z_below_same_variance(d1: Frac, d2: Frac, v: Frac)
    requires
        d1.less_than(d2),
        v.num > 0,
        v.den > 0,
    ensures
        z_below(d1, v, d2, v),
{
    let (p, q, k) = (d1.num * d2.den, d2.num * d1.den, v.num * v.den);
    assert(k > 0) by (nonlinear_arith)
        requires v.num > 0, v.den > 0, k == v.num * v.den;
    assert(d1.num >= 0 <==> p >= 0) by (nonlinear_arith)
        requires d2.den > 0, p == d1.num * d2.den;
    assert(d2.num < 0 <==> q < 0) by (nonlinear_arith)
        requires d1.den > 0, q == d2.num * d1.den;
    lemma_square_scaled_monotone(p, q, k);
    assert(d1.num * d1.num * v.num * (d2.den * d2.den * v.den) == p * p * k) by (nonlinear_arith)
        requires p == d1.num * d2.den, k == v.num * v.den;
    assert(d2.num * d2.num * v.num * (d1.den * d1.den * v.den) == q * q * k) by (nonlinear_arith)
        requires q == d2.num * d1.den, k == v.num * v.den;
}

/// For `p < q` and a positive `k`, `p^2 * k` and `q^2 * k` are ordered as `p`
/// and `q` when both are non-negative, and reversed when both are negative.
proof fn lemma_square_scaled_monotone(p: int, q: int, k: int)
    requires
        p < q,
        k > 0,
    ensures
        p >= 0 ==> p * p * k < q * q * k,
        q < 0 ==> p * p * k > q * q * k,
{
    if p >= 0 {
        assert(p * p < q * q) by (nonlinear_arith)
            requires 0 <= p < q;
        assert(p * p * k < q * q * k) by (nonlinear_arith)
            requires p * p < q * q, k > 0;
    }
    if q < 0 {
        assert(p * p > q * q) by (nonlinear_arith)
            requires p < q < 0;
        assert(p * p * k > q * q * k) by (nonlinear_arith)
            requires p * p > q * q, k > 0;
    }
}

/// With arm A fixed, a larger conversion rate of arm B (`c2 / n2 < d2 / m2`)
/// gives a strictly larger difference of the means.
pub proof fn lemma_binomial_rate_b_monotone(n1: u32, c1: u32, n2: u32, c2: u32, m2: u32, d2: u32)
    requires
        n1 > 0,
        n2 > 0,
        m2 > 0,
        c2 * m2 < d2 * n2,
    ensures
        ({
            let (a, b) = arm_models(n1 as int, n2 as int, Command::Binomial { c1, c2 });
            let (c, d) = arm_models(n1 as int, m2 as int, Command::Binomial { c1, c2: d2 });
            mean_difference(a, b).less_than(mean_difference(c, d))
        }),
{
    let (n1, c1, n2, c2, m2, d2) = (n1 as int, c1 as int, n2 as int, c2 as int, m2 as int, d2 as int);
    assert(n1 * n2 > 0 && n1 * m2 > 0) by (nonlinear_arith)
        requires n1 > 0, n2 > 0, m2 > 0;
    let (k, l) = (n1 * m2, n1 * n2);
    assert((c2 * n1 - c1 * n2) * k == c2 * n1 * k - c1 * n2 * k) by (nonlinear_arith);
    assert((d2 * n1 - c1 * m2) * l == d2 * n1 * l - c1 * m2 * l) by (nonlinear_arith);
    assert(c1 * n2 * k == c1 * m2 * l) by (nonlinear_arith)
        requires k == n1 * m2, l == n1 * n2;
    assert(c2 * n1 * k == n1 * n1 * (c2 * m2)) by (nonlinear_arith)
        requires k == n1 * m2;
    assert(d2 * n1 * l == n1 * n1 * (d2 * n2)) by (nonlinear_arith)
        requires l == n1 * n2;
    assert(n1 * n1 * (c2 * m2) < n1 * n1 * (d2 * n2)) by (nonlinear_arith)
        requires n1 > 0, c2 * m2 < d2 * n2;
}

/// An arm A without trials leaves the proportion and the variance of A
/// undefined, and with them the difference of the means, hence `z`.
pub proof fn lemma_empty_arm_a(n2: u32, c1: u32, c2: u32)
    ensures
        ({
            let (a, b) = arm_models(0, n2 as int, Command::Binomial { c1, c2 });
            &&& !a.mean.defined()
            &&& !mean_difference(a, b).defined()
            &&& !a.var.defined()
        }),
{
    assert(0 * (n2 as int) == 0) by (nonlinear_arith);
}

} // verus!
