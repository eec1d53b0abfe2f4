use abtest::{arms, binomial_arm, evaluate, normal_arm, ztest, Command, Ratio, ZTest};
use statrs::distribution::{ContinuousCDF, Normal};

fn r(num: i128, den: i128) -> Ratio {
    Ratio { num, den }
}

fn whole(x: i128) -> Ratio {
    r(x, 1)
}

fn value(r: Ratio) -> f64 {
    r.num as f64 / r.den as f64
}

fn p_value(t: &ZTest) -> f64 {
    let z = value(t.mean_diff) / (value(t.var_a) + value(t.var_b)).sqrt();
    Normal::new(0.0, 1.0).unwrap().cdf(z)
}

fn same(a: Ratio, b: Ratio) -> bool {
    a.den != 0 && b.den != 0 && a.num * b.den == b.num * a.den
}

#[test]
fn binomial_identical_scenario() {
    let t = evaluate(100, 100, &Command::Binomial { c1: 10, c2: 10 });
    assert!(same(t.var_a, Ratio { num: 9, den: 10000 }));
    assert!(same(t.var_b, Ratio { num: 9, den: 10000 }));
    assert!((value(t.var_a).sqrt() - 0.03).abs() < 1e-12);
    assert_eq!(t.mean_diff.num, 0);
    assert_eq!(t.uplift.num, 0);
    assert_eq!(p_value(&t), 0.5);
    assert_eq!(value(t.uplift), 0.0);
}

#[test]
fn normal_scenario() {
    let t = evaluate(1000, 1000, &Command::Normal { x1: whole(10), x2: whole(11), v1: whole(25), v2: whole(25) });
    assert!(same(t.mean_diff, Ratio { num: 1, den: 1 }));
    assert!(same(t.uplift, Ratio { num: 1, den: 10 }));
    assert!(same(t.var_a, Ratio { num: 1, den: 40 }));
    let sd = (value(t.var_a) + value(t.var_b)).sqrt();
    assert!((sd - 0.2236).abs() < 1e-4);
    assert!((value(t.mean_diff) / sd - 4.4721).abs() < 1e-4);
    let p = p_value(&t);
    assert!((p - 0.999996).abs() < 1e-6);
    assert!((value(t.uplift) - 0.1).abs() < 1e-12);
}

#[test]
fn normal_identical_arms() {
    let t = evaluate(50, 50, &Command::Normal { x1: whole(7), x2: whole(7), v1: whole(3), v2: whole(3) });
    assert_eq!(t.mean_diff.num, 0);
    assert_eq!(t.uplift.num, 0);
    assert_eq!(p_value(&t), 0.5);
}

#[test]
fn binomial_arm_exact() {
    let a = binomial_arm(10, 100);
    assert_eq!(a.mean, Ratio { num: 10, den: 100 });
    assert_eq!(a.var, Ratio { num: 900, den: 1_000_000 });
}

#[test]
fn binomial_arm_largest_sizes() {
    let a = binomial_arm(u32::MAX, u32::MAX);
    assert_eq!(a.var.num, 0);
    let n = u32::MAX as i128;
    assert_eq!(a.var.den, n * n * n);
    let b = binomial_arm(0, u32::MAX);
    let t = ztest(&b, &a);
    assert!(same(t.mean_diff, Ratio { num: 1, den: 1 }));
}

#[test]
fn binomial_more_conversions_than_trials() {
    let a = binomial_arm(3, 2);
    assert_eq!(a.var, Ratio { num: -3, den: 8 });
}

#[test]
fn normal_arm_exact() {
    let a = normal_arm(whole(-4), whole(9), 3);
    assert_eq!(a.mean, Ratio { num: -4, den: 1 });
    assert_eq!(a.var, Ratio { num: 9, den: 3 });
}

#[test]
fn swapping_arms_negates_z() {
    let t = evaluate(200, 300, &Command::Binomial { c1: 20, c2: 45 });
    let s = evaluate(300, 200, &Command::Binomial { c1: 45, c2: 20 });
    assert!(same(s.mean_diff, Ratio { num: -t.mean_diff.num, den: t.mean_diff.den }));
    assert!((p_value(&s) - (1.0 - p_value(&t))).abs() < 1e-12);
    // uplift of B over A is 0.15 / 0.1 - 1 = 0.5; the other way 0.1 / 0.15 - 1 = -1/3
    assert!(same(t.uplift, Ratio { num: 1, den: 2 }));
    assert!(same(s.uplift, Ratio { num: -1, den: 3 }));
}

#[test]
fn larger_mean_b_raises_p_value() {
    let low = evaluate(100, 100, &Command::Normal { x1: whole(10), x2: whole(10), v1: whole(16), v2: whole(16) });
    let high = evaluate(100, 100, &Command::Normal { x1: whole(10), x2: whole(11), v1: whole(16), v2: whole(16) });
    assert!(value(low.mean_diff) < value(high.mean_diff));
    assert!(p_value(&low) < p_value(&high));
    let low = evaluate(100, 100, &Command::Binomial { c1: 10, c2: 12 });
    let high = evaluate(100, 100, &Command::Binomial { c1: 10, c2: 15 });
    assert!(p_value(&low) < p_value(&high));
}

#[test]
fn empty_arm_a_is_degenerate() {
    let t = evaluate(0, 100, &Command::Binomial { c1: 5, c2: 10 });
    assert_eq!(t.mean_diff.den, 0);
    assert_eq!(t.var_a.den, 0);
    assert!(p_value(&t).is_nan() || p_value(&t).is_infinite());
}

#[test]
fn zero_mean_a_gives_undefined_uplift() {
    let t = evaluate(100, 100, &Command::Normal { x1: whole(0), x2: whole(3), v1: whole(1), v2: whole(1) });
    assert_eq!(t.uplift.den, 0);
    assert!(value(t.uplift).is_infinite());
}

#[test]
fn same_inputs_same_result() {
    let cmd = Command::Normal { x1: whole(12), x2: whole(13), v1: whole(40), v2: whole(44) };
    assert_eq!(evaluate(500, 600, &cmd), evaluate(500, 600, &cmd));
    assert_eq!(p_value(&evaluate(500, 600, &cmd)).to_bits(), p_value(&evaluate(500, 600, &cmd)).to_bits());
}

#[test]
fn arms_dispatches_by_mode() {
    let (a, b) = arms(10, 20, &Command::Binomial { c1: 1, c2: 2 });
    assert_eq!(a, binomial_arm(1, 10));
    assert_eq!(b, binomial_arm(2, 20));
    let (a, b) = arms(10, 20, &Command::Normal { x1: whole(1), x2: whole(2), v1: whole(3), v2: whole(4) });
    assert_eq!(a, normal_arm(whole(1), whole(3), 10));
    assert_eq!(b, normal_arm(whole(2), whole(4), 20));
}

#[test]
fn normal_fractional_observations() {
    let cmd = Command::Normal { x1: r(105, 10), x2: r(112, 10), v1: r(25, 10), v2: r(31, 10) };
    let t = evaluate(100, 100, &cmd);
    assert!(same(t.mean_diff, r(7, 10)));
    assert!(same(t.uplift, r(1, 15)));
    assert!(same(t.var_a, r(1, 40)));
    assert!(same(t.var_b, r(31, 1000)));
    let z = 0.7 / (0.025f64 + 0.031).sqrt();
    let expected = Normal::new(0.0, 1.0).unwrap().cdf(z);
    assert!((p_value(&t) - expected).abs() < 1e-12);
    assert!(p_value(&t) > 0.99);
}

#[test]
fn normal_arm_fractional() {
    let a = normal_arm(r(-3, 4), r(5, 2), 7);
    assert_eq!(a.mean, r(-3, 4));
    assert_eq!(a.var, r(5, 14));
}

#[test]
fn larger_fractional_mean_b_raises_p_value() {
    let low = evaluate(40, 40, &Command::Normal { x1: r(1, 2), x2: r(51, 100), v1: r(1, 4), v2: r(1, 4) });
    let high = evaluate(40, 40, &Command::Normal { x1: r(1, 2), x2: r(13, 25), v1: r(1, 4), v2: r(1, 4) });
    assert!(value(low.mean_diff) < value(high.mean_diff));
    assert!(p_value(&low) < p_value(&high));
}
