use vstd::prelude::*;
use crate::fraction::Ratio;
use crate::distribution::{
    binomial_arm, binomial_model, normal_arm, normal_model, ArmModel, SampleDistribution,
};
use crate::ztest::{ztest, mean_difference, uplift, ZTest};

verus! {

/// The observations of an experiment, one variant per kind of metric. The
/// sample sizes of the two arms are shared by both kinds and kept beside it.
#[derive(Clone, Copy, Debug, PartialEq, Eq)]
pub enum Command {
    /// A rate, such as a conversion rate: conversions of A and of B.
    Binomial { c1: u32, c2: u32 },
    /// A continuous metric, such as revenue: means and variances of A and of B.
    Normal { x1: Ratio, x2: Ratio, v1: Ratio, v2: Ratio },
}

/// The sampling distributions of arms A and B for the given sample sizes.
pub open spec fn arm_models(n1: int, n2: int, cmd: Command) -> (ArmModel, ArmModel) {
    match cmd {
        Command::Binomial { c1, c2 } => (binomial_model(c1 as int, n1), binomial_model(c2 as int, n2)),
        Command::Normal { x1, x2, v1, v2 } => (
            normal_model(x1@, v1@, n1),
            normal_model(x2@, v2@, n2),
        ),
    }
}

/// The observations lie in the range that the builders take: means and
/// variances of a normal experiment are fractions that fit (see `Ratio::fits`).
pub open spec fn observations_fit(cmd: Command) -> bool {
    match cmd {
        Command::Binomial { .. } => true,
        Command::Normal { x1, x2, v1, v2 } => x1.fits() && x2.fits() && v1.fits() && v2.fits(),
    }
}

/// Builds the sampling distributions of arms A and B.
pub fn arms(n1: u32, n2: u32, cmd: &Command) -> (r: (SampleDistribution, SampleDistribution))
    requires
        observations_fit(*cmd),
    ensures
        (r.0@, r.1@) == arm_models(n1 as int, n2 as int, *cmd),
        r.0.wf(),
        r.1.wf(),
{
    match *cmd {
        Command::Binomial { c1, c2 } => (binomial_arm(c1, n1), binomial_arm(c2, n2)),
        Command::Normal { x1, x2, v1, v2 } => (normal_arm(x1, v1, n1), normal_arm(x2, v2, n2)),
    }
}

/// Runs the z-test of arm B against arm A on an experiment with sample sizes
/// `n1` and `n2`.
pub fn evaluate(n1: u32, n2: u32, cmd: &Command) -> (r: ZTest)
    requires
        observations_fit(*cmd),
    ensures
        ({
            let (a, b) = arm_models(n1 as int, n2 as int, *cmd);
            &&& r.mean_diff@ == mean_difference(a, b)
            &&& r.uplift@ == uplift(a, b)
            &&& r.var_a@ == a.var
            &&& r.var_b@ == b.var
        }),
{
    let (a, b) = arms(n1, n2, cmd);
    ztest(&a, &b)
}

} // verus!
