//! Exact arithmetic core of a one-sided two-sample z-test for A/B experiments.
//!
//! Each arm of an experiment is reduced to the sampling distribution of its
//! mean, held as exact fractions of integers. The test then compares the two
//! arms through the difference of their means and the relative uplift of B
//! over A. The standardized statistic is `z = d / sqrt(var_a + var_b)` and the
//! reported probability is the standard normal CDF at `z`; both involve
//! irrational values, so they are evaluated by the caller from the exact
//! quantities given here.

mod fraction;
mod distribution;
mod ztest;
mod experiment;
mod laws;

pub use fraction::{Frac, Ratio};
pub use distribution::{
    binomial_arm, binomial_model, normal_arm, normal_model, ArmModel, SampleDistribution,
};
pub use ztest::{mean_difference, pooled_variance, uplift, z_below, ztest, ZTest};
pub use experiment::{arm_models, arms, evaluate, observations_fit, Command};
pub use laws::{
    lemma_binomial_rate_b_monotone, lemma_empty_arm_a, lemma_identical_binomial_arms,
    lemma_identical_normal_arms, lemma_normal_mean_b_monotone, lemma_swapped_arms, swapped,
};
