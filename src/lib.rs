//! Monte Carlo estimate of the false and true positive rates of a
//! two-proportion chi-squared test on simulated A/B experiments.

pub mod arm;
pub mod sim;
pub mod stats;
