//! Online scalar parameter estimation, independent of the filter core.

pub mod running_mean;
