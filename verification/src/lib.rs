//! Recursive Bayesian state estimation for discrete-time dynamical systems
//! observed through noisy measurements: a Kalman/extended-Kalman filter core
//! built on `nalgebra` matrices, plus an independent online mean/variance
//! estimator (Welford's algorithm).
//!
//! The library is generic over the scalar type of the matrices; any
//! `nalgebra::RealField` scalar can be used.

pub mod filters;
mod linalg;
pub mod parameter;
