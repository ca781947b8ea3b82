//! An online estimator for the mean and variance of a scalar parameter,
//! using Welford's numerically stable one-pass algorithm.

use vstd::prelude::*;
use crate::linalg::{s_add, s_clone, s_div, s_mul, s_one, s_sqrt, s_sub, s_zero};

verus! {

/// Welford's online mean/variance estimator: a running count, the running
/// mean, and the running sum of squared deviations. Append-only: samples
/// can be added, never removed, and the count only increases.
pub struct RunningMean<T> {
    mean: T,
    m2: T,
    cnt: usize,
    /// The count in scalar form, kept alongside `cnt` for the arithmetic.
    cnt_scalar: T,
}

impl<T> RunningMean<T> {
    /// How many samples have been accumulated.
    pub closed spec fn spec_count(self) -> usize {
        self.cnt
    }

    /// The running mean accumulated so far.
    pub closed spec fn spec_mean(self) -> T {
        self.mean
    }
}

impl<T: nalgebra::RealField> RunningMean<T> {
    /// A fresh estimator: no samples, zero accumulators.
    pub fn new() -> (r: Self)
        ensures
            r.spec_count() == 0,
    {
        RunningMean { mean: s_zero(), m2: s_zero(), cnt: 0, cnt_scalar: s_zero() }
    }

    /// Fold one sample into the running estimate; the count grows by
    /// exactly one.
    pub fn update(&mut self, new_val: T)
        requires
            old(self).spec_count() < usize::MAX,
        ensures
            final(self).spec_count() == old(self).spec_count() + 1,
    {
        self.cnt = self.cnt + 1;
        self.cnt_scalar = s_add(&self.cnt_scalar, &s_one());

        let delta = s_sub(&new_val, &self.mean);
        self.mean = s_add(&self.mean, &s_div(&delta, &self.cnt_scalar));

        let delta2 = s_sub(&new_val, &self.mean);
        self.m2 = s_add(&self.m2, &s_mul(&delta, &delta2));
    }

    /// The running mean and the sample variance, owed exactly when at least
    /// two samples have been seen; with fewer there is no sample variance
    /// and the estimator reports insufficient data.
    pub fn get(&self) -> (r: Result<(T, T), &'static str>)
        ensures
            r is Ok <==> self.spec_count() >= 2,
            r is Ok ==> r->Ok_0.0 == self.spec_mean(),
            r is Err ==> r->Err_0@ == "No measurements recieved"@,
    {
        match self.cnt {
            0 => Err("No measurements recieved"),
            1 => Err("No measurements recieved"),
            _ => Ok((
                s_clone(&self.mean),
                s_div(&self.m2, &s_sub(&self.cnt_scalar, &s_one())),
            )),
        }
    }

    /// A symmetric confidence-interval half-width for the given z-score
    /// multiplier: the multiplier times the standard error of the mean.
    /// Owed exactly when at least two samples have been seen.
    pub fn confidence(&self, percentile: T) -> (r: Result<T, &'static str>)
        ensures
            r is Ok <==> self.spec_count() >= 2,
            r is Err ==> r->Err_0@ == "Need at least two measuerments for confidence interval"@,
    {
        match self.cnt {
            0 | 1 => Err("Need at least two measuerments for confidence interval"),
            _ => {
                let sample_variance = s_div(&self.m2, &s_sub(&self.cnt_scalar, &s_one()));
                Ok(s_div(&s_mul(&percentile, &s_sqrt(&sample_variance)), &s_sqrt(&self.cnt_scalar)))
            },
        }
    }
}

} // verus!
