//! The shared belief representation: a mean vector paired with a covariance
//! matrix, both of a fixed compile-time dimension.

use vstd::prelude::*;

verus! {

/// A Gaussian belief over an `S`-dimensional state: a length-`S` mean vector
/// and an `S`-by-`S` covariance matrix. A pure data container; operations
/// that produce new beliefs live in the filter.
#[derive(Clone)]
#[verifier::reject_recursive_types(T)]
#[verifier::reject_recursive_types(S)]
pub struct GaussianState<T, const S: usize> {
    /// The mean of the belief.
    pub mean: nalgebra::SVector<T, S>,
    /// The covariance of the belief; symmetric and positive semi-definite
    /// whenever the inputs it was built from are.
    pub covariance: nalgebra::SMatrix<T, S, S>,
}

impl<T: nalgebra::RealField, const S: usize> GaussianState<T, S> {
    /// An exact copy of the belief, pinned in the contract.
    pub fn duplicate(&self) -> (r: Self)
        ensures
            r == *self,
    {
        GaussianState {
            mean: self.mean.clone(),
            covariance: self.covariance.clone(),
        }
    }
}

} // verus!
