//! The system-model capability interface that parameterizes the filter, and
//! its fixed-matrix (linear time-invariant) implementation.

use vstd::prelude::*;
use crate::filters::gaussian_state::GaussianState;
use crate::linalg::mat_mul;

verus! {

/// What the filter asks of a system model: the linearized Jacobians and the
/// noise covariances about a given belief and timestep, plus the forward
/// state and measurement maps.
///
/// Separating the Jacobians (used for covariance propagation) from the
/// `propagate`/`observe` maps (used for the mean) lets one interface serve
/// both a plain linear filter and an extended filter whose dynamics are
/// nonlinear: implementors supply the four accessors and may override the
/// two derived maps, whose defaults are the linear ones.
pub trait SystemModel<T, const S: usize, const O: usize> {
    /// Linearization of the dynamics about `state`: S-by-S.
    fn state_transition_matrix(&self, state: &GaussianState<T, S>, dt: T) -> nalgebra::SMatrix<T, S, S>;

    /// Linearization of the measurement function about `state`: O-by-S.
    fn observation_matrix(&self, state: &GaussianState<T, S>, dt: T) -> nalgebra::SMatrix<T, O, S>;

    /// Process noise covariance about `state`: S-by-S, symmetric PSD.
    fn process_noise_covariance(&self, state: &GaussianState<T, S>, dt: T) -> nalgebra::SMatrix<T, S, S>;

    /// Observation noise covariance about `state`: O-by-O, symmetric PSD.
    fn observation_noise_covariance(&self, state: &GaussianState<T, S>, dt: T) -> nalgebra::SMatrix<T, O, O>;

    /// The forward state map used for the mean; the default is the linear
    /// map given by the state transition matrix.
    fn propagate(&self, state: &GaussianState<T, S>, dt: T) -> nalgebra::SVector<T, S> where T: nalgebra::RealField {
        let f = self.state_transition_matrix(state, dt);
        mat_mul(&f, &state.mean)
    }

    /// The measurement map used for the mean; the default is the linear map
    /// given by the observation matrix.
    fn observe(&self, state: &GaussianState<T, S>, dt: T) -> nalgebra::SVector<T, O> where T: nalgebra::RealField {
        let h = self.observation_matrix(state, dt);
        mat_mul(&h, &state.mean)
    }
}

/// A linear time-invariant system: all four accessors ignore the state and
/// timestep and return the stored matrices.
#[verifier::reject_recursive_types(T)]
#[verifier::reject_recursive_types(S)]
#[verifier::reject_recursive_types(O)]
pub struct LTISystem<T, const S: usize, const O: usize> {
    /// State transition matrix.
    pub f: nalgebra::SMatrix<T, S, S>,
    /// Observation model.
    pub h: nalgebra::SMatrix<T, O, S>,
    /// Process noise covariance.
    pub q: nalgebra::SMatrix<T, S, S>,
    /// Observation noise covariance.
    pub r: nalgebra::SMatrix<T, O, O>,
}

impl<T, const S: usize, const O: usize> LTISystem<T, S, O> {
    /// Bundle the four matrices of a linear time-invariant system.
    pub fn new(
        f: nalgebra::SMatrix<T, S, S>,
        h: nalgebra::SMatrix<T, O, S>,
        q: nalgebra::SMatrix<T, S, S>,
        r: nalgebra::SMatrix<T, O, O>,
    ) -> (res: Self)
        ensures
            res.f == f,
            res.h == h,
            res.q == q,
            res.r == r,
    {
        Self { f, h, q, r }
    }
}

impl<T: Clone, const S: usize, const O: usize> SystemModel<T, S, O> for LTISystem<T, S, O> {
    fn state_transition_matrix(&self, _state: &GaussianState<T, S>, _dt: T) -> (r: nalgebra::SMatrix<T, S, S>)
        ensures
            r == self.f,
    {
        self.f.clone()
    }

    fn observation_matrix(&self, _state: &GaussianState<T, S>, _dt: T) -> (r: nalgebra::SMatrix<T, O, S>)
        ensures
            r == self.h,
    {
        self.h.clone()
    }

    fn process_noise_covariance(&self, _state: &GaussianState<T, S>, _dt: T) -> (r: nalgebra::SMatrix<T, S, S>)
        ensures
            r == self.q,
    {
        self.q.clone()
    }

    fn observation_noise_covariance(&self, _state: &GaussianState<T, S>, _dt: T) -> (r: nalgebra::SMatrix<T, O, O>)
        ensures
            r == self.r,
    {
        self.r.clone()
    }
}

} // verus!
