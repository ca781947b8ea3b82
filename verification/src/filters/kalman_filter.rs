//! The filter itself: it owns a system model and the current posterior
//! belief, and drives the predict/update recursion.

use vstd::prelude::*;
use crate::filters::gaussian_state::GaussianState;
use crate::filters::systems::SystemModel;
use crate::linalg::{mat_add, mat_identity, mat_mul, mat_sub, mat_transpose, mat_try_inverse, s_clone, vec_zeros};

verus! {

/// The error conditions the filter reports. Both are returned to the caller
/// as explicit result values, never swallowed; the caller decides whether to
/// retry, skip the step, or abort.
#[derive(Clone, Copy, Debug, PartialEq, Eq, Structural)]
pub enum KFError {
    /// `predict` was called before any successful `update`. Recoverable:
    /// call `update` first.
    UninitializedState,
    /// The innovation covariance was not invertible during `update`; the
    /// posterior is left as it was. Recoverable: the measurement is dropped.
    SingularInnovationCovariance,
}

impl KFError {
    /// A short description of the error condition.
    pub fn description(&self) -> (r: &'static str)
        ensures
            *self == KFError::UninitializedState ==> r@ == "No measurements recieved"@,
            *self == KFError::SingularInnovationCovariance ==> r@ == "Singular innovation covariance"@,
    {
        match *self {
            KFError::UninitializedState => "No measurements recieved",
            KFError::SingularInnovationCovariance => "Singular innovation covariance",
        }
    }
}

/// A Kalman/extended-Kalman filter: one system model, owned exclusively, and
/// the posterior belief after the most recently assimilated measurement,
/// absent until the first successful `update`.
#[verifier::reject_recursive_types(T)]
#[verifier::reject_recursive_types(S)]
#[verifier::reject_recursive_types(O)]
#[verifier::reject_recursive_types(M)]
pub struct KalmanFilter<T, const S: usize, const O: usize, M: SystemModel<T, S, O>> {
    system_model: M,
    posterior: Option<GaussianState<T, S>>,
}

impl<T, const S: usize, const O: usize, M: SystemModel<T, S, O>> KalmanFilter<T, S, O, M> {
    /// The posterior belief, if any measurement has been assimilated yet.
    pub closed spec fn spec_posterior(self) -> Option<GaussianState<T, S>> {
        self.posterior
    }

    /// The system model the filter owns.
    pub closed spec fn spec_model(self) -> M {
        self.system_model
    }

    /// Whether the filter is tracking, that is, holds a posterior belief.
    pub open spec fn initialized(self) -> bool {
        self.spec_posterior() is Some
    }

    /// What `predict` returns: the current posterior, or the error that says
    /// no measurement has been assimilated yet.
    pub open spec fn spec_predict(self) -> Result<GaussianState<T, S>, KFError> {
        match self.spec_posterior() {
            Some(p) => Ok(p),
            None => Err(KFError::UninitializedState),
        }
    }

    /// Construct a filter around a system model, with no posterior: the
    /// first `update` call initializes it. No failure mode.
    pub fn new(system_model: M) -> (r: Self)
        ensures
            !r.initialized(),
            r.spec_model() == system_model,
    {
        Self { system_model, posterior: None }
    }
}

impl<T: nalgebra::RealField, const S: usize, const O: usize, M: SystemModel<T, S, O>> KalmanFilter<T, S, O, M> {
    /// Read the current belief: a copy of the posterior, unchanged. Fails
    /// with `UninitializedState` if no `update` has succeeded yet; the
    /// filter itself is never changed.
    pub fn predict(&mut self) -> (r: Result<GaussianState<T, S>, KFError>)
        ensures
            *final(self) == *old(self),
            r == old(self).spec_predict(),
    {
        match &self.posterior {
            Some(p) => Ok(p.duplicate()),
            None => Err(KFError::UninitializedState),
        }
    }

    /// Assimilate one measurement: propagate the belief through the
    /// dynamics, then blend in the measurement through the Kalman gain.
    ///
    /// When no posterior is present yet, the measurement is assimilated
    /// against the default prior belief: zero mean, identity covariance.
    ///
    /// A singular innovation covariance is reported as an error and the
    /// posterior is left exactly as it was, so a degenerate measurement
    /// model cannot corrupt the belief.
    pub fn update(&mut self, z: &nalgebra::SVector<T, O>, dt: T) -> (res: Result<(), KFError>)
        ensures
            final(self).spec_model() == old(self).spec_model(),
            res is Ok ==> final(self).initialized(),
            res is Err ==> {
                &&& res->Err_0 == KFError::SingularInnovationCovariance
                &&& final(self).spec_posterior() == old(self).spec_posterior()
            },
    {
        let prior_belief: GaussianState<T, S> = match &self.posterior {
            Some(posterior) => posterior.duplicate(),
            None => GaussianState { mean: vec_zeros(), covariance: mat_identity() },
        };

        let f = self.system_model.state_transition_matrix(&prior_belief, s_clone(&dt));
        let q = self.system_model.process_noise_covariance(&prior_belief, s_clone(&dt));

        let prior = GaussianState {
            mean: self.system_model.propagate(&prior_belief, s_clone(&dt)),
            covariance: mat_add(&mat_mul(&mat_mul(&f, &prior_belief.covariance), &mat_transpose(&f)), &q),
        };

        let h = self.system_model.observation_matrix(&prior, s_clone(&dt));
        let r = self.system_model.observation_noise_covariance(&prior, s_clone(&dt));

        let innovation = GaussianState {
            mean: mat_sub(z, &self.system_model.observe(&prior, dt)),
            covariance: mat_add(&mat_mul(&mat_mul(&h, &prior.covariance), &mat_transpose(&h)), &r),
        };

        let kalman_gain = match mat_try_inverse(&innovation.covariance) {
            Some(inv) => mat_mul(&mat_mul(&prior.covariance, &mat_transpose(&h)), &inv),
            None => {
                return Err(KFError::SingularInnovationCovariance);
            },
        };

        self.posterior = Some(GaussianState {
            mean: mat_add(&prior.mean, &mat_mul(&kalman_gain, &innovation.mean)),
            covariance: mat_mul(&mat_sub(&mat_identity(), &mat_mul(&kalman_gain, &h)), &prior.covariance),
        });

        Ok(())
    }
}

/// `predict` fails exactly on a filter that has assimilated nothing, and
/// then only ever with `UninitializedState`: a fresh filter reports the
/// error rather than a default belief.
pub proof fn lemma_predict_uninitialized<T, const S: usize, const O: usize, M: SystemModel<T, S, O>>(
    kf: KalmanFilter<T, S, O, M>,
)
    ensures
        kf.spec_predict() is Err <==> !kf.initialized(),
        kf.spec_predict() is Err ==> kf.spec_predict()->Err_0 == KFError::UninitializedState,
{
}

/// Once tracking, always tracking: whatever `update` returns, a filter that
/// held a posterior before the call still holds one after it. The two
/// premises are exactly what `update` ensures of its outcome.
pub proof fn lemma_tracking_preserved<T, const S: usize, const O: usize, M: SystemModel<T, S, O>>(
    pre: KalmanFilter<T, S, O, M>,
    post: KalmanFilter<T, S, O, M>,
    res: Result<(), KFError>,
)
    requires
        pre.initialized(),
        res is Ok ==> post.initialized(),
        res is Err ==> post.spec_posterior() == pre.spec_posterior(),
    ensures
        post.initialized(),
{
}

/// Reading the belief is idempotent: two `predict` calls with no `update`
/// between them return the very same result, since `predict` leaves the
/// filter unchanged and its result is a function of the filter state alone.
pub proof fn lemma_predict_idempotent<T, const S: usize, const O: usize, M: SystemModel<T, S, O>>(
    kf: KalmanFilter<T, S, O, M>,
    r1: Result<GaussianState<T, S>, KFError>,
    r2: Result<GaussianState<T, S>, KFError>,
)
    requires
        r1 == kf.spec_predict(),
        r2 == kf.spec_predict(),
    ensures
        r1 == r2,
{
}

} // verus!
