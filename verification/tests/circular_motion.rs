use nalgebra::{SMatrix, SVector, Vector2};
use sp_estimate::filters::gaussian_state::GaussianState;
use sp_estimate::filters::kalman_filter::KalmanFilter;
use sp_estimate::filters::systems::{LTISystem, SystemModel};

const FREQ: f64 = 0.7854;
const T_MAX: f64 = 20.0;
const DT: f64 = 0.05;

fn generate_states() -> Vec<(f64, f64)> {
    let mut states = Vec::<(f64, f64)>::new();
    let mut t: f64 = 0.;

    while t < T_MAX {
        states.push(((FREQ * t).cos(), (FREQ * t).sin()));
        t += DT;
    }

    states
}

/// Deterministic normal samples with the given standard deviation: a linear
/// congruential generator fed through the Box-Muller transform.
fn normal_samples(seed: u64, n: usize, std_dev: f64) -> Vec<f64> {
    let mut state: u64 = seed;
    let mut uniform = move || {
        state = state
            .wrapping_mul(6364136223846793005)
            .wrapping_add(1442695040888963407);
        ((state >> 11) as f64) / ((1u64 << 53) as f64)
    };
    let mut out: Vec<f64> = Vec::with_capacity(n + 1);
    while out.len() < n {
        let u1 = uniform().max(1e-12);
        let u2 = uniform();
        let radius = (-2.0 * u1.ln()).sqrt();
        let angle = 2.0 * std::f64::consts::PI * u2;
        out.push(radius * angle.cos() * std_dev);
        out.push(radius * angle.sin() * std_dev);
    }
    out.truncate(n);
    out
}

/// Drive the filter over noisy observations of the circular trajectory and
/// return the mean squared error of the raw observations and of the
/// estimates against ground truth.
fn test_filter<const S: usize, M: SystemModel<f64, S, 2>>(
    seed: u64,
    filter: &mut KalmanFilter<f64, S, 2, M>,
) -> (f64, f64) {
    let states = generate_states();
    let noise = normal_samples(seed, 2 * states.len(), 0.1f64.sqrt());

    let obsv: Vec<(f64, f64)> = states
        .iter()
        .enumerate()
        .map(|(i, s)| (s.0 + noise[2 * i], s.1 + noise[2 * i + 1]))
        .collect();

    let est: Vec<(f64, f64)> = obsv
        .iter()
        .map(|o| {
            let _ = filter.update(&Vector2::new(o.0, o.1), DT);
            let est = match filter.predict() {
                Ok(e) => e,
                Err(_) => panic!(),
            };

            (est.mean[0], est.mean[1])
        })
        .collect();

    let obsv_mse: f64 = states
        .iter()
        .zip(obsv.iter())
        .map(|(a, b)| (a.0 - b.0).powf(2.0) + (a.1 - b.1).powf(2.0))
        .sum::<f64>()
        / states.len() as f64;
    let est_mse: f64 = states
        .iter()
        .zip(est.iter())
        .map(|(a, b)| (a.0 - b.0).powf(2.0) + (a.1 - b.1).powf(2.0))
        .sum::<f64>()
        / states.len() as f64;

    (obsv_mse, est_mse)
}

struct XYThetaTracker {
    h: SMatrix<f64, 2, 5>,
    q: SMatrix<f64, 5, 5>,
    r: SMatrix<f64, 2, 2>,
}

impl XYThetaTracker {
    fn new(process_noise: f64, observation_noise: f64) -> Self {
        let q = process_noise * SMatrix::<f64, 5, 5>::identity();
        let r = observation_noise * SMatrix::<f64, 2, 2>::identity();
        Self {
            h: SMatrix::identity(),
            q,
            r,
        }
    }
}

impl SystemModel<f64, 5, 2> for XYThetaTracker {
    fn propagate(&self, state: &GaussianState<f64, 5>, dt: f64) -> SVector<f64, 5> {
        let mut next: SVector<f64, 5> = SVector::zeros();
        next[0] = state.mean[0] + dt * state.mean[3] * state.mean[2].cos();
        next[1] = state.mean[1] + dt * state.mean[3] * state.mean[2].sin();
        next[2] = state.mean[2] + dt * state.mean[4];
        next[3] = state.mean[3];
        next[4] = state.mean[4];

        next
    }

    fn observe(&self, state: &GaussianState<f64, 5>, _dt: f64) -> SVector<f64, 2> {
        self.h * state.mean
    }

    fn state_transition_matrix(&self, state: &GaussianState<f64, 5>, dt: f64) -> SMatrix<f64, 5, 5> {
        let mut f: SMatrix<f64, 5, 5> = SMatrix::identity();
        f[(0, 2)] = -1. * dt * state.mean[3] * state.mean[2].sin();
        f[(0, 3)] = dt * state.mean[2].cos();
        f[(1, 2)] = dt * state.mean[3] * state.mean[2].cos();
        f[(1, 3)] = dt * state.mean[2].sin();
        f[(2, 4)] = dt;

        f
    }

    fn observation_matrix(&self, _state: &GaussianState<f64, 5>, _dt: f64) -> SMatrix<f64, 2, 5> {
        self.h.clone()
    }

    fn process_noise_covariance(&self, _state: &GaussianState<f64, 5>, _dt: f64) -> SMatrix<f64, 5, 5> {
        self.q.clone()
    }

    fn observation_noise_covariance(&self, _state: &GaussianState<f64, 5>, _dt: f64) -> SMatrix<f64, 2, 2> {
        self.r.clone()
    }
}

#[test]
fn xytheta_ekf() {
    let sys = XYThetaTracker::new(0.001, 0.1);
    let mut kf = KalmanFilter::new(sys);
    let (obsv_mse, est_mse) = test_filter(2001, &mut kf);

    assert!(est_mse.is_finite());
    assert!(est_mse < obsv_mse);
}

#[test]
fn constant_velocity_kf() {
    let sys = LTISystem::new(
        SMatrix::<f64, 4, 4>::from_row_slice(&[
            1.0, 0.0, DT, 0.0, //
            0.0, 1.0, 0.0, DT, //
            0.0, 0.0, 1.0, 0.0, //
            0.0, 0.0, 0.0, 1.0,
        ]),
        SMatrix::<f64, 2, 4>::from_row_slice(&[
            1.0, 0.0, 0.0, 0.0, //
            0.0, 1.0, 0.0, 0.0,
        ]),
        0.001 * SMatrix::identity(),
        0.1 * SMatrix::identity(),
    );
    let mut kf = KalmanFilter::new(sys);
    let (obsv_mse, est_mse) = test_filter(2002, &mut kf);

    assert!(est_mse.is_finite());
    assert!(est_mse < obsv_mse);
}

#[test]
fn constant_acceleration_kf() {
    let half_dt2 = 0.5 * DT.powf(2.0);
    let sys = LTISystem::new(
        SMatrix::<f64, 6, 6>::from_row_slice(&[
            1.0, 0.0, DT, 0.0, half_dt2, 0.0, //
            0.0, 1.0, 0.0, DT, 0.0, half_dt2, //
            0.0, 0.0, 1.0, 0.0, DT, 0.0, //
            0.0, 0.0, 0.0, 1.0, 0.0, DT, //
            0.0, 0.0, 0.0, 0.0, 1.0, 0.0, //
            0.0, 0.0, 0.0, 0.0, 0.0, 1.0,
        ]),
        SMatrix::<f64, 2, 6>::from_row_slice(&[
            1.0, 0.0, 0.0, 0.0, 0.0, 0.0, //
            0.0, 1.0, 0.0, 0.0, 0.0, 0.0,
        ]),
        0.001 * SMatrix::identity(),
        0.1 * SMatrix::identity(),
    );
    let mut kf = KalmanFilter::new(sys);
    let (obsv_mse, est_mse) = test_filter(2003, &mut kf);

    assert!(est_mse.is_finite());
    assert!(est_mse < obsv_mse);
}
