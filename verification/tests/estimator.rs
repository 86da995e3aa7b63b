use carsim::error::SimError;
use carsim::kalman_filter::KalmanFilter;
use carsim::matrix::Mat4;
use carsim::state::CarState;

fn diag(v: i64) -> Mat4 {
    let mut m = Mat4::zero();
    m.m00 = v;
    m.m11 = v;
    m.m22 = v;
    m.m33 = v;
    m
}

fn observation(x: i64, y: i64, yaw: i64, velocity: i64) -> CarState {
    let mut s = CarState::new();
    s.x = x;
    s.y = y;
    s.yaw = yaw;
    s.velocity = velocity;
    s
}

fn trace(m: &Mat4) -> i128 {
    m.m00 as i128 + m.m11 as i128 + m.m22 as i128 + m.m33 as i128
}

#[test]
fn inverse_of_a_diagonal_matrix_is_exact() {
    // diag(2.0) inverts to diag(0.5)
    let inv = diag(2_000_000).invert_scaled().unwrap();
    assert_eq!(inv.m00, 500_000);
    assert_eq!(inv.m11, 500_000);
    assert_eq!(inv.m22, 500_000);
    assert_eq!(inv.m33, 500_000);
    assert_eq!(inv.m01, 0);
    assert_eq!(inv.m23, 0);
}

#[test]
fn singular_matrix_has_no_inverse() {
    assert!(Mat4::zero().invert_scaled().is_none());
    let mut m = diag(1_000_000);
    m.m33 = 0;
    assert!(m.invert_scaled().is_none());
}

#[test]
fn update_trace_never_grows_on_a_stationary_noise_free_stream() {
    // well-conditioned R, prior diag(100), Q = 0; the sensor reports the
    // same state every tick, so each update can only tighten the belief.
    let mut kf = KalmanFilter::new(
        2_000_000,
        500_000,
        100_000,
        Mat4::zero(),
        diag(50_000_000),
        diag(100_000_000),
        None,
    )
    .unwrap();
    let obs = observation(10_000_000, -5_000_000, 250_000, 0);
    kf.update(&obs).unwrap();
    let mut last = trace(&kf.covariance);
    assert_eq!(last, 4 * 100_000_000);
    for _ in 0..10 {
        kf.update(&obs).unwrap();
        let now = trace(&kf.covariance);
        assert!(now <= last, "trace grew: {now} > {last}");
        assert!(now >= 0);
        last = now;
    }
    // the estimate stayed on the stationary observation
    assert_eq!(kf.state.x, obs.x);
    assert_eq!(kf.state.y, obs.y);
    assert_eq!(kf.state.yaw, obs.yaw);
    assert_eq!(kf.state.velocity, obs.velocity);
}

#[test]
fn singular_innovation_covariance_skips_the_update() {
    // all-zero R together with an all-zero prior and Q makes S singular
    let mut kf = KalmanFilter::new(
        2_000_000,
        500_000,
        100_000,
        Mat4::zero(),
        Mat4::zero(),
        Mat4::zero(),
        None,
    )
    .unwrap();
    let first = observation(1_000_000, 2_000_000, 0, 500_000);
    kf.update(&first).unwrap();
    kf.predict(100_000, 1_000);
    let predicted = kf.state;
    let later = observation(9_000_000, 9_000_000, 9_000, 9_000);
    let res = kf.update(&later);
    assert_eq!(res.unwrap_err(), SimError::SingularInnovationCovariance);
    // the predicted estimate is untouched by the failed update
    assert_eq!(kf.state.x, predicted.x);
    assert_eq!(kf.state.y, predicted.y);
    assert_eq!(kf.state.yaw, predicted.yaw);
    assert_eq!(kf.state.velocity, predicted.velocity);
    // the seeding update and the skipped update leave the log empty
    assert_eq!(kf.history.len(), 0);
}

#[test]
fn first_observation_seeds_the_filter() {
    let mut kf = KalmanFilter::new(
        2_000_000,
        500_000,
        100_000,
        diag(1_000),
        diag(50_000_000),
        diag(100_000_000),
        None,
    )
    .unwrap();
    assert!(!kf.initialized);
    // predict before the first observation is a no-op
    kf.predict(100_000, 0);
    assert_eq!(kf.state.velocity, 0);
    let obs = observation(3_000_000, 4_000_000, 100_000, 2_000_000);
    kf.update(&obs).unwrap();
    assert!(kf.initialized);
    assert_eq!(kf.state.x, obs.x);
    assert_eq!(kf.covariance.m00, 100_000_000);
}

#[test]
fn bad_noise_matrix_is_invalid_configuration() {
    let too_big = diag(4_000_000_000_000_000);
    let res = KalmanFilter::new(
        2_000_000,
        500_000,
        100_000,
        too_big,
        Mat4::zero(),
        Mat4::zero(),
        None,
    );
    assert_eq!(res.unwrap_err(), SimError::InvalidConfiguration);
}
