use carsim::encoder::{Encoder, WheelEncoder};
use carsim::error::SimError;
use carsim::gps::{GpsXYZ, XYZValues};
use carsim::imu::IMUDevice;
use carsim::matrix::Mat4;
use carsim::sensor_measurement::SensorSet;
use carsim::session::Simulation;
use carsim::state::CarState;

fn moving_car(velocity: i64) -> CarState {
    let mut s = CarState::new();
    s.velocity = velocity;
    s
}

fn diag(v: i64) -> Mat4 {
    let mut m = Mat4::zero();
    m.m00 = v;
    m.m11 = v;
    m.m22 = v;
    m.m33 = v;
    m
}

#[test]
fn encoder_count_is_monotone_forward() {
    // resolution 100, forward direction, noisy: with non-negative velocity
    // the count never decreases.
    let mut enc = WheelEncoder::new(100, false, 1_000, 7).unwrap();
    let mut last = enc.get_count();
    assert_eq!(last, 0);
    for v in [0i64, 500_000, 1_000_000, 0, 2_000_000] {
        enc.from_carstate(&moving_car(v));
        let now = enc.get_count();
        assert!(now >= last, "count decreased: {now} < {last}");
        last = now;
    }
}

#[test]
fn encoder_count_is_monotone_reverse() {
    let mut enc = WheelEncoder::new(100, true, 1_000, 7).unwrap();
    let mut last = enc.get_count();
    for v in [0i64, 500_000, 1_000_000, 0, 2_000_000] {
        enc.from_carstate(&moving_car(v));
        let now = enc.get_count();
        assert!(now <= last, "count increased: {now} > {last}");
        last = now;
    }
}

#[test]
fn encoder_count_is_exact_without_noise() {
    // 1 m/s for 0.1 s at 100 counts per revolution: 0.001 counts per tick
    let mut enc = WheelEncoder::new(100, false, 0, 1).unwrap();
    for _ in 0..3 {
        enc.from_carstate(&moving_car(1_000_000));
    }
    assert_eq!(enc.get_count(), 3_000);
    assert_eq!(enc.encoder_recorder.len(), 3);
    assert_eq!(enc.encoder_recorder[2].last_count, 2_000);
}

#[test]
fn zero_resolution_is_invalid_configuration() {
    assert_eq!(
        WheelEncoder::new(0, false, 0, 1).unwrap_err(),
        SimError::InvalidConfiguration
    );
}

#[test]
fn gps_covariance_needs_two_fixes() {
    let mut gps = GpsXYZ::new(None, 42).unwrap();
    assert_eq!(
        gps.get_covariance(None).unwrap_err(),
        SimError::InsufficientHistory
    );
    gps.record(0, 0, 0, 0, 1_000_000);
    assert_eq!(
        gps.get_covariance(None).unwrap_err(),
        SimError::InsufficientHistory
    );
    assert_eq!(
        gps.get_covariance(Some(1)).unwrap_err(),
        SimError::InsufficientHistory
    );
    // two fixes are enough
    gps.record(1_000_000, 0, 0, 0, 3_000_000);
    assert!(gps.get_covariance(None).is_ok());
}

#[test]
fn gps_speed_variance_is_exact() {
    let mut gps = GpsXYZ::new(None, 42).unwrap();
    // speeds 1.0, 2.0, 3.0: population variance 2/3
    gps.record(0, 0, 0, 0, 1_000_000);
    gps.record(1_000_000, 0, 0, 0, 2_000_000);
    gps.record(2_000_000, 0, 0, 0, 3_000_000);
    // the default window is every fix recorded so far
    assert_eq!(gps.get_covariance(None).unwrap(), 666_666);
    assert_eq!(gps.get_covariance(Some(3)).unwrap(), 666_666);
    // an explicit count restricts to the first fixes: variance of 1.0, 2.0
    assert_eq!(gps.get_covariance(Some(2)).unwrap(), 250_000);
}

#[test]
fn gps_speed_from_identical_positions_is_zero() {
    let mut gps = GpsXYZ::new(None, 42).unwrap();
    gps.record(0, 0, 0, 0, 0);
    gps.record(1_000_000, 0, 0, 0, 0);
    gps.to_cartesian(Some(0));
    assert_eq!(
        gps.calculate_speed(None).unwrap_err(),
        SimError::InsufficientHistory
    );
    gps.to_cartesian(Some(1));
    assert_eq!(gps.calculate_speed(None).unwrap(), 0);
    // the second fix's speed was refreshed from the finite difference
    assert_eq!(gps.gps_values[1].speed, 0);
}

#[test]
fn gps_sampling_appends_fixes_and_xyz() {
    let mut gps = GpsXYZ::new(None, 5).unwrap();
    let car = moving_car(1_000_000);
    gps.from_carstate(&car);
    gps.from_carstate(&car);
    assert_eq!(gps.gps_values.len(), 2);
    assert_eq!(gps.xyz_values.len(), 2);
    assert!(!gps.initial);
    // noise amplitude 0.01: the recorded speed stays within the noise bound
    let err = (gps.gps_values[0].speed - 1_000_000).abs();
    assert!(err <= 2_000_000, "speed noise out of bound: {err}");
    let p = gps.get_local_xyz(Some(0));
    assert!((p.x - car.x).abs() <= 20_000);
}

#[test]
fn imu_dead_reckoning_tracks_a_stationary_car() {
    let mut sensors = SensorSet::new(&CarState::new(), 9).unwrap();
    let car = CarState::new();
    for _ in 0..5 {
        sensors.from_carstate(&car);
    }
    // with tiny noise the dead-reckoned position stays near the origin
    assert!(sensors.imu.previous_x.abs() < 1_000_000);
    assert!(sensors.imu.previous_y.abs() < 1_000_000);
    assert_eq!(sensors.imu.imu_recorder.len(), 6);
    assert_eq!(sensors.encoder.encoder_recorder.len(), 5);
}

#[test]
fn identical_seeds_reproduce_the_whole_run() {
    let build = || {
        Simulation::new(
            0,
            240_000_000,
            0,
            40_000_000,
            20_000_000,
            0,
            2_000_000,
            500_000,
            100_000,
            None,
            1234,
            diag(1_000),
            diag(50_000_000),
            diag(100_000_000),
        )
        .unwrap()
    };
    let mut a = build();
    let mut b = build();
    let controls: Vec<(i64, i64)> = (0..10).map(|_| (100_000i64, 1_000i64)).collect();
    a.run_ticks(&controls);
    for &(acc, steer) in controls.iter() {
        b.tick(acc, steer);
    }
    assert_eq!(a.car.state.x, b.car.state.x);
    assert_eq!(a.car.state.y, b.car.state.y);
    assert_eq!(a.car.state.yaw, b.car.state.yaw);
    assert_eq!(a.car.state.velocity, b.car.state.velocity);
    assert_eq!(a.sensors.measured_state.x, b.sensors.measured_state.x);
    assert_eq!(a.sensors.measured_state.yaw, b.sensors.measured_state.yaw);
    assert_eq!(a.filter.state.x, b.filter.state.x);
    assert_eq!(a.filter.state.velocity, b.filter.state.velocity);
    assert_eq!(a.filter.covariance.m00, b.filter.covariance.m00);
    assert_eq!(a.sensors.encoder.count, b.sensors.encoder.count);
    assert_eq!(a.filter.history.len(), b.filter.history.len());
}

#[test]
fn different_seeds_diverge() {
    let build = |seed: u64| {
        Simulation::new(
            0,
            240_000_000,
            0,
            40_000_000,
            20_000_000,
            0,
            2_000_000,
            500_000,
            100_000,
            None,
            seed,
            diag(1_000),
            diag(50_000_000),
            diag(100_000_000),
        )
        .unwrap()
    };
    let mut a = build(1);
    let mut b = build(2);
    for _ in 0..10 {
        a.tick(100_000, 1_000);
        b.tick(100_000, 1_000);
    }
    // ground truth is noise-free and must agree; the observations differ
    assert_eq!(a.car.state.x, b.car.state.x);
    assert_ne!(
        (a.sensors.gps.gps_values[0].latitude, a.sensors.gps.gps_values[0].speed),
        (b.sensors.gps.gps_values[0].latitude, b.sensors.gps.gps_values[0].speed)
    );
}

#[test]
fn tick_publishes_a_consistent_snapshot() {
    let mut sim = Simulation::new(
        0,
        240_000_000,
        0,
        40_000_000,
        20_000_000,
        0,
        2_000_000,
        500_000,
        100_000,
        None,
        77,
        diag(1_000),
        diag(50_000_000),
        diag(100_000_000),
    )
    .unwrap();
    let out = sim.tick(100_000, 1_000);
    assert!(!out.update_skipped);
    assert_eq!(out.true_state.velocity, 10_000);
    assert_eq!(out.true_state.x, sim.car.state.x);
    assert_eq!(out.estimate.x, sim.filter.state.x);
    assert_eq!(out.observed_state.x, sim.sensors.measured_state.x);
    // the first tick's update only seeds the filter; the log starts empty
    assert_eq!(sim.filter.history.len(), 0);
    let out2 = sim.tick(100_000, 1_000);
    assert!(!out2.update_skipped);
    assert_eq!(sim.filter.history.len(), 1);
}

#[test]
fn imu_samples_are_readable_and_reintegrable() {
    let mut imu = IMUDevice::new(3);
    let first = imu.get_imu_data(None);
    assert_eq!(first.acce_x, 0);
    assert_eq!(first.gyro_z, 0);
    imu.from_carstate(&moving_car(1_000_000));
    assert_eq!(imu.imu_recorder.len(), 2);
    let latest = imu.get_imu_data(None);
    assert_eq!(latest.acce_x, imu.get_imu_data(Some(1)).acce_x);
    let v_before = imu.previous_velocity;
    imu.get_imu_velocity_yaw(None, Some(100_000));
    assert!(imu.previous_velocity >= v_before);
}

#[test]
fn encoder_record_carries_its_configuration() {
    let rec = Encoder::new(
        "Left Wheel Encoder".to_string(),
        "Quadrature".to_string(),
        10_000,
        true,
        Some(0),
    );
    assert_eq!(rec.resolution, Some(10_000));
    assert!(rec.reverse_direction);
    assert_eq!(rec.count, 0);
    assert_eq!(rec.noise_std_dev, Some(0));
}

#[test]
fn xyz_difference_is_componentwise() {
    let mut a = XYZValues::new();
    a.time_stamp = 5;
    a.x = 10_000_000;
    a.y = -2_000_000;
    a.z = 500_000;
    let mut b = XYZValues::new();
    b.x = 4_000_000;
    b.y = 1_000_000;
    b.z = 500_000;
    let d = a.minus(&b);
    assert_eq!(d.time_stamp, 5);
    assert_eq!(d.x, 6_000_000);
    assert_eq!(d.y, -3_000_000);
    assert_eq!(d.z, 0);
}
