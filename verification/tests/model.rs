use carsim::car::{Car, KinematicBicycleModel};
use carsim::error::SimError;
use carsim::fixed::{isqrt_u128, SCALE};
use carsim::state::{CarColor, CarState};
use carsim::trig::{cos_fp, sin_fp, HALF_PI_FP, PI_FP};

const UNIT: i64 = SCALE;

fn fp(v: f64) -> i64 {
    (v * UNIT as f64).round() as i64
}

#[test]
fn one_tick_from_rest_matches_the_model_formula() {
    // wheelbase 2 m, max steer 0.5 rad, dt 0.1 s; start (0, 240, 0, 0);
    // control (0.1, 0.001) for one tick.
    let model = KinematicBicycleModel::new(fp(2.0), fp(0.5), fp(0.1)).unwrap();
    let next = model.predict(0, fp(240.0), 0, 0, fp(0.1), fp(0.001));
    assert_eq!(next.x, 0);
    assert_eq!(next.y, fp(240.0));
    assert_eq!(next.yaw, 0);
    assert_eq!(next.velocity, fp(0.01));
}

#[test]
fn steering_is_clamped_not_rejected() {
    let model = KinematicBicycleModel::new(fp(2.0), fp(0.5), fp(0.1)).unwrap();
    // a wildly out-of-range command behaves exactly like the clamp value
    let wild = model.predict(0, 0, 0, fp(1.0), 0, fp(10.0));
    let edge = model.predict(0, 0, 0, fp(1.0), 0, fp(0.5));
    assert_eq!(wild.yaw, edge.yaw);
    assert!(wild.yaw > 0);
    let wild_neg = model.predict(0, 0, 0, fp(1.0), 0, fp(-10.0));
    let edge_neg = model.predict(0, 0, 0, fp(1.0), 0, fp(-0.5));
    assert_eq!(wild_neg.yaw, edge_neg.yaw);
    assert_eq!(wild_neg.yaw, -wild.yaw);
    // an in-range command is used as given: half the steering, half the rate
    let half = model.predict(0, 0, 0, fp(1.0), 0, fp(0.25));
    assert_eq!(2 * half.yaw, edge.yaw);
}

#[test]
fn invalid_configuration_is_reported() {
    assert_eq!(
        KinematicBicycleModel::new(0, fp(0.5), fp(0.1)).unwrap_err(),
        SimError::InvalidConfiguration
    );
    assert_eq!(
        KinematicBicycleModel::new(fp(2.0), 0, fp(0.1)).unwrap_err(),
        SimError::InvalidConfiguration
    );
    assert_eq!(
        KinematicBicycleModel::new(fp(2.0), fp(0.5), -1).unwrap_err(),
        SimError::InvalidConfiguration
    );
    assert!(Car::new(0, 0, 0, fp(40.0), 0, 0, fp(2.0), fp(0.5), fp(0.1), None).is_err());
}

#[test]
fn trig_matches_the_usual_values() {
    let one = UNIT as f64;
    assert_eq!(sin_fp(0), 0);
    assert_eq!(cos_fp(0), UNIT);
    assert!((sin_fp(HALF_PI_FP) as f64 - one).abs() < 100.0);
    assert!((cos_fp(PI_FP) as f64 + one).abs() < 100.0);
    for k in -6..=6 {
        let theta = k * 700_000;
        let s = sin_fp(theta) as f64 / one;
        let c = cos_fp(theta) as f64 / one;
        let real = theta as f64 / one;
        assert!((s - real.sin()).abs() < 1e-3, "sin off at {theta}");
        assert!((c - real.cos()).abs() < 1e-3, "cos off at {theta}");
    }
}

#[test]
fn rectangle_corners_keep_their_distances_under_rotation() {
    let dist = |a: (i64, i64), b: (i64, i64)| -> f64 {
        let dx = (a.0 - b.0) as f64;
        let dy = (a.1 - b.1) as f64;
        (dx * dx + dy * dy).sqrt() / UNIT as f64
    };
    let mut flat = CarState::new();
    flat.x = fp(3.0);
    flat.y = fp(-2.0);
    let r0 = flat.to_rectangular(None);
    let mut turned = flat;
    turned.yaw = fp(1.0);
    let r1 = turned.to_rectangular(Some(CarColor::Green));
    let c0 = [(r0.x1, r0.y1), (r0.x2, r0.y2), (r0.x3, r0.y3), (r0.x4, r0.y4)];
    let c1 = [(r1.x1, r1.y1), (r1.x2, r1.y2), (r1.x3, r1.y3), (r1.x4, r1.y4)];
    for i in 0..4 {
        for j in 0..4 {
            let d0 = dist(c0[i], c0[j]);
            let d1 = dist(c1[i], c1[j]);
            assert!((d0 - d1).abs() < 0.01, "pair {i},{j}: {d0} vs {d1}");
        }
    }
}

#[test]
fn rectangle_stays_centred_on_the_vehicle() {
    // rotating about the vehicle origin keeps the corners' centroid on the
    // vehicle exactly: opposite corner offsets cancel
    for yaw in [0i64, fp(0.4), fp(1.0), fp(3.0), fp(-2.2)] {
        let mut st = CarState::new();
        st.x = fp(1.0);
        st.y = fp(-7.5);
        st.yaw = yaw;
        st.width = Some(fp(2.0));
        st.length = Some(fp(2.0));
        let r = st.to_rectangular(None);
        assert_eq!(r.x1 + r.x2 + r.x3 + r.x4, 4 * st.x, "x centroid at yaw {yaw}");
        assert_eq!(r.y1 + r.y2 + r.y3 + r.y4, 4 * st.y, "y centroid at yaw {yaw}");
    }
}

#[test]
fn car_step_advances_state_and_clock() {
    let mut car = Car::new(0, fp(240.0), 0, fp(40.0), fp(20.0), 0, fp(2.0), fp(0.5), fp(0.1),
        Some(CarColor::Blue)).unwrap();
    let _rect = car.step(fp(0.1), fp(0.001));
    assert_eq!(car.state.velocity, fp(0.01));
    assert_eq!(car.state.time_stamp, fp(0.1));
    assert_eq!(car.state.width, Some(fp(40.0)));
    let _rect2 = car.step(fp(0.1), fp(0.001));
    assert_eq!(car.state.velocity, fp(0.02));
    assert_eq!(car.state.time_stamp, fp(0.2));
    assert!(car.state.x > 0);
}

#[test]
fn integer_square_root_is_exact() {
    assert_eq!(isqrt_u128(0), 0);
    assert_eq!(isqrt_u128(1), 1);
    assert_eq!(isqrt_u128(143), 11);
    assert_eq!(isqrt_u128(144), 12);
    assert_eq!(isqrt_u128(145), 12);
    assert_eq!(isqrt_u128(10_000_000_000_000_000_000_000_000), 3_162_277_660_168);
}

#[test]
fn jacobian_entries_match_the_partial_derivatives() {
    let model = KinematicBicycleModel::new(fp(2.0), fp(0.5), fp(0.1)).unwrap();
    // at yaw 0, v 1 m/s, steering 0.25 rad
    let j = model.linearize(0, 0, 0, fp(1.0), fp(0.25));
    assert_eq!(j.m00, UNIT);
    assert_eq!(j.m11, UNIT);
    assert_eq!(j.m22, UNIT);
    assert_eq!(j.m33, UNIT);
    assert_eq!(j.m02, 0); // -v * sin(0) * dt
    assert_eq!(j.m03, fp(0.1)); // cos(0) * dt
    assert_eq!(j.m12, fp(0.1)); // v * cos(0) * dt
    assert_eq!(j.m13, 0); // sin(0) * dt
    assert_eq!(j.m23, fp(0.0125)); // steering * dt / wheelbase
    assert_eq!(j.m01, 0);
    assert_eq!(j.m30, 0);
}
