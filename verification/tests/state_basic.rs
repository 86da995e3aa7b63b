use carsim::state::{CarColor, CarState};

#[test]
fn test_car_state() {
    let mut car_state = CarState::new();
    car_state.x = 1_000_000;
    car_state.y = 2_000_000;
    car_state.yaw = 3_000_000;
    car_state.velocity = 4_000_000;
    car_state.width = Some(5_000_000);
    car_state.length = Some(6_000_000);
    car_state.update_time_stamp(7_000_000);
    println!("{:?}", car_state);
}

#[test]
fn test_car_state_to_rectangular() {
    let mut car_state = CarState::new();
    car_state.x = 1_000_000;
    car_state.y = 2_000_000;
    car_state.yaw = 3_000_000;
    car_state.velocity = 4_000_000;
    car_state.width = Some(5_000_000);
    car_state.length = Some(6_000_000);
    car_state.update_time_stamp(7_000_000);
    let rectangular = car_state.to_rectangular(Some(CarColor::Red));
    println!("{:?}", rectangular);
}

#[test]
fn state_matrix_round_trip_is_exact() {
    let mut s = CarState::new();
    s.x = 123_456_789;
    s.y = -987_654_321;
    s.yaw = 31_415_926;
    s.velocity = 2_718_281;
    let m = s.to_matrixv4();
    let back = CarState::from_matrixv4(m);
    assert_eq!(back.x, s.x);
    assert_eq!(back.y, s.y);
    assert_eq!(back.yaw, s.yaw);
    assert_eq!(back.velocity, s.velocity);
}

#[test]
fn blend_and_scale_are_componentwise() {
    let mut a = CarState::new();
    a.x = 1_000_000;
    a.y = 2_000_000;
    a.yaw = 500_000;
    a.velocity = 3_000_000;
    let mut b = CarState::new();
    b.x = 10_000_000;
    b.y = -1_000_000;
    b.yaw = 250_000;
    b.velocity = 1_000_000;
    let sum = a.blend_states(&b);
    assert_eq!(sum.x, 11_000_000);
    assert_eq!(sum.y, 1_000_000);
    assert_eq!(sum.yaw, 750_000);
    assert_eq!(sum.velocity, 4_000_000);
    let diff = a.diff_states(&b);
    assert_eq!(diff.x, -9_000_000);
    assert_eq!(diff.velocity, 2_000_000);
    // scaling by 0.5 halves every kinematic component
    let half = a.scale_state(500_000);
    assert_eq!(half.x, 500_000);
    assert_eq!(half.y, 1_000_000);
    assert_eq!(half.yaw, 250_000);
    assert_eq!(half.velocity, 1_500_000);
}

#[test]
fn rgba_of_each_color() {
    assert_eq!(CarColor::Red.to_rgba(), (255, 0, 0, 255));
    assert_eq!(CarColor::Green.to_rgba(), (0, 255, 0, 255));
    assert_eq!(CarColor::Blue.to_rgba(), (0, 0, 255, 255));
}
