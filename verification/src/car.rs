//! Kinematic bicycle model and the ground-truth vehicle simulator.
//!
//! `KinematicBicycleModel::predict` advances a state one step:
//!
//! ```text
//! steering' = clamp(steering, -max_steer, max_steer)
//! x'   = x + v * cos(yaw) * dt
//! y'   = y + v * sin(yaw) * dt
//! yaw' = yaw + (v / wheelbase) * steering' * dt
//! v'   = v + acceleration * dt
//! ```
//!
//! `linearize` returns the Jacobian of that transition, used by the
//! estimator for covariance propagation.  `Car` owns the ground-truth state
//! and advances it once per tick, deriving the oriented display rectangle
//! from the fresh state.

use crate::error::SimError;
use crate::fixed::{
    clamp_i64, clamp_s, lemma_abs_mul_bound, sat_i128, sat_s, scale_div_sat, tdiv_i128, tdiv_s,
    DT_MAX, POS_LIMIT, SCALE, SIZE_MAX, STEER_LIMIT, TIME_LIMIT, TRIG_LIMIT, VEL_LIMIT,
    WHEELBASE_MAX, YAW_LIMIT,
};
use crate::matrix::{mat_bounded_s, mat_identity_s, Mat4, Mat4V};
use crate::state::{
    car_state_wf, to_rectangular_s, CarColor, CarState, CarStateV, Rectangular,
};
use crate::trig::{cos_fp, cos_fp_s, sin_fp, sin_fp_s};
use vstd::prelude::*;

verus! {

/// Bound on the magnitude of any Jacobian entry produced by `linearize`.
pub const JAC_LIMIT: i64 = 100_000_000_000_000;

/// Discrete-time kinematic bicycle model: fixed physical parameters plus a
/// default state template.
#[derive(Clone, Copy, Debug)]
pub struct KinematicBicycleModel {
    /// Simulation step, in ticks of a second.
    pub dt: i64,
    /// Axle distance, in ticks of a metre.
    pub wheelbase: i64,
    /// Steering clamp, in ticks of a radian.
    pub max_steer: i64,
    /// The state the model was created with (at rest at the origin).
    pub state: CarState,
}

/// Mathematical view of the model parameters.
pub ghost struct KinematicBicycleModelV {
    pub dt: int,
    pub wheelbase: int,
    pub max_steer: int,
    pub state: CarStateV,
}

impl View for KinematicBicycleModel {
    type V = KinematicBicycleModelV;

    open spec fn view(&self) -> KinematicBicycleModelV {
        KinematicBicycleModelV {
            dt: self.dt as int,
            wheelbase: self.wheelbase as int,
            max_steer: self.max_steer as int,
            state: self.state@,
        }
    }
}

/// Valid model parameters: positive and within the representable range.
pub open spec fn model_params_ok(wheelbase: int, max_steer: int, dt: int) -> bool {
    &&& 0 < wheelbase <= WHEELBASE_MAX
    &&& 0 < max_steer <= STEER_LIMIT
    &&& 0 < dt <= DT_MAX
}

/// Well-formedness of a model value.
pub open spec fn model_wf(m: KinematicBicycleModelV) -> bool {
    &&& model_params_ok(m.wheelbase, m.max_steer, m.dt)
    &&& car_state_wf(m.state)
    &&& m.state.dt == m.dt
}

/// The state transition of the bicycle model, over mathematical integers.
/// Steering outside `[-max_steer, max_steer]` is clamped, never rejected.
/// The returned state carries no timestamp or display size; the owning
/// simulator fills those in.
pub open spec fn predict_s(
    dt: int,
    wheelbase: int,
    max_steer: int,
    x: int,
    y: int,
    yaw: int,
    velocity: int,
    acceleration: int,
    steering_angle: int,
) -> CarStateV {
    let steer = clamp_s(steering_angle, -max_steer, max_steer);
    let c = cos_fp_s(yaw);
    let sn = sin_fp_s(yaw);
    let sc = SCALE as int;
    CarStateV {
        dt,
        time_stamp: 0,
        x: sat_s(x + tdiv_s(velocity * c * dt, sc * sc), POS_LIMIT as int),
        y: sat_s(y + tdiv_s(velocity * sn * dt, sc * sc), POS_LIMIT as int),
        yaw: sat_s(yaw + tdiv_s(velocity * steer * dt, wheelbase * sc), YAW_LIMIT as int),
        velocity: sat_s(velocity + tdiv_s(acceleration * dt, sc), VEL_LIMIT as int),
        width: None,
        length: None,
    }
}

/// The Jacobian of `predict_s` with respect to (x, y, yaw, velocity),
/// evaluated at the given state and clamped steering.
pub open spec fn jacobian_s(
    dt: int,
    wheelbase: int,
    max_steer: int,
    yaw: int,
    velocity: int,
    steering_angle: int,
) -> Mat4V {
    let steer = clamp_s(steering_angle, -max_steer, max_steer);
    let c = cos_fp_s(yaw);
    let sn = sin_fp_s(yaw);
    let sc = SCALE as int;
    let jl = JAC_LIMIT as int;
    Mat4V {
        m02: sat_s(tdiv_s(-(velocity * sn * dt), sc * sc), jl),
        m03: sat_s(tdiv_s(c * dt, sc), jl),
        m12: sat_s(tdiv_s(velocity * c * dt, sc * sc), jl),
        m13: sat_s(tdiv_s(sn * dt, sc), jl),
        m23: sat_s(tdiv_s(steer * dt, wheelbase), jl),
        ..mat_identity_s()
    }
}

impl KinematicBicycleModel {
    /// Create a model.  Fails with `InvalidConfiguration` exactly when the
    /// wheelbase, steering clamp or step is not positive or not
    /// representable.
    pub fn new(wheelbase: i64, max_steer: i64, delta_time: i64) -> (r: Result<
        KinematicBicycleModel,
        SimError,
    >)
        ensures
            r is Ok <==> model_params_ok(wheelbase as int, max_steer as int, delta_time as int),
            r matches Err(e) ==> e == SimError::InvalidConfiguration,
            r matches Ok(m) ==> {
                &&& m@.dt == delta_time
                &&& m@.wheelbase == wheelbase
                &&& m@.max_steer == max_steer
                &&& model_wf(m@)
                &&& m@.state == (CarStateV {
                    dt: delta_time as int,
                    time_stamp: 0,
                    x: 0,
                    y: 0,
                    yaw: 0,
                    velocity: 0,
                    width: None,
                    length: None,
                })
            },
    {
        if wheelbase <= 0 || wheelbase > WHEELBASE_MAX || max_steer <= 0 || max_steer > STEER_LIMIT
            || delta_time <= 0 || delta_time > DT_MAX {
            return Err(SimError::InvalidConfiguration);
        }
        Ok(
            KinematicBicycleModel {
                dt: delta_time,
                wheelbase,
                max_steer,
                state: CarState {
                    dt: delta_time,
                    time_stamp: 0,
                    x: 0,
                    y: 0,
                    yaw: 0,
                    velocity: 0,
                    width: None,
                    length: None,
                },
            },
        )
    }

    /// One step of the bicycle model.  Any steering input is accepted; the
    /// effective steering is clamped into `[-max_steer, max_steer]`.
    pub fn predict(
        &self,
        x: i64,
        y: i64,
        yaw: i64,
        velocity: i64,
        acceleration: i64,
        steering_angle: i64,
    ) -> (r: CarState)
        requires
            model_wf(self@),
            -POS_LIMIT <= x <= POS_LIMIT,
            -POS_LIMIT <= y <= POS_LIMIT,
            -YAW_LIMIT <= yaw <= YAW_LIMIT,
            -VEL_LIMIT <= velocity <= VEL_LIMIT,
        ensures
            r@ == predict_s(
                self@.dt,
                self@.wheelbase,
                self@.max_steer,
                x as int,
                y as int,
                yaw as int,
                velocity as int,
                acceleration as int,
                steering_angle as int,
            ),
            -POS_LIMIT <= r.x <= POS_LIMIT,
            -POS_LIMIT <= r.y <= POS_LIMIT,
            -YAW_LIMIT <= r.yaw <= YAW_LIMIT,
            -VEL_LIMIT <= r.velocity <= VEL_LIMIT,
    {
        let steer: i64 = clamp_i64(steering_angle, -self.max_steer, self.max_steer);
        let c: i64 = cos_fp(yaw);
        let sn: i64 = sin_fp(yaw);
        proof {
            lemma_abs_mul_bound(velocity as int, c as int, VEL_LIMIT as int, TRIG_LIMIT as int);
            lemma_abs_mul_bound(
                velocity as int * c as int,
                self.dt as int,
                VEL_LIMIT as int * TRIG_LIMIT as int,
                DT_MAX as int,
            );
            lemma_abs_mul_bound(velocity as int, sn as int, VEL_LIMIT as int, TRIG_LIMIT as int);
            lemma_abs_mul_bound(
                velocity as int * sn as int,
                self.dt as int,
                VEL_LIMIT as int * TRIG_LIMIT as int,
                DT_MAX as int,
            );
            lemma_abs_mul_bound(velocity as int, steer as int, VEL_LIMIT as int, STEER_LIMIT as int);
            lemma_abs_mul_bound(
                velocity as int * steer as int,
                self.dt as int,
                VEL_LIMIT as int * STEER_LIMIT as int,
                DT_MAX as int,
            );
            lemma_abs_mul_bound(
                self.wheelbase as int,
                SCALE as int,
                WHEELBASE_MAX as int,
                SCALE as int,
            );
            lemma_abs_mul_bound(
                acceleration as int,
                self.dt as int,
                i64::MAX as int + 1,
                DT_MAX as int,
            );
        }
        let num_x: i128 = (velocity as i128) * (c as i128) * (self.dt as i128);
        let num_y: i128 = (velocity as i128) * (sn as i128) * (self.dt as i128);
        let num_yaw: i128 = (velocity as i128) * (steer as i128) * (self.dt as i128);
        let den_yaw: i128 = (self.wheelbase as i128) * (SCALE as i128);
        let num_v: i128 = (acceleration as i128) * (self.dt as i128);
        let sc2: i128 = (SCALE as i128) * (SCALE as i128);
        let dx: i128 = tdiv_i128(num_x, sc2);
        let dy: i128 = tdiv_i128(num_y, sc2);
        let dyaw: i128 = tdiv_i128(num_yaw, den_yaw);
        let dv: i128 = tdiv_i128(num_v, SCALE as i128);
        proof {
            crate::fixed::lemma_tdiv_magnitude(
                num_x as int,
                sc2 as int,
                VEL_LIMIT as int * TRIG_LIMIT as int * DT_MAX as int,
                1,
            );
            crate::fixed::lemma_tdiv_magnitude(
                num_y as int,
                sc2 as int,
                VEL_LIMIT as int * TRIG_LIMIT as int * DT_MAX as int,
                1,
            );
            crate::fixed::lemma_tdiv_magnitude(
                num_yaw as int,
                den_yaw as int,
                VEL_LIMIT as int * STEER_LIMIT as int * DT_MAX as int,
                1,
            );
            crate::fixed::lemma_tdiv_magnitude(
                num_v as int,
                SCALE as int,
                (i64::MAX as int + 1) * DT_MAX as int,
                1,
            );
        }
        CarState {
            dt: self.dt,
            time_stamp: 0,
            x: sat_i128(x as i128 + dx, POS_LIMIT),
            y: sat_i128(y as i128 + dy, POS_LIMIT),
            yaw: sat_i128(yaw as i128 + dyaw, YAW_LIMIT),
            velocity: sat_i128(velocity as i128 + dv, VEL_LIMIT),
            width: None,
            length: None,
        }
    }

    /// The Jacobian of the transition at the given state and steering.
    pub fn linearize(
        &self,
        x: i64,
        y: i64,
        yaw: i64,
        velocity: i64,
        steering_angle: i64,
    ) -> (r: Mat4)
        requires
            model_wf(self@),
            -YAW_LIMIT <= yaw <= YAW_LIMIT,
            -VEL_LIMIT <= velocity <= VEL_LIMIT,
            -POS_LIMIT <= x <= POS_LIMIT,
            -POS_LIMIT <= y <= POS_LIMIT,
        ensures
            r@ == jacobian_s(
                self@.dt,
                self@.wheelbase,
                self@.max_steer,
                yaw as int,
                velocity as int,
                steering_angle as int,
            ),
            mat_bounded_s(r@, JAC_LIMIT as int),
    {
        let steer: i64 = clamp_i64(steering_angle, -self.max_steer, self.max_steer);
        let c: i64 = cos_fp(yaw);
        let sn: i64 = sin_fp(yaw);
        proof {
            lemma_abs_mul_bound(velocity as int, sn as int, VEL_LIMIT as int, TRIG_LIMIT as int);
            lemma_abs_mul_bound(
                velocity as int * sn as int,
                self.dt as int,
                VEL_LIMIT as int * TRIG_LIMIT as int,
                DT_MAX as int,
            );
            lemma_abs_mul_bound(velocity as int, c as int, VEL_LIMIT as int, TRIG_LIMIT as int);
            lemma_abs_mul_bound(
                velocity as int * c as int,
                self.dt as int,
                VEL_LIMIT as int * TRIG_LIMIT as int,
                DT_MAX as int,
            );
            lemma_abs_mul_bound(c as int, self.dt as int, TRIG_LIMIT as int, DT_MAX as int);
            lemma_abs_mul_bound(sn as int, self.dt as int, TRIG_LIMIT as int, DT_MAX as int);
            lemma_abs_mul_bound(steer as int, self.dt as int, STEER_LIMIT as int, DT_MAX as int);
        }
        let sc2: i128 = 1_000_000_000_000;
        proof {
            assert(sc2 as int == (SCALE as int) * (SCALE as int));
        }
        let num02: i128 = -((velocity as i128) * (sn as i128) * (self.dt as i128));
        let num12: i128 = (velocity as i128) * (c as i128) * (self.dt as i128);
        let mut m = Mat4::identity();
        m.m02 = scale_div_sat(num02, sc2, JAC_LIMIT);
        m.m03 = scale_div_sat((c as i128) * (self.dt as i128), SCALE as i128, JAC_LIMIT);
        m.m12 = scale_div_sat(num12, sc2, JAC_LIMIT);
        m.m13 = scale_div_sat((sn as i128) * (self.dt as i128), SCALE as i128, JAC_LIMIT);
        m.m23 = scale_div_sat(
            (steer as i128) * (self.dt as i128),
            self.wheelbase as i128,
            JAC_LIMIT,
        );
        m
    }
}

/// Effective steering is always inside the clamp range, and an in-range
/// command passes through unchanged: steering is clamped, never rejected.
pub proof fn lemma_steering_clamped(max_steer: int, steering_angle: int)
    requires
        0 < max_steer,
    ensures
        -max_steer <= clamp_s(steering_angle, -max_steer, max_steer) <= max_steer,
        -max_steer <= steering_angle <= max_steer ==> clamp_s(
            steering_angle,
            -max_steer,
            max_steer,
        ) == steering_angle,
{
}

/// The ground-truth vehicle: a state advanced by the bicycle model once per
/// tick.
#[derive(Clone, Copy, Debug)]
pub struct Car {
    pub state: CarState,
    pub width: i64,
    pub length: i64,
    /// Last commanded acceleration.
    pub acceleration: i64,
    /// Last commanded steering angle, as given (not clamped).
    pub steering_angle: i64,
    pub model: KinematicBicycleModel,
    pub color: Option<CarColor>,
}

/// Mathematical view of a `Car`.
pub ghost struct CarV {
    pub state: CarStateV,
    pub width: int,
    pub length: int,
    pub acceleration: int,
    pub steering_angle: int,
    pub model: KinematicBicycleModelV,
    pub color: Option<CarColor>,
}

impl View for Car {
    type V = CarV;

    open spec fn view(&self) -> CarV {
        CarV {
            state: self.state@,
            width: self.width as int,
            length: self.length as int,
            acceleration: self.acceleration as int,
            steering_angle: self.steering_angle as int,
            model: self.model@,
            color: self.color,
        }
    }
}

/// Well-formedness of a simulator: a valid model, an in-range state whose
/// step and display size agree with the simulator's own parameters.
pub open spec fn car_wf(c: CarV) -> bool {
    &&& model_wf(c.model)
    &&& car_state_wf(c.state)
    &&& 0 < c.width <= SIZE_MAX
    &&& 0 < c.length <= SIZE_MAX
    &&& c.state.dt == c.model.dt
    &&& c.state.width == Some(c.width)
    &&& c.state.length == Some(c.length)
}

/// One simulator tick: the model's prediction, stamped with the advanced
/// simulation clock and the vehicle's display size.
#[verifier::opaque]
pub open spec fn car_step_s(c: CarV, acceleration: int, steering_angle: int) -> CarV {
    let p = predict_s(
        c.model.dt,
        c.model.wheelbase,
        c.model.max_steer,
        c.state.x,
        c.state.y,
        c.state.yaw,
        c.state.velocity,
        acceleration,
        steering_angle,
    );
    CarV {
        state: CarStateV {
            dt: c.model.dt,
            time_stamp: sat_s(c.state.time_stamp + c.model.dt, TIME_LIMIT as int),
            x: p.x,
            y: p.y,
            yaw: p.yaw,
            velocity: p.velocity,
            width: Some(c.width),
            length: Some(c.length),
        },
        acceleration,
        steering_angle,
        ..c
    }
}

impl Car {
    /// Create a simulator.  Fails with `InvalidConfiguration` exactly when
    /// a physical parameter (wheelbase, steering clamp, step, width,
    /// length) is not positive or not representable.
    pub fn new(
        x: i64,
        y: i64,
        yaw: i64,
        width: i64,
        length: i64,
        velocity: i64,
        wheelbase: i64,
        max_steer: i64,
        delta_time: i64,
        color: Option<CarColor>,
    ) -> (r: Result<Car, SimError>)
        requires
            -POS_LIMIT <= x <= POS_LIMIT,
            -POS_LIMIT <= y <= POS_LIMIT,
            -YAW_LIMIT <= yaw <= YAW_LIMIT,
            -VEL_LIMIT <= velocity <= VEL_LIMIT,
        ensures
            r is Ok <==> (model_params_ok(wheelbase as int, max_steer as int, delta_time as int)
                && 0 < width <= SIZE_MAX && 0 < length <= SIZE_MAX),
            r matches Err(e) ==> e == SimError::InvalidConfiguration,
            r matches Ok(car) ==> {
                &&& car_wf(car@)
                &&& car@.state.x == x
                &&& car@.state.y == y
                &&& car@.state.yaw == yaw
                &&& car@.state.velocity == velocity
                &&& car@.state.time_stamp == 0
                &&& car@.width == width
                &&& car@.length == length
                &&& car@.acceleration == 0
                &&& car@.steering_angle == 0
                &&& car@.color == color
                &&& car@.model.wheelbase == wheelbase
                &&& car@.model.max_steer == max_steer
                &&& car@.model.dt == delta_time
            },
    {
        if width <= 0 || width > SIZE_MAX || length <= 0 || length > SIZE_MAX {
            return Err(SimError::InvalidConfiguration);
        }
        let model = match KinematicBicycleModel::new(wheelbase, max_steer, delta_time) {
            Ok(m) => m,
            Err(e) => {
                return Err(e);
            },
        };
        Ok(
            Car {
                state: CarState {
                    dt: delta_time,
                    time_stamp: 0,
                    x,
                    y,
                    yaw,
                    velocity,
                    width: Some(width),
                    length: Some(length),
                },
                width,
                length,
                acceleration: 0,
                steering_angle: 0,
                model,
                color,
            },
        )
    }

    /// Advance the ground truth one tick and return the fresh display
    /// rectangle (blue unless the simulator carries a colour).
    pub fn step(&mut self, acceleration: i64, steering_angle: i64) -> (r: Rectangular)
        requires
            car_wf(old(self)@),
        ensures
            final(self)@ == car_step_s(old(self)@, acceleration as int, steering_angle as int),
            car_wf(final(self)@),
            r@ == to_rectangular_s(
                final(self)@.state,
                match old(self)@.color {
                    Some(c) => c,
                    None => CarColor::Blue,
                },
            ),
    {
        proof {
            reveal(car_step_s);
        }
        let p: CarState = self.model.predict(
            self.state.x,
            self.state.y,
            self.state.yaw,
            self.state.velocity,
            acceleration,
            steering_angle,
        );
        let ts: i64 = sat_i128(self.state.time_stamp as i128 + self.model.dt as i128, TIME_LIMIT);
        self.state = CarState {
            dt: self.model.dt,
            time_stamp: ts,
            x: p.x,
            y: p.y,
            yaw: p.yaw,
            velocity: p.velocity,
            width: Some(self.width),
            length: Some(self.length),
        };
        self.acceleration = acceleration;
        self.steering_angle = steering_angle;
        self.state.to_rectangular(self.color)
    }
}

} // verus!
