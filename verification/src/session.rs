//! One simulation session: ground truth, sensors and estimator advanced by
//! a strict per-tick sequence.
//!
//! A tick runs simulate -> sense -> predict -> update and publishes a plain
//! snapshot.  Every component is a deterministic function of its state and
//! inputs, so the whole session is too: `run_ticks` pins the final session
//! to a spec-level fold of `sim_tick_s` over the control sequence, and
//! `lemma_run_deterministic` states the reproducibility guarantee that
//! follows.

use crate::car::{car_step_s, car_wf, Car, CarV};
use crate::error::SimError;
use crate::fixed::HISTORY_LIMIT;
use crate::kalman_filter::{
    kf_predict_s, kf_update_s, kf_update_singular_s, kf_wf, KalmanFilter, KalmanFilterV,
};
use crate::matrix::Mat4;
use crate::sensor_measurement::{
    observed_state_s, sensors_have_room, sensors_wf, SensorSet, SensorSetV,
};
use crate::state::{CarColor, CarState, Rectangular};
use vstd::prelude::*;

verus! {

/// A whole closed-loop session.
#[derive(Clone, Debug)]
pub struct Simulation {
    pub car: Car,
    pub sensors: SensorSet,
    pub filter: KalmanFilter,
}

/// Mathematical view of a session.
pub ghost struct SimulationV {
    pub car: CarV,
    pub sensors: SensorSetV,
    pub filter: KalmanFilterV,
}

impl View for Simulation {
    type V = SimulationV;

    open spec fn view(&self) -> SimulationV {
        SimulationV { car: self.car@, sensors: self.sensors@, filter: self.filter@ }
    }
}

/// Well-formedness of a session.
pub open spec fn sim_wf(s: SimulationV) -> bool {
    &&& car_wf(s.car)
    &&& sensors_wf(s.sensors)
    &&& kf_wf(s.filter)
}

/// Room for one more tick in every history log.
pub open spec fn sim_has_room(s: SimulationV) -> bool {
    &&& sensors_have_room(s.sensors)
    &&& s.filter.history.len() < HISTORY_LIMIT
}

/// The published result of one tick: a plain data snapshot.
#[derive(Clone, Copy, Debug)]
pub struct TickOutput {
    /// Ground truth after the tick.
    pub true_state: CarState,
    /// Display rectangle of the ground truth.
    pub true_geometry: Rectangular,
    /// The sensors' fused observation used in the update.
    pub observed_state: CarState,
    /// Display rectangle of the observation.
    pub observed_geometry: Rectangular,
    /// The estimate after predict and (possibly skipped) update.
    pub estimate: CarState,
    /// The estimate's covariance.
    pub estimate_covariance: Mat4,
    /// Whether the update was skipped because the innovation covariance was
    /// singular; the predicted estimate stands either way.
    pub update_skipped: bool,
}

/// One tick at the spec level: simulate, sense, predict, then update unless
/// the innovation covariance is singular.
#[verifier::opaque]
pub open spec fn sim_tick_s(s: SimulationV, acceleration: int, steering_angle: int) -> SimulationV {
    let car2 = car_step_s(s.car, acceleration, steering_angle);
    let sensors2 = observed_state_s(s.sensors, car2.state);
    let f1 = kf_predict_s(s.filter, acceleration, steering_angle);
    let f2 = if kf_update_singular_s(f1) {
        f1
    } else {
        kf_update_s(f1, sensors2.measured_state)
    };
    SimulationV { car: car2, sensors: sensors2, filter: f2 }
}

/// A run of `n` ticks at the spec level.
pub open spec fn sim_run_s(s: SimulationV, controls: Seq<(i64, i64)>, n: int) -> SimulationV
    decreases n,
{
    if n <= 0 {
        s
    } else {
        let prev = sim_run_s(s, controls, n - 1);
        sim_tick_s(prev, controls[n - 1].0 as int, controls[n - 1].1 as int)
    }
}

/// Reproducibility: the outcome of a run is a function of the starting
/// session (configuration, seeds and all) and the control sequence alone.
/// Two sessions that start equal and receive the same controls traverse
/// identical trajectories; `run_ticks` ties the executable loop to
/// `sim_run_s`, so this holds of the running code, not only of the spec.
pub proof fn lemma_run_deterministic(
    s1: SimulationV,
    s2: SimulationV,
    controls: Seq<(i64, i64)>,
    n: int,
)
    requires
        s1 == s2,
    ensures
        sim_run_s(s1, controls, n) == sim_run_s(s2, controls, n),
{
}

impl Simulation {
    /// Create a session: ground truth, sensor suite and estimator share the
    /// physical parameters; the one seed derives every noise stream.  Fails
    /// with `InvalidConfiguration` exactly when a physical parameter or
    /// noise matrix is invalid.
    pub fn new(
        x: i64,
        y: i64,
        yaw: i64,
        width: i64,
        length: i64,
        velocity: i64,
        wheelbase: i64,
        max_steer: i64,
        delta_time: i64,
        color: Option<CarColor>,
        seed: u64,
        q: Mat4,
        r: Mat4,
        prior: Mat4,
    ) -> (res: Result<Simulation, SimError>)
        requires
            -crate::fixed::POS_LIMIT <= x <= crate::fixed::POS_LIMIT,
            -crate::fixed::POS_LIMIT <= y <= crate::fixed::POS_LIMIT,
            -crate::fixed::YAW_LIMIT <= yaw <= crate::fixed::YAW_LIMIT,
            -crate::fixed::VEL_LIMIT <= velocity <= crate::fixed::VEL_LIMIT,
        ensures
            res is Ok <==> (crate::car::model_params_ok(
                wheelbase as int,
                max_steer as int,
                delta_time as int,
            ) && 0 < width <= crate::fixed::SIZE_MAX && 0 < length <= crate::fixed::SIZE_MAX
                && crate::matrix::mat_bounded_s(q@, crate::matrix::COV_LIMIT as int)
                && crate::matrix::mat_bounded_s(r@, crate::matrix::COV_LIMIT as int)
                && crate::matrix::mat_bounded_s(prior@, crate::matrix::COV_LIMIT as int)
                && crate::matrix::mat_symmetric_s(prior@)),
            res matches Err(e) ==> e == SimError::InvalidConfiguration,
            res matches Ok(s) ==> {
                &&& sim_wf(s@)
                &&& sim_has_room(s@)
                &&& s@.car.state.x == x && s@.car.state.y == y
                &&& s@.car.state.yaw == yaw && s@.car.state.velocity == velocity
                &&& s@.filter.initialized == false
                &&& s@.filter.q == q@ && s@.filter.r == r@ && s@.filter.prior == prior@
                &&& s@.sensors.gps.rng == seed
            },
    {
        let car = match Car::new(
            x,
            y,
            yaw,
            width,
            length,
            velocity,
            wheelbase,
            max_steer,
            delta_time,
            color,
        ) {
            Ok(c) => c,
            Err(e) => {
                return Err(e);
            },
        };
        let sensors = match SensorSet::new(&car.state, seed) {
            Ok(s) => s,
            Err(e) => {
                return Err(e);
            },
        };
        let filter = match KalmanFilter::new(wheelbase, max_steer, delta_time, q, r, prior, color) {
            Ok(f) => f,
            Err(e) => {
                return Err(e);
            },
        };
        Ok(Simulation { car, sensors, filter })
    }

    /// One tick: advance the ground truth with the control, sample the
    /// sensors from it, predict, and correct with the fused observation
    /// (skipping the correction when the innovation covariance is
    /// singular).  Returns the published snapshot.
    pub fn tick(&mut self, acceleration: i64, steering_angle: i64) -> (r: TickOutput)
        requires
            sim_wf(old(self)@),
            sim_has_room(old(self)@),
        ensures
            final(self)@ == sim_tick_s(old(self)@, acceleration as int, steering_angle as int),
            sim_wf(final(self)@),
            r.true_state@ == final(self)@.car.state,
            r.observed_state@ == final(self)@.sensors.measured_state,
            r.estimate@ == final(self)@.filter.state,
            r.estimate_covariance@ == final(self)@.filter.covariance,
            r.true_geometry@ == crate::state::to_rectangular_s(
                final(self)@.car.state,
                match old(self)@.car.color {
                    Some(c) => c,
                    None => CarColor::Blue,
                },
            ),
            r.observed_geometry@ == crate::state::to_rectangular_s(
                final(self)@.sensors.measured_state,
                CarColor::Red,
            ),
            r.update_skipped <==> kf_update_singular_s(
                kf_predict_s(old(self)@.filter, acceleration as int, steering_angle as int),
            ),
            final(self)@.sensors.gps.fixes.len() == old(self)@.sensors.gps.fixes.len() + 1,
            final(self)@.sensors.gps.xyz.len() == old(self)@.sensors.gps.xyz.len() + 1,
            final(self)@.sensors.imu.recorder.len() == old(self)@.sensors.imu.recorder.len() + 1,
            final(self)@.sensors.encoder.recorder.len() == old(
                self,
            )@.sensors.encoder.recorder.len() + 1,
            final(self)@.filter.history.len() <= old(self)@.filter.history.len() + 1,
    {
        proof {
            reveal(sim_tick_s);
        }
        let true_geometry: Rectangular = self.car.step(acceleration, steering_angle);
        let observed_geometry: Rectangular = self.sensors.get_observed_state(&self.car.state);
        self.filter.predict(acceleration, steering_angle);
        let update_skipped: bool = match self.filter.update(&self.sensors.measured_state) {
            Ok(_) => false,
            Err(_) => true,
        };
        TickOutput {
            true_state: self.car.state,
            true_geometry,
            observed_state: self.sensors.measured_state,
            observed_geometry,
            estimate: self.filter.state,
            estimate_covariance: self.filter.covariance,
            update_skipped,
        }
    }

    /// Run one tick per control pair (acceleration, steering angle), in
    /// order.  The final session is exactly the spec-level fold of the
    /// ticks, so a rerun from an equal starting session reproduces it.
    pub fn run_ticks(&mut self, controls: &Vec<(i64, i64)>)
        requires
            sim_wf(old(self)@),
            old(self)@.sensors.gps.fixes.len() + controls@.len() <= HISTORY_LIMIT,
            old(self)@.sensors.gps.xyz.len() + controls@.len() <= HISTORY_LIMIT,
            old(self)@.sensors.imu.recorder.len() + controls@.len() <= HISTORY_LIMIT,
            old(self)@.sensors.encoder.recorder.len() + controls@.len() <= HISTORY_LIMIT,
            old(self)@.filter.history.len() + controls@.len() <= HISTORY_LIMIT,
        ensures
            final(self)@ == sim_run_s(old(self)@, controls@, controls@.len() as int),
            sim_wf(final(self)@),
    {
        let n: usize = controls.len();
        let mut i: usize = 0;
        while i < n
            invariant
                i <= n,
                n == controls@.len(),
                sim_wf(self@),
                self@ == sim_run_s(old(self)@, controls@, i as int),
                self@.sensors.gps.fixes.len() == old(self)@.sensors.gps.fixes.len() + i,
                self@.sensors.gps.xyz.len() == old(self)@.sensors.gps.xyz.len() + i,
                self@.sensors.imu.recorder.len() == old(self)@.sensors.imu.recorder.len() + i,
                self@.sensors.encoder.recorder.len() == old(self)@.sensors.encoder.recorder.len()
                    + i,
                self@.filter.history.len() <= old(self)@.filter.history.len() + i,
                old(self)@.sensors.gps.fixes.len() + n <= HISTORY_LIMIT,
                old(self)@.sensors.gps.xyz.len() + n <= HISTORY_LIMIT,
                old(self)@.sensors.imu.recorder.len() + n <= HISTORY_LIMIT,
                old(self)@.sensors.encoder.recorder.len() + n <= HISTORY_LIMIT,
                old(self)@.filter.history.len() + n <= HISTORY_LIMIT,
            decreases n - i,
        {
            let c: (i64, i64) = controls[i];
            self.tick(c.0, c.1);
            i = i + 1;
        }
    }
}

} // verus!
