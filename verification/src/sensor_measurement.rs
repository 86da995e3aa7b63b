//! The sensor suite: GPS, inertial unit and wheel encoder sampling the same
//! ground truth once per tick, plus the fused "measured" state handed to
//! consumers.
//!
//! The measured state takes its position, heading and speed from the
//! inertial unit's dead-reckoned estimate and its timestamp from the latest
//! GPS fix, as a display-ready observation of where the sensors believe the
//! vehicle to be.

use crate::encoder::{encoder_sample_s, encoder_wf, WheelEncoder, WheelEncoderV};
use crate::error::SimError;
use crate::fixed::{sat_s, HISTORY_LIMIT, TIME_LIMIT};
use crate::gps::{gps_sample_s, gps_wf, GpsXYZ, GpsXYZV};
use crate::imu::{imu_sample_s, imu_wf, IMUDevice, IMUDeviceV};
use crate::state::{
    car_state_wf, to_rectangular_s, CarColor, CarState, CarStateV, Rectangular,
};
use vstd::prelude::*;

verus! {

/// The three observers and the fused observation.
#[derive(Clone, Debug)]
pub struct SensorSet {
    pub gps: GpsXYZ,
    pub imu: IMUDevice,
    pub encoder: WheelEncoder,
    pub measured_state: CarState,
}

/// Mathematical view of the sensor suite.
pub ghost struct SensorSetV {
    pub gps: GpsXYZV,
    pub imu: IMUDeviceV,
    pub encoder: WheelEncoderV,
    pub measured_state: CarStateV,
}

impl View for SensorSet {
    type V = SensorSetV;

    open spec fn view(&self) -> SensorSetV {
        SensorSetV {
            gps: self.gps@,
            imu: self.imu@,
            encoder: self.encoder@,
            measured_state: self.measured_state@,
        }
    }
}

/// Well-formedness of the suite.
pub open spec fn sensors_wf(s: SensorSetV) -> bool {
    &&& gps_wf(s.gps)
    &&& imu_wf(s.imu)
    &&& encoder_wf(s.encoder)
    &&& car_state_wf(s.measured_state)
}

/// Room for one more sample in every history log.
pub open spec fn sensors_have_room(s: SensorSetV) -> bool {
    &&& s.gps.fixes.len() < HISTORY_LIMIT
    &&& s.gps.xyz.len() < HISTORY_LIMIT
    &&& s.imu.recorder.len() < HISTORY_LIMIT
    &&& s.encoder.recorder.len() < HISTORY_LIMIT
}

/// One sampling pass: every observer reads the same ground truth.
#[verifier::opaque]
pub open spec fn sensors_sample_s(s: SensorSetV, car: CarStateV) -> SensorSetV {
    SensorSetV {
        gps: gps_sample_s(s.gps, car),
        imu: imu_sample_s(s.imu, car),
        encoder: encoder_sample_s(s.encoder, car),
        ..s
    }
}

/// One sampling pass followed by the fused-observation refresh: the
/// measured state takes the inertial unit's dead-reckoned pose and speed
/// and the latest fix's timestamp.
#[verifier::opaque]
pub open spec fn observed_state_s(s: SensorSetV, car: CarStateV) -> SensorSetV {
    let s1 = sensors_sample_s(s, car);
    SensorSetV {
        measured_state: CarStateV {
            time_stamp: s1.gps.fixes[s1.gps.fixes.len() - 1].time_stamp,
            x: s1.imu.previous_x,
            y: s1.imu.previous_y,
            yaw: s1.imu.previous_yaw,
            velocity: s1.imu.previous_velocity,
            ..s.measured_state
        },
        ..s1
    }
}

impl SensorSet {
    /// Create a suite bound to the given initial ground truth.  The three
    /// observers get distinct noise streams derived from the one seed.
    pub fn new(actual_car: &CarState, seed: u64) -> (r: Result<SensorSet, SimError>)
        requires
            car_state_wf(actual_car@),
        ensures
            r is Ok,
            r matches Ok(s) ==> {
                &&& sensors_wf(s@)
                &&& s@.measured_state == actual_car@
                &&& s@.gps.rng == seed
                &&& s@.imu.rng == seed.wrapping_add(1)
                &&& s@.encoder.rng == seed.wrapping_add(2)
                &&& s@.gps.fixes.len() == 0
                &&& s@.gps.xyz.len() == 0
                &&& s@.imu.recorder.len() == 1
                &&& s@.encoder.recorder.len() == 0
                &&& s@.imu.initial == true
                &&& s@.encoder.reverse_direction == true
                &&& s@.encoder.resolution == 10_000
            },
    {
        let gps = match GpsXYZ::new(None, seed) {
            Ok(g) => g,
            Err(e) => {
                return Err(e);
            },
        };
        let encoder = match WheelEncoder::new(10_000, true, 0, seed.wrapping_add(2)) {
            Ok(w) => w,
            Err(e) => {
                return Err(e);
            },
        };
        Ok(
            SensorSet {
                gps,
                imu: IMUDevice::new(seed.wrapping_add(1)),
                encoder,
                measured_state: *actual_car,
            },
        )
    }

    /// Sample every observer from the same ground truth.
    pub fn from_carstate(&mut self, car: &CarState)
        requires
            sensors_wf(old(self)@),
            sensors_have_room(old(self)@),
            car_state_wf(car@),
        ensures
            final(self)@ == sensors_sample_s(old(self)@, car@),
            sensors_wf(final(self)@),
            final(self)@.gps.fixes.len() == old(self)@.gps.fixes.len() + 1,
            final(self)@.gps.xyz.len() == old(self)@.gps.xyz.len() + 1,
            final(self)@.imu.recorder.len() == old(self)@.imu.recorder.len() + 1,
            final(self)@.encoder.recorder.len() == old(self)@.encoder.recorder.len() + 1,
            final(self)@.measured_state == old(self)@.measured_state,
            final(self)@.gps.fixes[final(self)@.gps.fixes.len() - 1].time_stamp == sat_s(
                car@.time_stamp,
                TIME_LIMIT as int,
            ),
    {
        proof {
            reveal(sensors_sample_s);
        }
        self.gps.from_carstate(car);
        self.imu.from_carstate(car);
        self.encoder.from_carstate(car);
    }

    /// Sample every observer, refresh the fused observation from the
    /// inertial dead reckoning and the latest fix, and return its display
    /// rectangle in red.
    pub fn get_observed_state(&mut self, car: &CarState) -> (r: Rectangular)
        requires
            sensors_wf(old(self)@),
            sensors_have_room(old(self)@),
            car_state_wf(car@),
        ensures
            final(self)@ == observed_state_s(old(self)@, car@),
            sensors_wf(final(self)@),
            r@ == to_rectangular_s(final(self)@.measured_state, CarColor::Red),
            final(self)@.gps.fixes.len() == old(self)@.gps.fixes.len() + 1,
            final(self)@.gps.xyz.len() == old(self)@.gps.xyz.len() + 1,
            final(self)@.imu.recorder.len() == old(self)@.imu.recorder.len() + 1,
            final(self)@.encoder.recorder.len() == old(self)@.encoder.recorder.len() + 1,
    {
        proof {
            reveal(observed_state_s);
        }
        self.from_carstate(car);
        let n: usize = self.gps.gps_values.len();
        self.measured_state.time_stamp = self.gps.gps_values[n - 1].time_stamp;
        self.measured_state.x = self.imu.previous_x;
        self.measured_state.y = self.imu.previous_y;
        self.measured_state.yaw = self.imu.previous_yaw;
        self.measured_state.velocity = self.imu.previous_velocity;
        self.measured_state.to_rectangular(Some(CarColor::Red))
    }
}

} // verus!
