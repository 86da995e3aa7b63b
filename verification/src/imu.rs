//! Inertial unit simulation with open-loop dead reckoning.
//!
//! Each sample derives an apparent acceleration and yaw rate from the
//! change between the ground truth and the unit's own dead-reckoned state,
//! adds noise, and then re-integrates those noisy rates forward (Euler) to
//! produce the unit's own position / velocity / heading estimate.  Nothing
//! corrects that integrator, so its error accumulates with tick count,
//! exactly as a real inertial unit drifts.

use crate::fixed::{
    isqrt_s, isqrt_u128, lemma_abs_mul_bound, sat_i128, sat_s, scale_div_sat, tdiv_i128, tdiv_s,
    HISTORY_LIMIT, POS_LIMIT, SCALE, TIME_LIMIT, TRIG_LIMIT, VEL_LIMIT, YAW_LIMIT,
};
use crate::noise::{noise_state_s, noise_value_s, NoiseGen, NOISE_AMP_LIMIT};
use crate::state::{car_state_wf, CarState, CarStateV};
use crate::trig::{cos_fp, cos_fp_s, sin_fp, sin_fp_s};
use vstd::prelude::*;

verus! {

/// Bound on a recorded acceleration or yaw rate, in ticks.
pub const RATE_LIMIT: i64 = 1_000_000_000_000;

/// One recorded nine-axis sample.  Only planar acceleration and the yaw
/// rate are simulated; the remaining axes stay zero.
#[derive(Clone, Copy, Debug)]
pub struct IMU9Axis {
    pub time_stamp: i64,
    pub acce_x: i64,
    pub acce_y: i64,
    pub acc_z: i64,
    pub gyro_x: i64,
    pub gyro_y: i64,
    pub gyro_z: i64,
    pub mag_x: i64,
    pub mag_y: i64,
    pub mag_z: i64,
}

/// Mathematical view of a sample.
pub ghost struct IMU9AxisV {
    pub time_stamp: int,
    pub acce_x: int,
    pub acce_y: int,
    pub acc_z: int,
    pub gyro_x: int,
    pub gyro_y: int,
    pub gyro_z: int,
    pub mag_x: int,
    pub mag_y: int,
    pub mag_z: int,
}

impl View for IMU9Axis {
    type V = IMU9AxisV;

    open spec fn view(&self) -> IMU9AxisV {
        IMU9AxisV {
            time_stamp: self.time_stamp as int,
            acce_x: self.acce_x as int,
            acce_y: self.acce_y as int,
            acc_z: self.acc_z as int,
            gyro_x: self.gyro_x as int,
            gyro_y: self.gyro_y as int,
            gyro_z: self.gyro_z as int,
            mag_x: self.mag_x as int,
            mag_y: self.mag_y as int,
            mag_z: self.mag_z as int,
        }
    }
}

/// Ranges every recorded sample satisfies.
pub open spec fn imu_sample_wf(p: IMU9AxisV) -> bool {
    &&& -TIME_LIMIT <= p.time_stamp <= TIME_LIMIT
    &&& -RATE_LIMIT <= p.acce_x <= RATE_LIMIT
    &&& -RATE_LIMIT <= p.acce_y <= RATE_LIMIT
    &&& -RATE_LIMIT <= p.gyro_z <= RATE_LIMIT
}

impl IMU9Axis {
    /// An all-zero sample at time zero.
    pub fn new() -> (r: IMU9Axis)
        ensures
            r@ == (IMU9AxisV {
                time_stamp: 0,
                acce_x: 0,
                acce_y: 0,
                acc_z: 0,
                gyro_x: 0,
                gyro_y: 0,
                gyro_z: 0,
                mag_x: 0,
                mag_y: 0,
                mag_z: 0,
            }),
    {
        IMU9Axis {
            time_stamp: 0,
            acce_x: 0,
            acce_y: 0,
            acc_z: 0,
            gyro_x: 0,
            gyro_y: 0,
            gyro_z: 0,
            mag_x: 0,
            mag_y: 0,
            mag_z: 0,
        }
    }
}

/// The inertial unit: a sample log, an owned noise source, and the unit's
/// dead-reckoned state.
#[derive(Clone, Debug)]
pub struct IMUDevice {
    /// True until the dead-reckoned state is seeded from the first sample.
    pub initial: bool,
    pub imu_recorder: Vec<IMU9Axis>,
    pub rng: NoiseGen,
    /// Amplitude of the gyroscope noise draw, in ticks.
    pub gyro_noise_amp: i64,
    /// Amplitude of the accelerometer noise draw, in ticks.
    pub acce_noise_amp: i64,
    pub previous_yaw: i64,
    pub previous_velocity: i64,
    pub previous_x: i64,
    pub previous_y: i64,
}

/// Mathematical view of the inertial unit.
pub ghost struct IMUDeviceV {
    pub initial: bool,
    pub recorder: Seq<IMU9AxisV>,
    pub rng: u64,
    pub gyro_noise_amp: int,
    pub acce_noise_amp: int,
    pub previous_yaw: int,
    pub previous_velocity: int,
    pub previous_x: int,
    pub previous_y: int,
}

impl View for IMUDevice {
    type V = IMUDeviceV;

    open spec fn view(&self) -> IMUDeviceV {
        IMUDeviceV {
            initial: self.initial,
            recorder: Seq::new(self.imu_recorder@.len(), |i: int| self.imu_recorder@[i]@),
            rng: self.rng.state,
            gyro_noise_amp: self.gyro_noise_amp as int,
            acce_noise_amp: self.acce_noise_amp as int,
            previous_yaw: self.previous_yaw as int,
            previous_velocity: self.previous_velocity as int,
            previous_x: self.previous_x as int,
            previous_y: self.previous_y as int,
        }
    }
}

/// Well-formedness of the unit.  The sample log is never empty: it starts
/// with one all-zero sample and only ever grows.
pub open spec fn imu_wf(d: IMUDeviceV) -> bool {
    &&& 0 <= d.gyro_noise_amp <= NOISE_AMP_LIMIT
    &&& 0 <= d.acce_noise_amp <= NOISE_AMP_LIMIT
    &&& 1 <= d.recorder.len() <= HISTORY_LIMIT
    &&& -YAW_LIMIT <= d.previous_yaw <= YAW_LIMIT
    &&& -VEL_LIMIT <= d.previous_velocity <= VEL_LIMIT
    &&& -POS_LIMIT <= d.previous_x <= POS_LIMIT
    &&& -POS_LIMIT <= d.previous_y <= POS_LIMIT
    &&& forall|i: int| 0 <= i < d.recorder.len() ==> imu_sample_wf(#[trigger] d.recorder[i])
}

/// Euler re-integration of the sample at `sel` over the step `dtv`: the
/// acceleration magnitude advances the dead-reckoned speed, the new speed
/// and the old heading advance the position, and the yaw rate advances the
/// heading last.
pub open spec fn dead_reckon_s(d: IMUDeviceV, sel: int, dtv: int) -> IMUDeviceV {
    let p = d.recorder[sel];
    let sc = SCALE as int;
    let mag = isqrt_s(p.acce_x * p.acce_x + p.acce_y * p.acce_y);
    let v2 = sat_s(d.previous_velocity + tdiv_s(mag * dtv, sc), VEL_LIMIT as int);
    let x2 = sat_s(
        d.previous_x + tdiv_s(v2 * dtv * cos_fp_s(d.previous_yaw), sc * sc),
        POS_LIMIT as int,
    );
    let y2 = sat_s(
        d.previous_y + tdiv_s(v2 * dtv * sin_fp_s(d.previous_yaw), sc * sc),
        POS_LIMIT as int,
    );
    let yaw2 = sat_s(d.previous_yaw + tdiv_s(p.gyro_z * dtv, sc), YAW_LIMIT as int);
    IMUDeviceV {
        previous_velocity: v2,
        previous_x: x2,
        previous_y: y2,
        previous_yaw: yaw2,
        ..d
    }
}

/// The sample recorded from one reading of the ground truth, given the two
/// noise draws and the (possibly just seeded) dead-reckoned state.
pub open spec fn apparent_sample_s(
    d: IMUDeviceV,
    car: CarStateV,
    gyro_noise: int,
    acce_noise: int,
) -> IMU9AxisV {
    let sc = SCALE as int;
    let dv = car.velocity - d.previous_velocity;
    IMU9AxisV {
        time_stamp: sat_s(car.time_stamp, TIME_LIMIT as int),
        acce_x: sat_s(
            tdiv_s((tdiv_s(dv * cos_fp_s(car.yaw), sc) + acce_noise) * sc, car.dt),
            RATE_LIMIT as int,
        ),
        acce_y: sat_s(
            tdiv_s((tdiv_s(dv * sin_fp_s(car.yaw), sc) + acce_noise) * sc, car.dt),
            RATE_LIMIT as int,
        ),
        acc_z: 0,
        gyro_x: 0,
        gyro_y: 0,
        gyro_z: sat_s(
            tdiv_s((car.yaw + gyro_noise - d.previous_yaw) * sc, car.dt),
            RATE_LIMIT as int,
        ),
        mag_x: 0,
        mag_y: 0,
        mag_z: 0,
    }
}

/// The whole-unit transition of one sample: two noise draws, seeding on the
/// first call, one sample appended, and the dead-reckoned state advanced.
#[verifier::opaque]
pub open spec fn imu_sample_s(d: IMUDeviceV, car: CarStateV) -> IMUDeviceV {
    let gyro_noise = noise_value_s(d.rng, d.gyro_noise_amp);
    let rng1 = noise_state_s(d.rng);
    let acce_noise = noise_value_s(rng1, d.acce_noise_amp);
    let rng2 = noise_state_s(rng1);
    let d1 = if d.initial {
        IMUDeviceV {
            initial: false,
            previous_yaw: car.yaw,
            previous_velocity: car.velocity,
            previous_x: car.x,
            previous_y: car.y,
            ..d
        }
    } else {
        d
    };
    let p = apparent_sample_s(d1, car, gyro_noise, acce_noise);
    let d2 = IMUDeviceV { rng: rng2, recorder: d1.recorder.push(p), ..d1 };
    dead_reckon_s(d2, d2.recorder.len() - 1, car.dt)
}

impl IMUDevice {
    /// Create a unit.  The sample log starts with one all-zero sample; the
    /// noise amplitudes default to 0.0015, mirroring a noise ratio of one
    /// hundredth of a 0.15 deviation.
    pub fn new(seed: u64) -> (r: IMUDevice)
        ensures
            imu_wf(r@),
            r@.initial == true,
            r@.recorder.len() == 1,
            r@.recorder[0] == (IMU9AxisV {
                time_stamp: 0,
                acce_x: 0,
                acce_y: 0,
                acc_z: 0,
                gyro_x: 0,
                gyro_y: 0,
                gyro_z: 0,
                mag_x: 0,
                mag_y: 0,
                mag_z: 0,
            }),
            r@.rng == seed,
            r@.gyro_noise_amp == 1_500,
            r@.acce_noise_amp == 1_500,
            r@.previous_yaw == 0 && r@.previous_velocity == 0,
            r@.previous_x == 0 && r@.previous_y == 0,
    {
        let mut recorder: Vec<IMU9Axis> = Vec::new();
        recorder.push(IMU9Axis::new());
        IMUDevice {
            initial: true,
            imu_recorder: recorder,
            rng: NoiseGen::new(seed),
            gyro_noise_amp: 1_500,
            acce_noise_amp: 1_500,
            previous_yaw: 0,
            previous_velocity: 0,
            previous_x: 0,
            previous_y: 0,
        }
    }

    /// Read one recorded sample (the latest when no index is given).
    pub fn get_imu_data(&self, idx: Option<usize>) -> (r: IMU9Axis)
        requires
            match idx {
                Some(i) => i < self@.recorder.len(),
                None => self@.recorder.len() > 0,
            },
        ensures
            r@ == self@.recorder[match idx {
                Some(i) => i as int,
                None => self@.recorder.len() - 1,
            }],
    {
        let sel: usize = match idx {
            Some(i) => i,
            None => self.imu_recorder.len() - 1,
        };
        self.imu_recorder[sel]
    }

    /// Advance the dead-reckoned state by re-integrating one recorded
    /// sample (the latest when no index is given) over the given step.
    /// When no step is given it is the elapsed time between the selected
    /// sample and the one before the latest; an explicit index makes both
    /// reads hit the same sample, so the elapsed time is then zero.  The
    /// log must hold at least two samples when no index is given.
    pub fn get_imu_velocity_yaw(&mut self, idx: Option<usize>, dt: Option<i64>)
        requires
            imu_wf(old(self)@),
            match idx {
                Some(i) => i < old(self)@.recorder.len(),
                None => old(self)@.recorder.len() >= 2,
            },
        ensures
            final(self)@ == dead_reckon_s(
                old(self)@,
                match idx {
                    Some(i) => i as int,
                    None => old(self)@.recorder.len() - 1,
                },
                match dt {
                    Some(d) => d as int,
                    None => old(self)@.recorder[match idx {
                        Some(i) => i as int,
                        None => old(self)@.recorder.len() - 1,
                    }].time_stamp - old(self)@.recorder[match idx {
                        Some(i) => i as int,
                        None => old(self)@.recorder.len() - 2,
                    }].time_stamp,
                },
            ),
            imu_wf(final(self)@),
    {
        let sel: usize = match idx {
            Some(i) => i,
            None => self.imu_recorder.len() - 1,
        };
        let sel2: usize = match idx {
            Some(i) => i,
            None => self.imu_recorder.len() - 2,
        };
        let p: IMU9Axis = self.imu_recorder[sel];
        proof {
            assert(p@ == self@.recorder[sel as int]);
            assert(imu_sample_wf(self@.recorder[sel as int]));
        }
        let dtv: i64 = match dt {
            Some(d) => d,
            None => {
                proof {
                    assert(imu_sample_wf(self@.recorder[sel2 as int]));
                }
                let a: i64 = self.imu_recorder[sel].time_stamp;
                let b: i64 = self.imu_recorder[sel2].time_stamp;
                a - b
            },
        };
        proof {
            lemma_abs_mul_bound(p.acce_x as int, p.acce_x as int, RATE_LIMIT as int, RATE_LIMIT as int);
            lemma_abs_mul_bound(p.acce_y as int, p.acce_y as int, RATE_LIMIT as int, RATE_LIMIT as int);
            assert(p.acce_x as int * p.acce_x as int >= 0) by (nonlinear_arith);
            assert(p.acce_y as int * p.acce_y as int >= 0) by (nonlinear_arith);
        }
        let sq: i128 = (p.acce_x as i128) * (p.acce_x as i128) + (p.acce_y as i128) * (
        p.acce_y as i128);
        let mag: u128 = isqrt_u128(sq as u128);
        proof {
            assert(mag as int <= 2_000_000_000_000) by (nonlinear_arith)
                requires
                    0 <= mag as int,
                    mag as int * mag as int <= sq as int,
                    sq as int <= 2_000_000_000_000_000_000_000_000,
            ;
            lemma_abs_mul_bound(mag as int, dtv as int, 2_000_000_000_000, i64::MAX as int + 1);
        }
        let dv: i128 = tdiv_i128((mag as i128) * (dtv as i128), SCALE as i128);
        let v2: i64 = sat_i128(self.previous_velocity as i128 + dv, VEL_LIMIT);
        let c: i64 = cos_fp(self.previous_yaw);
        let sn: i64 = sin_fp(self.previous_yaw);
        proof {
            lemma_abs_mul_bound(v2 as int, dtv as int, VEL_LIMIT as int, i64::MAX as int + 1);
            lemma_abs_mul_bound(
                v2 as int * dtv as int,
                c as int,
                1_000_000_000_000 * (i64::MAX as int + 1),
                TRIG_LIMIT as int,
            );
            lemma_abs_mul_bound(
                v2 as int * dtv as int,
                sn as int,
                1_000_000_000_000 * (i64::MAX as int + 1),
                TRIG_LIMIT as int,
            );
            lemma_abs_mul_bound(p.gyro_z as int, dtv as int, RATE_LIMIT as int, i64::MAX as int + 1);
        }
        let sc2: i128 = 1_000_000_000_000;
        proof {
            assert(sc2 as int == (SCALE as int) * (SCALE as int));
        }
        let dx: i128 = tdiv_i128((v2 as i128) * (dtv as i128) * (c as i128), sc2);
        let dy: i128 = tdiv_i128((v2 as i128) * (dtv as i128) * (sn as i128), sc2);
        let dyaw: i128 = tdiv_i128((p.gyro_z as i128) * (dtv as i128), SCALE as i128);
        self.previous_velocity = v2;
        self.previous_x = sat_i128(self.previous_x as i128 + dx, POS_LIMIT);
        self.previous_y = sat_i128(self.previous_y as i128 + dy, POS_LIMIT);
        self.previous_yaw = sat_i128(self.previous_yaw as i128 + dyaw, YAW_LIMIT);
        proof {
            assert(self@.recorder =~= old(self)@.recorder);
        }
    }

    /// Sample the ground truth: record one noisy apparent-rate sample and
    /// advance the dead-reckoned state with it.
    #[verifier::rlimit(100)]
    pub fn from_carstate(&mut self, car: &CarState)
        requires
            imu_wf(old(self)@),
            car_state_wf(car@),
            old(self)@.recorder.len() < HISTORY_LIMIT,
        ensures
            final(self)@ == imu_sample_s(old(self)@, car@),
            imu_wf(final(self)@),
            final(self)@.recorder.len() == old(self)@.recorder.len() + 1,
    {
        proof {
            reveal(imu_sample_s);
        }
        let gyro_noise: i64 = self.rng.next_noise(self.gyro_noise_amp);
        let acce_noise: i64 = self.rng.next_noise(self.acce_noise_amp);
        if self.initial {
            self.previous_yaw = car.yaw;
            self.previous_velocity = car.velocity;
            self.previous_x = car.x;
            self.previous_y = car.y;
            self.initial = false;
        }
        let c: i64 = cos_fp(car.yaw);
        let sn: i64 = sin_fp(car.yaw);
        let dv: i128 = car.velocity as i128 - self.previous_velocity as i128;
        proof {
            lemma_abs_mul_bound(dv as int, c as int, 2_000_000_000_000, TRIG_LIMIT as int);
            lemma_abs_mul_bound(dv as int, sn as int, 2_000_000_000_000, TRIG_LIMIT as int);
            lemma_quotient_small(dv as int * c as int);
            lemma_quotient_small(dv as int * sn as int);
        }
        let tx: i128 = tdiv_i128(dv * (c as i128), SCALE as i128) + acce_noise as i128;
        let ty: i128 = tdiv_i128(dv * (sn as i128), SCALE as i128) + acce_noise as i128;
        proof {
            lemma_abs_mul_bound(tx as int, SCALE as int, 3_210_000_000_000, SCALE as int);
            lemma_abs_mul_bound(ty as int, SCALE as int, 3_210_000_000_000, SCALE as int);
        }
        let gz_num: i128 = (car.yaw as i128 + gyro_noise as i128 - self.previous_yaw as i128) * (
        SCALE as i128);
        proof {
            lemma_abs_mul_bound(
                car.yaw as int + gyro_noise as int - self.previous_yaw as int,
                SCALE as int,
                2_002_000_000_000_000,
                SCALE as int,
            );
        }
        let p = IMU9Axis {
            time_stamp: sat_i128(car.time_stamp as i128, TIME_LIMIT),
            acce_x: scale_div_sat(tx * (SCALE as i128), car.dt as i128, RATE_LIMIT),
            acce_y: scale_div_sat(ty * (SCALE as i128), car.dt as i128, RATE_LIMIT),
            acc_z: 0,
            gyro_x: 0,
            gyro_y: 0,
            gyro_z: scale_div_sat(gz_num, car.dt as i128, RATE_LIMIT),
            mag_x: 0,
            mag_y: 0,
            mag_z: 0,
        };
        self.imu_recorder.push(p);
        proof {
            assert forall|i: int| 0 <= i < self@.recorder.len() implies imu_sample_wf(
                #[trigger] self@.recorder[i],
            ) by {
                if i < self@.recorder.len() - 1 {
                    assert(self@.recorder[i] == old(self)@.recorder[i]);
                    assert(imu_sample_wf(old(self)@.recorder[i]));
                } else {
                    assert(self@.recorder[i] == p@);
                }
            }
        }
        self.get_imu_velocity_yaw(None, Some(car.dt));
        proof {
            let goal = imu_sample_s(old(self)@, car@);
            assert(self@.recorder =~= goal.recorder);
            assert(self@.rng == goal.rng);
            assert(self@.previous_velocity == goal.previous_velocity);
            assert(self@.previous_x == goal.previous_x);
            assert(self@.previous_y == goal.previous_y);
            assert(self@.previous_yaw == goal.previous_yaw);
        }
    }
}

/// Helper: a scaled velocity-difference product shrinks to the stored range
/// once divided by `SCALE`.
proof fn lemma_quotient_small(n: int)
    requires
        -3_200_000_000_000_000_000 <= n <= 3_200_000_000_000_000_000,
    ensures
        -3_200_000_000_000_000 <= tdiv_s(n, SCALE as int) <= 3_200_000_000_000,
{
    crate::fixed::lemma_tdiv_magnitude(n, SCALE as int, 3_200_000_000_000_000_000, SCALE as int);
    assert(3_200_000_000_000_000_000int / 1_000_000int == 3_200_000_000_000int) by {
        vstd::arithmetic::div_mod::lemma_div_multiples_vanish(3_200_000_000_000, 1_000_000);
        assert(1_000_000int * 3_200_000_000_000int == 3_200_000_000_000_000_000int);
    }
}

} // verus!
