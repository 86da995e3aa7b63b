//! GPS simulation: noisy fixes derived from the ground-truth state.
//!
//! Each sampled fix perturbs a position-derived latitude / longitude /
//! altitude proxy with one shared noise draw (the proxy is the small-angle
//! ratio of the coordinate to the earth radius) and reports speed as the
//! true velocity plus an independent noise draw.  A parallel sequence of
//! local Cartesian values carries the noisy position directly; speed can
//! alternatively be recomputed from consecutive Cartesian values divided by
//! the elapsed time, and the running sample variance of recorded speeds is
//! available once at least two fixes exist.

use crate::error::SimError;
use crate::fixed::{
    isqrt_s, isqrt_u128, lemma_abs_mul_bound, lemma_tdiv_magnitude, sat_i128,
    sat_s, scale_div_sat, tdiv_i128, tdiv_s, HISTORY_LIMIT, POS_LIMIT, SCALE, TIME_LIMIT,
    TRIG_LIMIT, VEL_LIMIT, YAW_LIMIT,
};
use crate::noise::{noise_state_s, noise_value_s, NoiseGen, NOISE_AMP_LIMIT};
use crate::state::{car_state_wf, CarState, CarStateV};
use crate::trig::{cos_fp, cos_fp_s, sin_fp, sin_fp_s, PI_FP};
use vstd::arithmetic::div_mod::lemma_div_multiples_vanish;
use vstd::prelude::*;

verus! {

/// Largest accepted earth radius, in ticks of a metre.
pub const EARTH_RADIUS_MAX: i64 = 10_000_000_000_000;

/// Saturation bound for a reported speed variance, in ticks.
pub const VAR_LIMIT: i64 = 4_000_000_000_000_000;

/// One recorded fix.
#[derive(Clone, Copy, Debug)]
pub struct GPSPoint {
    pub time_stamp: i64,
    pub latitude: i64,
    pub longitude: i64,
    pub altitude: i64,
    pub speed: i64,
}

/// Mathematical view of a fix.
pub ghost struct GPSPointV {
    pub time_stamp: int,
    pub latitude: int,
    pub longitude: int,
    pub altitude: int,
    pub speed: int,
}

impl View for GPSPoint {
    type V = GPSPointV;

    open spec fn view(&self) -> GPSPointV {
        GPSPointV {
            time_stamp: self.time_stamp as int,
            latitude: self.latitude as int,
            longitude: self.longitude as int,
            altitude: self.altitude as int,
            speed: self.speed as int,
        }
    }
}

/// Ranges every stored fix satisfies.
pub open spec fn fix_wf(p: GPSPointV) -> bool {
    &&& -TIME_LIMIT <= p.time_stamp <= TIME_LIMIT
    &&& -YAW_LIMIT <= p.latitude <= YAW_LIMIT
    &&& -YAW_LIMIT <= p.longitude <= YAW_LIMIT
    &&& -POS_LIMIT <= p.altitude <= POS_LIMIT
    &&& -VEL_LIMIT <= p.speed <= VEL_LIMIT
}

impl GPSPoint {
    /// An empty fix at time zero.
    pub fn new() -> (r: GPSPoint)
        ensures
            r@ == (GPSPointV { time_stamp: 0, latitude: 0, longitude: 0, altitude: 0, speed: 0 }),
    {
        GPSPoint { time_stamp: 0, latitude: 0, longitude: 0, altitude: 0, speed: 0 }
    }
}

/// One local Cartesian value.
#[derive(Clone, Copy, Debug)]
pub struct XYZValues {
    pub time_stamp: i64,
    pub x: i64,
    pub y: i64,
    pub z: i64,
}

/// Mathematical view of a Cartesian value.
pub ghost struct XYZValuesV {
    pub time_stamp: int,
    pub x: int,
    pub y: int,
    pub z: int,
}

impl View for XYZValues {
    type V = XYZValuesV;

    open spec fn view(&self) -> XYZValuesV {
        XYZValuesV {
            time_stamp: self.time_stamp as int,
            x: self.x as int,
            y: self.y as int,
            z: self.z as int,
        }
    }
}

/// Ranges every stored Cartesian value satisfies.
pub open spec fn xyz_wf(p: XYZValuesV) -> bool {
    &&& -TIME_LIMIT <= p.time_stamp <= TIME_LIMIT
    &&& -POS_LIMIT <= p.x <= POS_LIMIT
    &&& -POS_LIMIT <= p.y <= POS_LIMIT
    &&& -POS_LIMIT <= p.z <= POS_LIMIT
}

/// Saturated component-wise difference of Cartesian values.
pub open spec fn xyz_minus_s(a: XYZValuesV, b: XYZValuesV) -> XYZValuesV {
    XYZValuesV {
        time_stamp: a.time_stamp,
        x: sat_s(a.x - b.x, POS_LIMIT as int),
        y: sat_s(a.y - b.y, POS_LIMIT as int),
        z: sat_s(a.z - b.z, POS_LIMIT as int),
    }
}

impl XYZValues {
    /// A zero value at time zero.
    pub fn new() -> (r: XYZValues)
        ensures
            r@ == (XYZValuesV { time_stamp: 0, x: 0, y: 0, z: 0 }),
    {
        XYZValues { time_stamp: 0, x: 0, y: 0, z: 0 }
    }

    /// Named replacement for subtraction: the saturated component-wise
    /// difference, keeping this value's timestamp.
    pub fn minus(&self, other: &XYZValues) -> (r: XYZValues)
        ensures
            r@ == xyz_minus_s(self@, other@),
    {
        XYZValues {
            time_stamp: self.time_stamp,
            x: sat_i128(self.x as i128 - other.x as i128, POS_LIMIT),
            y: sat_i128(self.y as i128 - other.y as i128, POS_LIMIT),
            z: sat_i128(self.z as i128 - other.z as i128, POS_LIMIT),
        }
    }
}

/// The GPS device: recorded fixes, their Cartesian counterparts, and an
/// owned noise source.
#[derive(Clone, Debug)]
pub struct GpsXYZ {
    /// True until the first sample is drawn.
    pub initial: bool,
    pub gps_values: Vec<GPSPoint>,
    pub xyz_values: Vec<XYZValues>,
    /// Diagnostic log of variance queries (append-only).
    pub covariances: Vec<i64>,
    pub earth_radius: i64,
    pub rng: NoiseGen,
    /// Amplitude of the shared position noise draw, in ticks.
    pub noise_amp: i64,
    /// Amplitude of the speed noise draw, in ticks.
    pub speed_noise_amp: i64,
}

/// Mathematical view of the GPS device.
pub ghost struct GpsXYZV {
    pub initial: bool,
    pub fixes: Seq<GPSPointV>,
    pub xyz: Seq<XYZValuesV>,
    pub covariances: Seq<int>,
    pub earth_radius: int,
    pub rng: u64,
    pub noise_amp: int,
    pub speed_noise_amp: int,
}

impl View for GpsXYZ {
    type V = GpsXYZV;

    open spec fn view(&self) -> GpsXYZV {
        GpsXYZV {
            initial: self.initial,
            fixes: Seq::new(self.gps_values@.len(), |i: int| self.gps_values@[i]@),
            xyz: Seq::new(self.xyz_values@.len(), |i: int| self.xyz_values@[i]@),
            covariances: Seq::new(self.covariances@.len(), |i: int| self.covariances@[i] as int),
            earth_radius: self.earth_radius as int,
            rng: self.rng.state,
            noise_amp: self.noise_amp as int,
            speed_noise_amp: self.speed_noise_amp as int,
        }
    }
}

/// Well-formedness of the device.
pub open spec fn gps_wf(g: GpsXYZV) -> bool {
    &&& 0 < g.earth_radius <= EARTH_RADIUS_MAX
    &&& 0 <= g.noise_amp <= NOISE_AMP_LIMIT
    &&& 0 <= g.speed_noise_amp <= NOISE_AMP_LIMIT
    &&& g.fixes.len() <= HISTORY_LIMIT
    &&& g.xyz.len() <= HISTORY_LIMIT
    &&& forall|i: int| 0 <= i < g.fixes.len() ==> fix_wf(#[trigger] g.fixes[i])
    &&& forall|i: int| 0 <= i < g.xyz.len() ==> xyz_wf(#[trigger] g.xyz[i])
}

/// Latitude/longitude proxy of a coordinate: its small-angle ratio to the
/// earth radius, in ticks of a radian.
pub open spec fn angle_proxy_s(coord: int, earth_radius: int) -> int {
    tdiv_s(coord * (SCALE as int), earth_radius)
}

/// The fix recorded by one sample of the ground-truth state.
pub open spec fn sampled_fix_s(g: GpsXYZV, car: CarStateV, noise: int, speed_noise: int) -> GPSPointV {
    GPSPointV {
        time_stamp: sat_s(car.time_stamp, TIME_LIMIT as int),
        latitude: sat_s(angle_proxy_s(car.x, g.earth_radius) + noise, YAW_LIMIT as int),
        longitude: sat_s(angle_proxy_s(car.y, g.earth_radius) + noise, YAW_LIMIT as int),
        altitude: sat_s(g.earth_radius + noise, POS_LIMIT as int),
        speed: sat_s(car.velocity + speed_noise, VEL_LIMIT as int),
    }
}

/// The Cartesian value recorded by one sample of the ground-truth state.
pub open spec fn sampled_xyz_s(car: CarStateV, noise: int) -> XYZValuesV {
    XYZValuesV {
        time_stamp: sat_s(car.time_stamp, TIME_LIMIT as int),
        x: sat_s(car.x + noise, POS_LIMIT as int),
        y: sat_s(car.y + noise, POS_LIMIT as int),
        z: sat_s(car.yaw + noise, POS_LIMIT as int),
    }
}

/// The whole-device transition of one sample: two noise draws, one fix and
/// one Cartesian value appended.
#[verifier::opaque]
pub open spec fn gps_sample_s(g: GpsXYZV, car: CarStateV) -> GpsXYZV {
    let noise = noise_value_s(g.rng, g.noise_amp);
    let rng1 = noise_state_s(g.rng);
    let speed_noise = noise_value_s(rng1, g.speed_noise_amp);
    let rng2 = noise_state_s(rng1);
    GpsXYZV {
        initial: false,
        fixes: g.fixes.push(sampled_fix_s(g, car, noise, speed_noise)),
        xyz: g.xyz.push(sampled_xyz_s(car, noise)),
        rng: rng2,
        ..g
    }
}

/// Degrees to radians, in ticks.
pub open spec fn deg_to_rad_s(v: int) -> int {
    tdiv_s(v * (PI_FP as int), 180 * (SCALE as int))
}

/// The fix stored by `record`: angles converted to radians, every field
/// saturated into its stored range.
pub open spec fn recorded_fix_s(
    time_stamp: int,
    latitude: int,
    longitude: int,
    altitude: int,
    speed: int,
) -> GPSPointV {
    GPSPointV {
        time_stamp: sat_s(time_stamp, TIME_LIMIT as int),
        latitude: sat_s(deg_to_rad_s(latitude), YAW_LIMIT as int),
        longitude: sat_s(deg_to_rad_s(longitude), YAW_LIMIT as int),
        altitude: sat_s(deg_to_rad_s(altitude), POS_LIMIT as int),
        speed: sat_s(speed, VEL_LIMIT as int),
    }
}

/// Earth-centred Cartesian value of a recorded fix.
pub open spec fn ecef_s(g: GpsXYZV, sel: int) -> XYZValuesV {
    let lat = g.fixes[sel].latitude;
    let lon = g.fixes[sel].longitude;
    let sc = SCALE as int;
    let rcos = sat_s(tdiv_s(g.earth_radius * cos_fp_s(lat), sc), POS_LIMIT as int);
    XYZValuesV {
        time_stamp: g.fixes[sel].time_stamp,
        x: sat_s(tdiv_s(rcos * cos_fp_s(lon), sc), POS_LIMIT as int),
        y: sat_s(tdiv_s(rcos * sin_fp_s(lon), sc), POS_LIMIT as int),
        z: sat_s(tdiv_s(g.earth_radius * sin_fp_s(lat), sc), POS_LIMIT as int),
    }
}

/// The finite-difference speed between two Cartesian values: the distance
/// between them over the elapsed time, saturated.
pub open spec fn speed_from_xyz_s(a: XYZValuesV, b: XYZValuesV) -> int {
    let dsq = (b.x - a.x) * (b.x - a.x) + (b.y - a.y) * (b.y - a.y) + (b.z - a.z) * (b.z - a.z);
    sat_s(tdiv_s(isqrt_s(dsq) * (SCALE as int), b.time_stamp - a.time_stamp), VEL_LIMIT as int)
}

/// The whole-device transition of `to_cartesian`: the Cartesian value of
/// the selected fix is appended, and the fix's speed is refreshed when a
/// finite difference is available.
pub open spec fn to_cartesian_s(g: GpsXYZV, sel: int) -> GpsXYZV {
    let p = ecef_s(g, sel);
    let xyz2 = g.xyz.push(p);
    let k = xyz2.len() as int;
    if k >= 2 && xyz2[k - 1].time_stamp - xyz2[k - 2].time_stamp > 0 {
        GpsXYZV {
            xyz: xyz2,
            fixes: g.fixes.update(
                sel,
                GPSPointV { speed: speed_from_xyz_s(xyz2[k - 2], xyz2[k - 1]), ..g.fixes[sel] },
            ),
            ..g
        }
    } else {
        GpsXYZV { xyz: xyz2, ..g }
    }
}

/// Sum of the first `n` recorded speeds.
pub open spec fn speed_sum_s(fixes: Seq<GPSPointV>, n: int) -> int
    decreases n,
{
    if n <= 0 {
        0
    } else {
        speed_sum_s(fixes, n - 1) + fixes[n - 1].speed
    }
}

/// Sum of squared deviations of the first `n` recorded speeds from `mean`.
pub open spec fn dev_sq_sum_s(fixes: Seq<GPSPointV>, n: int, mean: int) -> int
    decreases n,
{
    if n <= 0 {
        0
    } else {
        dev_sq_sum_s(fixes, n - 1, mean) + (fixes[n - 1].speed - mean) * (fixes[n - 1].speed
            - mean)
    }
}

/// Sample variance of the first `n` recorded speeds, in ticks (the squared
/// deviations are rescaled by `SCALE`), saturated at `VAR_LIMIT`.
pub open spec fn variance_s(fixes: Seq<GPSPointV>, n: int) -> int {
    let mean = tdiv_s(speed_sum_s(fixes, n), n);
    sat_s(tdiv_s(dev_sq_sum_s(fixes, n, mean), n * (SCALE as int)), VAR_LIMIT as int)
}

impl GpsXYZ {
    /// Create a device.  The earth radius defaults to 6 371 000 m; the
    /// noise amplitudes default to 0.01 (position, radians) and 1.0
    /// (speed), mirroring a noise ratio of one tenth of a 0.1 deviation.
    pub fn new(earth_radius: Option<i64>, seed: u64) -> (r: Result<GpsXYZ, SimError>)
        ensures
            r is Ok <==> (match earth_radius {
                Some(er) => 0 < er <= EARTH_RADIUS_MAX,
                None => true,
            }),
            r matches Err(e) ==> e == SimError::InvalidConfiguration,
            r matches Ok(g) ==> {
                &&& gps_wf(g@)
                &&& g@.initial == true
                &&& g@.fixes.len() == 0
                &&& g@.xyz.len() == 0
                &&& g@.covariances.len() == 0
                &&& g@.rng == seed
                &&& g@.earth_radius == (match earth_radius {
                    Some(er) => er as int,
                    None => 6_371_000_000_000int,
                })
                &&& g@.noise_amp == 10_000
                &&& g@.speed_noise_amp == 1_000_000
            },
    {
        let er: i64 = match earth_radius {
            Some(er) => {
                if er <= 0 || er > EARTH_RADIUS_MAX {
                    return Err(SimError::InvalidConfiguration);
                }
                er
            },
            None => 6_371_000_000_000,
        };
        let g = GpsXYZ {
            initial: true,
            gps_values: Vec::new(),
            xyz_values: Vec::new(),
            covariances: Vec::new(),
            earth_radius: er,
            rng: NoiseGen::new(seed),
            noise_amp: 10_000,
            speed_noise_amp: 1_000_000,
        };
        proof {
            assert(g@.fixes =~= Seq::<GPSPointV>::empty());
            assert(g@.xyz =~= Seq::<XYZValuesV>::empty());
            assert(g@.covariances =~= Seq::<int>::empty());
        }
        Ok(g)
    }

    /// Sample the ground truth: append one noisy fix and one noisy
    /// Cartesian value.
    pub fn from_carstate(&mut self, car: &CarState)
        requires
            gps_wf(old(self)@),
            car_state_wf(car@),
            old(self)@.fixes.len() < HISTORY_LIMIT,
            old(self)@.xyz.len() < HISTORY_LIMIT,
        ensures
            final(self)@ == gps_sample_s(old(self)@, car@),
            gps_wf(final(self)@),
            final(self)@.fixes.len() == old(self)@.fixes.len() + 1,
            final(self)@.xyz.len() == old(self)@.xyz.len() + 1,
            final(self)@.fixes[final(self)@.fixes.len() - 1].time_stamp == sat_s(
                car@.time_stamp,
                TIME_LIMIT as int,
            ),
    {
        proof {
            reveal(gps_sample_s);
        }
        let noise: i64 = self.rng.next_noise(self.noise_amp);
        let speed_noise: i64 = self.rng.next_noise(self.speed_noise_amp);
        proof {
            lemma_abs_mul_bound(car.x as int, SCALE as int, POS_LIMIT as int, SCALE as int);
            lemma_abs_mul_bound(car.y as int, SCALE as int, POS_LIMIT as int, SCALE as int);
            lemma_tdiv_magnitude(
                car.x as int * SCALE as int,
                self.earth_radius as int,
                POS_LIMIT as int * SCALE as int,
                1,
            );
            lemma_tdiv_magnitude(
                car.y as int * SCALE as int,
                self.earth_radius as int,
                POS_LIMIT as int * SCALE as int,
                1,
            );
        }
        let lat_raw: i128 = tdiv_i128(
            (car.x as i128) * (SCALE as i128),
            self.earth_radius as i128,
        );
        let lon_raw: i128 = tdiv_i128(
            (car.y as i128) * (SCALE as i128),
            self.earth_radius as i128,
        );
        let fix = GPSPoint {
            time_stamp: sat_i128(car.time_stamp as i128, TIME_LIMIT),
            latitude: sat_i128(lat_raw + noise as i128, YAW_LIMIT),
            longitude: sat_i128(lon_raw + noise as i128, YAW_LIMIT),
            altitude: sat_i128(self.earth_radius as i128 + noise as i128, POS_LIMIT),
            speed: sat_i128(car.velocity as i128 + speed_noise as i128, VEL_LIMIT),
        };
        let xyz = XYZValues {
            time_stamp: sat_i128(car.time_stamp as i128, TIME_LIMIT),
            x: sat_i128(car.x as i128 + noise as i128, POS_LIMIT),
            y: sat_i128(car.y as i128 + noise as i128, POS_LIMIT),
            z: sat_i128(car.yaw as i128 + noise as i128, POS_LIMIT),
        };
        self.gps_values.push(fix);
        self.xyz_values.push(xyz);
        self.initial = false;
        proof {
            assert(self@.fixes =~= gps_sample_s(old(self)@, car@).fixes);
            assert(self@.xyz =~= gps_sample_s(old(self)@, car@).xyz);
            assert(self@.covariances =~= gps_sample_s(old(self)@, car@).covariances);
        }
    }

    /// Record one raw fix given in degrees: the angles are converted to
    /// radians and every field is saturated into its stored range.
    pub fn record(
        &mut self,
        time_stamp: i64,
        latitude: i64,
        longitude: i64,
        altitude: i64,
        speed: i64,
    )
        requires
            gps_wf(old(self)@),
            old(self)@.fixes.len() < HISTORY_LIMIT,
        ensures
            final(self)@ == (GpsXYZV {
                fixes: old(self)@.fixes.push(
                    recorded_fix_s(
                        time_stamp as int,
                        latitude as int,
                        longitude as int,
                        altitude as int,
                        speed as int,
                    ),
                ),
                ..old(self)@
            }),
            gps_wf(final(self)@),
    {
        proof {
            lemma_abs_mul_bound(latitude as int, PI_FP as int, i64::MAX as int + 1, PI_FP as int);
            lemma_abs_mul_bound(longitude as int, PI_FP as int, i64::MAX as int + 1, PI_FP as int);
            lemma_abs_mul_bound(altitude as int, PI_FP as int, i64::MAX as int + 1, PI_FP as int);
        }
        let den: i128 = 180 * (SCALE as i128);
        let fix = GPSPoint {
            time_stamp: sat_i128(time_stamp as i128, TIME_LIMIT),
            latitude: scale_div_sat((latitude as i128) * (PI_FP as i128), den, YAW_LIMIT),
            longitude: scale_div_sat((longitude as i128) * (PI_FP as i128), den, YAW_LIMIT),
            altitude: scale_div_sat((altitude as i128) * (PI_FP as i128), den, POS_LIMIT),
            speed: sat_i128(speed as i128, VEL_LIMIT),
        };
        self.gps_values.push(fix);
        proof {
            let g2 = GpsXYZV {
                fixes: old(self)@.fixes.push(
                    recorded_fix_s(
                        time_stamp as int,
                        latitude as int,
                        longitude as int,
                        altitude as int,
                        speed as int,
                    ),
                ),
                ..old(self)@
            };
            assert(self@.fixes =~= g2.fixes);
            assert(self@.xyz =~= g2.xyz);
            assert(self@.covariances =~= g2.covariances);
        }
    }

    /// Convert one recorded fix (the latest when no index is given) to an
    /// earth-centred Cartesian value and append it; if at least two
    /// Cartesian values with increasing timestamps now exist, the fix's
    /// speed is refreshed from the finite difference of the last two.
    #[verifier::rlimit(100)]
    pub fn to_cartesian(&mut self, idx: Option<usize>)
        requires
            gps_wf(old(self)@),
            old(self)@.fixes.len() > 0,
            old(self)@.xyz.len() < HISTORY_LIMIT,
            idx matches Some(i) ==> i < old(self)@.fixes.len(),
        ensures
            final(self)@ == to_cartesian_s(
                old(self)@,
                match idx {
                    Some(i) => i as int,
                    None => old(self)@.fixes.len() - 1,
                },
            ),
            gps_wf(final(self)@),
    {
        let sel: usize = match idx {
            Some(i) => i,
            None => self.gps_values.len() - 1,
        };
        let fix: GPSPoint = self.gps_values[sel];
        proof {
            assert(fix@ == self@.fixes[sel as int]);
            assert(fix_wf(self@.fixes[sel as int]));
        }
        let clat: i64 = cos_fp(fix.latitude);
        let slat: i64 = sin_fp(fix.latitude);
        let clon: i64 = cos_fp(fix.longitude);
        let slon: i64 = sin_fp(fix.longitude);
        proof {
            lemma_abs_mul_bound(
                self.earth_radius as int,
                clat as int,
                EARTH_RADIUS_MAX as int,
                TRIG_LIMIT as int,
            );
            lemma_abs_mul_bound(
                self.earth_radius as int,
                slat as int,
                EARTH_RADIUS_MAX as int,
                TRIG_LIMIT as int,
            );
        }
        let rcos: i64 = scale_div_sat(
            (self.earth_radius as i128) * (clat as i128),
            SCALE as i128,
            POS_LIMIT,
        );
        proof {
            lemma_abs_mul_bound(rcos as int, clon as int, POS_LIMIT as int, TRIG_LIMIT as int);
            lemma_abs_mul_bound(rcos as int, slon as int, POS_LIMIT as int, TRIG_LIMIT as int);
        }
        let p = XYZValues {
            time_stamp: fix.time_stamp,
            x: scale_div_sat((rcos as i128) * (clon as i128), SCALE as i128, POS_LIMIT),
            y: scale_div_sat((rcos as i128) * (slon as i128), SCALE as i128, POS_LIMIT),
            z: scale_div_sat(
                (self.earth_radius as i128) * (slat as i128),
                SCALE as i128,
                POS_LIMIT,
            ),
        };
        self.xyz_values.push(p);
        proof {
            assert(self@.xyz =~= old(self)@.xyz.push(ecef_s(old(self)@, sel as int)));
            assert(self@.fixes =~= old(self)@.fixes);
            assert(self@.covariances =~= old(self)@.covariances);
        }
        let refreshed = self.calculate_speed(None);
        match refreshed {
            Ok(v) => {
                self.gps_values[sel].speed = v;
                proof {
                    let g2 = to_cartesian_s(old(self)@, sel as int);
                    assert(self@.fixes =~= g2.fixes);
                    assert(self@.xyz =~= g2.xyz);
                    assert(self@.covariances =~= g2.covariances);
                }
            },
            Err(_) => {
                proof {
                    let g2 = to_cartesian_s(old(self)@, sel as int);
                    assert(self@.fixes =~= g2.fixes);
                    assert(self@.xyz =~= g2.xyz);
                    assert(self@.covariances =~= g2.covariances);
                }
            },
        }
    }

    /// The finite-difference speed at one Cartesian value (the latest when
    /// no index is given): the distance to its predecessor divided by the
    /// elapsed time.  Fails with `InsufficientHistory` exactly when fewer
    /// than two values exist at the index or no time elapsed between them.
    pub fn calculate_speed(&self, idx: Option<usize>) -> (r: Result<i64, SimError>)
        requires
            gps_wf(self@),
            self@.xyz.len() > 0,
            idx matches Some(i) ==> i < self@.xyz.len(),
        ensures
            ({
                let sel = match idx {
                    Some(i) => i as int,
                    None => self@.xyz.len() - 1,
                };
                &&& (r is Ok <==> (1 <= sel && self@.xyz[sel].time_stamp - self@.xyz[sel
                    - 1].time_stamp > 0))
                &&& (r matches Err(e) ==> e == SimError::InsufficientHistory)
                &&& (r matches Ok(v) ==> v == speed_from_xyz_s(self@.xyz[sel - 1], self@.xyz[sel]))
            }),
    {
        let sel: usize = match idx {
            Some(i) => i,
            None => self.xyz_values.len() - 1,
        };
        if sel < 1 {
            return Err(SimError::InsufficientHistory);
        }
        let b: XYZValues = self.xyz_values[sel];
        let a: XYZValues = self.xyz_values[sel - 1];
        proof {
            assert(b@ == self@.xyz[sel as int]);
            assert(a@ == self@.xyz[sel as int - 1]);
            assert(xyz_wf(self@.xyz[sel as int]));
            assert(xyz_wf(self@.xyz[sel as int - 1]));
        }
        let elapsed: i64 = b.time_stamp - a.time_stamp;
        if elapsed <= 0 {
            return Err(SimError::InsufficientHistory);
        }
        let dx: i128 = b.x as i128 - a.x as i128;
        let dy: i128 = b.y as i128 - a.y as i128;
        let dz: i128 = b.z as i128 - a.z as i128;
        proof {
            lemma_abs_mul_bound(dx as int, dx as int, 2 * POS_LIMIT as int, 2 * POS_LIMIT as int);
            lemma_abs_mul_bound(dy as int, dy as int, 2 * POS_LIMIT as int, 2 * POS_LIMIT as int);
            lemma_abs_mul_bound(dz as int, dz as int, 2 * POS_LIMIT as int, 2 * POS_LIMIT as int);
            assert(dx as int * dx as int >= 0) by (nonlinear_arith);
            assert(dy as int * dy as int >= 0) by (nonlinear_arith);
            assert(dz as int * dz as int >= 0) by (nonlinear_arith);
        }
        let dsq: i128 = dx * dx + dy * dy + dz * dz;
        let dist: u128 = isqrt_u128(dsq as u128);
        proof {
            assert(dist as int <= 4_000_000_000_000_000) by (nonlinear_arith)
                requires
                    0 <= dist as int,
                    dist as int * dist as int <= dsq as int,
                    dsq as int <= 12_000_000_000_000_000_000_000_000_000_000,
            ;
            lemma_abs_mul_bound(dist as int, SCALE as int, 4_000_000_000_000_000, SCALE as int);
        }
        Ok(scale_div_sat((dist as i128) * (SCALE as i128), elapsed as i128, VEL_LIMIT))
    }

    /// Sample variance of the speeds of the first `idx` fixes, or of all
    /// fixes recorded so far when no count is given.  Fails with
    /// `InsufficientHistory` exactly when fewer than two speeds are
    /// available.
    pub fn get_covariance(&self, idx: Option<usize>) -> (r: Result<i64, SimError>)
        requires
            gps_wf(self@),
        ensures
            ({
                let n = match idx {
                    Some(i) => i as int,
                    None => self@.fixes.len() as int,
                };
                &&& (r is Ok <==> 2 <= n <= self@.fixes.len())
                &&& (r matches Err(e) ==> e == SimError::InsufficientHistory)
                &&& (r matches Ok(v) ==> v == variance_s(self@.fixes, n))
            }),
    {
        let sel: usize = match idx {
            Some(i) => i,
            None => self.gps_values.len(),
        };
        if sel < 2 || sel > self.gps_values.len() {
            return Err(SimError::InsufficientHistory);
        }
        let n: usize = sel;
        let mut sum: i128 = 0;
        let mut i: usize = 0;
        while i < n
            invariant
                gps_wf(self@),
                i <= n,
                2 <= n <= self@.fixes.len(),
                sum == speed_sum_s(self@.fixes, i as int),
                -(i as int) * (VEL_LIMIT as int) <= sum as int <= (i as int) * (VEL_LIMIT as int),
            decreases n - i,
        {
            proof {
                assert(fix_wf(self@.fixes[i as int]));
                assert(self.gps_values@[i as int]@ == self@.fixes[i as int]);
            }
            let s: i64 = self.gps_values[i].speed;
            sum = sum + s as i128;
            i = i + 1;
        }
        proof {
            lemma_tdiv_magnitude(
                sum as int,
                n as int,
                (n as int) * (VEL_LIMIT as int),
                n as int,
            );
            lemma_div_multiples_vanish(VEL_LIMIT as int, n as int);
        }
        let mean: i128 = tdiv_i128(sum, n as i128);
        let mut vsum: i128 = 0;
        let mut j: usize = 0;
        while j < n
            invariant
                gps_wf(self@),
                j <= n,
                2 <= n <= self@.fixes.len(),
                -(VEL_LIMIT as int) <= mean as int <= VEL_LIMIT as int,
                vsum == dev_sq_sum_s(self@.fixes, j as int, mean as int),
                0 <= vsum as int <= (j as int) * 4_000_000_000_000_000_000_000_000,
            decreases n - j,
        {
            proof {
                assert(fix_wf(self@.fixes[j as int]));
                assert(self.gps_values@[j as int]@ == self@.fixes[j as int]);
            }
            let s: i64 = self.gps_values[j].speed;
            let dev: i128 = s as i128 - mean;
            proof {
                lemma_abs_mul_bound(dev as int, dev as int, 2_000_000_000_000, 2_000_000_000_000);
                assert(dev as int * dev as int >= 0) by (nonlinear_arith);
            }
            vsum = vsum + dev * dev;
            j = j + 1;
        }
        proof {
            lemma_abs_mul_bound(n as int, SCALE as int, 10_000_000_000_000, 1_000_000);
        }
        let den: i128 = (n as i128) * (SCALE as i128);
        Ok(scale_div_sat(vsum, den, VAR_LIMIT))
    }

    /// Read one recorded Cartesian value; without an index, the one at the
    /// position of the latest fix (the two logs move together when every
    /// fix is converted as it arrives).
    pub fn get_local_xyz(&self, idx: Option<usize>) -> (r: XYZValues)
        requires
            match idx {
                Some(i) => i < self@.xyz.len(),
                None => 0 < self@.fixes.len() <= self@.xyz.len(),
            },
        ensures
            r@ == self@.xyz[match idx {
                Some(i) => i as int,
                None => self@.fixes.len() - 1,
            }],
    {
        let sel: usize = match idx {
            Some(i) => i,
            None => self.gps_values.len() - 1,
        };
        self.xyz_values[sel]
    }
}

} // verus!
