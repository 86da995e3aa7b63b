//! Wheel-encoder simulation.
//!
//! Each sample converts the true velocity into a count increment
//! (`velocity * dt / resolution`), perturbs it with a non-negative bounded
//! noise draw, and accumulates it into a running signed count, honouring the
//! direction-reversal flag.  Counts are kept in ticks (fixed-point counts),
//! so fractional increments accumulate instead of being dropped.  With
//! `reverse_direction` false and non-negative velocity the count never
//! decreases; with the flag set it never increases.

use crate::error::SimError;
use crate::fixed::{
    lemma_abs_mul_bound, lemma_tdiv_magnitude, sat_i128, sat_s, tdiv_i128, tdiv_s, HISTORY_LIMIT,
    SCALE, TIME_LIMIT, VEL_LIMIT,
};
use crate::noise::{mix_next_s, mix_out_s, uniform_nonneg_s, NoiseGen, NOISE_AMP_LIMIT};
use crate::state::{car_state_wf, CarState, CarStateV};
use vstd::prelude::*;

verus! {

/// Saturation bound for the running count, in ticks.
pub const COUNT_LIMIT: i64 = 4_000_000_000_000_000_000;

/// One recorded encoder reading.
#[derive(Clone, Debug)]
pub struct Encoder {
    /// Timestamp of the reading, in ticks of a second.
    pub time_stamp: i64,
    /// A descriptive name for the encoder.
    pub name: String,
    /// The kind of encoder (quadrature, incremental, absolute, ...).
    pub encoder_type: String,
    /// Counts per revolution, if known.
    pub resolution: Option<u32>,
    /// Whether increments are subtracted instead of added.
    pub reverse_direction: bool,
    /// Running count at this reading, in ticks.
    pub count: i64,
    /// Running count at the previous reading, in ticks.
    pub last_count: i64,
    /// The sampled velocity, in ticks.
    pub velocity: i64,
    /// Noise amplitude used for this reading, in ticks.
    pub noise_std_dev: Option<i64>,
}

/// Mathematical view of a reading.
pub ghost struct EncoderV {
    pub time_stamp: int,
    pub name: Seq<char>,
    pub encoder_type: Seq<char>,
    pub resolution: Option<u32>,
    pub reverse_direction: bool,
    pub count: int,
    pub last_count: int,
    pub velocity: int,
    pub noise_std_dev: Option<int>,
}

impl View for Encoder {
    type V = EncoderV;

    open spec fn view(&self) -> EncoderV {
        EncoderV {
            time_stamp: self.time_stamp as int,
            name: self.name@,
            encoder_type: self.encoder_type@,
            resolution: self.resolution,
            reverse_direction: self.reverse_direction,
            count: self.count as int,
            last_count: self.last_count as int,
            velocity: self.velocity as int,
            noise_std_dev: match self.noise_std_dev {
                Some(v) => Some(v as int),
                None => None,
            },
        }
    }
}

impl Encoder {
    /// A fresh reading record with the given identity and configuration;
    /// counts start at zero and the noise amplitude is clamped into its
    /// accepted range.
    pub fn new(
        name: String,
        encoder_type: String,
        resolution: u32,
        reverse_direction: bool,
        noise_std_dev: Option<i64>,
    ) -> (r: Encoder)
        ensures
            r@ == (EncoderV {
                time_stamp: 0,
                name: name@,
                encoder_type: encoder_type@,
                resolution: Some(resolution),
                reverse_direction,
                count: 0,
                last_count: 0,
                velocity: 0,
                noise_std_dev: Some(
                    crate::fixed::clamp_s(
                        match noise_std_dev {
                            Some(v) => v as int,
                            None => 0,
                        },
                        0,
                        NOISE_AMP_LIMIT as int,
                    ),
                ),
            }),
    {
        let amp: i64 = match noise_std_dev {
            Some(v) => crate::fixed::clamp_i64(v, 0, NOISE_AMP_LIMIT),
            None => 0,
        };
        Encoder {
            time_stamp: 0,
            name,
            encoder_type,
            resolution: Some(resolution),
            reverse_direction,
            count: 0,
            last_count: 0,
            velocity: 0,
            noise_std_dev: Some(amp),
        }
    }
}

/// The wheel encoder: a running count, its configuration, a reading log and
/// an owned noise source.
#[derive(Clone, Debug)]
pub struct WheelEncoder {
    pub encoder_recorder: Vec<Encoder>,
    pub rng: NoiseGen,
    /// Counts per revolution.
    pub resolution: u32,
    /// Whether increments are subtracted instead of added.
    pub reverse_direction: bool,
    /// Amplitude of the non-negative noise draw, in ticks.
    pub noise_amp: i64,
    /// The accumulated count, in ticks.
    pub count: i64,
}

/// Mathematical view of the wheel encoder.
pub ghost struct WheelEncoderV {
    pub recorder: Seq<EncoderV>,
    pub rng: u64,
    pub resolution: u32,
    pub reverse_direction: bool,
    pub noise_amp: int,
    pub count: int,
}

impl View for WheelEncoder {
    type V = WheelEncoderV;

    open spec fn view(&self) -> WheelEncoderV {
        WheelEncoderV {
            recorder: Seq::new(self.encoder_recorder@.len(), |i: int| self.encoder_recorder@[i]@),
            rng: self.rng.state,
            resolution: self.resolution,
            reverse_direction: self.reverse_direction,
            noise_amp: self.noise_amp as int,
            count: self.count as int,
        }
    }
}

/// Well-formedness of the wheel encoder.
pub open spec fn encoder_wf(e: WheelEncoderV) -> bool {
    &&& e.resolution > 0
    &&& 0 <= e.noise_amp <= NOISE_AMP_LIMIT
    &&& e.recorder.len() <= HISTORY_LIMIT
    &&& -COUNT_LIMIT <= e.count <= COUNT_LIMIT
}

/// The count increment of one sample before noise: `velocity * dt`
/// rescaled by the resolution.
pub open spec fn count_delta_s(velocity: int, dt: int, resolution: u32) -> int {
    tdiv_s(velocity * dt, (resolution as int) * (SCALE as int))
}

/// The whole-encoder transition of one sample: one non-negative noise draw,
/// the running count moved by the noisy increment in the configured
/// direction, and one reading appended.
#[verifier::opaque]
pub open spec fn encoder_sample_s(e: WheelEncoderV, car: CarStateV) -> WheelEncoderV {
    let noise = uniform_nonneg_s(mix_out_s(mix_next_s(e.rng)), e.noise_amp);
    let delta = count_delta_s(car.velocity, car.dt, e.resolution) + noise;
    let count2 = if e.reverse_direction {
        sat_s(e.count - delta, COUNT_LIMIT as int)
    } else {
        sat_s(e.count + delta, COUNT_LIMIT as int)
    };
    let rec = EncoderV {
        time_stamp: sat_s(car.time_stamp, TIME_LIMIT as int),
        name: Seq::empty(),
        encoder_type: Seq::empty(),
        resolution: Some(e.resolution),
        reverse_direction: e.reverse_direction,
        count: count2,
        last_count: e.count,
        velocity: car.velocity,
        noise_std_dev: Some(e.noise_amp),
    };
    WheelEncoderV {
        recorder: e.recorder.push(rec),
        rng: mix_next_s(e.rng),
        count: count2,
        ..e
    }
}

impl WheelEncoder {
    /// Create an encoder.  Fails with `InvalidConfiguration` exactly when
    /// the resolution is zero or the noise amplitude is out of range.
    pub fn new(resolution: u32, reverse_direction: bool, noise_amp: i64, seed: u64) -> (r: Result<
        WheelEncoder,
        SimError,
    >)
        ensures
            r is Ok <==> (resolution > 0 && 0 <= noise_amp <= NOISE_AMP_LIMIT),
            r matches Err(e) ==> e == SimError::InvalidConfiguration,
            r matches Ok(w) ==> {
                &&& encoder_wf(w@)
                &&& w@.recorder.len() == 0
                &&& w@.rng == seed
                &&& w@.resolution == resolution
                &&& w@.reverse_direction == reverse_direction
                &&& w@.noise_amp == noise_amp
                &&& w@.count == 0
            },
    {
        if resolution == 0 || noise_amp < 0 || noise_amp > NOISE_AMP_LIMIT {
            return Err(SimError::InvalidConfiguration);
        }
        let w = WheelEncoder {
            encoder_recorder: Vec::new(),
            rng: NoiseGen::new(seed),
            resolution,
            reverse_direction,
            noise_amp,
            count: 0,
        };
        proof {
            assert(w@.recorder =~= Seq::<EncoderV>::empty());
        }
        Ok(w)
    }

    /// Sample the ground truth: accumulate one noisy count increment and
    /// append the reading.  With the reversal flag clear and a non-negative
    /// velocity the count never decreases; with the flag set, never
    /// increases.
    pub fn from_carstate(&mut self, car: &CarState)
        requires
            encoder_wf(old(self)@),
            car_state_wf(car@),
            old(self)@.recorder.len() < HISTORY_LIMIT,
        ensures
            final(self)@ == encoder_sample_s(old(self)@, car@),
            encoder_wf(final(self)@),
            !old(self).reverse_direction && car.velocity >= 0 ==> final(self)@.count >= old(
                self,
            )@.count,
            old(self).reverse_direction && car.velocity >= 0 ==> final(self)@.count <= old(
                self,
            )@.count,
            final(self)@.recorder.len() == old(self)@.recorder.len() + 1,
    {
        proof {
            reveal(encoder_sample_s);
        }
        let noise: i64 = self.rng.next_nonneg(self.noise_amp);
        proof {
            lemma_abs_mul_bound(
                car.velocity as int,
                car.dt as int,
                VEL_LIMIT as int,
                10_000_000,
            );
            lemma_abs_mul_bound(self.resolution as int, SCALE as int, 4_294_967_295, 1_000_000);
            lemma_tdiv_magnitude(
                car.velocity as int * car.dt as int,
                self.resolution as int * SCALE as int,
                10_000_000_000_000_000_000,
                1_000_000,
            );
            assert(10_000_000_000_000_000_000int / 1_000_000int == 10_000_000_000_000int) by {
                vstd::arithmetic::div_mod::lemma_div_multiples_vanish(
                    10_000_000_000_000,
                    1_000_000,
                );
                assert(1_000_000int * 10_000_000_000_000int == 10_000_000_000_000_000_000int);
            }
            if car.velocity >= 0 {
                lemma_tdiv_magnitude(
                    car.velocity as int * car.dt as int,
                    self.resolution as int * SCALE as int,
                    car.velocity as int * car.dt as int,
                    1,
                );
                assert(car.velocity as int * car.dt as int >= 0) by (nonlinear_arith)
                    requires
                        car.velocity >= 0,
                        car.dt > 0,
                ;
            }
        }
        let delta: i128 = tdiv_i128(
            (car.velocity as i128) * (car.dt as i128),
            (self.resolution as i128) * (SCALE as i128),
        ) + noise as i128;
        let count2: i64 = if self.reverse_direction {
            sat_i128(self.count as i128 - delta, COUNT_LIMIT)
        } else {
            sat_i128(self.count as i128 + delta, COUNT_LIMIT)
        };
        let rec = Encoder {
            time_stamp: sat_i128(car.time_stamp as i128, TIME_LIMIT),
            name: String::new(),
            encoder_type: String::new(),
            resolution: Some(self.resolution),
            reverse_direction: self.reverse_direction,
            count: count2,
            last_count: self.count,
            velocity: car.velocity,
            noise_std_dev: Some(self.noise_amp),
        };
        self.encoder_recorder.push(rec);
        self.count = count2;
        proof {
            assert(self@.recorder =~= encoder_sample_s(old(self)@, car@).recorder);
        }
    }

    /// The accumulated count, in ticks.
    pub fn get_count(&self) -> (r: i64)
        ensures
            r == self@.count,
    {
        self.count
    }
}

} // verus!
