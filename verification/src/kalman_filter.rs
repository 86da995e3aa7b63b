//! Extended Kalman filter fusing model predictions with observations.
//!
//! The filter keeps an estimate (a `CarState`) and its covariance (a 4x4
//! fixed-point matrix).  It starts uninitialised; the first observation
//! seeds the estimate and the covariance prior.  From then on each tick runs
//! the canonical cycle:
//!
//! * predict: the estimate advances through the bicycle model and the
//!   covariance through the model Jacobian, `P = J * P * J' + Q`;
//! * update: with the identity observation model, `S = P + R`,
//!   `K = P * inv(S)`, the innovation corrects the estimate, and
//!   `P = (I - K) * P`.
//!
//! When `S` is not invertible the update fails with
//! `SingularInnovationCovariance` and changes nothing: the predicted
//! estimate always stands.  After every covariance step the matrix is
//! symmetrised and clamped, the numeric guard that keeps it representable
//! and mirror-consistent.

use crate::car::{jacobian_s, model_wf, predict_s, KinematicBicycleModel, KinematicBicycleModelV};
use crate::error::SimError;
use crate::fixed::{
    lemma_abs_mul_bound, sat_i128, sat_s, tdiv_i128, tdiv_s, HISTORY_LIMIT, POS_LIMIT, SCALE,
    TIME_LIMIT, VEL_LIMIT, YAW_LIMIT,
};
use crate::matrix::{
    det3_s, mat_add_s, mat_bounded_s, mat_clamp_s, mat_det_s, mat_identity_s, mat_inv_s, mat_mul_s,
    mat_sub_s, mat_symmetric_s, mat_symmetrize_s, mat_transpose_s, Mat4, Mat4V, COV_LIMIT,
    MAT_LIMIT,
};
use crate::state::{car_state_wf, CarColor, CarState, CarStateV, Rectangular, RectangularV};
use vstd::prelude::*;

verus! {

/// The state estimator.
#[derive(Clone, Debug)]
pub struct KalmanFilter {
    /// Display rectangle handed to the renderer.
    pub rectangular: Rectangular,
    /// The running estimate.
    pub state: CarState,
    /// The estimate's covariance.
    pub covariance: Mat4,
    /// The motion model used for prediction and linearisation.
    pub model: KinematicBicycleModel,
    /// Process noise added at every prediction.
    pub q: Mat4,
    /// Measurement noise added to the innovation covariance.
    pub r: Mat4,
    /// Covariance seeded on the first observation.
    pub prior: Mat4,
    /// False until the first observation arrives.
    pub initialized: bool,
    /// Last commanded acceleration, recorded by `predict`.
    pub acceleration: i64,
    /// Last commanded steering angle, recorded by `predict`.
    pub steering_angle: i64,
    /// Append-only diagnostic log: one (x, y, yaw, velocity, acceleration,
    /// steering) tuple per successful update.
    pub history: Vec<(i64, i64, i64, i64, i64, i64)>,
}

/// Mathematical view of the filter.
pub ghost struct KalmanFilterV {
    pub rectangular: RectangularV,
    pub state: CarStateV,
    pub covariance: Mat4V,
    pub model: KinematicBicycleModelV,
    pub q: Mat4V,
    pub r: Mat4V,
    pub prior: Mat4V,
    pub initialized: bool,
    pub acceleration: int,
    pub steering_angle: int,
    pub history: Seq<(int, int, int, int, int, int)>,
}

impl View for KalmanFilter {
    type V = KalmanFilterV;

    open spec fn view(&self) -> KalmanFilterV {
        KalmanFilterV {
            rectangular: self.rectangular@,
            state: self.state@,
            covariance: self.covariance@,
            model: self.model@,
            q: self.q@,
            r: self.r@,
            prior: self.prior@,
            initialized: self.initialized,
            acceleration: self.acceleration as int,
            steering_angle: self.steering_angle as int,
            history: Seq::new(
                self.history@.len(),
                |i: int|
                    (
                        self.history@[i].0 as int,
                        self.history@[i].1 as int,
                        self.history@[i].2 as int,
                        self.history@[i].3 as int,
                        self.history@[i].4 as int,
                        self.history@[i].5 as int,
                    ),
            ),
        }
    }
}

/// Well-formedness of the filter.
pub open spec fn kf_wf(k: KalmanFilterV) -> bool {
    &&& model_wf(k.model)
    &&& car_state_wf(k.state)
    &&& k.state.dt == k.model.dt
    &&& mat_bounded_s(k.covariance, COV_LIMIT as int)
    &&& mat_symmetric_s(k.covariance)
    &&& mat_bounded_s(k.q, COV_LIMIT as int)
    &&& mat_bounded_s(k.r, COV_LIMIT as int)
    &&& mat_bounded_s(k.prior, COV_LIMIT as int)
    &&& mat_symmetric_s(k.prior)
    &&& k.history.len() <= HISTORY_LIMIT
}

/// Covariance propagation of one prediction:
/// clamp(symmetrize(J * P * J' + Q)).
pub open spec fn propagate_cov_s(j: Mat4V, p: Mat4V, q: Mat4V) -> Mat4V {
    let jp = mat_mul_s(j, p, MAT_LIMIT as int);
    let jpjt = mat_mul_s(jp, mat_transpose_s(j), MAT_LIMIT as int);
    mat_clamp_s(mat_symmetrize_s(mat_add_s(jpjt, q, MAT_LIMIT as int)), COV_LIMIT as int)
}

/// The whole-filter transition of one prediction.  Before initialisation a
/// prediction does nothing: there is no estimate to advance.
#[verifier::opaque]
pub open spec fn kf_predict_s(k: KalmanFilterV, acceleration: int, steering_angle: int) -> KalmanFilterV {
    if !k.initialized {
        k
    } else {
        let j = jacobian_s(
            k.model.dt,
            k.model.wheelbase,
            k.model.max_steer,
            k.state.yaw,
            k.state.velocity,
            steering_angle,
        );
        let p = predict_s(
            k.model.dt,
            k.model.wheelbase,
            k.model.max_steer,
            k.state.x,
            k.state.y,
            k.state.yaw,
            k.state.velocity,
            acceleration,
            steering_angle,
        );
        KalmanFilterV {
            state: CarStateV {
                x: p.x,
                y: p.y,
                yaw: p.yaw,
                velocity: p.velocity,
                time_stamp: sat_s(k.state.time_stamp + k.model.dt, TIME_LIMIT as int),
                ..k.state
            },
            covariance: propagate_cov_s(j, k.covariance, k.q),
            acceleration,
            steering_angle,
            ..k
        }
    }
}

/// One corrected component: `base + (row of K) * innovation / SCALE`,
/// saturated.
pub open spec fn row_apply_s(
    k0: int,
    k1: int,
    k2: int,
    k3: int,
    i0: int,
    i1: int,
    i2: int,
    i3: int,
    base: int,
    lim: int,
) -> int {
    sat_s(base + tdiv_s(k0 * i0 + k1 * i1 + k2 * i2 + k3 * i3, SCALE as int), lim)
}

/// Heading difference used in the innovation.  Headings accumulate without
/// wrapping, so today this is a plain difference; keeping it behind one
/// name lets wrap-around arrive later without touching the filter.
pub open spec fn angle_diff_s(a: int, b: int) -> int {
    a - b
}

/// The state seeded by the first observation: the observation's kinematic
/// components under the filter's own step size.
pub open spec fn kf_seed_s(k: KalmanFilterV, obs: CarStateV) -> KalmanFilterV {
    KalmanFilterV {
        state: CarStateV { dt: k.model.dt, ..obs },
        covariance: k.prior,
        initialized: true,
        ..k
    }
}

/// The whole-filter transition of one successful update with the identity
/// observation model.
pub open spec fn kf_correct_s(k: KalmanFilterV, obs: CarStateV) -> KalmanFilterV {
    let s = mat_add_s(k.covariance, k.r, MAT_LIMIT as int);
    let sinv = mat_inv_s(s, mat_det_s(s));
    let gain = mat_mul_s(k.covariance, sinv, MAT_LIMIT as int);
    let i0 = obs.x - k.state.x;
    let i1 = obs.y - k.state.y;
    let i2 = angle_diff_s(obs.yaw, k.state.yaw);
    let i3 = obs.velocity - k.state.velocity;
    let st2 = CarStateV {
        x: row_apply_s(
            gain.m00,
            gain.m01,
            gain.m02,
            gain.m03,
            i0,
            i1,
            i2,
            i3,
            k.state.x,
            POS_LIMIT as int,
        ),
        y: row_apply_s(
            gain.m10,
            gain.m11,
            gain.m12,
            gain.m13,
            i0,
            i1,
            i2,
            i3,
            k.state.y,
            POS_LIMIT as int,
        ),
        yaw: row_apply_s(
            gain.m20,
            gain.m21,
            gain.m22,
            gain.m23,
            i0,
            i1,
            i2,
            i3,
            k.state.yaw,
            YAW_LIMIT as int,
        ),
        velocity: row_apply_s(
            gain.m30,
            gain.m31,
            gain.m32,
            gain.m33,
            i0,
            i1,
            i2,
            i3,
            k.state.velocity,
            VEL_LIMIT as int,
        ),
        ..k.state
    };
    let cov2 = mat_clamp_s(
        mat_symmetrize_s(
            mat_mul_s(
                mat_sub_s(mat_identity_s(), gain, MAT_LIMIT as int),
                k.covariance,
                MAT_LIMIT as int,
            ),
        ),
        COV_LIMIT as int,
    );
    KalmanFilterV {
        state: st2,
        covariance: cov2,
        history: k.history.push(
            (st2.x, st2.y, st2.yaw, st2.velocity, k.acceleration, k.steering_angle),
        ),
        ..k
    }
}

/// The whole-filter transition of one update: the first observation seeds
/// the filter, later ones correct it.
#[verifier::opaque]
pub open spec fn kf_update_s(k: KalmanFilterV, obs: CarStateV) -> KalmanFilterV {
    if !k.initialized {
        kf_seed_s(k, obs)
    } else {
        kf_correct_s(k, obs)
    }
}

/// The innovation covariance of an update is singular, so the update would
/// be skipped.
#[verifier::opaque]
pub open spec fn kf_update_singular_s(k: KalmanFilterV) -> bool {
    k.initialized && mat_det_s(mat_add_s(k.covariance, k.r, MAT_LIMIT as int)) == 0
}

impl KalmanFilter {
    /// Create a filter.  Fails with `InvalidConfiguration` exactly when a
    /// model parameter is invalid or a noise matrix entry is out of range.
    pub fn new(
        wheelbase: i64,
        max_steer: i64,
        delta_time: i64,
        q: Mat4,
        r: Mat4,
        prior: Mat4,
        color: Option<CarColor>,
    ) -> (res: Result<KalmanFilter, SimError>)
        ensures
            res is Ok <==> (crate::car::model_params_ok(
                wheelbase as int,
                max_steer as int,
                delta_time as int,
            ) && mat_bounded_s(q@, COV_LIMIT as int) && mat_bounded_s(r@, COV_LIMIT as int)
                && mat_bounded_s(prior@, COV_LIMIT as int) && mat_symmetric_s(prior@)),
            res matches Err(e) ==> e == SimError::InvalidConfiguration,
            res matches Ok(k) ==> {
                &&& kf_wf(k@)
                &&& k@.initialized == false
                &&& k@.q == q@
                &&& k@.r == r@
                &&& k@.prior == prior@
                &&& k@.history.len() == 0
                &&& k@.model.wheelbase == wheelbase
                &&& k@.model.max_steer == max_steer
                &&& k@.model.dt == delta_time
                &&& k@.state == (CarStateV {
                    dt: delta_time as int,
                    time_stamp: 0,
                    x: 0,
                    y: 0,
                    yaw: 0,
                    velocity: 0,
                    width: None,
                    length: None,
                })
                &&& mat_bounded_s(k@.covariance, 0)
            },
    {
        if !q.within(COV_LIMIT) || !r.within(COV_LIMIT) || !prior.within(COV_LIMIT)
            || !prior.is_symmetric() {
            return Err(SimError::InvalidConfiguration);
        }
        let model = match KinematicBicycleModel::new(wheelbase, max_steer, delta_time) {
            Ok(m) => m,
            Err(e) => {
                return Err(e);
            },
        };
        let k = KalmanFilter {
            rectangular: Rectangular::new(color),
            state: model.state,
            covariance: Mat4::zero(),
            model,
            q,
            r,
            prior,
            initialized: false,
            acceleration: 0,
            steering_angle: 0,
            history: Vec::new(),
        };
        proof {
            assert(k@.history =~= Seq::<(int, int, int, int, int, int)>::empty());
        }
        Ok(k)
    }

    /// Advance the estimate and its covariance one step through the motion
    /// model.  Before the first observation this does nothing.
    pub fn predict(&mut self, acceleration: i64, steering_angle: i64)
        requires
            kf_wf(old(self)@),
        ensures
            final(self)@ == kf_predict_s(old(self)@, acceleration as int, steering_angle as int),
            kf_wf(final(self)@),
            final(self)@.history == old(self)@.history,
            final(self)@.initialized == old(self)@.initialized,
    {
        proof {
            reveal(kf_predict_s);
        }
        if !self.initialized {
            return ;
        }
        let j: Mat4 = self.model.linearize(
            self.state.x,
            self.state.y,
            self.state.yaw,
            self.state.velocity,
            steering_angle,
        );
        let p: CarState = self.model.predict(
            self.state.x,
            self.state.y,
            self.state.yaw,
            self.state.velocity,
            acceleration,
            steering_angle,
        );
        let jp: Mat4 = j.times(&self.covariance, MAT_LIMIT);
        let jt: Mat4 = j.transpose();
        let jpjt: Mat4 = jp.times(&jt, MAT_LIMIT);
        let cov2: Mat4 = jpjt.plus(&self.q, MAT_LIMIT).symmetrize().clamp_entries(COV_LIMIT);
        let ts: i64 = sat_i128(
            self.state.time_stamp as i128 + self.model.dt as i128,
            TIME_LIMIT,
        );
        self.state = CarState {
            time_stamp: ts,
            x: p.x,
            y: p.y,
            yaw: p.yaw,
            velocity: p.velocity,
            ..self.state
        };
        self.covariance = cov2;
        self.acceleration = acceleration;
        self.steering_angle = steering_angle;
    }

    /// Fuse one observation.  The first observation seeds the estimate and
    /// the covariance prior; later ones correct the prediction.  Fails with
    /// `SingularInnovationCovariance`, changing nothing, exactly when the
    /// innovation covariance has determinant zero.
    pub fn update(&mut self, observation: &CarState) -> (res: Result<(), SimError>)
        requires
            kf_wf(old(self)@),
            car_state_wf(observation@),
            old(self)@.history.len() < HISTORY_LIMIT,
        ensures
            kf_wf(final(self)@),
            res is Err <==> kf_update_singular_s(old(self)@),
            res matches Err(e) ==> e == SimError::SingularInnovationCovariance && final(self)@
                == old(self)@,
            res is Ok ==> final(self)@ == kf_update_s(old(self)@, observation@),
            final(self)@.history.len() <= old(self)@.history.len() + 1,
    {
        proof {
            reveal(kf_update_s);
            reveal(kf_update_singular_s);
        }
        if !self.initialized {
            self.state = CarState { dt: self.model.dt, ..*observation };
            self.covariance = self.prior;
            self.initialized = true;
            return Ok(());
        }
        let s: Mat4 = self.covariance.plus(&self.r, MAT_LIMIT);
        let sinv: Mat4 = match s.invert_scaled() {
            Some(m) => m,
            None => {
                return Err(SimError::SingularInnovationCovariance);
            },
        };
        let gain: Mat4 = self.covariance.times(&sinv, MAT_LIMIT);
        let i0: i128 = observation.x as i128 - self.state.x as i128;
        let i1: i128 = observation.y as i128 - self.state.y as i128;
        let i2: i128 = angle_diff(observation.yaw, self.state.yaw) as i128;
        let i3: i128 = observation.velocity as i128 - self.state.velocity as i128;
        let x2: i64 = row_apply(gain.m00, gain.m01, gain.m02, gain.m03, i0, i1, i2, i3,
            self.state.x, POS_LIMIT);
        let y2: i64 = row_apply(gain.m10, gain.m11, gain.m12, gain.m13, i0, i1, i2, i3,
            self.state.y, POS_LIMIT);
        let yaw2: i64 = row_apply(gain.m20, gain.m21, gain.m22, gain.m23, i0, i1, i2, i3,
            self.state.yaw, YAW_LIMIT);
        let v2: i64 = row_apply(gain.m30, gain.m31, gain.m32, gain.m33, i0, i1, i2, i3,
            self.state.velocity, VEL_LIMIT);
        let ik: Mat4 = Mat4::identity().minus(&gain, MAT_LIMIT);
        let cov2: Mat4 = ik.times(&self.covariance, MAT_LIMIT).symmetrize().clamp_entries(
            COV_LIMIT,
        );
        self.state = CarState { x: x2, y: y2, yaw: yaw2, velocity: v2, ..self.state };
        self.covariance = cov2;
        self.history.push((x2, y2, yaw2, v2, self.acceleration, self.steering_angle));
        proof {
            assert(self@.history =~= kf_update_s(old(self)@, observation@).history);
        }
        Ok(())
    }

    /// A read-only snapshot of the estimate and its covariance.
    pub fn estimate(&self) -> (r: (CarState, Mat4))
        ensures
            r.0@ == self@.state,
            r.1@ == self@.covariance,
    {
        (self.state, self.covariance)
    }
}

/// All off-diagonal entries are zero.
pub open spec fn mat_diagonal_s(m: Mat4V) -> bool {
    &&& m.m01 == 0 && m.m02 == 0 && m.m03 == 0
    &&& m.m10 == 0 && m.m12 == 0 && m.m13 == 0
    &&& m.m20 == 0 && m.m21 == 0 && m.m23 == 0
    &&& m.m30 == 0 && m.m31 == 0 && m.m32 == 0
}

/// Sum of the diagonal entries.
pub open spec fn mat_trace_s(m: Mat4V) -> int {
    m.m00 + m.m11 + m.m22 + m.m33
}

/// Truncating division of non-negative operands is Euclidean division.
proof fn lemma_tdiv_nonneg(a: int, b: int)
    requires
        a >= 0,
        b > 0,
    ensures
        tdiv_s(a, b) == a / b,
{
    if a == 0 {
        vstd::arithmetic::div_mod::lemma_div_of0(b);
    }
}

/// The 3x3 determinant of a diagonal minor is the product of its diagonal.
proof fn lemma_det3_diag(a: int, e: int, i: int)
    ensures
        det3_s(a, 0, 0, 0, e, 0, 0, 0, i) == a * (e * i),
{
    assert(a * (e * i - 0 * 0) - 0 * (0 * i - 0 * 0) + 0 * (0 * 0 - e * 0) == a * (e * i))
        by (nonlinear_arith);
}

/// One diagonal entry of the corrected covariance: with variance `pv` and
/// measurement noise `rv`, the chain `inv = SCALE^2 / (pv + rv)`,
/// `g = pv * inv / SCALE`, `corrected = (SCALE - g) * pv / SCALE` stays
/// within `[0, pv]`, and none of the saturations in the matrix pipeline
/// bind on it.
proof fn lemma_entry_chain(pv: int, rv: int, cof: int, det: int)
    requires
        0 <= pv <= COV_LIMIT as int,
        0 <= rv <= COV_LIMIT as int,
        0 < pv + rv,
        cof > 0,
        det == (pv + rv) * cof,
    ensures
        ({
            let sc = SCALE as int;
            let inv = sat_s(tdiv_s(cof * sc * sc, det), crate::matrix::SINV_LIMIT as int);
            let g = sat_s(tdiv_s(pv * inv, sc), MAT_LIMIT as int);
            let ik = sat_s(sc - g, MAT_LIMIT as int);
            let corr = sat_s(tdiv_s(ik * pv, sc), MAT_LIMIT as int);
            &&& 0 <= g <= sc
            &&& 0 <= corr <= pv
            &&& sat_s(corr, COV_LIMIT as int) == corr
        }),
{
    let sc = SCALE as int;
    let sv = pv + rv;
    vstd::arithmetic::mul::lemma_mul_strictly_positive(sv, cof);
    vstd::arithmetic::mul::lemma_mul_strictly_positive(sc, sc);
    // the numerator of the inverse entry regrouped around the cofactor
    assert(cof * sc * sc == cof * (sc * sc)) by {
        vstd::arithmetic::mul::lemma_mul_is_associative(cof, sc, sc);
    }
    vstd::arithmetic::mul::lemma_mul_nonnegative(cof, sc * sc);
    lemma_tdiv_nonneg(cof * sc * sc, det);
    // cancel the cofactor: (cof * sc^2) / ((pv + rv) * cof) == sc^2 / (pv + rv)
    assert((cof * (sc * sc)) / det == (sc * sc) / sv) by {
        vstd::arithmetic::mul::lemma_mul_is_commutative(sv, cof);
        vstd::arithmetic::div_mod::lemma_div_denominator(cof * (sc * sc), cof, sv);
        vstd::arithmetic::div_mod::lemma_div_multiples_vanish(sc * sc, cof);
    }
    let inv = (sc * sc) / sv;
    vstd::arithmetic::div_mod::lemma_div_pos_is_pos(sc * sc, sv);
    vstd::arithmetic::div_mod::lemma_div_nonincreasing(sc * sc, sv);
    assert(sat_s(tdiv_s(cof * sc * sc, det), crate::matrix::SINV_LIMIT as int) == inv);
    // the gain: pv * inv <= sv * inv <= sc^2, so g <= sc
    vstd::arithmetic::mul::lemma_mul_nonnegative(pv, inv);
    vstd::arithmetic::mul::lemma_mul_inequality(pv, sv, inv);
    assert(sv * inv <= sc * sc) by {
        vstd::arithmetic::div_mod::lemma_fundamental_div_mod(sc * sc, sv);
        vstd::arithmetic::div_mod::lemma_mod_division_less_than_divisor(sc * sc, sv);
    }
    lemma_tdiv_nonneg(pv * inv, sc);
    let g = (pv * inv) / sc;
    vstd::arithmetic::div_mod::lemma_div_pos_is_pos(pv * inv, sc);
    vstd::arithmetic::div_mod::lemma_div_is_ordered(pv * inv, sc * sc, sc);
    assert((sc * sc) / sc == sc) by {
        vstd::arithmetic::div_mod::lemma_div_multiples_vanish(sc, sc);
    }
    assert(sat_s(tdiv_s(pv * inv, sc), MAT_LIMIT as int) == g);
    // the correction factor and the corrected variance
    let ikv = sc - g;
    assert(sat_s(ikv, MAT_LIMIT as int) == ikv);
    vstd::arithmetic::mul::lemma_mul_nonnegative(ikv, pv);
    vstd::arithmetic::mul::lemma_mul_inequality(ikv, sc, pv);
    lemma_tdiv_nonneg(ikv * pv, sc);
    let corr = (ikv * pv) / sc;
    vstd::arithmetic::div_mod::lemma_div_pos_is_pos(ikv * pv, sc);
    vstd::arithmetic::div_mod::lemma_div_is_ordered(ikv * pv, sc * pv, sc);
    assert((sc * pv) / sc == pv) by {
        vstd::arithmetic::div_mod::lemma_div_multiples_vanish(pv, sc);
    }
    assert(sat_s(tdiv_s(ikv * pv, sc), MAT_LIMIT as int) == corr);
}

/// Estimator sanity: with the covariance and the measurement noise both
/// diagonal, non-negative and jointly well-conditioned (every diagonal sum
/// positive), one correction step never increases the covariance trace, and
/// the trace stays non-negative: a correct-model update cannot lose
/// information.  The general, non-diagonal case is not stated here.
#[verifier::rlimit(100)]
pub proof fn lemma_update_trace_nonincreasing(k: KalmanFilterV, obs: CarStateV)
    requires
        mat_bounded_s(k.covariance, COV_LIMIT as int),
        mat_bounded_s(k.r, COV_LIMIT as int),
        mat_diagonal_s(k.covariance),
        mat_diagonal_s(k.r),
        k.covariance.m00 >= 0 && k.covariance.m11 >= 0,
        k.covariance.m22 >= 0 && k.covariance.m33 >= 0,
        k.r.m00 >= 0 && k.r.m11 >= 0 && k.r.m22 >= 0 && k.r.m33 >= 0,
        k.covariance.m00 + k.r.m00 > 0,
        k.covariance.m11 + k.r.m11 > 0,
        k.covariance.m22 + k.r.m22 > 0,
        k.covariance.m33 + k.r.m33 > 0,
    ensures
        0 <= mat_trace_s(kf_correct_s(k, obs).covariance),
        mat_trace_s(kf_correct_s(k, obs).covariance) <= mat_trace_s(k.covariance),
{
    let sc = SCALE as int;
    let p = k.covariance;
    let s = mat_add_s(p, k.r, MAT_LIMIT as int);
    assert(s.m00 == p.m00 + k.r.m00);
    assert(s.m11 == p.m11 + k.r.m11);
    assert(s.m22 == p.m22 + k.r.m22);
    assert(s.m33 == p.m33 + k.r.m33);
    assert(s.m01 == 0 && s.m02 == 0 && s.m03 == 0);
    assert(s.m10 == 0 && s.m12 == 0 && s.m13 == 0);
    assert(s.m20 == 0 && s.m21 == 0 && s.m23 == 0);
    assert(s.m30 == 0 && s.m31 == 0 && s.m32 == 0);
    // the cofactors of the diagonal entries, and the determinant
    let a0 = s.m11 * (s.m22 * s.m33);
    let a1 = s.m00 * (s.m22 * s.m33);
    let a2 = s.m00 * (s.m11 * s.m33);
    let a3 = s.m00 * (s.m11 * s.m22);
    vstd::arithmetic::mul::lemma_mul_strictly_positive(s.m22, s.m33);
    vstd::arithmetic::mul::lemma_mul_strictly_positive(s.m11, s.m22 * s.m33);
    vstd::arithmetic::mul::lemma_mul_strictly_positive(s.m00, s.m22 * s.m33);
    vstd::arithmetic::mul::lemma_mul_strictly_positive(s.m11, s.m33);
    vstd::arithmetic::mul::lemma_mul_strictly_positive(s.m00, s.m11 * s.m33);
    vstd::arithmetic::mul::lemma_mul_strictly_positive(s.m11, s.m22);
    vstd::arithmetic::mul::lemma_mul_strictly_positive(s.m00, s.m11 * s.m22);
    lemma_det3_diag(s.m11, s.m22, s.m33);
    assert(det3_s(s.m11, s.m12, s.m13, s.m21, s.m22, s.m23, s.m31, s.m32, s.m33) == a0);
    lemma_det3_diag(s.m00, s.m22, s.m33);
    assert(det3_s(s.m00, s.m02, s.m03, s.m20, s.m22, s.m23, s.m30, s.m32, s.m33) == a1);
    lemma_det3_diag(s.m00, s.m11, s.m33);
    assert(det3_s(s.m00, s.m01, s.m03, s.m10, s.m11, s.m13, s.m30, s.m31, s.m33) == a2);
    lemma_det3_diag(s.m00, s.m11, s.m22);
    assert(det3_s(s.m00, s.m01, s.m02, s.m10, s.m11, s.m12, s.m20, s.m21, s.m22) == a3);
    let det = mat_det_s(s);
    let d0 = det3_s(s.m11, s.m12, s.m13, s.m21, s.m22, s.m23, s.m31, s.m32, s.m33);
    let e1 = det3_s(s.m10, s.m12, s.m13, s.m20, s.m22, s.m23, s.m30, s.m32, s.m33);
    let e2 = det3_s(s.m10, s.m11, s.m13, s.m20, s.m21, s.m23, s.m30, s.m31, s.m33);
    let e3 = det3_s(s.m10, s.m11, s.m12, s.m20, s.m21, s.m22, s.m30, s.m31, s.m32);
    assert(det == s.m00 * d0 - s.m01 * e1 + s.m02 * e2 - s.m03 * e3);
    assert(s.m00 * d0 - s.m01 * e1 + s.m02 * e2 - s.m03 * e3 == s.m00 * a0) by (nonlinear_arith)
        requires
            s.m01 == 0,
            s.m02 == 0,
            s.m03 == 0,
            d0 == a0,
    ;
    assert(det == s.m00 * a0);
    assert(det == s.m00 * (s.m11 * (s.m22 * s.m33))) by {
        vstd::arithmetic::mul::lemma_mul_is_associative(s.m11, s.m22, s.m33);
    }
    assert(det == s.m11 * a1) by (nonlinear_arith)
        requires
            det == s.m00 * (s.m11 * (s.m22 * s.m33)),
            a1 == s.m00 * (s.m22 * s.m33),
    ;
    assert(det == s.m22 * a2) by (nonlinear_arith)
        requires
            det == s.m00 * (s.m11 * (s.m22 * s.m33)),
            a2 == s.m00 * (s.m11 * s.m33),
    ;
    assert(det == s.m33 * a3) by (nonlinear_arith)
        requires
            det == s.m00 * (s.m11 * (s.m22 * s.m33)),
            a3 == s.m00 * (s.m11 * s.m22),
    ;
    lemma_entry_chain(p.m00, k.r.m00, a0, det);
    lemma_entry_chain(p.m11, k.r.m11, a1, det);
    lemma_entry_chain(p.m22, k.r.m22, a2, det);
    lemma_entry_chain(p.m33, k.r.m33, a3, det);
    let cov2 = kf_correct_s(k, obs).covariance;
    assert(0 <= cov2.m00 <= p.m00);
    assert(0 <= cov2.m11 <= p.m11);
    assert(0 <= cov2.m22 <= p.m22);
    assert(0 <= cov2.m33 <= p.m33);
}

/// The heading difference used in the innovation; see `angle_diff_s`.
pub fn angle_diff(a: i64, b: i64) -> (r: i64)
    requires
        -YAW_LIMIT <= a <= YAW_LIMIT,
        -YAW_LIMIT <= b <= YAW_LIMIT,
    ensures
        r == angle_diff_s(a as int, b as int),
{
    a - b
}

/// One executable corrected component; see `row_apply_s`.
fn row_apply(
    k0: i64,
    k1: i64,
    k2: i64,
    k3: i64,
    i0: i128,
    i1: i128,
    i2: i128,
    i3: i128,
    base: i64,
    lim: i64,
) -> (r: i64)
    requires
        -MAT_LIMIT <= k0 <= MAT_LIMIT,
        -MAT_LIMIT <= k1 <= MAT_LIMIT,
        -MAT_LIMIT <= k2 <= MAT_LIMIT,
        -MAT_LIMIT <= k3 <= MAT_LIMIT,
        -2 * POS_LIMIT as int <= i0 <= 2 * POS_LIMIT as int,
        -2 * POS_LIMIT as int <= i1 <= 2 * POS_LIMIT as int,
        -2 * POS_LIMIT as int <= i2 <= 2 * POS_LIMIT as int,
        -2 * POS_LIMIT as int <= i3 <= 2 * POS_LIMIT as int,
        0 < lim,
    ensures
        r == row_apply_s(
            k0 as int,
            k1 as int,
            k2 as int,
            k3 as int,
            i0 as int,
            i1 as int,
            i2 as int,
            i3 as int,
            base as int,
            lim as int,
        ),
{
    proof {
        lemma_abs_mul_bound(k0 as int, i0 as int, MAT_LIMIT as int, 2 * POS_LIMIT as int);
        lemma_abs_mul_bound(k1 as int, i1 as int, MAT_LIMIT as int, 2 * POS_LIMIT as int);
        lemma_abs_mul_bound(k2 as int, i2 as int, MAT_LIMIT as int, 2 * POS_LIMIT as int);
        lemma_abs_mul_bound(k3 as int, i3 as int, MAT_LIMIT as int, 2 * POS_LIMIT as int);
    }
    let num: i128 = (k0 as i128) * i0 + (k1 as i128) * i1 + (k2 as i128) * i2 + (k3 as i128) * i3;
    let q: i128 = tdiv_i128(num, SCALE as i128);
    sat_i128(base as i128 + q, lim)
}

} // verus!
