//! Vehicle state, display geometry and their conversions.
//!
//! `CarState` is the pose-plus-speed record shared by the simulator, the
//! sensors and the estimator.  `Rectangular` is the oriented bounding
//! rectangle derived from a state for display.  All fields are fixed-point
//! ticks (`fixed::SCALE` ticks per unit).
//!
//! Timestamps are simulation-clock ticks supplied by the caller; reading a
//! wall clock is left to the embedding application.

use crate::fixed::{
    lemma_abs_mul_bound, sat_i128, sat_s, scale_div_sat, tdiv_i128, tdiv_i64, tdiv_s, DT_MAX,
    POS_LIMIT, SCALE, SIZE_MAX, TIME_LIMIT, TRIG_LIMIT, VEL_LIMIT, YAW_LIMIT,
};
use crate::matrix::{mat_identity_s, Mat4, Mat4V};
use crate::trig::{cos_fp, cos_fp_s, sin_fp, sin_fp_s};
use vstd::prelude::*;

verus! {

/// Saturation bound for rectangle corners: a rotated corner of an in-range
/// state always stays far inside this bound, so in practice corners are the
/// exact truncated rotation.
pub const RECT_LIMIT: i64 = 4_000_000_000_000_000;

/// Bound on the factor accepted by `scale_state`, in ticks.
pub const FACTOR_LIMIT: i64 = 1_000_000_000;

/// Colour tag used by the external renderer.
#[derive(Clone, Copy, Debug, PartialEq, Eq, Structural)]
pub enum CarColor {
    Red,
    Green,
    Blue,
}

impl CarColor {
    /// The RGBA byte quadruple of this colour.
    pub fn to_rgba(&self) -> (r: (u8, u8, u8, u8))
        ensures
            *self is Red ==> r == (255u8, 0u8, 0u8, 255u8),
            *self is Green ==> r == (0u8, 255u8, 0u8, 255u8),
            *self is Blue ==> r == (0u8, 0u8, 255u8, 255u8),
    {
        match self {
            CarColor::Red => (255, 0, 0, 255),
            CarColor::Green => (0, 255, 0, 255),
            CarColor::Blue => (0, 0, 255, 255),
        }
    }
}

/// Pose and speed of the vehicle at an instant, in ticks.
#[derive(Clone, Copy, Debug)]
pub struct CarState {
    /// Simulation step of the owning model, in ticks of a second.
    pub dt: i64,
    /// Simulation-clock timestamp, in ticks of a second.
    pub time_stamp: i64,
    pub x: i64,
    pub y: i64,
    /// Heading in ticks of a radian; accumulates without wrapping.
    pub yaw: i64,
    pub velocity: i64,
    /// Vehicle width for display geometry, if known.
    pub width: Option<i64>,
    /// Vehicle length for display geometry, if known.
    pub length: Option<i64>,
}

/// Mathematical view of a `CarState`.
pub ghost struct CarStateV {
    pub dt: int,
    pub time_stamp: int,
    pub x: int,
    pub y: int,
    pub yaw: int,
    pub velocity: int,
    pub width: Option<int>,
    pub length: Option<int>,
}

impl View for CarState {
    type V = CarStateV;

    open spec fn view(&self) -> CarStateV {
        CarStateV {
            dt: self.dt as int,
            time_stamp: self.time_stamp as int,
            x: self.x as int,
            y: self.y as int,
            yaw: self.yaw as int,
            velocity: self.velocity as int,
            width: match self.width {
                Some(w) => Some(w as int),
                None => None,
            },
            length: match self.length {
                Some(l) => Some(l as int),
                None => None,
            },
        }
    }
}

/// Well-formedness of a state: every field within its representable range.
pub open spec fn car_state_wf(s: CarStateV) -> bool {
    &&& 0 < s.dt <= DT_MAX
    &&& 0 <= s.time_stamp <= TIME_LIMIT
    &&& -POS_LIMIT <= s.x <= POS_LIMIT
    &&& -POS_LIMIT <= s.y <= POS_LIMIT
    &&& -YAW_LIMIT <= s.yaw <= YAW_LIMIT
    &&& -VEL_LIMIT <= s.velocity <= VEL_LIMIT
    &&& (s.width matches Some(w) ==> 0 < w <= SIZE_MAX)
    &&& (s.length matches Some(l) ==> 0 < l <= SIZE_MAX)
}

impl CarState {
    /// The default state: at the origin, at rest, with a 0.1 s step and the
    /// default display size.
    pub fn new() -> (r: CarState)
        ensures
            r@ == (CarStateV {
                dt: 100_000,
                time_stamp: 0,
                x: 0,
                y: 0,
                yaw: 0,
                velocity: 0,
                width: Some(40 * SCALE as int),
                length: Some(20 * SCALE as int),
            }),
            car_state_wf(r@),
    {
        CarState {
            dt: 100_000,
            time_stamp: 0,
            x: 0,
            y: 0,
            yaw: 0,
            velocity: 0,
            width: Some(40 * SCALE),
            length: Some(20 * SCALE),
        }
    }

    /// Replace the timestamp with the caller's clock reading.
    pub fn update_time_stamp(&mut self, now: i64)
        requires
            0 <= now <= TIME_LIMIT,
        ensures
            *final(self) == (CarState { time_stamp: now, ..*old(self) }),
    {
        self.time_stamp = now;
    }
}

/// Component-wise saturated sum of two states; step, timestamp and size
/// metadata come from the left operand.
pub open spec fn blend_states_s(a: CarStateV, b: CarStateV) -> CarStateV {
    CarStateV {
        x: sat_s(a.x + b.x, POS_LIMIT as int),
        y: sat_s(a.y + b.y, POS_LIMIT as int),
        yaw: sat_s(a.yaw + b.yaw, YAW_LIMIT as int),
        velocity: sat_s(a.velocity + b.velocity, VEL_LIMIT as int),
        ..a
    }
}

/// Component-wise saturated difference of two states.
pub open spec fn diff_states_s(a: CarStateV, b: CarStateV) -> CarStateV {
    CarStateV {
        x: sat_s(a.x - b.x, POS_LIMIT as int),
        y: sat_s(a.y - b.y, POS_LIMIT as int),
        yaw: sat_s(a.yaw - b.yaw, YAW_LIMIT as int),
        velocity: sat_s(a.velocity - b.velocity, VEL_LIMIT as int),
        ..a
    }
}

/// Component-wise saturated rescaling of a state by a fixed-point factor.
pub open spec fn scale_state_s(a: CarStateV, factor: int) -> CarStateV {
    CarStateV {
        x: sat_s(tdiv_s(a.x * factor, SCALE as int), POS_LIMIT as int),
        y: sat_s(tdiv_s(a.y * factor, SCALE as int), POS_LIMIT as int),
        yaw: sat_s(tdiv_s(a.yaw * factor, SCALE as int), YAW_LIMIT as int),
        velocity: sat_s(tdiv_s(a.velocity * factor, SCALE as int), VEL_LIMIT as int),
        ..a
    }
}

impl CarState {
    /// Named replacement for state addition: combine two states
    /// component-wise, keeping this state's metadata.
    pub fn blend_states(&self, other: &CarState) -> (r: CarState)
        ensures
            r@ == blend_states_s(self@, other@),
            car_state_wf(self@) ==> car_state_wf(r@),
    {
        CarState {
            x: sat_i128(self.x as i128 + other.x as i128, POS_LIMIT),
            y: sat_i128(self.y as i128 + other.y as i128, POS_LIMIT),
            yaw: sat_i128(self.yaw as i128 + other.yaw as i128, YAW_LIMIT),
            velocity: sat_i128(self.velocity as i128 + other.velocity as i128, VEL_LIMIT),
            ..*self
        }
    }

    /// Named replacement for state subtraction.
    pub fn diff_states(&self, other: &CarState) -> (r: CarState)
        ensures
            r@ == diff_states_s(self@, other@),
            car_state_wf(self@) ==> car_state_wf(r@),
    {
        CarState {
            x: sat_i128(self.x as i128 - other.x as i128, POS_LIMIT),
            y: sat_i128(self.y as i128 - other.y as i128, POS_LIMIT),
            yaw: sat_i128(self.yaw as i128 - other.yaw as i128, YAW_LIMIT),
            velocity: sat_i128(self.velocity as i128 - other.velocity as i128, VEL_LIMIT),
            ..*self
        }
    }

    /// Named replacement for state-times-scalar: rescale the kinematic
    /// components by a fixed-point factor.
    pub fn scale_state(&self, factor: i64) -> (r: CarState)
        requires
            car_state_wf(self@),
            -FACTOR_LIMIT <= factor <= FACTOR_LIMIT,
        ensures
            r@ == scale_state_s(self@, factor as int),
            car_state_wf(r@),
    {
        proof {
            lemma_abs_mul_bound(self.x as int, factor as int, POS_LIMIT as int, FACTOR_LIMIT as int);
            lemma_abs_mul_bound(self.y as int, factor as int, POS_LIMIT as int, FACTOR_LIMIT as int);
            lemma_abs_mul_bound(
                self.yaw as int,
                factor as int,
                YAW_LIMIT as int,
                FACTOR_LIMIT as int,
            );
            lemma_abs_mul_bound(
                self.velocity as int,
                factor as int,
                VEL_LIMIT as int,
                FACTOR_LIMIT as int,
            );
        }
        CarState {
            x: scale_div_sat((self.x as i128) * (factor as i128), SCALE as i128, POS_LIMIT),
            y: scale_div_sat((self.y as i128) * (factor as i128), SCALE as i128, POS_LIMIT),
            yaw: scale_div_sat((self.yaw as i128) * (factor as i128), SCALE as i128, YAW_LIMIT),
            velocity: scale_div_sat(
                (self.velocity as i128) * (factor as i128),
                SCALE as i128,
                VEL_LIMIT,
            ),
            ..*self
        }
    }
}

/// Oriented bounding rectangle of the vehicle, four corners in ticks.
#[derive(Clone, Copy, Debug)]
pub struct Rectangular {
    pub color: CarColor,
    pub x1: i64,
    pub y1: i64,
    pub x2: i64,
    pub y2: i64,
    pub x3: i64,
    pub y3: i64,
    pub x4: i64,
    pub y4: i64,
}

/// Mathematical view of a `Rectangular`.
pub ghost struct RectangularV {
    pub color: CarColor,
    pub x1: int,
    pub y1: int,
    pub x2: int,
    pub y2: int,
    pub x3: int,
    pub y3: int,
    pub x4: int,
    pub y4: int,
}

impl View for Rectangular {
    type V = RectangularV;

    open spec fn view(&self) -> RectangularV {
        RectangularV {
            color: self.color,
            x1: self.x1 as int,
            y1: self.y1 as int,
            x2: self.x2 as int,
            y2: self.y2 as int,
            x3: self.x3 as int,
            y3: self.y3 as int,
            x4: self.x4 as int,
            y4: self.y4 as int,
        }
    }
}

impl Rectangular {
    /// A degenerate rectangle at the origin; the colour defaults to blue.
    pub fn new(color: Option<CarColor>) -> (r: Rectangular)
        ensures
            r@.x1 == 0 && r@.y1 == 0 && r@.x2 == 0 && r@.y2 == 0,
            r@.x3 == 0 && r@.y3 == 0 && r@.x4 == 0 && r@.y4 == 0,
            color matches Some(c) ==> r@.color == c,
            color is None ==> r@.color == CarColor::Blue,
    {
        let c = match color {
            Some(c) => c,
            None => CarColor::Blue,
        };
        Rectangular {
            color: c,
            x1: 0,
            y1: 0,
            x2: 0,
            y2: 0,
            x3: 0,
            y3: 0,
            x4: 0,
            y4: 0,
        }
    }
}

/// The exact (unscaled) planar rotation: x component.
pub open spec fn rot_exact_x_s(c: int, s: int, x: int, y: int) -> int {
    x * c - y * s
}

/// The exact (unscaled) planar rotation: y component.
pub open spec fn rot_exact_y_s(c: int, s: int, x: int, y: int) -> int {
    x * s + y * c
}

/// One corner coordinate: the rotated corner offset, rescaled by `SCALE`,
/// added to the vehicle position and saturated at `RECT_LIMIT`: x.
pub open spec fn corner_x_s(c: int, s: int, ox: int, oy: int, base: int) -> int {
    sat_s(base + tdiv_s(rot_exact_x_s(c, s, ox, oy), SCALE as int), RECT_LIMIT as int)
}

/// One corner coordinate: the rotated corner offset, rescaled by `SCALE`,
/// added to the vehicle position and saturated at `RECT_LIMIT`: y.
pub open spec fn corner_y_s(c: int, s: int, ox: int, oy: int, base: int) -> int {
    sat_s(base + tdiv_s(rot_exact_y_s(c, s, ox, oy), SCALE as int), RECT_LIMIT as int)
}

/// Display width used when the state carries none.
pub open spec fn rect_width_s(st: CarStateV) -> int {
    match st.width {
        Some(w) => w,
        None => 40 * SCALE as int,
    }
}

/// Display length used when the state carries none.
pub open spec fn rect_length_s(st: CarStateV) -> int {
    match st.length {
        Some(l) => l,
        None => 20 * SCALE as int,
    }
}

/// The oriented rectangle of a state: the corner offsets of plus or minus
/// half the width and length are rotated by the heading about the vehicle
/// origin and added to the vehicle position, so the corners stay centred on
/// the vehicle at every yaw.
pub open spec fn to_rectangular_s(st: CarStateV, color: CarColor) -> RectangularV {
    let w = rect_width_s(st);
    let l = rect_length_s(st);
    let hw = tdiv_s(w, 2);
    let hl = tdiv_s(l, 2);
    let c = cos_fp_s(st.yaw);
    let s = sin_fp_s(st.yaw);
    RectangularV {
        color,
        x1: corner_x_s(c, s, -hw, -hl, st.x),
        y1: corner_y_s(c, s, -hw, -hl, st.y),
        x2: corner_x_s(c, s, -hw, hl, st.x),
        y2: corner_y_s(c, s, -hw, hl, st.y),
        x3: corner_x_s(c, s, hw, hl, st.x),
        y3: corner_y_s(c, s, hw, hl, st.y),
        x4: corner_x_s(c, s, hw, -hl, st.x),
        y4: corner_y_s(c, s, hw, -hl, st.y),
    }
}

/// Executable corner coordinate (x component).
fn corner_x(c: i64, s: i64, ox: i64, oy: i64, base: i64) -> (r: i64)
    requires
        -TRIG_LIMIT <= c <= TRIG_LIMIT,
        -TRIG_LIMIT <= s <= TRIG_LIMIT,
        -SIZE_MAX <= ox <= SIZE_MAX,
        -SIZE_MAX <= oy <= SIZE_MAX,
        -POS_LIMIT <= base <= POS_LIMIT,
    ensures
        r == corner_x_s(c as int, s as int, ox as int, oy as int, base as int),
{
    proof {
        lemma_abs_mul_bound(ox as int, c as int, SIZE_MAX as int, TRIG_LIMIT as int);
        lemma_abs_mul_bound(oy as int, s as int, SIZE_MAX as int, TRIG_LIMIT as int);
        crate::fixed::lemma_tdiv_magnitude(
            ox as int * c as int - oy as int * s as int,
            SCALE as int,
            3_200_000_000_000_000,
            1,
        );
    }
    let num: i128 = (ox as i128) * (c as i128) - (oy as i128) * (s as i128);
    let q: i128 = tdiv_i128(num, SCALE as i128);
    sat_i128(base as i128 + q, RECT_LIMIT)
}

/// Executable corner coordinate (y component).
fn corner_y(c: i64, s: i64, ox: i64, oy: i64, base: i64) -> (r: i64)
    requires
        -TRIG_LIMIT <= c <= TRIG_LIMIT,
        -TRIG_LIMIT <= s <= TRIG_LIMIT,
        -SIZE_MAX <= ox <= SIZE_MAX,
        -SIZE_MAX <= oy <= SIZE_MAX,
        -POS_LIMIT <= base <= POS_LIMIT,
    ensures
        r == corner_y_s(c as int, s as int, ox as int, oy as int, base as int),
{
    proof {
        lemma_abs_mul_bound(ox as int, s as int, SIZE_MAX as int, TRIG_LIMIT as int);
        lemma_abs_mul_bound(oy as int, c as int, SIZE_MAX as int, TRIG_LIMIT as int);
        crate::fixed::lemma_tdiv_magnitude(
            ox as int * s as int + oy as int * c as int,
            SCALE as int,
            3_200_000_000_000_000,
            1,
        );
    }
    let num: i128 = (ox as i128) * (s as i128) + (oy as i128) * (c as i128);
    let q: i128 = tdiv_i128(num, SCALE as i128);
    sat_i128(base as i128 + q, RECT_LIMIT)
}

/// A rotated corner offset shrinks to a few thousand units once rescaled.
proof fn lemma_corner_quotient_small(n: int)
    requires
        -3_200_000_000_000_000 <= n <= 3_200_000_000_000_000,
    ensures
        -3_200_000_000 <= tdiv_s(n, SCALE as int) <= 3_200_000_000,
{
    crate::fixed::lemma_tdiv_magnitude(n, SCALE as int, 3_200_000_000_000_000, SCALE as int);
    assert(3_200_000_000_000_000int / 1_000_000int == 3_200_000_000int) by {
        vstd::arithmetic::div_mod::lemma_div_multiples_vanish(3_200_000_000, 1_000_000);
        assert(1_000_000int * 3_200_000_000int == 3_200_000_000_000_000int);
    }
}

impl CarState {
    /// Derive the oriented display rectangle for this state.  The corners'
    /// centroid is exactly the vehicle position: the rotation is applied to
    /// the corner offsets about the vehicle origin, and opposite offsets
    /// cancel tick for tick.
    pub fn to_rectangular(&self, color: Option<CarColor>) -> (r: Rectangular)
        requires
            car_state_wf(self@),
        ensures
            r@ == to_rectangular_s(
                self@,
                match color {
                    Some(c) => c,
                    None => CarColor::Blue,
                },
            ),
            r@.x1 + r@.x2 + r@.x3 + r@.x4 == 4 * self@.x,
            r@.y1 + r@.y2 + r@.y3 + r@.y4 == 4 * self@.y,
    {
        let w: i64 = match self.width {
            Some(w) => w,
            None => 40 * SCALE,
        };
        let l: i64 = match self.length {
            Some(l) => l,
            None => 20 * SCALE,
        };
        let hw: i64 = tdiv_i64(w, 2);
        let hl: i64 = tdiv_i64(l, 2);
        proof {
            crate::fixed::lemma_tdiv_magnitude(w as int, 2, SIZE_MAX as int, 1);
            crate::fixed::lemma_tdiv_magnitude(l as int, 2, SIZE_MAX as int, 1);
        }
        let c: i64 = cos_fp(self.yaw);
        let s: i64 = sin_fp(self.yaw);
        let col = match color {
            Some(c) => c,
            None => CarColor::Blue,
        };
        let r = Rectangular {
            color: col,
            x1: corner_x(c, s, -hw, -hl, self.x),
            y1: corner_y(c, s, -hw, -hl, self.y),
            x2: corner_x(c, s, -hw, hl, self.x),
            y2: corner_y(c, s, -hw, hl, self.y),
            x3: corner_x(c, s, hw, hl, self.x),
            y3: corner_y(c, s, hw, hl, self.y),
            x4: corner_x(c, s, hw, -hl, self.x),
            y4: corner_y(c, s, hw, -hl, self.y),
        };
        proof {
            let cc = c as int;
            let ss = s as int;
            let hwv = hw as int;
            let hlv = hl as int;
            lemma_abs_mul_bound(hwv, cc, SIZE_MAX as int, TRIG_LIMIT as int);
            lemma_abs_mul_bound(hlv, ss, SIZE_MAX as int, TRIG_LIMIT as int);
            lemma_abs_mul_bound(hwv, ss, SIZE_MAX as int, TRIG_LIMIT as int);
            lemma_abs_mul_bound(hlv, cc, SIZE_MAX as int, TRIG_LIMIT as int);
            lemma_abs_mul_bound(-hlv, ss, SIZE_MAX as int, TRIG_LIMIT as int);
            lemma_abs_mul_bound(-hlv, cc, SIZE_MAX as int, TRIG_LIMIT as int);
            // opposite corner offsets rotate to exact negations
            assert((-hwv) * cc - (-hlv) * ss == -(hwv * cc - hlv * ss)) by (nonlinear_arith);
            assert((-hwv) * ss + (-hlv) * cc == -(hwv * ss + hlv * cc)) by (nonlinear_arith);
            assert((-hwv) * cc - hlv * ss == -(hwv * cc - (-hlv) * ss)) by (nonlinear_arith);
            assert((-hwv) * ss + hlv * cc == -(hwv * ss + (-hlv) * cc)) by (nonlinear_arith);
            crate::fixed::lemma_tdiv_neg(rot_exact_x_s(cc, ss, hwv, hlv), SCALE as int);
            crate::fixed::lemma_tdiv_neg(rot_exact_y_s(cc, ss, hwv, hlv), SCALE as int);
            crate::fixed::lemma_tdiv_neg(rot_exact_x_s(cc, ss, hwv, -hlv), SCALE as int);
            crate::fixed::lemma_tdiv_neg(rot_exact_y_s(cc, ss, hwv, -hlv), SCALE as int);
            lemma_corner_quotient_small(rot_exact_x_s(cc, ss, hwv, hlv));
            lemma_corner_quotient_small(rot_exact_y_s(cc, ss, hwv, hlv));
            lemma_corner_quotient_small(rot_exact_x_s(cc, ss, hwv, -hlv));
            lemma_corner_quotient_small(rot_exact_y_s(cc, ss, hwv, -hlv));
        }
        r
    }
}

/// Squared distance between two points.
pub open spec fn sq_dist_s(ax: int, ay: int, bx: int, by: int) -> int {
    (ax - bx) * (ax - bx) + (ay - by) * (ay - by)
}

/// Rotating a displacement scales its squared length by `c*c + s*s`.
proof fn lemma_rot_delta(c: int, s: int, dx: int, dy: int)
    ensures
        (dx * c - dy * s) * (dx * c - dy * s) + (dx * s + dy * c) * (dx * s + dy * c) == (c * c + s
            * s) * (dx * dx + dy * dy),
{
    let u = dx * c;
    let v = dy * s;
    let w = dx * s;
    let z = dy * c;
    assert((u - v) * (u - v) == u * u - 2 * (u * v) + v * v) by (nonlinear_arith);
    assert((w + z) * (w + z) == w * w + 2 * (w * z) + z * z) by (nonlinear_arith);
    assert(u * v == w * z) by (nonlinear_arith)
        requires
            u == dx * c,
            v == dy * s,
            w == dx * s,
            z == dy * c,
    ;
    assert(u * u == (dx * dx) * (c * c)) by (nonlinear_arith)
        requires
            u == dx * c,
    ;
    assert(v * v == (dy * dy) * (s * s)) by (nonlinear_arith)
        requires
            v == dy * s,
    ;
    assert(w * w == (dx * dx) * (s * s)) by (nonlinear_arith)
        requires
            w == dx * s,
    ;
    assert(z * z == (dy * dy) * (c * c)) by (nonlinear_arith)
        requires
            z == dy * c,
    ;
    assert((dx * dx) * (c * c) + (dy * dy) * (s * s) + ((dx * dx) * (s * s) + (dy * dy) * (c * c))
        == (c * c + s * s) * (dx * dx + dy * dy)) by (nonlinear_arith);
}

/// The rotation applied to the rectangle corners is rigid: for any
/// coefficient pair `(c, s)` — in particular the fixed-point cosine and
/// sine of any yaw — the exact rotation scales the squared distance of
/// every point pair by the same factor `c*c + s*s`.  No pair is stretched
/// relative to another, so the rectangle is never skewed.
pub proof fn lemma_rotation_rigid(c: int, s: int, px: int, py: int, qx: int, qy: int)
    ensures
        sq_dist_s(
            rot_exact_x_s(c, s, px, py),
            rot_exact_y_s(c, s, px, py),
            rot_exact_x_s(c, s, qx, qy),
            rot_exact_y_s(c, s, qx, qy),
        ) == (c * c + s * s) * sq_dist_s(px, py, qx, qy),
{
    let dx = px - qx;
    let dy = py - qy;
    assert(rot_exact_x_s(c, s, px, py) - rot_exact_x_s(c, s, qx, qy) == dx * c - dy * s)
        by (nonlinear_arith)
        requires
            dx == px - qx,
            dy == py - qy,
    ;
    assert(rot_exact_y_s(c, s, px, py) - rot_exact_y_s(c, s, qx, qy) == dx * s + dy * c)
        by (nonlinear_arith)
        requires
            dx == px - qx,
            dy == py - qy,
    ;
    lemma_rot_delta(c, s, dx, dy);
}

/// Column-vector form of the kinematic state: the first column of an
/// otherwise-identity matrix holds (x, y, yaw, velocity).
pub open spec fn to_matrixv4_s(st: CarStateV) -> Mat4V {
    Mat4V {
        m00: st.x,
        m10: st.y,
        m20: st.yaw,
        m30: st.velocity,
        ..mat_identity_s()
    }
}

/// Read a state back from its column-vector form; step and size metadata
/// are reset to the defaults.
pub open spec fn from_matrixv4_s(m: Mat4V) -> CarStateV {
    CarStateV {
        dt: 100_000,
        time_stamp: 0,
        x: m.m00,
        y: m.m10,
        yaw: m.m20,
        velocity: m.m30,
        width: None,
        length: None,
    }
}

impl CarState {
    /// Convert the state to its matrix (column-vector) form.
    pub fn to_matrixv4(&self) -> (r: Mat4)
        ensures
            r@ == to_matrixv4_s(self@),
    {
        let mut m = Mat4::identity();
        m.m00 = self.x;
        m.m10 = self.y;
        m.m20 = self.yaw;
        m.m30 = self.velocity;
        m
    }

    /// Recover a state from its matrix (column-vector) form.
    pub fn from_matrixv4(matrix: Mat4) -> (r: CarState)
        requires
            -POS_LIMIT <= matrix.m00 <= POS_LIMIT,
            -POS_LIMIT <= matrix.m10 <= POS_LIMIT,
            -YAW_LIMIT <= matrix.m20 <= YAW_LIMIT,
            -VEL_LIMIT <= matrix.m30 <= VEL_LIMIT,
        ensures
            r@ == from_matrixv4_s(matrix@),
            car_state_wf(r@),
    {
        CarState {
            dt: 100_000,
            time_stamp: 0,
            x: matrix.m00,
            y: matrix.m10,
            yaw: matrix.m20,
            velocity: matrix.m30,
            width: None,
            length: None,
        }
    }
}

/// Round trip: converting a state to its matrix form and back recovers the
/// kinematic components (x, y, yaw, velocity) exactly.
pub proof fn lemma_state_matrix_round_trip(s: CarStateV)
    ensures
        from_matrixv4_s(to_matrixv4_s(s)).x == s.x,
        from_matrixv4_s(to_matrixv4_s(s)).y == s.y,
        from_matrixv4_s(to_matrixv4_s(s)).yaw == s.yaw,
        from_matrixv4_s(to_matrixv4_s(s)).velocity == s.velocity,
{
}

} // verus!
