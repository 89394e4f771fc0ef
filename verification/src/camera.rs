//! The camera: position, orientation, projection parameters, and the
//! operations that integrate input deltas into them.
//!
//! Orientation is held both as the authoritative yaw and pitch angles (in
//! micro-degrees) and as the derived forward direction.  `rotate` clamps
//! pitch hard to just inside a quarter turn, leaves yaw unbounded, and
//! recomputes the forward direction from the angles; `go` moves the
//! position along the forward or sideways direction, flattening forward
//! motion onto the ground plane when fly mode is off; `shift_zoom` clamps
//! the field of view between its two bounds.

use vstd::prelude::*;
use crate::fixed::{SCALE, fxmul_spec, fxdiv_spec, clamp_spec, clamp, fxmul, fxdiv};
use crate::mat4::{Mat4, MAT_LIM, mat_mul, seq_in_range, mul_entry_spec, lemma_fxmul_one, lemma_fxmul_zero};
use crate::trig::{
    ANGLE_LIM, TURN, sin_spec, cos_spec, sin_fp, cos_fp,
    lemma_sin_range, lemma_sin_period, lemma_cos_period,
    lemma_sin_cos_floor, lemma_cos_pitch_floor, lemma_sin_acute_floor,
};
use crate::vec3::{
    Vec3, GVec, gv, gcross, gneg, gdot, gnorm_sq, gunit, in_range, scale, cross, normalize,
};
use crate::fixed::lemma_fxmul_magnitude;

verus! {

/// The smallest field of view, in micro-degrees.
pub const ZOOM_MIN: i64 = 25_000_000;

/// The largest field of view, in micro-degrees.
pub const ZOOM_MAX: i64 = 45_000_000;

/// The lowest pitch, in micro-degrees: one degree short of straight down,
/// so the forward direction never collapses onto the vertical axis.
pub const PITCH_MIN: i64 = -89_000_000;

/// The highest pitch, in micro-degrees: one degree short of straight up.
pub const PITCH_MAX: i64 = 89_000_000;

/// The largest position component the movement and view operations accept.
pub const POS_LIM: i64 = 1_000_000_000_000;

/// The largest direction-vector component the movement and view
/// operations accept: two units, comfortably above any normalized vector.
pub const DIR_LIM: i64 = 2_000_000;

/// The largest movement speed `go` accepts: a thousand units per call.
pub const SPEED_LIM: i64 = 1_000_000_000;

/// The camera state: where it stands, where it looks, and how it projects.
#[derive(Clone, Copy, Debug)]
pub struct Camera {
    pub position: Vec3,
    pub front: Vec3,
    pub up: Vec3,
    pub zoom: i64,
    pub aspect_ratio: i64,
    pub yaw: i64,
    pub pitch: i64,
    pub fly: bool,
}

/// A movement request: a direction and a nonnegative speed, already
/// scaled by frame time.
#[derive(Clone, Copy, Debug)]
pub enum Way {
    Forward(i64),
    Backward(i64),
    Left(i64),
    Right(i64),
}

/// The unnormalized forward direction at the given angles: the standard
/// spherical-to-Cartesian conversion, yaw about the vertical axis, pitch
/// tilting up and down.
pub open spec fn dir_spec(yaw: int, pitch: int) -> GVec {
    GVec {
        x: fxmul_spec(cos_spec(yaw), cos_spec(pitch)),
        y: sin_spec(pitch),
        z: fxmul_spec(sin_spec(yaw), cos_spec(pitch)),
    }
}

/// The forward direction at the given angles, normalized.
pub open spec fn front_spec(yaw: int, pitch: int) -> GVec {
    gunit(dir_spec(yaw, pitch))
}

/// The forward direction with its vertical component dropped when fly
/// mode is off: movement then stays level with the ground plane.
pub open spec fn eff_front_spec(front: GVec, fly: bool) -> GVec {
    GVec { x: front.x, y: if fly { front.y } else { 0 }, z: front.z }
}

/// The sideways direction: the normalized cross product of front and up,
/// in that order.
pub open spec fn right_spec(front: GVec, up: GVec) -> GVec {
    gunit(gcross(front, up))
}

/// The unnormalized direction never gets short: its squared norm keeps a
/// floor far above zero, because pitch is clamped away from the vertical
/// and yaw always has a large sine or cosine.
#[verifier::rlimit(100)]
pub proof fn lemma_dir_norm_floor(yaw: int, pitch: int)
    requires
        PITCH_MIN <= pitch <= PITCH_MAX,
    ensures
        gnorm_sq(dir_spec(yaw, pitch)) >= 150_000_000,
        -1_000_001 <= dir_spec(yaw, pitch).x <= 1_000_000,
        -1_000_000 <= dir_spec(yaw, pitch).y <= 1_000_000,
        -1_000_001 <= dir_spec(yaw, pitch).z <= 1_000_000,
{
    let d = dir_spec(yaw, pitch);
    lemma_sin_range(yaw);
    lemma_sin_range(pitch);
    lemma_sin_range(yaw + 90_000_000);
    lemma_sin_range(pitch + 90_000_000);
    lemma_cos_pitch_floor(pitch);
    lemma_sin_cos_floor(yaw);
    let cp = cos_spec(pitch);
    lemma_fxmul_magnitude(cos_spec(yaw), cp, 1_000_000, 1_000_000);
    lemma_fxmul_magnitude(sin_spec(yaw), cp, 1_000_000, 1_000_000);
    assert(1_000_000int * 1_000_000 / (SCALE as int) == 1_000_000) by {
        vstd::arithmetic::div_mod::lemma_div_multiples_vanish(1_000_000, SCALE as int);
    }
    lemma_sq_nonneg(d.x);
    lemma_sq_nonneg(d.y);
    lemma_sq_nonneg(d.z);
    if sin_spec(yaw) >= 707107 || sin_spec(yaw) <= -707107 {
        lemma_fxmul_floor(sin_spec(yaw), cp);
        lemma_sq_lower(d.z, 12340);
    } else {
        lemma_fxmul_floor(cos_spec(yaw), cp);
        lemma_sq_lower(d.x, 12340);
    }
}

/// A square is never negative.
proof fn lemma_sq_nonneg(x: int)
    ensures
        x * x >= 0,
{
    assert(x * x >= 0) by (nonlinear_arith);
}

/// A magnitude floor on a number is a floor on its square.
proof fn lemma_sq_lower(x: int, b: int)
    requires
        b >= 0,
        x >= b || x <= -b,
    ensures
        x * x >= b * b,
{
    assert(x * x >= b * b) by (nonlinear_arith)
        requires b >= 0, x >= b || x <= -b {
    }
}

/// A product of a large sine or cosine with the pitch cosine keeps a
/// sizable magnitude after rescaling.
proof fn lemma_fxmul_floor(a: int, b: int)
    requires
        a >= 707107 || a <= -707107,
        -1_000_000 <= a <= 1_000_000,
        17452 <= b <= 1_000_000,
    ensures
        fxmul_spec(a, b) >= 12340 || fxmul_spec(a, b) <= -12340,
{
    let s = SCALE as int;
    let u: int = if a >= 0 { a } else { -a };
    assert(u * b >= 707107 * 17452) by (nonlinear_arith)
        requires u >= 707107, b >= 17452 {
    }
    assert(u * b >= 12_340_431_364);
    crate::fixed::lemma_div_trunc_bounds(u * b, s);
    let q = crate::fixed::div_trunc(u * b, s);
    assert(q >= 12340) by (nonlinear_arith)
        requires s == 1_000_000, s * (q + 1) > 12_340_431_364 {
    }
    if a >= 0 {
        assert(fxmul_spec(a, b) == q);
    } else {
        assert(a * b == -(u * b)) by (nonlinear_arith)
            requires u == -a {
        }
        assert(fxmul_spec(a, b) == -q);
    }
}

impl Camera {
    /// Integrate a rotation: pitch moves by `pitch` but is clamped hard to
    /// the band just inside straight up and straight down; yaw moves by
    /// `yaw` unbounded; the forward direction is recomputed from the new
    /// angles and normalized.
    pub fn rotate(&mut self, pitch: i64, yaw: i64)
        requires
            -ANGLE_LIM <= old(self).pitch <= ANGLE_LIM,
            -ANGLE_LIM <= pitch <= ANGLE_LIM,
            -ANGLE_LIM <= old(self).yaw + yaw <= ANGLE_LIM,
            -ANGLE_LIM <= old(self).yaw <= ANGLE_LIM,
            -ANGLE_LIM <= yaw <= ANGLE_LIM,
        ensures
            final(self).pitch == clamp_spec(
                old(self).pitch + pitch, PITCH_MIN as int, PITCH_MAX as int),
            PITCH_MIN <= final(self).pitch <= PITCH_MAX,
            final(self).yaw == old(self).yaw + yaw,
            gv(final(self).front) == front_spec(final(self).yaw as int, final(self).pitch as int),
            in_range(final(self).front, 1_000_000),
            final(self).position == old(self).position,
            final(self).up == old(self).up,
            final(self).zoom == old(self).zoom,
            final(self).aspect_ratio == old(self).aspect_ratio,
            final(self).fly == old(self).fly,
    {
        self.pitch = clamp(self.pitch + pitch, PITCH_MIN, PITCH_MAX);
        self.yaw = self.yaw + yaw;
        let cy = cos_fp(self.yaw);
        let sy = sin_fp(self.yaw);
        let cp = cos_fp(self.pitch);
        let sp = sin_fp(self.pitch);
        let d = Vec3 { x: fxmul(cy, cp), y: sp, z: fxmul(sy, cp) };
        proof {
            lemma_dir_norm_floor(self.yaw as int, self.pitch as int);
            assert(gv(d) == dir_spec(self.yaw as int, self.pitch as int));
        }
        self.front = normalize(d);
    }

    /// Integrate a movement: forward and backward along the (fly-mode
    /// adjusted) forward direction, sideways along the normalized cross
    /// product of front and up.
    pub fn go(&mut self, value: Way)
        requires
            in_range(old(self).front, DIR_LIM as int),
            in_range(old(self).up, DIR_LIM as int),
            in_range(old(self).position, POS_LIM as int),
            value matches Way::Forward(s) ==> 0 <= s <= SPEED_LIM,
            value matches Way::Backward(s) ==> 0 <= s <= SPEED_LIM,
            value matches Way::Left(s) ==> 0 <= s <= SPEED_LIM,
            value matches Way::Right(s) ==> 0 <= s <= SPEED_LIM,
            (value matches Way::Left(s) || value matches Way::Right(s))
                ==> gnorm_sq(gcross(gv(old(self).front), gv(old(self).up))) >= 1,
        ensures
            ({
                let eff = eff_front_spec(gv(old(self).front), old(self).fly);
                let right = right_spec(gv(old(self).front), gv(old(self).up));
                let p = gv(old(self).position);
                let q = gv(final(self).position);
                &&& value matches Way::Forward(s) ==> q == (GVec {
                    x: p.x + fxmul_spec(eff.x, s as int),
                    y: p.y + fxmul_spec(eff.y, s as int),
                    z: p.z + fxmul_spec(eff.z, s as int),
                })
                &&& value matches Way::Backward(s) ==> q == (GVec {
                    x: p.x - fxmul_spec(eff.x, s as int),
                    y: p.y - fxmul_spec(eff.y, s as int),
                    z: p.z - fxmul_spec(eff.z, s as int),
                })
                &&& value matches Way::Left(s) ==> q == (GVec {
                    x: p.x - fxmul_spec(right.x, s as int),
                    y: p.y - fxmul_spec(right.y, s as int),
                    z: p.z - fxmul_spec(right.z, s as int),
                })
                &&& value matches Way::Right(s) ==> q == (GVec {
                    x: p.x + fxmul_spec(right.x, s as int),
                    y: p.y + fxmul_spec(right.y, s as int),
                    z: p.z + fxmul_spec(right.z, s as int),
                })
            }),
            !old(self).fly && (value matches Way::Forward(s) || value matches Way::Backward(s))
                ==> final(self).position.y == old(self).position.y,
            in_range(final(self).position, POS_LIM as int + 2_000_000_000_000),
            final(self).front == old(self).front,
            final(self).up == old(self).up,
            final(self).yaw == old(self).yaw,
            final(self).pitch == old(self).pitch,
            final(self).zoom == old(self).zoom,
            final(self).aspect_ratio == old(self).aspect_ratio,
            final(self).fly == old(self).fly,
    {
        let mut front = self.front;
        if !self.fly {
            front.y = 0;
        }
        proof {
            lemma_step_bound(front, self.up);
        }
        match value {
            Way::Forward(speed) => {
                proof {
                    lemma_step_component(front.x as int, speed as int);
                    lemma_step_component(front.y as int, speed as int);
                    lemma_step_component(front.z as int, speed as int);
                }
                self.position = crate::vec3::add(self.position, scale(front, speed));
                proof {
                    crate::mat4::lemma_fxmul_zero(speed as int);
                }
            }
            Way::Backward(speed) => {
                proof {
                    lemma_step_component(front.x as int, speed as int);
                    lemma_step_component(front.y as int, speed as int);
                    lemma_step_component(front.z as int, speed as int);
                }
                self.position = crate::vec3::sub(self.position, scale(front, speed));
                proof {
                    crate::mat4::lemma_fxmul_zero(speed as int);
                }
            }
            Way::Left(speed) => {
                let r = self.right_vector();
                proof {
                    lemma_step_component(r.x as int, speed as int);
                    lemma_step_component(r.y as int, speed as int);
                    lemma_step_component(r.z as int, speed as int);
                }
                self.position = crate::vec3::sub(self.position, scale(r, speed));
            }
            Way::Right(speed) => {
                let r = self.right_vector();
                proof {
                    lemma_step_component(r.x as int, speed as int);
                    lemma_step_component(r.y as int, speed as int);
                    lemma_step_component(r.z as int, speed as int);
                }
                self.position = crate::vec3::add(self.position, scale(r, speed));
            }
        }
    }

    /// The normalized cross product of front and up, in that order: the
    /// direction strafing moves along.
    fn right_vector(&self) -> (r: Vec3)
        requires
            in_range(self.front, DIR_LIM as int),
            in_range(self.up, DIR_LIM as int),
            gnorm_sq(gcross(gv(self.front), gv(self.up))) >= 1,
        ensures
            gv(r) == right_spec(gv(self.front), gv(self.up)),
            in_range(r, 1_000_000),
    {
        let c = cross(self.front, self.up);
        proof {
            lemma_step_bound(self.front, self.up);
        }
        normalize(c)
    }

    /// Move the field of view by `value`, clamped between the two zoom
    /// bounds: the lower bound is applied first, then the upper one.
    pub fn shift_zoom(&mut self, value: i64)
        requires
            -ANGLE_LIM <= old(self).zoom <= ANGLE_LIM,
            -ANGLE_LIM <= value <= ANGLE_LIM,
        ensures
            final(self).zoom == clamp_spec(
                old(self).zoom + value, ZOOM_MIN as int, ZOOM_MAX as int),
            ZOOM_MIN <= final(self).zoom <= ZOOM_MAX,
            final(self).position == old(self).position,
            final(self).front == old(self).front,
            final(self).up == old(self).up,
            final(self).yaw == old(self).yaw,
            final(self).pitch == old(self).pitch,
            final(self).aspect_ratio == old(self).aspect_ratio,
            final(self).fly == old(self).fly,
    {
        self.zoom = clamp(self.zoom + value, ZOOM_MIN, ZOOM_MAX);
    }
}

/// One movement step never displaces a position component by more than
/// two units times the speed bound, rescaled.
proof fn lemma_step_component(vc: int, s: int)
    requires
        -(DIR_LIM as int) <= vc <= DIR_LIM as int,
        0 <= s <= SPEED_LIM as int,
    ensures
        -2_000_000_001 <= fxmul_spec(vc, s) <= 2_000_000_000,
{
    lemma_fxmul_magnitude(vc, s, DIR_LIM as int, SPEED_LIM as int);
    assert((DIR_LIM as int) * (SPEED_LIM as int) / (SCALE as int) == 2_000_000_000) by {
        vstd::arithmetic::div_mod::lemma_fundamental_div_mod_converse_mod(
            (DIR_LIM as int) * (SPEED_LIM as int), SCALE as int, 2_000_000_000, 0);
        vstd::arithmetic::div_mod::lemma_fundamental_div_mod(
            (DIR_LIM as int) * (SPEED_LIM as int), SCALE as int);
    }
}

/// Direction-scale vectors produce bounded cross products and bounded
/// movement steps.
proof fn lemma_step_bound(a: Vec3, b: Vec3)
    requires
        in_range(a, DIR_LIM as int),
        in_range(b, DIR_LIM as int),
    ensures
        ({
            let c = gcross(gv(a), gv(b));
            &&& -8_100_000 <= c.x <= 8_100_000
            &&& -8_100_000 <= c.y <= 8_100_000
            &&& -8_100_000 <= c.z <= 8_100_000
        }),
{
    lemma_fxmul_magnitude(a.y as int, b.z as int, DIR_LIM as int, DIR_LIM as int);
    lemma_fxmul_magnitude(a.z as int, b.y as int, DIR_LIM as int, DIR_LIM as int);
    lemma_fxmul_magnitude(a.z as int, b.x as int, DIR_LIM as int, DIR_LIM as int);
    lemma_fxmul_magnitude(a.x as int, b.z as int, DIR_LIM as int, DIR_LIM as int);
    lemma_fxmul_magnitude(a.x as int, b.y as int, DIR_LIM as int, DIR_LIM as int);
    lemma_fxmul_magnitude(a.y as int, b.x as int, DIR_LIM as int, DIR_LIM as int);
    assert((DIR_LIM as int) * (DIR_LIM as int) / (SCALE as int) == 4_000_000) by {
        vstd::arithmetic::div_mod::lemma_fundamental_div_mod_converse_mod(
            (DIR_LIM as int) * (DIR_LIM as int), SCALE as int, 4_000_000, 0);
        vstd::arithmetic::div_mod::lemma_fundamental_div_mod(
            (DIR_LIM as int) * (DIR_LIM as int), SCALE as int);
    }
}

/// The configuration a camera is built from: setters accumulate fields
/// into a camera-shaped value, and `build` hands that value out.  No
/// validation happens here: unset numeric fields stay zero, unset vectors
/// stay the zero vector, and fly mode starts enabled.
pub struct CameraOptions {
    pub output: Camera,
}

impl CameraOptions {
    /// The all-zero starting configuration, with fly mode on.
    pub fn new() -> (r: CameraOptions)
        ensures
            r.output.position == (Vec3 { x: 0i64, y: 0i64, z: 0i64 }),
            r.output.front == (Vec3 { x: 0i64, y: 0i64, z: 0i64 }),
            r.output.up == (Vec3 { x: 0i64, y: 0i64, z: 0i64 }),
            r.output.zoom == 0,
            r.output.aspect_ratio == 0,
            r.output.yaw == 0,
            r.output.pitch == 0,
            r.output.fly == true,
    {
        CameraOptions {
            output: Camera {
                position: Vec3 { x: 0, y: 0, z: 0 },
                front: Vec3 { x: 0, y: 0, z: 0 },
                up: Vec3 { x: 0, y: 0, z: 0 },
                zoom: 0,
                aspect_ratio: 0,
                yaw: 0,
                pitch: 0,
                fly: true,
            },
        }
    }

    /// The configuration with its position replaced.
    pub fn position(self, value: Vec3) -> (r: CameraOptions)
        ensures
            r.output == (Camera { position: value, ..self.output }),
    {
        CameraOptions { output: Camera { position: value, ..self.output } }
    }

    /// The configuration with its forward direction replaced.
    pub fn front(self, value: Vec3) -> (r: CameraOptions)
        ensures
            r.output == (Camera { front: value, ..self.output }),
    {
        CameraOptions { output: Camera { front: value, ..self.output } }
    }

    /// The configuration with its vertical reference replaced.
    pub fn up(self, value: Vec3) -> (r: CameraOptions)
        ensures
            r.output == (Camera { up: value, ..self.output }),
    {
        CameraOptions { output: Camera { up: value, ..self.output } }
    }

    /// The configuration with its field of view replaced.
    pub fn zoom(self, value: i64) -> (r: CameraOptions)
        ensures
            r.output == (Camera { zoom: value, ..self.output }),
    {
        CameraOptions { output: Camera { zoom: value, ..self.output } }
    }

    /// The configuration with its aspect ratio replaced.
    pub fn aspect_ratio(self, value: i64) -> (r: CameraOptions)
        ensures
            r.output == (Camera { aspect_ratio: value, ..self.output }),
    {
        CameraOptions { output: Camera { aspect_ratio: value, ..self.output } }
    }

    /// The configuration with its pitch replaced.
    pub fn pitch(self, value: i64) -> (r: CameraOptions)
        ensures
            r.output == (Camera { pitch: value, ..self.output }),
    {
        CameraOptions { output: Camera { pitch: value, ..self.output } }
    }

    /// The configuration with its yaw replaced.
    pub fn yaw(self, value: i64) -> (r: CameraOptions)
        ensures
            r.output == (Camera { yaw: value, ..self.output }),
    {
        CameraOptions { output: Camera { yaw: value, ..self.output } }
    }

    /// The configuration with fly mode switched on or off.
    pub fn fly(self, value: bool) -> (r: CameraOptions)
        ensures
            r.output == (Camera { fly: value, ..self.output }),
    {
        CameraOptions { output: Camera { fly: value, ..self.output } }
    }

    /// The camera the configuration describes.
    pub fn build(&self) -> (r: Camera)
        ensures
            r == self.output,
    {
        self.output
    }
}

/// The near clipping plane of the projection: a tenth of a unit.
pub const NEAR_PLANE: i64 = 100_000;

/// The far clipping plane of the projection: a hundred units.
pub const FAR_PLANE: i64 = 100_000_000;

/// The sideways basis vector of the view transform: the normalized cross
/// product of the vertical reference with the reversed forward direction.
pub open spec fn basis_right(front: GVec, up: GVec) -> GVec {
    gunit(gcross(up, gneg(front)))
}

/// The vertical basis vector of the view transform: the normalized cross
/// product of the reversed forward direction with the sideways basis.
pub open spec fn basis_up(front: GVec, up: GVec) -> GVec {
    gunit(gcross(gneg(front), basis_right(front, up)))
}

/// The two cross products the view basis normalizes are nonzero: the
/// precondition under which a view transform is defined.
pub open spec fn view_ok(front: GVec, up: GVec) -> bool {
    &&& gnorm_sq(gcross(up, gneg(front))) >= 1
    &&& gnorm_sq(gcross(gneg(front), basis_right(front, up))) >= 1
}

/// Entry `i` (column-major) of the view transform for a camera at `pos`
/// looking along `front` with vertical reference `up`: the orthonormal
/// basis as the rotation rows, composed with the translation by the
/// opposite of `pos`.
pub open spec fn view_entry(front: GVec, up: GVec, pos: GVec, i: int) -> int {
    let right = basis_right(front, up);
    let u2 = basis_up(front, up);
    let f2 = gneg(front);
    let pn = gneg(pos);
    if i == 0 { right.x } else if i == 1 { u2.x } else if i == 2 { f2.x } else if i == 3 { 0 }
    else if i == 4 { right.y } else if i == 5 { u2.y } else if i == 6 { f2.y } else if i == 7 { 0 }
    else if i == 8 { right.z } else if i == 9 { u2.z } else if i == 10 { f2.z } else if i == 11 { 0 }
    else if i == 12 { gdot(right, pn) } else if i == 13 { gdot(u2, pn) }
    else if i == 14 { gdot(f2, pn) } else { SCALE as int }
}

/// The reciprocal of the tangent of half the field of view, the focal
/// factor of the perspective projection.
pub open spec fn cot_half_spec(zoom: int) -> int {
    fxdiv_spec(cos_spec(zoom / 2), sin_spec(zoom / 2))
}

/// Entry `i` (column-major) of the perspective projection for the given
/// field of view and aspect ratio, with the fixed near and far planes.
pub open spec fn proj_entry(zoom: int, aspect: int, i: int) -> int {
    if i == 0 {
        fxdiv_spec(cot_half_spec(zoom), aspect)
    } else if i == 5 {
        cot_half_spec(zoom)
    } else if i == 10 {
        -fxdiv_spec((FAR_PLANE + NEAR_PLANE) as int, (FAR_PLANE - NEAR_PLANE) as int)
    } else if i == 11 {
        -(SCALE as int)
    } else if i == 14 {
        -fxdiv_spec(
            2 * fxmul_spec(FAR_PLANE as int, NEAR_PLANE as int),
            (FAR_PLANE - NEAR_PLANE) as int)
    } else {
        0
    }
}

impl Camera {
    /// The view transform: the rotation onto the orthonormal basis built
    /// from front and up, composed with the translation by the opposite
    /// of the position.  The rotation and translation matrices are
    /// formed separately and multiplied.
    #[verifier::rlimit(100)]
    pub fn view(&self) -> (r: Mat4)
        requires
            in_range(self.front, DIR_LIM as int),
            in_range(self.up, DIR_LIM as int),
            in_range(self.position, POS_LIM as int),
            view_ok(gv(self.front), gv(self.up)),
        ensures
            r.wf(),
            forall|i: int| 0 <= i < 16 ==> r.e@[i]
                == view_entry(gv(self.front), gv(self.up), gv(self.position), i),
    {
        let front2 = crate::vec3::neg(self.front);
        let c1 = cross(self.up, front2);
        proof {
            lemma_step_bound(self.up, front2);
            assert(gv(front2) == gneg(gv(self.front)));
        }
        let right = normalize(c1);
        let c2 = cross(front2, right);
        proof {
            lemma_step_bound(front2, right);
            assert(gv(right) == basis_right(gv(self.front), gv(self.up)));
        }
        let up2 = normalize(c2);
        let rot = Mat4::from_entries(vec![
            right.x, up2.x, front2.x, 0,
            right.y, up2.y, front2.y, 0,
            right.z, up2.z, front2.z, 0,
            0, 0, 0, SCALE,
        ]);
        let tr = Mat4::from_translation(crate::vec3::neg(self.position));
        proof {
            assert(seq_in_range(rot.e@, MAT_LIM as int));
            assert(seq_in_range(tr.e@, MAT_LIM as int));
        }
        let m = mat_mul(&rot, &tr);
        proof {
            lemma_fxmul_one(right.x as int);
            lemma_fxmul_one(right.y as int);
            lemma_fxmul_one(right.z as int);
            lemma_fxmul_one(up2.x as int);
            lemma_fxmul_one(up2.y as int);
            lemma_fxmul_one(up2.z as int);
            lemma_fxmul_one(front2.x as int);
            lemma_fxmul_one(front2.y as int);
            lemma_fxmul_one(front2.z as int);
            lemma_fxmul_one(0);
            lemma_fxmul_one(SCALE as int);
            lemma_fxmul_zero(right.x as int);
            lemma_fxmul_zero(right.y as int);
            lemma_fxmul_zero(right.z as int);
            lemma_fxmul_zero(up2.x as int);
            lemma_fxmul_zero(up2.y as int);
            lemma_fxmul_zero(up2.z as int);
            lemma_fxmul_zero(front2.x as int);
            lemma_fxmul_zero(front2.y as int);
            lemma_fxmul_zero(front2.z as int);
            lemma_fxmul_zero(SCALE as int);
            lemma_fxmul_zero(-(self.position.x as int));
            lemma_fxmul_zero(-(self.position.y as int));
            lemma_fxmul_zero(-(self.position.z as int));
            assert(gv(up2) == basis_up(gv(self.front), gv(self.up)));
            assert forall|i: int| 0 <= i < 16 implies m.e@[i]
                == view_entry(gv(self.front), gv(self.up), gv(self.position), i) by {
                assert(m.e@[i] == mul_entry_spec(rot.e@, tr.e@, i));
                lemma_ground_div_mod_16(i);
            }
        }
        m
    }

    /// The perspective projection from the field of view (zoom), the
    /// aspect ratio, and the fixed near and far planes.
    pub fn projection(&self) -> (r: Mat4)
        requires
            2_000_000 <= self.zoom <= 178_000_000,
            1_000 <= self.aspect_ratio <= crate::fixed::FX_LIM,
        ensures
            r.wf(),
            forall|i: int| 0 <= i < 16 ==> r.e@[i]
                == proj_entry(self.zoom as int, self.aspect_ratio as int, i),
    {
        let half = ((self.zoom as u64) / 2) as i64;
        proof {
            assert(half as int == (self.zoom as int) / 2);
            assert(1_000_000 <= half <= 89_000_000);
            lemma_sin_acute_floor(half as int);
            lemma_sin_range(half as int);
            lemma_sin_range(half as int + 90_000_000);
        }
        let sh = sin_fp(half);
        let ch = cos_fp(half);
        let f = fxdiv(ch, sh);
        proof {
            assert(-(sh as int) * 1_000_000_000_000 <= (ch as int) * (SCALE as int)
                <= (sh as int) * 1_000_000_000_000) by (nonlinear_arith)
                requires sh >= 1, -1_000_000 <= ch <= 1_000_000 {
            }
            crate::fixed::lemma_trunc_div_bounded(
                (ch as int) * (SCALE as int), sh as int, 1_000_000_000_000);
        }
        let e0 = fxdiv(f, self.aspect_ratio);
        let e10 = -fxdiv(FAR_PLANE + NEAR_PLANE, FAR_PLANE - NEAR_PLANE);
        let t = fxmul(FAR_PLANE, NEAR_PLANE);
        proof {
            lemma_fxmul_magnitude(FAR_PLANE as int, NEAR_PLANE as int,
                FAR_PLANE as int, NEAR_PLANE as int);
            assert((FAR_PLANE as int) * (NEAR_PLANE as int) / (SCALE as int)
                == 10_000_000) by {
                vstd::arithmetic::div_mod::lemma_fundamental_div_mod_converse_mod(
                    (FAR_PLANE as int) * (NEAR_PLANE as int), SCALE as int, 10_000_000, 0);
                vstd::arithmetic::div_mod::lemma_fundamental_div_mod(
                    (FAR_PLANE as int) * (NEAR_PLANE as int), SCALE as int);
            }
        }
        let e14 = -fxdiv(2 * t, FAR_PLANE - NEAR_PLANE);
        let ns = -SCALE;
        let e: Vec<i64> = vec![
            e0, 0, 0, 0,
            0, f, 0, 0,
            0, 0, e10, ns,
            0, 0, e14, 0,
        ];
        Mat4 { e }
    }

    /// The view transform built the other way: from an eye point, a
    /// target point, and the vertical reference, assembling the matrix
    /// entry by entry instead of composing two matrices.
    pub fn look_at_rh(eye: Vec3, center: Vec3, up: Vec3) -> (r: Mat4)
        requires
            in_range(eye, POS_LIM as int),
            in_range(center, POS_LIM as int + DIR_LIM as int),
            in_range(up, DIR_LIM as int),
            -(DIR_LIM as int) <= center.x - eye.x <= DIR_LIM as int,
            -(DIR_LIM as int) <= center.y - eye.y <= DIR_LIM as int,
            -(DIR_LIM as int) <= center.z - eye.z <= DIR_LIM as int,
            view_ok(
                GVec { x: center.x - eye.x, y: center.y - eye.y, z: center.z - eye.z },
                gv(up)),
        ensures
            r.wf(),
            forall|i: int| 0 <= i < 16 ==> r.e@[i] == view_entry(
                GVec { x: center.x - eye.x, y: center.y - eye.y, z: center.z - eye.z },
                gv(up), gv(eye), i),
    {
        let front = crate::vec3::sub(center, eye);
        let front2 = crate::vec3::neg(front);
        let c1 = cross(up, front2);
        proof {
            lemma_step_bound(up, front2);
        }
        let right = normalize(c1);
        let c2 = cross(front2, right);
        proof {
            lemma_step_bound(front2, right);
        }
        let up2 = normalize(c2);
        let pn = crate::vec3::neg(eye);
        let e12 = crate::vec3::dot(right, pn);
        let e13 = crate::vec3::dot(up2, pn);
        let e14 = crate::vec3::dot(front2, pn);
        let e: Vec<i64> = vec![
            right.x, up2.x, front2.x, 0,
            right.y, up2.y, front2.y, 0,
            right.z, up2.z, front2.z, 0,
            e12, e13, e14, SCALE,
        ];
        Mat4 { e }
    }
}

/// Ground facts about dividing a small index by four, spelled out so a
/// product entry's row and column resolve.
proof fn lemma_ground_div_mod_16(i: int)
    requires
        0 <= i < 16,
    ensures
        i / 4 == (if i < 4 { 0int } else if i < 8 { 1int } else if i < 12 { 2int } else { 3int }),
        i % 4 == i - 4 * (i / 4),
{
    vstd::arithmetic::div_mod::lemma_fundamental_div_mod(i, 4);
    vstd::arithmetic::div_mod::lemma_mod_division_less_than_divisor(i, 4);
    let q: int = if i < 4 { 0 } else if i < 8 { 1 } else if i < 12 { 2 } else { 3 };
    vstd::arithmetic::div_mod::lemma_fundamental_div_mod_converse_mod(i, 4, q, i - 4 * q);
    assert(i % 4 == i - 4 * q);
    vstd::arithmetic::div_mod::lemma_fundamental_div_mod_converse_div(i, 4, q, i - 4 * q);
}

/// For any pitch inside the clamping band, the recomputed forward
/// direction is a unit vector up to a narrow tolerance: its squared norm
/// stays within about one part in six thousand of one square unit.
pub proof fn lemma_front_unit(yaw: int, pitch: int)
    requires
        PITCH_MIN <= pitch <= PITCH_MAX,
    ensures
        999_993_000_000 <= gnorm_sq(front_spec(yaw, pitch)),
        gnorm_sq(front_spec(yaw, pitch)) <= 1_000_165_000_000,
{
    lemma_dir_norm_floor(yaw, pitch);
    crate::vec3::lemma_normalized_norm(dir_spec(yaw, pitch));
}

/// A full turn of yaw leaves the forward direction exactly unchanged:
/// yaw is unbounded, and only its remainder modulo a turn reaches the
/// trigonometry.
pub proof fn lemma_full_turn_front(yaw: int, pitch: int)
    ensures
        front_spec(yaw + TURN, pitch) == front_spec(yaw, pitch),
{
    lemma_sin_period(yaw);
    lemma_cos_period(yaw);
}

/// The two view constructions agree: looking from `pos` at the point one
/// forward step away derives the same direction, so every entry of the
/// look-at matrix equals the corresponding entry of the view matrix.
pub proof fn lemma_view_look_at_agree(front: GVec, up: GVec, pos: GVec, i: int)
    ensures
        view_entry(
            GVec {
                x: (pos.x + front.x) - pos.x,
                y: (pos.y + front.y) - pos.y,
                z: (pos.z + front.z) - pos.z,
            },
            up, pos, i) == view_entry(front, up, pos, i),
{
}

} // verus!
