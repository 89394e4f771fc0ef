//! Movement input state and the uniform plumbing of a moving camera.
//!
//! The pressed movement keys are a bitmap; the frame loop's priority
//! rule — forward wins over backward, backward over left, left over
//! right — lives in [`move_camera`], stated exactly in its contract.

use vstd::prelude::*;
use crate::camera::{self, Camera, DIR_LIM, POS_LIM, SPEED_LIM, eff_front_spec, right_spec};
use crate::fixed::fxmul_spec;
use crate::vec3::{GVec, gv, gcross, gnorm_sq, in_range};
use crate::mat4::Mat4;
use crate::gl::Gl;
use crate::domain::shader;
use crate::domain::shader::{Uniform, UniformKey};
use crate::Error;

verus! {

/// Which movement keys are held down, one bit each.
#[derive(Clone, Copy, Debug)]
pub struct MoveBitMap(pub u16);

/// A movement direction, without a speed.
#[derive(Clone, Copy, PartialEq, Eq, Structural, Debug)]
pub enum Way {
    Forward,
    Backward,
    Left,
    Right,
}

/// The bit that stands for a direction.
pub open spec fn way_bit(value: Way) -> u16 {
    match value {
        Way::Forward => 0x1u16,
        Way::Backward => 0x2u16,
        Way::Left => 0x4u16,
        Way::Right => 0x8u16,
    }
}

impl MoveBitMap {
    /// Whether a direction's bit is set.
    pub open spec fn has_spec(self, value: Way) -> bool {
        self.0 & way_bit(value) != 0
    }

    /// The bitmap with a direction's bit set and the others kept.
    pub fn set(&self, value: Way) -> (r: Self)
        ensures
            r.has_spec(value),
            forall|o: Way| o != value ==> r.has_spec(o) == self.has_spec(o),
    {
        let r = match value {
            Way::Forward => Self(self.0 | 0b0001),
            Way::Backward => Self(self.0 | 0b0010),
            Way::Left => Self(self.0 | 0b0100),
            Way::Right => Self(self.0 | 0b1000),
        };
        proof {
            let s = self.0;
            assert((s | 0b0001) & 0x1u16 != 0 && (s | 0b0010) & 0x2u16 != 0
                && (s | 0b0100) & 0x4u16 != 0 && (s | 0b1000) & 0x8u16 != 0
                && ((s | 0b0001) & 0x2u16 == s & 0x2u16)
                && ((s | 0b0001) & 0x4u16 == s & 0x4u16)
                && ((s | 0b0001) & 0x8u16 == s & 0x8u16)
                && ((s | 0b0010) & 0x1u16 == s & 0x1u16)
                && ((s | 0b0010) & 0x4u16 == s & 0x4u16)
                && ((s | 0b0010) & 0x8u16 == s & 0x8u16)
                && ((s | 0b0100) & 0x1u16 == s & 0x1u16)
                && ((s | 0b0100) & 0x2u16 == s & 0x2u16)
                && ((s | 0b0100) & 0x8u16 == s & 0x8u16)
                && ((s | 0b1000) & 0x1u16 == s & 0x1u16)
                && ((s | 0b1000) & 0x2u16 == s & 0x2u16)
                && ((s | 0b1000) & 0x4u16 == s & 0x4u16)) by (bit_vector);
        }
        r
    }

    /// The bitmap with a direction's bit cleared and the others kept.
    pub fn unset(&self, value: Way) -> (r: Self)
        ensures
            !r.has_spec(value),
            forall|o: Way| o != value ==> r.has_spec(o) == self.has_spec(o),
    {
        let r = match value {
            Way::Forward => Self(self.0 & 0b1110),
            Way::Backward => Self(self.0 & 0b1101),
            Way::Left => Self(self.0 & 0b1011),
            Way::Right => Self(self.0 & 0b0111),
        };
        proof {
            let s = self.0;
            assert((s & 0b1110) & 0x1u16 == 0 && (s & 0b1101) & 0x2u16 == 0
                && (s & 0b1011) & 0x4u16 == 0 && (s & 0b0111) & 0x8u16 == 0
                && ((s & 0b1110) & 0x2u16 == s & 0x2u16)
                && ((s & 0b1110) & 0x4u16 == s & 0x4u16)
                && ((s & 0b1110) & 0x8u16 == s & 0x8u16)
                && ((s & 0b1101) & 0x1u16 == s & 0x1u16)
                && ((s & 0b1101) & 0x4u16 == s & 0x4u16)
                && ((s & 0b1101) & 0x8u16 == s & 0x8u16)
                && ((s & 0b1011) & 0x1u16 == s & 0x1u16)
                && ((s & 0b1011) & 0x2u16 == s & 0x2u16)
                && ((s & 0b1011) & 0x8u16 == s & 0x8u16)
                && ((s & 0b0111) & 0x1u16 == s & 0x1u16)
                && ((s & 0b0111) & 0x2u16 == s & 0x2u16)
                && ((s & 0b0111) & 0x4u16 == s & 0x4u16)) by (bit_vector);
        }
        r
    }

    /// Whether a direction's key is held down.
    pub fn has(&self, value: Way) -> (r: bool)
        ensures
            r == self.has_spec(value),
    {
        match value {
            Way::Forward => self.0 & 0b0001 > 0,
            Way::Backward => self.0 & 0b0010 > 0,
            Way::Left => self.0 & 0b0100 > 0,
            Way::Right => self.0 & 0b1000 > 0,
        }
    }
}

impl Default for MoveBitMap {
    /// The bitmap with no key held down.
    fn default() -> (r: Self)
        ensures
            r.0 == 0,
    {
        Self(0)
    }
}

/// Move the camera one step along the highest-priority held direction:
/// forward first, then backward, then left, then right; no held key, no
/// movement.
pub fn move_camera(camera: &mut Camera, speed: i64, directions: &MoveBitMap)
    requires
        in_range(old(camera).front, DIR_LIM as int),
        in_range(old(camera).up, DIR_LIM as int),
        in_range(old(camera).position, POS_LIM as int),
        0 <= speed <= SPEED_LIM,
        (directions.has_spec(Way::Left) || directions.has_spec(Way::Right))
            ==> gnorm_sq(gcross(gv(old(camera).front), gv(old(camera).up))) >= 1,
    ensures
        ({
            let eff = eff_front_spec(gv(old(camera).front), old(camera).fly);
            let right = right_spec(gv(old(camera).front), gv(old(camera).up));
            let p = gv(old(camera).position);
            let q = gv(final(camera).position);
            if directions.has_spec(Way::Forward) {
                q == (GVec {
                    x: p.x + fxmul_spec(eff.x, speed as int),
                    y: p.y + fxmul_spec(eff.y, speed as int),
                    z: p.z + fxmul_spec(eff.z, speed as int),
                })
            } else if directions.has_spec(Way::Backward) {
                q == (GVec {
                    x: p.x - fxmul_spec(eff.x, speed as int),
                    y: p.y - fxmul_spec(eff.y, speed as int),
                    z: p.z - fxmul_spec(eff.z, speed as int),
                })
            } else if directions.has_spec(Way::Left) {
                q == (GVec {
                    x: p.x - fxmul_spec(right.x, speed as int),
                    y: p.y - fxmul_spec(right.y, speed as int),
                    z: p.z - fxmul_spec(right.z, speed as int),
                })
            } else if directions.has_spec(Way::Right) {
                q == (GVec {
                    x: p.x + fxmul_spec(right.x, speed as int),
                    y: p.y + fxmul_spec(right.y, speed as int),
                    z: p.z + fxmul_spec(right.z, speed as int),
                })
            } else {
                q == p
            }
        }),
        final(camera).front == old(camera).front,
        final(camera).up == old(camera).up,
        final(camera).yaw == old(camera).yaw,
        final(camera).pitch == old(camera).pitch,
        final(camera).zoom == old(camera).zoom,
        final(camera).aspect_ratio == old(camera).aspect_ratio,
        final(camera).fly == old(camera).fly,
{
    if directions.has(Way::Forward) {
        camera.go(camera::Way::Forward(speed));
    } else if directions.has(Way::Backward) {
        camera.go(camera::Way::Backward(speed));
    } else if directions.has(Way::Left) {
        camera.go(camera::Way::Left(speed));
    } else if directions.has(Way::Right) {
        camera.go(camera::Way::Right(speed));
    }
}

/// Hand a model, view and projection matrix to a shader, in that order,
/// stopping at the first refusal.
pub fn set_transformations<B: shader::SetUniform>(
    program: &mut B,
    gl: &mut Gl,
    model: &Mat4,
    view: &Mat4,
    projection: &Mat4,
) -> (r: Result<(), Error>)
    requires
        model.wf(),
        view.wf(),
        projection.wf(),
    ensures
        final(gl).next_id == old(gl).next_id,
        final(gl).current_program == old(gl).current_program,
{
    let m = "model".to_owned();
    match program.set_uniform(gl, UniformKey::Plain(m), Uniform::Mat4(model.entries())) {
        Ok(()) => {}
        Err(e) => {
            return Err(e);
        }
    }
    let v = "view".to_owned();
    match program.set_uniform(gl, UniformKey::Plain(v), Uniform::Mat4(view.entries())) {
        Ok(()) => {}
        Err(e) => {
            return Err(e);
        }
    }
    let p = "projection".to_owned();
    match program.set_uniform(gl, UniformKey::Plain(p), Uniform::Mat4(projection.entries())) {
        Ok(()) => {}
        Err(e) => {
            return Err(e);
        }
    }
    Ok(())
}

} // verus!
