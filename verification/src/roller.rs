//! The rolling lamp: a position with two accumulated rotation angles,
//! and the model transform they describe.

use vstd::prelude::*;
use crate::vec3::Vec3;
use crate::mat4::{Mat4, MAT_LIM, mat_mul, seq_in_range, lemma_mul_entry_bound};
use crate::trig::ANGLE_LIM;
use crate::vec3::in_range;

verus! {

/// A body rolling about the depth axis while turned about the vertical
/// one.
#[derive(Clone, Copy, Debug)]
pub struct Roller {
    pub position: Vec3,
    pub rot_y: i64,
    pub rot_z: i64,
}

impl Roller {
    /// A roller at the given position and vertical-axis angle, not yet
    /// rolled.
    pub fn new(position: Vec3, rot_y: i64) -> (r: Roller)
        ensures
            r.position == position,
            r.rot_y == rot_y,
            r.rot_z == 0,
    {
        Roller { position, rot_y, rot_z: 0 }
    }

    /// Roll further by `delta` micro-degrees.
    pub fn add_rot_z(&mut self, delta: i64)
        requires
            -ANGLE_LIM <= old(self).rot_z + delta <= ANGLE_LIM,
            -ANGLE_LIM <= old(self).rot_z <= ANGLE_LIM,
            -ANGLE_LIM <= delta <= ANGLE_LIM,
        ensures
            final(self).rot_z == old(self).rot_z + delta,
            final(self).position == old(self).position,
            final(self).rot_y == old(self).rot_y,
    {
        self.rot_z = self.rot_z + delta;
    }

    /// The model transform: the roll, then the turn, then the move to the
    /// roller's position.
    #[verifier::rlimit(100)]
    pub fn model_matrix(&self) -> (r: Mat4)
        requires
            -ANGLE_LIM <= self.rot_y <= ANGLE_LIM,
            -ANGLE_LIM <= self.rot_z <= ANGLE_LIM,
            in_range(self.position, MAT_LIM as int),
        ensures
            r.wf(),
    {
        let pos = Mat4::from_translation(self.position);
        let rz = Mat4::from_angle_z(self.rot_z);
        let ry = Mat4::from_angle_y(self.rot_y);
        proof {
            assert(seq_in_range(pos.e@, MAT_LIM as int));
            assert(seq_in_range(rz.e@, MAT_LIM as int));
            assert(seq_in_range(ry.e@, MAT_LIM as int));
        }
        let rot = mat_mul(&ry, &rz);
        proof {
            assert((1_000_000int * 1_000_000) / (crate::fixed::SCALE as int)
                == 1_000_000) by {
                vstd::arithmetic::div_mod::lemma_fundamental_div_mod_converse_mod(
                    1_000_000int * 1_000_000, crate::fixed::SCALE as int, 1_000_000, 0);
                vstd::arithmetic::div_mod::lemma_fundamental_div_mod(
                    1_000_000int * 1_000_000, crate::fixed::SCALE as int);
            }
            assert forall|i: int| 0 <= i < rot.e@.len()
                implies -4_000_004 <= #[trigger] rot.e@[i] <= 4_000_004 by {
                lemma_mul_entry_bound(ry.e@, rz.e@, i, 1_000_000, 1_000_000);
            }
            assert(seq_in_range(rot.e@, MAT_LIM as int));
        }
        mat_mul(&rot, &pos)
    }
}

} // verus!
