//! The demo's starting configuration.

use vstd::prelude::*;
use crate::camera::{Camera, CameraOptions};
use crate::vec3::Vec3;
use crate::fixed::SCALE;

verus! {

/// The camera the demo starts with: a little back from the center of the
/// world, looking against the depth axis, upright, at the widest zoom,
/// walking rather than flying.
pub fn standard_camera(aspect: i64) -> (r: Camera)
    ensures
        r.position.x == 0 && r.position.y == 0 && r.position.z == 3 * (SCALE as int),
        r.front.x == 0 && r.front.y == 0 && r.front.z == -(SCALE as int),
        r.up.x == 0 && r.up.y == SCALE && r.up.z == 0,
        r.yaw == -90 * (SCALE as int),
        r.pitch == 0,
        r.zoom == 45 * (SCALE as int),
        r.aspect_ratio == aspect,
        r.fly == false,
{
    CameraOptions::new()
        .position(Vec3 { x: 0, y: 0, z: 3 * SCALE })
        .front(Vec3 { x: 0, y: 0, z: -SCALE })
        .up(Vec3 { x: 0, y: SCALE, z: 0 })
        .yaw(-90 * SCALE)
        .aspect_ratio(aspect)
        .zoom(45 * SCALE)
        .fly(false)
        .build()
}

} // verus!
