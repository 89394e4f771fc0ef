//! A verified model of a small real-time 3D camera demo.
//!
//! The heart of the crate is the camera: a position, an orientation given by
//! yaw and pitch angles, and projection parameters, together with the
//! operations that integrate input deltas into that state and derive view and
//! projection matrices from it.  All scalar quantities are fixed-point
//! numbers: signed 64-bit integers scaled by one million, so that every
//! operation has an exact arithmetic meaning and the clamping, integration and
//! matrix construction rules can be stated and proved precisely.
//!
//! Around the camera stands a model of the rendering glue: buffers, vertex
//! arrays, shaders, programs and textures are handles whose operations append
//! commands to a recording context.  The application replays the recorded
//! commands against the real graphics API; the library proves which commands
//! each operation emits and in what order.

pub mod fixed;
pub mod trig;
pub mod vec3;
pub mod mat4;
pub mod camera;
pub mod domain;
pub mod gl;
pub mod buffer;
pub mod render_gl;
pub mod texture;
pub mod frame_rate;
pub mod movement;
pub mod init;
pub mod shader_program_container;
pub mod roller;
pub mod entities;

use vstd::prelude::*;

verus! {

/// The errors this library reports, one variant per condition.
#[derive(Clone, Copy, PartialEq, Eq, Structural, Debug)]
pub enum Error {
    /// A texture unit index at or above the supported number of units.
    TextureUnitOutOfRange,
    /// A uniform was set on a program that is not the active one.
    ProgramNotActive,
    /// The clock went backwards between two frame-rate updates.
    ClockWentBackwards,
}

} // verus!
