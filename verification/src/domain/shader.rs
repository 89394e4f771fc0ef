//! The shader abstractions: uniform values, uniform keys, and the traits
//! a usable shader program offers.

use vstd::prelude::*;
use crate::gl::Gl;
use crate::Error;

verus! {

/// A uniform value.  Scalars and vector or matrix elements that the
/// driver receives as floating point are carried in fixed-point form.
#[derive(Clone, Debug, PartialEq)]
pub enum Uniform {
    Mat4(Vec<i64>),
    Vec3(Vec<i64>),
    Float32(i64),
    Int(i32),
}

/// Which uniform a value is assigned to.  Material map slots carry their
/// index as data; the replaying side renders each key as the shader's
/// uniform name.
#[derive(Clone, Debug, PartialEq)]
pub enum UniformKey {
    Plain(String),
    MaterialDiffuse(u32),
    MaterialSpecular(u32),
}

/// Something uniforms can be set on.  Whatever it does, it leaves the
/// recorder's handle counter and active program alone.
pub trait SetUniform {
    fn set_uniform(&mut self, gl: &mut Gl, key: UniformKey, value: Uniform)
        -> (r: Result<(), Error>)
        ensures
            final(gl).next_id == old(gl).next_id,
            final(gl).current_program == old(gl).current_program,
    ;
}

/// Something that can be made the active program.
pub trait SetUsed {
    fn set_used(&self, gl: &mut Gl);
}

/// Assign each of a list of uniforms in order, stopping at the first
/// failure.
pub fn set_uniforms<S: SetUniform>(
    shader: &mut S,
    gl: &mut Gl,
    args: &[(UniformKey, Uniform)],
) -> (r: Result<(), Error>)
{
    let mut i: usize = 0;
    while i < args.len()
        decreases args.len() - i,
    {
        let (key, value) = (args[i].0.clone(), args[i].1.clone());
        match shader.set_uniform(gl, key, value) {
            Ok(()) => {}
            Err(e) => {
                return Err(e);
            }
        }
        i = i + 1;
    }
    Ok(())
}

} // verus!
