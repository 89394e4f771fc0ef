//! The texture abstractions: units, binding, and texture kinds.

use vstd::prelude::*;
use crate::gl::Gl;
use crate::Error;

verus! {

/// The lowest texture-unit value of the graphics API.
pub const TEXTURE0: u32 = 0x84C0;

/// The highest texture-unit value, the first one `Unit::new` rejects.
pub const TEXTURE31: u32 = 0x84DF;

/// A texture unit index, kept below the supported limit.
#[derive(Clone, Copy, PartialEq, Eq, Structural, Debug)]
pub struct Unit(pub u32);

impl Unit {
    /// The first texture unit.
    pub fn zero() -> (r: Unit)
        ensures
            r.0 == 0,
    {
        Unit(0)
    }

    /// A texture unit for index `v`, rejected at or above the limit.
    pub fn new(v: u32) -> (r: Result<Unit, Error>)
        ensures
            v < TEXTURE31 ==> (r matches Ok(u) && u.0 == v),
            v >= TEXTURE31 ==> (r matches Err(e) && e == Error::TextureUnitOutOfRange),
    {
        if v < TEXTURE31 {
            Ok(Unit(v))
        } else {
            Err(Error::TextureUnitOutOfRange)
        }
    }

    /// The unit's value in the graphics API's numbering.
    pub fn gl_value(&self) -> (r: u32)
        requires
            self.0 < TEXTURE31,
        ensures
            r == self.0 + TEXTURE0,
    {
        self.0 + TEXTURE0
    }
}

/// Something that can be bound to a texture unit.
pub trait Bind {
    fn bind(&self, gl: &mut Gl, unit: Unit)
        requires
            unit.0 < TEXTURE31,
    ;
}

/// What role a texture plays in a material.
#[derive(Clone, Copy, PartialEq, Eq, Structural, Debug)]
pub enum Kind {
    Diffuse,
    Specular,
}

} // verus!
