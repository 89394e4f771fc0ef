//! The vertex-data binding abstraction.

use vstd::prelude::*;
use crate::gl::Gl;

verus! {

/// Something that can be bound to and unbound from the graphics context.
pub trait BindUnbind {
    fn bind(&self, gl: &mut Gl);

    fn unbind(&self, gl: &mut Gl);
}

} // verus!
