//! The mesh abstractions: texture binding, drawing, and mesh geometry
//! counts.

use vstd::prelude::*;
use crate::gl::Gl;
use crate::Error;
use crate::domain::texture;
use crate::domain::vdata;

verus! {

/// Something that binds a mesh's textures to a shader before a draw.
pub trait TextureBind {
    fn texture_bind<B: texture::Bind>(
        &mut self,
        gl: &mut Gl,
        textures: &[(B, texture::Kind)],
    ) -> Result<(), Error>;
}

/// A texture binder for meshes without textures: it has nothing to do.
pub struct NoTexture;

impl TextureBind for NoTexture {
    fn texture_bind<B: texture::Bind>(
        &mut self,
        gl: &mut Gl,
        textures: &[(B, texture::Kind)],
    ) -> Result<(), Error> {
        Ok(())
    }
}

/// A way of issuing the draw call for a mesh.
pub trait Draw {
    fn draw<V: vdata::BindUnbind, M: Mesh>(&self, gl: &mut Gl, vao: &V, mesh: &M);
}

/// What a drawable mesh reports about its geometry.
pub trait Mesh {
    fn vertex_count(&self) -> i32;

    fn index_count(&self) -> i32;
}

} // verus!
