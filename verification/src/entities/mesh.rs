//! Textured meshes: indexed geometry with its textures, and the drawing
//! strategies that issue its draw call.

use vstd::prelude::*;
use crate::gl::{Gl, Command, STATIC_DRAW};
use crate::domain;
use crate::domain::texture::Kind;
use crate::texture::Texture;
use crate::entities::vertex::Textured;
use crate::entities::data::load_render_data_indexed;
use crate::Error;

verus! {

/// A vertex array seen only as something to bind and unbind.
pub struct VertexArrayObject {
    pub id: u32,
}

impl domain::vdata::BindUnbind for VertexArrayObject {
    fn bind(&self, gl: &mut Gl) {
        gl.bind_vertex_array(self.id);
    }

    fn unbind(&self, gl: &mut Gl) {
        gl.bind_vertex_array(0);
    }
}

/// Indexed, textured geometry with its upload handles.
pub struct Mesh {
    pub vertices: Vec<Textured>,
    pub textures: Vec<(Texture, Kind)>,
    pub indices: Vec<u32>,
    pub vbo: u32,
    pub vao: u32,
    pub ebo: u32,
}

impl Mesh {
    /// Bind the mesh's textures to the shader, then let the drawer issue
    /// its draw call over the mesh's vertex array.
    pub fn draw<TB: domain::mesh::TextureBind, D: domain::mesh::Draw>(
        &self,
        gl: &mut Gl,
        shader_texture_bind: &mut TB,
        drawer: &D,
    ) -> (r: Result<(), Error>)
    {
        match shader_texture_bind.texture_bind(gl, self.textures.as_slice()) {
            Ok(()) => {}
            Err(e) => {
                return Err(e);
            }
        }
        let vao = VertexArrayObject { id: self.vao };
        drawer.draw(gl, &vao, self);
        Ok(())
    }
}

impl domain::mesh::Mesh for Mesh {
    fn vertex_count(&self) -> i32 {
        #[verifier::truncate] (self.vertices.len() as i32)
    }

    fn index_count(&self) -> i32 {
        #[verifier::truncate] (self.indices.len() as i32)
    }
}

/// Builds meshes by recording their upload.
pub struct Builder;

impl Builder {
    /// A mesh from vertices, textures and indices, its upload recorded.
    pub fn build(
        &self,
        gl: &mut Gl,
        vertices: Vec<Textured>,
        textures: Vec<(Texture, Kind)>,
        indices: Vec<u32>,
    ) -> (r: Result<Mesh, Error>)
        requires
            old(gl).next_id + 3 <= 0xFFFF_FFFFu32,
        ensures
            r matches Ok(m) && m.vao == old(gl).next_id + 1
                && m.vbo == old(gl).next_id && m.ebo == old(gl).next_id + 2,
            final(gl).current_program == old(gl).current_program,
            final(gl).commands@.subrange(0, old(gl).commands@.len() as int)
                == old(gl).commands@,
    {
        let (vao, vbo, ebo) =
            load_render_data_indexed(gl, vertices.as_slice(), &indices, STATIC_DRAW);
        Ok(Mesh { vertices, textures, indices, vao, vbo, ebo })
    }
}

/// Issues indexed draw calls.
pub struct DrawElements {
    pub mode: u32,
}

impl domain::mesh::Draw for DrawElements {
    fn draw<V: domain::vdata::BindUnbind, M: domain::mesh::Mesh>(
        &self,
        gl: &mut Gl,
        vao: &V,
        mesh: &M,
    ) {
        vao.bind(gl);
        let count = mesh.index_count();
        gl.draw_elements(self.mode, count);
        vao.unbind(gl);
    }
}

/// Issues unindexed draw calls.
pub struct DrawArrays {
    pub mode: u32,
}

impl domain::mesh::Draw for DrawArrays {
    fn draw<V: domain::vdata::BindUnbind, M: domain::mesh::Mesh>(
        &self,
        gl: &mut Gl,
        vao: &V,
        mesh: &M,
    ) {
        vao.bind(gl);
        let count = mesh.vertex_count();
        gl.draw_arrays(self.mode, count);
        vao.unbind(gl);
    }
}

} // verus!
