//! Texture objects over the recording context.
//!
//! A texture is a handle drawn from the recorder's counter.  Creating one
//! records the binding, the wrap and filter parameters, the image upload
//! and the mipmap generation, in the order the graphics API wants them;
//! the image bytes travel inside the recorded command.

use vstd::prelude::*;
use crate::gl::{
    Gl, Command, TEXTURE_2D, TEXTURE_WRAP_S, TEXTURE_WRAP_T,
    TEXTURE_MIN_FILTER, TEXTURE_MAG_FILTER, REPEAT, LINEAR,
    LINEAR_MIPMAP_LINEAR,
};
use crate::domain;
use crate::domain::texture::{Unit, Kind, TEXTURE31};
use crate::domain::shader::{SetUniform, Uniform, UniformKey};
use crate::Error;

verus! {

/// A texture's handle.
#[derive(Clone, Copy, Debug)]
pub struct Texture {
    pub id: u32,
}

impl Texture {
    /// A texture from raw image bytes and their dimensions: bound,
    /// parameterized, uploaded and mipmapped, all recorded under a fresh
    /// handle.
    pub fn new(gl: &mut Gl, data: Vec<u8>, dims: (u32, u32)) -> (r: Texture)
        requires
            old(gl).next_id < 0xFFFF_FFFFu32,
        ensures
            r.id == old(gl).next_id,
            final(gl).next_id == old(gl).next_id + 1,
            final(gl).commands@ == old(gl).commands@
                .push(Command::GenTexture { id: r.id })
                .push(Command::BindTexture { target: TEXTURE_2D, id: r.id })
                .push(Command::TexParameter {
                    target: TEXTURE_2D, pname: TEXTURE_WRAP_S, param: REPEAT,
                })
                .push(Command::TexParameter {
                    target: TEXTURE_2D, pname: TEXTURE_WRAP_T, param: REPEAT,
                })
                .push(Command::TexParameter {
                    target: TEXTURE_2D, pname: TEXTURE_MIN_FILTER,
                    param: LINEAR_MIPMAP_LINEAR,
                })
                .push(Command::TexParameter {
                    target: TEXTURE_2D, pname: TEXTURE_MAG_FILTER, param: LINEAR,
                })
                .push(Command::TexImage2D {
                    id: r.id, width: dims.0, height: dims.1, data,
                })
                .push(Command::GenerateMipmap { target: TEXTURE_2D }),
            final(gl).current_program == old(gl).current_program,
    {
        let (width, height) = dims;
        let id = gl.gen_texture();
        gl.bind_texture(TEXTURE_2D, id);
        gl.tex_parameter(TEXTURE_2D, TEXTURE_WRAP_S, REPEAT);
        gl.tex_parameter(TEXTURE_2D, TEXTURE_WRAP_T, REPEAT);
        gl.tex_parameter(TEXTURE_2D, TEXTURE_MIN_FILTER, LINEAR_MIPMAP_LINEAR);
        gl.tex_parameter(TEXTURE_2D, TEXTURE_MAG_FILTER, LINEAR);
        gl.tex_image_2d(id, width, height, data);
        gl.generate_mipmap(TEXTURE_2D);
        Texture { id }
    }

    /// The texture's handle number.
    pub fn id(&self) -> (r: u32)
        ensures
            r == self.id,
    {
        self.id
    }
}

impl domain::texture::Bind for Texture {
    fn bind(&self, gl: &mut Gl, unit: Unit) {
        gl.active_texture(unit.gl_value());
        gl.bind_texture(TEXTURE_2D, self.id);
    }
}

/// Binds a mesh's textures one texture unit each, and tells the shader
/// which material slot looks at which unit: diffuse maps and specular
/// maps are counted separately.
pub struct Binder<S> {
    pub shader_program: S,
}

impl<S: SetUniform> domain::mesh::TextureBind for Binder<S> {
    fn texture_bind<B: domain::texture::Bind>(
        &mut self,
        gl: &mut Gl,
        textures: &[(B, Kind)],
    ) -> Result<(), Error> {
        let mut diffuse_count: usize = 0;
        let mut specular_count: usize = 0;
        let mut i: usize = 0;
        while i < textures.len()
            invariant
                i <= textures@.len(),
                diffuse_count <= i,
                specular_count <= i,
            decreases textures@.len() - i,
        {
            let unit = match Unit::new(#[verifier::truncate] (i as u32)) {
                Ok(u) => u,
                Err(e) => {
                    return Err(e);
                }
            };
            let slot: u32;
            match textures[i].1 {
                Kind::Diffuse => {
                    diffuse_count = diffuse_count + 1;
                    slot = #[verifier::truncate] ((diffuse_count - 1) as u32);
                }
                Kind::Specular => {
                    specular_count = specular_count + 1;
                    slot = #[verifier::truncate] ((specular_count - 1) as u32);
                }
            }
            textures[i].0.bind(gl, unit);
            let key = match textures[i].1 {
                Kind::Diffuse => UniformKey::MaterialDiffuse(slot),
                Kind::Specular => UniformKey::MaterialSpecular(slot),
            };
            let value = Uniform::Int(#[verifier::truncate] (i as i32));
            match self.shader_program.set_uniform(gl, key, value) {
                Ok(()) => {}
                Err(e) => {
                    return Err(e);
                }
            }
            i = i + 1;
        }
        Ok(())
    }
}

} // verus!
