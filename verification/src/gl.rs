//! A recording model of the graphics context.
//!
//! The renderer objects of this library do not talk to a graphics driver:
//! they append commands to a [`Gl`] recorder and receive handle numbers
//! from its counter.  What each object operation emits, and in what
//! order, is stated exactly in its contract; the application replays the
//! recorded commands against the real graphics API and maps the handle
//! numbers to driver objects.

use vstd::prelude::*;
use crate::domain::shader::{Uniform, UniformKey};

verus! {

/// The array-buffer binding target.
pub const ARRAY_BUFFER: u32 = 0x8892;

/// The element-array-buffer binding target.
pub const ELEMENT_ARRAY_BUFFER: u32 = 0x8893;

/// The static-draw usage hint.
pub const STATIC_DRAW: u32 = 0x88E4;

/// The dynamic-draw usage hint.
pub const DYNAMIC_DRAW: u32 = 0x88E8;

/// The two-dimensional texture target.
pub const TEXTURE_2D: u32 = 0x0DE1;

/// The vertex-shader kind.
pub const VERTEX_SHADER: u32 = 0x8B31;

/// The fragment-shader kind.
pub const FRAGMENT_SHADER: u32 = 0x8B30;

/// The triangle-list drawing mode.
pub const TRIANGLES: u32 = 0x0004;

/// The horizontal texture-wrap parameter.
pub const TEXTURE_WRAP_S: u32 = 0x2802;

/// The vertical texture-wrap parameter.
pub const TEXTURE_WRAP_T: u32 = 0x2803;

/// The minification-filter parameter.
pub const TEXTURE_MIN_FILTER: u32 = 0x2801;

/// The magnification-filter parameter.
pub const TEXTURE_MAG_FILTER: u32 = 0x2800;

/// The repeating wrap mode.
pub const REPEAT: u32 = 0x2901;

/// The linear filter.
pub const LINEAR: u32 = 0x2601;

/// The linear filter across mipmap levels.
pub const LINEAR_MIPMAP_LINEAR: u32 = 0x2703;

/// One recorded graphics call, with plain-value arguments.  Scalar data
/// destined for the driver as floating point is carried in fixed-point
/// form; the replaying side rescales it.
#[derive(Debug, PartialEq)]
pub enum Command {
    GenBuffer { id: u32 },
    GenVertexArray { id: u32 },
    GenTexture { id: u32 },
    BindBuffer { target: u32, id: u32 },
    BufferData { target: u32, data: Vec<i64>, usage: u32 },
    BufferSubData { target: u32, data: Vec<i64> },
    BufferIndexData { target: u32, data: Vec<u32>, usage: u32 },
    BindVertexArray { id: u32 },
    EnableVertexAttribArray { location: u32 },
    VertexAttribPointer { location: u32, size: u32, stride: u32, offset: u32 },
    CompileShader { id: u32, kind: u32, path: String },
    LinkProgram { id: u32, shaders: Vec<u32> },
    UseProgram { id: u32 },
    Uniform { program: u32, key: UniformKey, value: Uniform },
    ActiveTexture { unit: u32 },
    BindTexture { target: u32, id: u32 },
    TexParameter { target: u32, pname: u32, param: u32 },
    TexImage2D { id: u32, width: u32, height: u32, data: Vec<u8> },
    GenerateMipmap { target: u32 },
    DrawArrays { mode: u32, count: i32 },
    DrawElements { mode: u32, count: i32 },
}

/// The recording graphics context: the commands so far, the next free
/// handle number, and which shader program is currently in use (zero for
/// none).
pub struct Gl {
    pub commands: Vec<Command>,
    pub next_id: u32,
    pub current_program: u32,
}

impl Gl {
    /// A fresh recorder: no commands, handles starting at one, no
    /// program in use.
    pub fn new() -> (r: Gl)
        ensures
            r.commands@ == Seq::<Command>::empty(),
            r.next_id == 1,
            r.current_program == 0,
    {
        Gl { commands: Vec::new(), next_id: 1, current_program: 0 }
    }

    /// A fresh buffer handle, recorded.
    pub fn gen_buffer(&mut self) -> (id: u32)
        requires
            old(self).next_id < 0xFFFF_FFFFu32,
        ensures
            id == old(self).next_id,
            final(self).next_id == old(self).next_id + 1,
            final(self).commands@ == old(self).commands@.push(Command::GenBuffer { id }),
            final(self).current_program == old(self).current_program,
    {
        let id = self.next_id;
        self.next_id = self.next_id + 1;
        self.commands.push(Command::GenBuffer { id });
        id
    }

    /// A fresh vertex-array handle, recorded.
    pub fn gen_vertex_array(&mut self) -> (id: u32)
        requires
            old(self).next_id < 0xFFFF_FFFFu32,
        ensures
            id == old(self).next_id,
            final(self).next_id == old(self).next_id + 1,
            final(self).commands@ == old(self).commands@.push(Command::GenVertexArray { id }),
            final(self).current_program == old(self).current_program,
    {
        let id = self.next_id;
        self.next_id = self.next_id + 1;
        self.commands.push(Command::GenVertexArray { id });
        id
    }

    /// A fresh texture handle, recorded.
    pub fn gen_texture(&mut self) -> (id: u32)
        requires
            old(self).next_id < 0xFFFF_FFFFu32,
        ensures
            id == old(self).next_id,
            final(self).next_id == old(self).next_id + 1,
            final(self).commands@ == old(self).commands@.push(Command::GenTexture { id }),
            final(self).current_program == old(self).current_program,
    {
        let id = self.next_id;
        self.next_id = self.next_id + 1;
        self.commands.push(Command::GenTexture { id });
        id
    }

    /// A buffer binding, recorded.
    pub fn bind_buffer(&mut self, target: u32, id: u32)
        ensures
            final(self).commands@ == old(self).commands@.push(
                Command::BindBuffer { target, id }),
            final(self).next_id == old(self).next_id,
            final(self).current_program == old(self).current_program,
    {
        self.commands.push(Command::BindBuffer { target, id });
    }

    /// An upload of fixed-point vertex data to the bound buffer, recorded.
    pub fn buffer_data(&mut self, target: u32, data: Vec<i64>, usage: u32)
        ensures
            final(self).commands@ == old(self).commands@.push(
                Command::BufferData { target, data, usage }),
            final(self).next_id == old(self).next_id,
            final(self).current_program == old(self).current_program,
    {
        self.commands.push(Command::BufferData { target, data, usage });
    }

    /// An update of a prefix of the bound buffer's data, recorded.
    pub fn buffer_sub_data(&mut self, target: u32, data: Vec<i64>)
        ensures
            final(self).commands@ == old(self).commands@.push(
                Command::BufferSubData { target, data }),
            final(self).next_id == old(self).next_id,
            final(self).current_program == old(self).current_program,
    {
        self.commands.push(Command::BufferSubData { target, data });
    }

    /// An upload of index data to the bound buffer, recorded.
    pub fn buffer_index_data(&mut self, target: u32, data: Vec<u32>, usage: u32)
        ensures
            final(self).commands@ == old(self).commands@.push(
                Command::BufferIndexData { target, data, usage }),
            final(self).next_id == old(self).next_id,
            final(self).current_program == old(self).current_program,
    {
        self.commands.push(Command::BufferIndexData { target, data, usage });
    }

    /// A vertex-array binding, recorded.
    pub fn bind_vertex_array(&mut self, id: u32)
        ensures
            final(self).commands@ == old(self).commands@.push(
                Command::BindVertexArray { id }),
            final(self).next_id == old(self).next_id,
            final(self).current_program == old(self).current_program,
    {
        self.commands.push(Command::BindVertexArray { id });
    }

    /// An attribute-array activation, recorded.
    pub fn enable_vertex_attrib_array(&mut self, location: u32)
        ensures
            final(self).commands@ == old(self).commands@.push(
                Command::EnableVertexAttribArray { location }),
            final(self).next_id == old(self).next_id,
            final(self).current_program == old(self).current_program,
    {
        self.commands.push(Command::EnableVertexAttribArray { location });
    }

    /// An attribute layout, recorded: where in each vertex's block of
    /// scalars an attribute's values sit.  Sizes, strides and offsets
    /// count scalars; the replaying side turns them into bytes.
    pub fn vertex_attrib_pointer(&mut self, location: u32, size: u32, stride: u32, offset: u32)
        ensures
            final(self).commands@ == old(self).commands@.push(
                Command::VertexAttribPointer { location, size, stride, offset }),
            final(self).next_id == old(self).next_id,
            final(self).current_program == old(self).current_program,
    {
        self.commands.push(Command::VertexAttribPointer { location, size, stride, offset });
    }

    /// A shader compilation from a source file path, recorded under a
    /// fresh handle.  Whether the source compiles is only known when the
    /// recording is replayed.
    pub fn create_shader(&mut self, kind: u32, path: &str) -> (id: u32)
        requires
            old(self).next_id < 0xFFFF_FFFFu32,
        ensures
            id == old(self).next_id,
            final(self).next_id == old(self).next_id + 1,
            final(self).commands@.len() == old(self).commands@.len() + 1,
            final(self).commands@[old(self).commands@.len() as int] matches
                Command::CompileShader { id: cid, kind: ckind, path: cpath }
                && cid == id && ckind == kind && cpath@ == path@,
            final(self).commands@.subrange(0, old(self).commands@.len() as int)
                == old(self).commands@,
            final(self).current_program == old(self).current_program,
    {
        let id = self.next_id;
        self.next_id = self.next_id + 1;
        let owned = path.to_owned();
        let ghost before = self.commands@;
        self.commands.push(Command::CompileShader { id, kind, path: owned });
        proof {
            assert(self.commands@.subrange(0, before.len() as int) =~= before);
        }
        id
    }

    /// A program link over the given shader handles, recorded under a
    /// fresh handle.  Whether the link succeeds is only known when the
    /// recording is replayed.
    pub fn create_program(&mut self, shaders: Vec<u32>) -> (id: u32)
        requires
            old(self).next_id < 0xFFFF_FFFFu32,
        ensures
            id == old(self).next_id,
            final(self).next_id == old(self).next_id + 1,
            final(self).commands@ == old(self).commands@.push(
                Command::LinkProgram { id, shaders }),
            final(self).current_program == old(self).current_program,
    {
        let id = self.next_id;
        self.next_id = self.next_id + 1;
        self.commands.push(Command::LinkProgram { id, shaders });
        id
    }

    /// A program activation: recorded, and tracked as the program in use.
    pub fn use_program(&mut self, id: u32)
        ensures
            final(self).commands@ == old(self).commands@.push(Command::UseProgram { id }),
            final(self).next_id == old(self).next_id,
            final(self).current_program == id,
    {
        self.current_program = id;
        self.commands.push(Command::UseProgram { id });
    }

    /// A uniform assignment, recorded.
    pub fn uniform(&mut self, program: u32, key: UniformKey, value: Uniform)
        ensures
            final(self).commands@ == old(self).commands@.push(
                Command::Uniform { program, key, value }),
            final(self).next_id == old(self).next_id,
            final(self).current_program == old(self).current_program,
    {
        self.commands.push(Command::Uniform { program, key, value });
    }

    /// A texture-unit activation, recorded.
    pub fn active_texture(&mut self, unit: u32)
        ensures
            final(self).commands@ == old(self).commands@.push(
                Command::ActiveTexture { unit }),
            final(self).next_id == old(self).next_id,
            final(self).current_program == old(self).current_program,
    {
        self.commands.push(Command::ActiveTexture { unit });
    }

    /// A texture binding, recorded.
    pub fn bind_texture(&mut self, target: u32, id: u32)
        ensures
            final(self).commands@ == old(self).commands@.push(
                Command::BindTexture { target, id }),
            final(self).next_id == old(self).next_id,
            final(self).current_program == old(self).current_program,
    {
        self.commands.push(Command::BindTexture { target, id });
    }

    /// A texture-parameter assignment, recorded.
    pub fn tex_parameter(&mut self, target: u32, pname: u32, param: u32)
        ensures
            final(self).commands@ == old(self).commands@.push(
                Command::TexParameter { target, pname, param }),
            final(self).next_id == old(self).next_id,
            final(self).current_program == old(self).current_program,
    {
        self.commands.push(Command::TexParameter { target, pname, param });
    }

    /// A mipmap generation for the bound texture, recorded.
    pub fn generate_mipmap(&mut self, target: u32)
        ensures
            final(self).commands@ == old(self).commands@.push(
                Command::GenerateMipmap { target }),
            final(self).next_id == old(self).next_id,
            final(self).current_program == old(self).current_program,
    {
        self.commands.push(Command::GenerateMipmap { target });
    }

    /// An image upload for a texture, recorded.
    pub fn tex_image_2d(&mut self, id: u32, width: u32, height: u32, data: Vec<u8>)
        ensures
            final(self).commands@ == old(self).commands@.push(
                Command::TexImage2D { id, width, height, data }),
            final(self).next_id == old(self).next_id,
            final(self).current_program == old(self).current_program,
    {
        self.commands.push(Command::TexImage2D { id, width, height, data });
    }

    /// An unindexed draw call, recorded.
    pub fn draw_arrays(&mut self, mode: u32, count: i32)
        ensures
            final(self).commands@ == old(self).commands@.push(
                Command::DrawArrays { mode, count }),
            final(self).next_id == old(self).next_id,
            final(self).current_program == old(self).current_program,
    {
        self.commands.push(Command::DrawArrays { mode, count });
    }

    /// An indexed draw call, recorded.
    pub fn draw_elements(&mut self, mode: u32, count: i32)
        ensures
            final(self).commands@ == old(self).commands@.push(
                Command::DrawElements { mode, count }),
            final(self).next_id == old(self).next_id,
            final(self).current_program == old(self).current_program,
    {
        self.commands.push(Command::DrawElements { mode, count });
    }
}

} // verus!
