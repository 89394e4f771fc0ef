//! Buffer and vertex-array objects over the recording context.
//!
//! A buffer or vertex array is a handle drawn from the recorder's
//! counter; every operation's contract states exactly which commands it
//! appends.  The buffer's binding target is chosen by a marker type, and
//! its usage hint by a const parameter, as the draw-time constants of the
//! graphics API.

use vstd::prelude::*;
use core::marker::PhantomData;
use crate::gl::{Gl, Command, ARRAY_BUFFER, ELEMENT_ARRAY_BUFFER};

verus! {

/// A marker choosing a buffer's binding target.
pub trait BufferType {
    spec fn spec_target() -> u32;

    fn buffer_type() -> (r: u32)
        ensures
            r == Self::spec_target(),
    ;
}

/// The marker for plain vertex-data buffers.
pub struct BufferTypeArray;

impl BufferType for BufferTypeArray {
    open spec fn spec_target() -> u32 {
        ARRAY_BUFFER
    }

    fn buffer_type() -> (r: u32) {
        ARRAY_BUFFER
    }
}

/// The marker for index buffers.
pub struct BufferTypeElementArray;

impl BufferType for BufferTypeElementArray {
    open spec fn spec_target() -> u32 {
        ELEMENT_ARRAY_BUFFER
    }

    fn buffer_type() -> (r: u32) {
        ELEMENT_ARRAY_BUFFER
    }
}

/// A buffer of fixed-point vertex data with binding target `B` and usage
/// hint `DRAW`.
pub struct Buffer<B: BufferType, const DRAW: u32> {
    pub vbo: u32,
    pub _marker: PhantomData<B>,
}

/// A vertex-data buffer.
pub type Array<const DRAW: u32> = Buffer<BufferTypeArray, DRAW>;

/// An index buffer.
pub type ElementArray<const DRAW: u32> = Buffer<BufferTypeElementArray, DRAW>;

impl<B: BufferType, const DRAW: u32> Buffer<B, DRAW> {
    /// A fresh buffer handle.
    pub fn new(gl: &mut Gl) -> (r: Self)
        requires
            old(gl).next_id < 0xFFFF_FFFFu32,
        ensures
            r.vbo == old(gl).next_id,
            final(gl).next_id == old(gl).next_id + 1,
            final(gl).commands@ == old(gl).commands@.push(Command::GenBuffer { id: r.vbo }),
            final(gl).current_program == old(gl).current_program,
    {
        let vbo = gl.gen_buffer();
        Buffer { vbo, _marker: PhantomData }
    }

    /// Bind this buffer to its target.
    pub fn bind(&self, gl: &mut Gl)
        ensures
            final(gl).commands@ == old(gl).commands@.push(
                Command::BindBuffer { target: B::spec_target(), id: self.vbo }),
            final(gl).next_id == old(gl).next_id,
            final(gl).current_program == old(gl).current_program,
    {
        gl.bind_buffer(B::buffer_type(), self.vbo);
    }

    /// Unbind whatever buffer is bound to this buffer's target.
    pub fn unbind(&self, gl: &mut Gl)
        ensures
            final(gl).commands@ == old(gl).commands@.push(
                Command::BindBuffer { target: B::spec_target(), id: 0 }),
            final(gl).next_id == old(gl).next_id,
            final(gl).current_program == old(gl).current_program,
    {
        gl.bind_buffer(B::buffer_type(), 0);
    }

    /// Replace a prefix of the bound buffer's data.
    pub fn subdata(&self, gl: &mut Gl, data: Vec<i64>)
        ensures
            final(gl).commands@ == old(gl).commands@.push(
                Command::BufferSubData { target: B::spec_target(), data }),
            final(gl).next_id == old(gl).next_id,
            final(gl).current_program == old(gl).current_program,
    {
        gl.buffer_sub_data(B::buffer_type(), data);
    }

    /// Upload data to the bound buffer under this buffer's usage hint.
    pub fn static_draw_data(&self, gl: &mut Gl, data: Vec<i64>)
        ensures
            final(gl).commands@ == old(gl).commands@.push(
                Command::BufferData { target: B::spec_target(), data, usage: DRAW }),
            final(gl).next_id == old(gl).next_id,
            final(gl).current_program == old(gl).current_program,
    {
        gl.buffer_data(B::buffer_type(), data, DRAW);
    }

    /// Bind, upload, unbind: the whole write in one call.
    pub fn write(&self, gl: &mut Gl, data: Vec<i64>)
        ensures
            final(gl).commands@ == old(gl).commands@
                .push(Command::BindBuffer { target: B::spec_target(), id: self.vbo })
                .push(Command::BufferData { target: B::spec_target(), data, usage: DRAW })
                .push(Command::BindBuffer { target: B::spec_target(), id: 0 }),
            final(gl).next_id == old(gl).next_id,
            final(gl).current_program == old(gl).current_program,
    {
        self.bind(gl);
        self.static_draw_data(gl, data);
        self.unbind(gl);
    }
}

/// A vertex-array object: the handle that remembers how buffer data is
/// fed to a shader.
pub struct VertexArray {
    pub vao: u32,
}

impl VertexArray {
    /// A fresh vertex-array handle.
    pub fn new(gl: &mut Gl) -> (r: Self)
        requires
            old(gl).next_id < 0xFFFF_FFFFu32,
        ensures
            r.vao == old(gl).next_id,
            final(gl).next_id == old(gl).next_id + 1,
            final(gl).commands@ == old(gl).commands@.push(
                Command::GenVertexArray { id: r.vao }),
            final(gl).current_program == old(gl).current_program,
    {
        let vao = gl.gen_vertex_array();
        VertexArray { vao }
    }

    /// Bind this vertex array.
    pub fn bind(&self, gl: &mut Gl)
        ensures
            final(gl).commands@ == old(gl).commands@.push(
                Command::BindVertexArray { id: self.vao }),
            final(gl).next_id == old(gl).next_id,
            final(gl).current_program == old(gl).current_program,
    {
        gl.bind_vertex_array(self.vao);
    }

    /// Unbind whatever vertex array is bound.
    pub fn unbind(&self, gl: &mut Gl)
        ensures
            final(gl).commands@ == old(gl).commands@.push(
                Command::BindVertexArray { id: 0 }),
            final(gl).next_id == old(gl).next_id,
            final(gl).current_program == old(gl).current_program,
    {
        gl.bind_vertex_array(0);
    }

    /// Bind this vertex array together with an index buffer.
    pub fn bind_with<const DRAW: u32>(&self, gl: &mut Gl, ebo: &ElementArray<DRAW>)
        ensures
            final(gl).commands@ == old(gl).commands@
                .push(Command::BindVertexArray { id: self.vao })
                .push(Command::BindBuffer {
                    target: ELEMENT_ARRAY_BUFFER, id: ebo.vbo,
                }),
            final(gl).next_id == old(gl).next_id,
            final(gl).current_program == old(gl).current_program,
    {
        self.bind(gl);
        ebo.bind(gl);
    }
}

} // verus!
