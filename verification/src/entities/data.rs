//! Uploading vertex data: the buffer, array and attribute commands that
//! make a block of vertices drawable.

use vstd::prelude::*;
use crate::gl::{Gl, Command, ARRAY_BUFFER, ELEMENT_ARRAY_BUFFER};
use crate::entities::vertex::{VertexAttribPointer, flatten, flat_spec};

verus! {

/// Record the upload of a block of vertices: a fresh buffer and vertex
/// array, the data, and the vertex type's attribute layout; both are
/// unbound again at the end.  Hands back the vertex-array and buffer
/// handles, in that order.
pub fn load_render_data_raw<T: VertexAttribPointer>(gl: &mut Gl, data: &[T], draw: u32)
    -> (r: (u32, u32))
    requires
        old(gl).next_id + 2 <= 0xFFFF_FFFFu32,
    ensures
        r.0 == old(gl).next_id + 1,
        r.1 == old(gl).next_id,
        final(gl).next_id == old(gl).next_id + 2,
        final(gl).current_program == old(gl).current_program,
        final(gl).commands@.len() >= old(gl).commands@.len() + 7,
        final(gl).commands@.subrange(0, old(gl).commands@.len() as int)
            == old(gl).commands@,
        final(gl).commands@[final(gl).commands@.len() - 2]
            == (Command::BindBuffer { target: ARRAY_BUFFER, id: 0 }),
        final(gl).commands@[final(gl).commands@.len() - 1]
            == (Command::BindVertexArray { id: 0 }),
        final(gl).commands@[old(gl).commands@.len() as int + 4] matches
            Command::BufferData { target, data: d, usage }
            && target == ARRAY_BUFFER && d@ == flat_spec(data@) && usage == draw,
{
    let ghost before = gl.commands@;
    let vbo = gl.gen_buffer();
    let vao = gl.gen_vertex_array();
    gl.bind_vertex_array(vao);
    gl.bind_buffer(ARRAY_BUFFER, vbo);
    gl.buffer_data(ARRAY_BUFFER, flatten(data), draw);
    let ghost mid = gl.commands@;
    T::vertex_attrib_pointer(gl);
    let ghost post = gl.commands@;
    gl.bind_buffer(ARRAY_BUFFER, 0);
    gl.bind_vertex_array(0);
    proof {
        assert forall|i: int| 0 <= i < before.len() implies
            #[trigger] gl.commands@[i] == before[i] by {
            assert(gl.commands@[i] == post[i]);
            assert(post.subrange(0, mid.len() as int) == mid);
            assert(post.subrange(0, mid.len() as int)[i] == post[i]);
            assert(mid[i] == before[i]);
        }
        assert(gl.commands@.subrange(0, before.len() as int) =~= before);
        assert(gl.commands@[before.len() as int + 4] == post[before.len() as int + 4]);
        assert(post.subrange(0, mid.len() as int)[before.len() as int + 4]
            == post[before.len() as int + 4]);
    }
    (vao, vbo)
}

/// Record the upload of an indexed block of vertices: like the raw
/// upload, with an index buffer bound and filled before the attribute
/// layout.  Hands back the vertex-array, buffer and index-buffer
/// handles, in that order.
pub fn load_render_data_indexed<T: VertexAttribPointer>(
    gl: &mut Gl,
    data: &[T],
    indices: &Vec<u32>,
    draw: u32,
) -> (r: (u32, u32, u32))
    requires
        old(gl).next_id + 3 <= 0xFFFF_FFFFu32,
    ensures
        r.0 == old(gl).next_id + 1,
        r.1 == old(gl).next_id,
        r.2 == old(gl).next_id + 2,
        final(gl).next_id == old(gl).next_id + 3,
        final(gl).current_program == old(gl).current_program,
        final(gl).commands@.len() >= old(gl).commands@.len() + 10,
        final(gl).commands@.subrange(0, old(gl).commands@.len() as int)
            == old(gl).commands@,
        final(gl).commands@[final(gl).commands@.len() - 2]
            == (Command::BindBuffer { target: ARRAY_BUFFER, id: 0 }),
        final(gl).commands@[final(gl).commands@.len() - 1]
            == (Command::BindVertexArray { id: 0 }),
        final(gl).commands@[old(gl).commands@.len() as int + 5] matches
            Command::BufferData { target, data: d, usage }
            && target == ARRAY_BUFFER && d@ == flat_spec(data@) && usage == draw,
        final(gl).commands@[old(gl).commands@.len() as int + 7] matches
            Command::BufferIndexData { target, data: d, usage }
            && target == ELEMENT_ARRAY_BUFFER && d@ == indices@ && usage == draw,
{
    let ghost before = gl.commands@;
    let vbo = gl.gen_buffer();
    let vao = gl.gen_vertex_array();
    // The index buffer's handle comes from the vertex-array counter;
    // it stays alive inside the vertex array and is never freed alone.
    let ebo = gl.gen_vertex_array();
    gl.bind_vertex_array(vao);
    gl.bind_buffer(ARRAY_BUFFER, vbo);
    gl.buffer_data(ARRAY_BUFFER, flatten(data), draw);
    gl.bind_buffer(ELEMENT_ARRAY_BUFFER, ebo);
    gl.buffer_index_data(ELEMENT_ARRAY_BUFFER, indices.clone(), draw);
    let ghost mid = gl.commands@;
    T::vertex_attrib_pointer(gl);
    let ghost post = gl.commands@;
    gl.bind_buffer(ARRAY_BUFFER, 0);
    gl.bind_vertex_array(0);
    proof {
        assert forall|i: int| 0 <= i < before.len() implies
            #[trigger] gl.commands@[i] == before[i] by {
            assert(gl.commands@[i] == post[i]);
            assert(post.subrange(0, mid.len() as int) == mid);
            assert(post.subrange(0, mid.len() as int)[i] == post[i]);
            assert(mid[i] == before[i]);
        }
        assert(gl.commands@.subrange(0, before.len() as int) =~= before);
        assert(gl.commands@[before.len() as int + 5] == post[before.len() as int + 5]);
        assert(post.subrange(0, mid.len() as int)[before.len() as int + 5]
            == post[before.len() as int + 5]);
        assert(gl.commands@[before.len() as int + 7] == post[before.len() as int + 7]);
        assert(post.subrange(0, mid.len() as int)[before.len() as int + 7]
            == post[before.len() as int + 7]);
    }
    (vao, vbo, ebo)
}

} // verus!
