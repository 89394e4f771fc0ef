//! Vertex layouts: what scalars a vertex carries and how a shader reads
//! them from the uploaded block.

use vstd::prelude::*;
use crate::gl::Gl;

verus! {

/// A vertex layout: how many scalars one vertex occupies, how to flatten
/// a vertex into them, and which attribute-pointer commands describe
/// them to a shader.
pub trait VertexAttribPointer {
    /// How many scalars one vertex occupies.
    spec fn spec_stride() -> nat;

    /// The vertex's scalars, in upload order, as a specification value.
    spec fn spec_components(self) -> Seq<i64>;

    /// The vertex's scalars, in upload order.
    fn components(&self) -> (r: Vec<i64>)
        ensures
            r@ == self.spec_components(),
            r@.len() == Self::spec_stride(),
    ;

    /// Record the attribute layout for this vertex type.
    fn vertex_attrib_pointer(gl: &mut Gl)
        ensures
            final(gl).next_id == old(gl).next_id,
            final(gl).current_program == old(gl).current_program,
            final(gl).commands@.len() >= old(gl).commands@.len(),
            final(gl).commands@.subrange(0, old(gl).commands@.len() as int)
                == old(gl).commands@,
    ;
}

/// A bare vertex: a position and nothing else.
#[derive(Clone, Copy, Debug)]
pub struct Bald {
    pub position: [i64; 3],
}

impl VertexAttribPointer for Bald {
    open spec fn spec_stride() -> nat {
        3
    }

    open spec fn spec_components(self) -> Seq<i64> {
        seq![self.position[0], self.position[1], self.position[2]]
    }

    fn components(&self) -> (r: Vec<i64>) {
        let r: Vec<i64> = vec![self.position[0], self.position[1], self.position[2]];
        r
    }

    fn vertex_attrib_pointer(gl: &mut Gl) {
        let ghost before = gl.commands@;
        gl.enable_vertex_attrib_array(0);
        gl.vertex_attrib_pointer(0, 3, 3, 0);
        proof {
            assert(gl.commands@.subrange(0, before.len() as int) =~= before);
        }
    }
}

/// A colored vertex: a position and a color.
#[derive(Clone, Copy, Debug)]
pub struct Chromatic {
    pub position: [i64; 3],
    pub color: [i64; 3],
}

impl VertexAttribPointer for Chromatic {
    open spec fn spec_stride() -> nat {
        6
    }

    open spec fn spec_components(self) -> Seq<i64> {
        seq![
            self.position[0], self.position[1], self.position[2],
            self.color[0], self.color[1], self.color[2],
        ]
    }

    fn components(&self) -> (r: Vec<i64>) {
        let r: Vec<i64> = vec![
            self.position[0], self.position[1], self.position[2],
            self.color[0], self.color[1], self.color[2],
        ];
        r
    }

    fn vertex_attrib_pointer(gl: &mut Gl) {
        let ghost before = gl.commands@;
        gl.enable_vertex_attrib_array(0);
        gl.vertex_attrib_pointer(0, 3, 6, 0);
        gl.enable_vertex_attrib_array(1);
        gl.vertex_attrib_pointer(1, 3, 6, 3);
        proof {
            assert(gl.commands@.subrange(0, before.len() as int) =~= before);
        }
    }
}

/// A colored vertex that also samples a texture.
#[derive(Clone, Copy, Debug)]
pub struct Textured {
    pub position: [i64; 3],
    pub color: [i64; 3],
    pub texture_position: [i64; 2],
}

impl VertexAttribPointer for Textured {
    open spec fn spec_stride() -> nat {
        8
    }

    open spec fn spec_components(self) -> Seq<i64> {
        seq![
            self.position[0], self.position[1], self.position[2],
            self.color[0], self.color[1], self.color[2],
            self.texture_position[0], self.texture_position[1],
        ]
    }

    fn components(&self) -> (r: Vec<i64>) {
        let r: Vec<i64> = vec![
            self.position[0], self.position[1], self.position[2],
            self.color[0], self.color[1], self.color[2],
            self.texture_position[0], self.texture_position[1],
        ];
        r
    }

    fn vertex_attrib_pointer(gl: &mut Gl) {
        let ghost before = gl.commands@;
        gl.enable_vertex_attrib_array(0);
        gl.vertex_attrib_pointer(0, 3, 8, 0);
        gl.enable_vertex_attrib_array(1);
        gl.vertex_attrib_pointer(1, 3, 8, 3);
        gl.enable_vertex_attrib_array(2);
        gl.vertex_attrib_pointer(2, 2, 8, 6);
        proof {
            assert(gl.commands@.subrange(0, before.len() as int) =~= before);
        }
    }
}

/// A normal-carrying vertex reuses the colored layout, its normal in the
/// color slot.
pub type Normalized = Chromatic;

/// The scalars of a sequence of vertices, concatenated in order.
pub open spec fn flat_spec<T: VertexAttribPointer>(data: Seq<T>) -> Seq<i64>
    decreases data.len(),
{
    if data.len() == 0 {
        Seq::empty()
    } else {
        flat_spec(data.drop_last()) + data.last().spec_components()
    }
}

/// All of a slice of vertices flattened into one block of scalars, in
/// order.
pub fn flatten<T: VertexAttribPointer>(data: &[T]) -> (r: Vec<i64>)
    ensures
        r@ == flat_spec(data@),
        r@.len() == data@.len() * T::spec_stride(),
{
    let mut out: Vec<i64> = Vec::new();
    let mut i: usize = 0;
    while i < data.len()
        invariant
            i <= data@.len(),
            out@ == flat_spec(data@.take(i as int)),
            out@.len() == i * T::spec_stride(),
        decreases data@.len() - i,
    {
        let mut piece = data[i].components();
        out.append(&mut piece);
        proof {
            assert(data@.take(i + 1).drop_last() =~= data@.take(i as int));
            assert(data@.take(i + 1).last() == data@[i as int]);
            assert((i + 1) * T::spec_stride() == i * T::spec_stride() + T::spec_stride())
                by (nonlinear_arith);
        }
        i = i + 1;
    }
    proof {
        assert(data@.take(data@.len() as int) =~= data@);
    }
    out
}

} // verus!
