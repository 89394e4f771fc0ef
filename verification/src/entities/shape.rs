//! The demo's shapes: cubes, a ground quad's cousin the parallelogram
//! triangle, and a movable vertical line, each recording its own upload.

use vstd::prelude::*;
use crate::gl::{Gl, Command, ARRAY_BUFFER, STATIC_DRAW, DYNAMIC_DRAW};
use crate::fixed::SCALE;
use crate::entities::vertex::{VertexAttribPointer, Bald, Chromatic, Textured, flatten};
use crate::entities::data::{load_render_data_raw, load_render_data_indexed};

verus! {

/// A drawable shape: its vertex-array and buffer handles.
#[derive(Clone, Copy, Debug)]
pub struct Shape {
    pub vao: u32,
    pub vbo: u32,
}

/// The vertex and optional index data a shape is built from.
pub struct ShapeOptions<T> {
    pub vertices: Vec<T>,
    pub indices: Option<Vec<u32>>,
}

impl<T: VertexAttribPointer> ShapeOptions<T> {
    /// Options holding the given vertices, unindexed.
    pub fn new(vertices: Vec<T>) -> (r: Self)
        ensures
            r.vertices@ == vertices@,
            r.indices matches Option::None,
    {
        ShapeOptions { vertices, indices: Option::None }
    }

    /// The same options with index data.
    pub fn indices(&mut self, vertices: Vec<u32>)
        ensures
            final(self).vertices@ == old(self).vertices@,
            final(self).indices matches Some(v) && v@ == vertices@,
    {
        self.indices = Some(vertices);
    }

    /// Record the upload and hand back the shape.
    pub fn build(self, gl: &mut Gl) -> (r: Shape)
        requires
            old(gl).next_id + 3 <= 0xFFFF_FFFFu32,
        ensures
            r.vao == old(gl).next_id + 1,
            r.vbo == old(gl).next_id,
            final(gl).current_program == old(gl).current_program,
            final(gl).commands@.subrange(0, old(gl).commands@.len() as int)
                == old(gl).commands@,
    {
        match self.indices {
            Some(ind) => {
                let (vao, vbo, _ebo) =
                    load_render_data_indexed(gl, self.vertices.as_slice(), &ind, STATIC_DRAW);
                Shape { vao, vbo }
            }
            Option::None => {
                let (vao, vbo) =
                    load_render_data_raw(gl, self.vertices.as_slice(), STATIC_DRAW);
                Shape { vao, vbo }
            }
        }
    }
}

impl Shape {
    /// Bind the shape's vertex array.
    pub fn bind(&self, gl: &mut Gl)
        ensures
            final(gl).commands@ == old(gl).commands@.push(
                Command::BindVertexArray { id: self.vao }),
            final(gl).next_id == old(gl).next_id,
            final(gl).current_program == old(gl).current_program,
    {
        gl.bind_vertex_array(self.vao);
    }

    /// Unbind whatever vertex array is bound.
    pub fn unbind(&self, gl: &mut Gl)
        ensures
            final(gl).commands@ == old(gl).commands@.push(
                Command::BindVertexArray { id: 0 }),
            final(gl).next_id == old(gl).next_id,
            final(gl).current_program == old(gl).current_program,
    {
        gl.bind_vertex_array(0);
    }
}

/// The index pattern drawing a cube from its eight corners.
pub fn cube_indices() -> (r: Vec<u32>)
    ensures
        r@.len() == 36,
{
    let r: Vec<u32> = vec![
        0, 1, 2, 0, 3, 2,
        4, 5, 6, 4, 6, 7,
        1, 5, 6, 1, 6, 2,
        0, 4, 7, 0, 7, 3,
        0, 1, 5, 0, 5, 4,
        3, 2, 6, 3, 6, 7,
    ];
    r
}

/// A textured cube from eight corners and the cube index pattern; with
/// so few corners the texture wraps poorly on its top and bottom.
pub fn textured_cube(gl: &mut Gl) -> (r: Shape)
    requires
        old(gl).next_id + 3 <= 0xFFFF_FFFFu32,
    ensures
        r.vao == old(gl).next_id + 1,
        r.vbo == old(gl).next_id,
        final(gl).current_program == old(gl).current_program,
        final(gl).commands@.subrange(0, old(gl).commands@.len() as int)
            == old(gl).commands@,
{
    let data: Vec<Textured> = vec![
        Textured {
            position: [-500000, -500000, 500000],
            color: [0, 0, 0],
            texture_position: [0, 0],
        },
        Textured {
            position: [-500000, 500000, 500000],
            color: [0, 0, 0],
            texture_position: [0, 2000000],
        },
        Textured {
            position: [500000, 500000, 500000],
            color: [0, 0, 0],
            texture_position: [2000000, 2000000],
        },
        Textured {
            position: [500000, -500000, 500000],
            color: [0, 0, 0],
            texture_position: [2000000, 0],
        },
        Textured {
            position: [-500000, -500000, -500000],
            color: [0, 0, 0],
            texture_position: [2000000, 0],
        },
        Textured {
            position: [-500000, 500000, -500000],
            color: [0, 0, 0],
            texture_position: [2000000, 2000000],
        },
        Textured {
            position: [500000, 500000, -500000],
            color: [0, 0, 0],
            texture_position: [0, 2000000],
        },
        Textured {
            position: [500000, -500000, -500000],
            color: [0, 0, 0],
            texture_position: [0, 0],
        },
    ];
    let mut opts = ShapeOptions::new(data);
    opts.indices(cube_indices());
    opts.build(gl)
}

/// A bare cube from eight corners and the cube index pattern.
pub fn bald_cube(gl: &mut Gl) -> (r: Shape)
    requires
        old(gl).next_id + 3 <= 0xFFFF_FFFFu32,
    ensures
        r.vao == old(gl).next_id + 1,
        r.vbo == old(gl).next_id,
        final(gl).current_program == old(gl).current_program,
        final(gl).commands@.subrange(0, old(gl).commands@.len() as int)
            == old(gl).commands@,
{
    let data: Vec<Bald> = vec![
        Bald { position: [-500000, -500000, 500000] },
        Bald { position: [-500000, 500000, 500000] },
        Bald { position: [500000, 500000, 500000] },
        Bald { position: [500000, -500000, 500000] },
        Bald { position: [-500000, -500000, -500000] },
        Bald { position: [-500000, 500000, -500000] },
        Bald { position: [500000, 500000, -500000] },
        Bald { position: [500000, -500000, -500000] },
    ];
    let mut opts = ShapeOptions::new(data);
    opts.indices(cube_indices());
    opts.build(gl)
}

/// A cube of thirty-six vertices carrying face normals in the color
/// slot, unindexed.
pub fn normalized_cube(gl: &mut Gl) -> (r: Shape)
    requires
        old(gl).next_id + 3 <= 0xFFFF_FFFFu32,
    ensures
        r.vao == old(gl).next_id + 1,
        r.vbo == old(gl).next_id,
        final(gl).current_program == old(gl).current_program,
        final(gl).commands@.subrange(0, old(gl).commands@.len() as int)
            == old(gl).commands@,
{
    let data: Vec<Textured> = vec![
        Textured {
            position: [-500000, -500000, -500000],
            color: [0, 0, -1000000],
            texture_position: [0, 0],
        },
        Textured {
            position: [500000, -500000, -500000],
            color: [0, 0, -1000000],
            texture_position: [0, 1000000],
        },
        Textured {
            position: [500000, 500000, -500000],
            color: [0, 0, -1000000],
            texture_position: [1000000, 1000000],
        },
        Textured {
            position: [500000, 500000, -500000],
            color: [0, 0, -1000000],
            texture_position: [1000000, 1000000],
        },
        Textured {
            position: [-500000, 500000, -500000],
            color: [0, 0, -1000000],
            texture_position: [1000000, 0],
        },
        Textured {
            position: [-500000, -500000, -500000],
            color: [0, 0, -1000000],
            texture_position: [0, 0],
        },
        Textured {
            position: [-500000, -500000, 500000],
            color: [0, 0, 1000000],
            texture_position: [0, 0],
        },
        Textured {
            position: [500000, -500000, 500000],
            color: [0, 0, 1000000],
            texture_position: [0, 1000000],
        },
        Textured {
            position: [500000, 500000, 500000],
            color: [0, 0, 1000000],
            texture_position: [1000000, 1000000],
        },
        Textured {
            position: [500000, 500000, 500000],
            color: [0, 0, 1000000],
            texture_position: [1000000, 1000000],
        },
        Textured {
            position: [-500000, 500000, 500000],
            color: [0, 0, 1000000],
            texture_position: [1000000, 0],
        },
        Textured {
            position: [-500000, -500000, 500000],
            color: [0, 0, 1000000],
            texture_position: [0, 0],
        },
        Textured {
            position: [-500000, 500000, 500000],
            color: [-1000000, 0, 0],
            texture_position: [0, 0],
        },
        Textured {
            position: [-500000, 500000, -500000],
            color: [-1000000, 0, 0],
            texture_position: [0, 1000000],
        },
        Textured {
            position: [-500000, -500000, -500000],
            color: [-1000000, 0, 0],
            texture_position: [1000000, 1000000],
        },
        Textured {
            position: [-500000, -500000, -500000],
            color: [-1000000, 0, 0],
            texture_position: [1000000, 1000000],
        },
        Textured {
            position: [-500000, -500000, 500000],
            color: [-1000000, 0, 0],
            texture_position: [1000000, 0],
        },
        Textured {
            position: [-500000, 500000, 500000],
            color: [-1000000, 0, 0],
            texture_position: [0, 0],
        },
        Textured {
            position: [500000, 500000, 500000],
            color: [1000000, 0, 0],
            texture_position: [0, 0],
        },
        Textured {
            position: [500000, 500000, -500000],
            color: [1000000, 0, 0],
            texture_position: [0, 1000000],
        },
        Textured {
            position: [500000, -500000, -500000],
            color: [1000000, 0, 0],
            texture_position: [1000000, 1000000],
        },
        Textured {
            position: [500000, -500000, -500000],
            color: [1000000, 0, 0],
            texture_position: [1000000, 1000000],
        },
        Textured {
            position: [500000, -500000, 500000],
            color: [1000000, 0, 0],
            texture_position: [1000000, 0],
        },
        Textured {
            position: [500000, 500000, 500000],
            color: [1000000, 0, 0],
            texture_position: [0, 0],
        },
        Textured {
            position: [-500000, -500000, -500000],
            color: [0, -1000000, 0],
            texture_position: [0, 0],
        },
        Textured {
            position: [500000, -500000, -500000],
            color: [0, -1000000, 0],
            texture_position: [0, 1000000],
        },
        Textured {
            position: [500000, -500000, 500000],
            color: [0, -1000000, 0],
            texture_position: [1000000, 1000000],
        },
        Textured {
            position: [500000, -500000, 500000],
            color: [0, -1000000, 0],
            texture_position: [1000000, 1000000],
        },
        Textured {
            position: [-500000, -500000, 500000],
            color: [0, -1000000, 0],
            texture_position: [1000000, 0],
        },
        Textured {
            position: [-500000, -500000, -500000],
            color: [0, -1000000, 0],
            texture_position: [0, 0],
        },
        Textured {
            position: [-500000, 500000, -500000],
            color: [0, 1000000, 0],
            texture_position: [0, 0],
        },
        Textured {
            position: [500000, 500000, -500000],
            color: [0, 1000000, 0],
            texture_position: [0, 1000000],
        },
        Textured {
            position: [500000, 500000, 500000],
            color: [0, 1000000, 0],
            texture_position: [1000000, 1000000],
        },
        Textured {
            position: [500000, 500000, 500000],
            color: [0, 1000000, 0],
            texture_position: [1000000, 1000000],
        },
        Textured {
            position: [-500000, 500000, 500000],
            color: [0, 1000000, 0],
            texture_position: [1000000, 0],
        },
        Textured {
            position: [-500000, 500000, -500000],
            color: [0, 1000000, 0],
            texture_position: [0, 0],
        },
    ];
    let opts = ShapeOptions::new(data);
    opts.build(gl)
}

/// A colored triangle, uploaded eagerly.
#[derive(Clone, Copy, Debug)]
pub struct Triangle {
    pub vao: u32,
    pub vbo: u32,
}

impl Triangle {
    /// The demo triangle: three corners, one color channel each.
    pub fn new(gl: &mut Gl) -> (r: Triangle)
        requires
            old(gl).next_id + 2 <= 0xFFFF_FFFFu32,
        ensures
            r.vao == old(gl).next_id + 1,
            r.vbo == old(gl).next_id,
            final(gl).current_program == old(gl).current_program,
            final(gl).commands@.subrange(0, old(gl).commands@.len() as int)
                == old(gl).commands@,
    {
        let h: i64 = 500_000;
        let nh: i64 = -500_000;
        let vertices: Vec<Chromatic> = vec![
            Chromatic { position: [nh, nh, 0], color: [SCALE, 0, 0] },
            Chromatic { position: [0, h, 0], color: [0, SCALE, 0] },
            Chromatic { position: [h, nh, 0], color: [0, 0, SCALE] },
        ];
        let (vao, vbo) = load_render_data_raw(gl, vertices.as_slice(), STATIC_DRAW);
        Triangle { vao, vbo }
    }

    /// Bind the triangle's vertex array.
    pub fn bind(&self, gl: &mut Gl)
        ensures
            final(gl).commands@ == old(gl).commands@.push(
                Command::BindVertexArray { id: self.vao }),
            final(gl).next_id == old(gl).next_id,
            final(gl).current_program == old(gl).current_program,
    {
        gl.bind_vertex_array(self.vao);
    }

    /// Unbind whatever vertex array is bound.
    pub fn unbind(&self, gl: &mut Gl)
        ensures
            final(gl).commands@ == old(gl).commands@.push(
                Command::BindVertexArray { id: 0 }),
            final(gl).next_id == old(gl).next_id,
            final(gl).current_program == old(gl).current_program,
    {
        gl.bind_vertex_array(0);
    }
}

/// A vertical line at a movable horizontal position.
#[derive(Clone, Copy, Debug)]
pub struct VertLine {
    pub x: i64,
    pub vao: u32,
    pub vbo: u32,
}

impl VertLine {
    /// A line at the left edge, uploaded for dynamic redrawing.
    pub fn new(gl: &mut Gl) -> (r: VertLine)
        requires
            old(gl).next_id + 2 <= 0xFFFF_FFFFu32,
        ensures
            r.vao == old(gl).next_id + 1,
            r.vbo == old(gl).next_id,
            r.x == -(SCALE as int),
            final(gl).current_program == old(gl).current_program,
            final(gl).commands@.subrange(0, old(gl).commands@.len() as int)
                == old(gl).commands@,
    {
        let ns: i64 = -SCALE;
        let vertices: Vec<Bald> = vec![
            Bald { position: [ns, SCALE, 0] },
            Bald { position: [ns, ns, 0] },
        ];
        let (vao, vbo) = load_render_data_raw(gl, vertices.as_slice(), DYNAMIC_DRAW);
        VertLine { x: ns, vao, vbo }
    }

    /// Re-upload the line at its current horizontal position.
    pub fn update(&self, gl: &mut Gl)
        requires
            -(SCALE as int) <= self.x <= SCALE as int,
        ensures
            final(gl).commands@.len() == old(gl).commands@.len() + 3,
            final(gl).commands@.subrange(0, old(gl).commands@.len() as int)
                == old(gl).commands@,
            final(gl).next_id == old(gl).next_id,
            final(gl).current_program == old(gl).current_program,
    {
        let ghost before = gl.commands@;
        let ns: i64 = -SCALE;
        let vertices: Vec<Bald> = vec![
            Bald { position: [self.x, SCALE, 0] },
            Bald { position: [self.x, ns, 0] },
        ];
        gl.bind_buffer(ARRAY_BUFFER, self.vbo);
        gl.buffer_data(ARRAY_BUFFER, flatten(vertices.as_slice()), DYNAMIC_DRAW);
        gl.bind_buffer(ARRAY_BUFFER, 0);
        proof {
            assert(gl.commands@.subrange(0, before.len() as int) =~= before);
        }
    }

    /// Bind the line's vertex array.
    pub fn bind(&self, gl: &mut Gl)
        ensures
            final(gl).commands@ == old(gl).commands@.push(
                Command::BindVertexArray { id: self.vao }),
            final(gl).next_id == old(gl).next_id,
            final(gl).current_program == old(gl).current_program,
    {
        gl.bind_vertex_array(self.vao);
    }

    /// Unbind whatever vertex array is bound.
    pub fn unbind(&self, gl: &mut Gl)
        ensures
            final(gl).commands@ == old(gl).commands@.push(
                Command::BindVertexArray { id: 0 }),
            final(gl).next_id == old(gl).next_id,
            final(gl).current_program == old(gl).current_program,
    {
        gl.bind_vertex_array(0);
    }
}

impl Shape {
    /// A textured parallelogram from four corners and two triangles of
    /// indices.
    pub fn parallelogram(gl: &mut Gl) -> (r: Shape)
        requires
            old(gl).next_id + 3 <= 0xFFFF_FFFFu32,
        ensures
            r.vao == old(gl).next_id + 1,
            r.vbo == old(gl).next_id,
            final(gl).current_program == old(gl).current_program,
            final(gl).commands@.subrange(0, old(gl).commands@.len() as int)
                == old(gl).commands@,
    {
        let h: i64 = 500_000;
        let nh: i64 = -500_000;
        let t: i64 = 2_000_000;
        let data: Vec<Textured> = vec![
            Textured { position: [nh, nh, 0], color: [0, 0, 0], texture_position: [0, 0] },
            Textured { position: [nh, h, 0], color: [0, 0, 0], texture_position: [0, t] },
            Textured { position: [h, h, 0], color: [0, 0, 0], texture_position: [t, t] },
            Textured { position: [h, nh, 0], color: [0, 0, 0], texture_position: [t, 0] },
        ];
        let indices: Vec<u32> = vec![0, 1, 2, 0, 3, 2];
        let (vao, vbo, _ebo) =
            load_render_data_indexed(gl, data.as_slice(), &indices, STATIC_DRAW);
        Shape { vao, vbo }
    }

    /// A textured triangle from three corners, unindexed.
    pub fn triangle(gl: &mut Gl) -> (r: Shape)
        requires
            old(gl).next_id + 2 <= 0xFFFF_FFFFu32,
        ensures
            r.vao == old(gl).next_id + 1,
            r.vbo == old(gl).next_id,
            final(gl).current_program == old(gl).current_program,
            final(gl).commands@.subrange(0, old(gl).commands@.len() as int)
                == old(gl).commands@,
    {
        let h: i64 = 500_000;
        let nh: i64 = -500_000;
        let vertices: Vec<Textured> = vec![
            Textured { position: [nh, nh, 0], color: [0, 0, 0], texture_position: [0, 0] },
            Textured { position: [0, h, 0], color: [0, 0, 0], texture_position: [h, SCALE] },
            Textured { position: [h, nh, 0], color: [0, 0, 0], texture_position: [SCALE, 0] },
        ];
        let (vao, vbo) = load_render_data_raw(gl, vertices.as_slice(), STATIC_DRAW);
        Shape { vao, vbo }
    }
}

} // verus!
