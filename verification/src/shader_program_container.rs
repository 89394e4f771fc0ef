//! The demo's shader programs: where each one's sources live, and the
//! container that builds and seeds them all.
//!
//! Building a program records two compilations and a link; seeding its
//! uniforms goes through the activation discipline of
//! [`crate::render_gl::ProgramCtlMaster`], so the inactive-program error
//! cannot occur here.

use vstd::prelude::*;
use crate::gl::{Gl, Command, VERTEX_SHADER, FRAGMENT_SHADER};
use crate::render_gl::{Program, Shader, Source, ProgramCtlMaster};
use crate::camera::Camera;
use crate::mat4::{Mat4, MAT_LIM, mat_mul, seq_in_range, lemma_mul_entry_bound};
use crate::domain::shader::{SetUniform, Uniform, UniformKey};
use crate::trig::cos_fp;
use crate::fixed::SCALE;
use crate::vec3::{Vec3, in_range};
use crate::Error;

verus! {

/// Where the textured vertex shader's source lives.
pub const VERTEX_TEXTURED_VERT: &'static str = "assets/shaders/vertex_textured.vert";

/// Where the textured fragment shader's source lives.
pub const VERTEX_TEXTURED_FRAG: &'static str = "assets/shaders/vertex_textured.frag";

/// Where the chromatic vertex shader's source lives.
pub const VERTEX_CHROMATIC_VERT: &'static str = "assets/shaders/vertex_chromatic.vert";

/// Where the chromatic fragment shader's source lives.
pub const VERTEX_CHROMATIC_FRAG: &'static str = "assets/shaders/vertex_chromatic.frag";

/// Where the three-dimensional point vertex shader's source lives.
pub const POINT3D_VERT: &'static str = "assets/shaders/point3d.vert";

/// Where the point vertex shader's source lives.
pub const POINT_VERT: &'static str = "assets/shaders/point.vert";

/// Where the point fragment shader's source lives.
pub const POINT_FRAG: &'static str = "assets/shaders/point.frag";

/// Where the light vertex shader's source lives.
pub const LIGHT_VERT: &'static str = "assets/shaders/light.vert";

/// Where the light fragment shader's source lives.
pub const LIGHT_FRAG: &'static str = "assets/shaders/light.frag";

/// What building a program from two source paths appends to a recording:
/// a vertex compilation, a fragment compilation, and a link of the two,
/// under three fresh handles.
pub open spec fn built_program(
    before: Seq<Command>,
    next: int,
    vert: Seq<char>,
    frag: Seq<char>,
    after: Seq<Command>,
) -> bool {
    &&& after.len() == before.len() + 3
    &&& after.subrange(0, before.len() as int) == before
    &&& (after[before.len() as int] matches Command::CompileShader { id, kind, path }
        && id == next && kind == VERTEX_SHADER && path@ == vert)
    &&& (after[before.len() as int + 1] matches Command::CompileShader { id, kind, path }
        && id == next + 1 && kind == FRAGMENT_SHADER && path@ == frag)
    &&& (after[before.len() as int + 2] matches Command::LinkProgram { id, shaders }
        && id == next + 2 && shaders@.len() == 2
        && shaders@[0] == next && shaders@[1] == next + 1)
}

/// Build a program from a vertex and a fragment source path.
pub fn build_shader_program(gl: &mut Gl, vert: &str, frag: &str)
    -> (r: Result<Program, Error>)
    requires
        old(gl).next_id + 3 <= 0xFFFF_FFFFu32,
    ensures
        r matches Ok(p) && p.id == old(gl).next_id + 2,
        final(gl).next_id == old(gl).next_id + 3,
        built_program(old(gl).commands@, old(gl).next_id as int, vert@, frag@,
            final(gl).commands@),
        final(gl).current_program == old(gl).current_program,
{
    let ghost c0 = gl.commands@;
    let vert_shader = match Shader::from_vert_source(gl, Source::Filepath(vert)) {
        Ok(s) => s,
        Err(e) => {
            return Err(e);
        }
    };
    let ghost c1 = gl.commands@;
    let frag_shader = match Shader::from_frag_source(gl, Source::Filepath(frag)) {
        Ok(s) => s,
        Err(e) => {
            return Err(e);
        }
    };
    let ghost c2 = gl.commands@;
    let shaders: Vec<Shader> = vec![vert_shader, frag_shader];
    let r = Program::from_shaders(gl, &shaders);
    proof {
        assert(c1[c0.len() as int] == gl.commands@[c0.len() as int]) by {
            assert(c2.subrange(0, c1.len() as int)[c0.len() as int]
                == c2[c0.len() as int]);
            assert(gl.commands@.subrange(0, c2.len() as int)[c0.len() as int]
                == gl.commands@[c0.len() as int]);
            assert(gl.commands@.subrange(0, c2.len() as int)[c1.len() as int]
                == gl.commands@[c1.len() as int]);
        }
        assert(c2[c1.len() as int] == gl.commands@[c1.len() as int]) by {
            assert(gl.commands@.subrange(0, c2.len() as int)[c1.len() as int]
                == gl.commands@[c1.len() as int]);
        }
        assert(shaders@.map_values(|sh: Shader| sh.id)
            =~= seq![vert_shader.id, frag_shader.id]);
        assert(gl.commands@.subrange(0, c0.len() as int)
            =~= c2.subrange(0, c1.len() as int).subrange(0, c0.len() as int));
    }
    r
}

/// The program if one is already given, a freshly built one otherwise.
pub fn make(gl: &mut Gl, program: Option<Program>, vert: &str, frag: &str)
    -> (r: Result<Program, Error>)
    requires
        old(gl).next_id + 3 <= 0xFFFF_FFFFu32,
    ensures
        program matches Some(p) ==> (r matches Ok(q) && q == p
            && final(gl).commands@ == old(gl).commands@
            && final(gl).next_id == old(gl).next_id
            && final(gl).current_program == old(gl).current_program),
        program matches Option::None ==> (r matches Ok(p)
            && p.id == old(gl).next_id + 2
            && final(gl).next_id == old(gl).next_id + 3
            && built_program(old(gl).commands@, old(gl).next_id as int, vert@, frag@,
                final(gl).commands@)
            && final(gl).current_program == old(gl).current_program),
{
    match program {
        Some(x) => Ok(x),
        Option::None => build_shader_program(gl, vert, frag),
    }
}

/// Knows where each of the demo's shader programs finds its sources.
pub struct ShaderProgramBuilder;

impl ShaderProgramBuilder {
    /// A builder for the demo's programs.
    pub fn new() -> (r: ShaderProgramBuilder)
    {
        ShaderProgramBuilder
    }

    /// The textured vertex program.
    pub fn get_vertex_textured_program(&self, gl: &mut Gl) -> (r: Result<Program, Error>)
        requires
            old(gl).next_id + 3 <= 0xFFFF_FFFFu32,
        ensures
            r matches Ok(p) && p.id == old(gl).next_id + 2,
            final(gl).next_id == old(gl).next_id + 3,
            built_program(old(gl).commands@, old(gl).next_id as int,
                VERTEX_TEXTURED_VERT@, VERTEX_TEXTURED_FRAG@, final(gl).commands@),
            final(gl).current_program == old(gl).current_program,
    {
        make(gl, Option::None, VERTEX_TEXTURED_VERT, VERTEX_TEXTURED_FRAG)
    }

    /// The chromatic vertex program.
    pub fn get_vertex_chromatic_program(&self, gl: &mut Gl) -> (r: Result<Program, Error>)
        requires
            old(gl).next_id + 3 <= 0xFFFF_FFFFu32,
        ensures
            r matches Ok(p) && p.id == old(gl).next_id + 2,
            final(gl).next_id == old(gl).next_id + 3,
            built_program(old(gl).commands@, old(gl).next_id as int,
                VERTEX_CHROMATIC_VERT@, VERTEX_CHROMATIC_FRAG@, final(gl).commands@),
            final(gl).current_program == old(gl).current_program,
    {
        make(gl, Option::None, VERTEX_CHROMATIC_VERT, VERTEX_CHROMATIC_FRAG)
    }

    /// The point program.
    pub fn get_point_program(&self, gl: &mut Gl) -> (r: Result<Program, Error>)
        requires
            old(gl).next_id + 3 <= 0xFFFF_FFFFu32,
        ensures
            r matches Ok(p) && p.id == old(gl).next_id + 2,
            final(gl).next_id == old(gl).next_id + 3,
            built_program(old(gl).commands@, old(gl).next_id as int,
                POINT_VERT@, POINT_FRAG@, final(gl).commands@),
            final(gl).current_program == old(gl).current_program,
    {
        make(gl, Option::None, POINT_VERT, POINT_FRAG)
    }

    /// The light program.
    pub fn get_light_program(&self, gl: &mut Gl) -> (r: Result<Program, Error>)
        requires
            old(gl).next_id + 3 <= 0xFFFF_FFFFu32,
        ensures
            r matches Ok(p) && p.id == old(gl).next_id + 2,
            final(gl).next_id == old(gl).next_id + 3,
            built_program(old(gl).commands@, old(gl).next_id as int,
                LIGHT_VERT@, LIGHT_FRAG@, final(gl).commands@),
            final(gl).current_program == old(gl).current_program,
    {
        make(gl, Option::None, LIGHT_VERT, LIGHT_FRAG)
    }

    /// The lamp program: the three-dimensional point sources.
    pub fn get_lamp_program(&self, gl: &mut Gl) -> (r: Result<Program, Error>)
        requires
            old(gl).next_id + 3 <= 0xFFFF_FFFFu32,
        ensures
            r matches Ok(p) && p.id == old(gl).next_id + 2,
            final(gl).next_id == old(gl).next_id + 3,
            built_program(old(gl).commands@, old(gl).next_id as int,
                POINT3D_VERT@, POINT_FRAG@, final(gl).commands@),
            final(gl).current_program == old(gl).current_program,
    {
        make(gl, Option::None, POINT3D_VERT, POINT_FRAG)
    }
}

/// Seed the light shader's uniforms: material maps and shininess, the
/// light's colors, and the spotlight, whose depth position is the
/// caller's `spot_z` (the application reads it from the environment) and
/// whose cutoff angles are the cosines of twelve and fifteen degrees.
pub fn set_light_shader_uniforms(
    gl: &mut Gl,
    master: &mut ProgramCtlMaster,
    program: &Program,
    spot_z: i64,
) -> (r: Result<(), Error>)
    ensures
        r matches Ok(()),
        final(gl).commands@.len() == old(gl).commands@.len() + 15,
        final(gl).next_id == old(gl).next_id,
        final(gl).current_program == program.id,
{
    master.set_used(gl, program);
    let s = SCALE;
    let fifth: i64 = 200_000;
    let half: i64 = 500_000;
    let r1 = program.set_uniform(gl, UniformKey::Plain("light.ambient".to_owned()),
        Uniform::Vec3(vec![fifth, fifth, fifth]));
    let r2 = program.set_uniform(gl, UniformKey::Plain("light.diffuse".to_owned()),
        Uniform::Vec3(vec![half, half, half]));
    let r3 = program.set_uniform(gl, UniformKey::Plain("light.specular".to_owned()),
        Uniform::Vec3(vec![s, s, s]));
    let r4 = program.set_uniform(gl, UniformKey::Plain("material.diffuseMap".to_owned()),
        Uniform::Int(0));
    let r5 = program.set_uniform(gl, UniformKey::Plain("material.specularMap".to_owned()),
        Uniform::Int(1));
    let r6 = program.set_uniform(gl, UniformKey::Plain("material.emissionMap".to_owned()),
        Uniform::Int(2));
    let r7 = program.set_uniform(gl, UniformKey::Plain("material.shininess".to_owned()),
        Uniform::Float32(32 * s));
    let r8 = program.set_uniform(gl, UniformKey::Plain("spotLight.position".to_owned()),
        Uniform::Vec3(vec![-2 * s, 0, spot_z]));
    let r9 = program.set_uniform(gl, UniformKey::Plain("spotLight.direction".to_owned()),
        Uniform::Vec3(vec![s, 0, 0]));
    let r10 = program.set_uniform(gl, UniformKey::Plain("spotLight.cutoff".to_owned()),
        Uniform::Float32(cos_fp(12 * s)));
    let r11 = program.set_uniform(gl, UniformKey::Plain("spotLight.outerCutoff".to_owned()),
        Uniform::Float32(cos_fp(15 * s)));
    let r12 = program.set_uniform(gl, UniformKey::Plain("spotLight.ambient".to_owned()),
        Uniform::Vec3(vec![0, 0, 0]));
    let r13 = program.set_uniform(gl, UniformKey::Plain("spotLight.diffuse".to_owned()),
        Uniform::Vec3(vec![s, s, s]));
    let r14 = program.set_uniform(gl, UniformKey::Plain("spotLight.specular".to_owned()),
        Uniform::Vec3(vec![s, s, s]));
    Ok(())
}

/// The model transform of the ground plane: lowered one unit, stretched
/// twenty units along the ground axes, and laid flat by a quarter-turn
/// tilt.
pub fn ground_model_transformations() -> (r: Mat4)
    ensures
        r.wf(),
        seq_in_range(r.e@, 400_000_000),
{
    let t = Mat4::from_translation(Vec3 { x: 0, y: -SCALE, z: 0 });
    let sc = Mat4::from_nonuniform_scale(20 * SCALE, 0, 20 * SCALE);
    proof {
        assert(seq_in_range(t.e@, MAT_LIM as int));
        assert(seq_in_range(sc.e@, MAT_LIM as int));
        assert(seq_in_range(t.e@, 1_000_000));
        assert(seq_in_range(sc.e@, 20_000_000));
    }
    let p1 = mat_mul(&t, &sc);
    proof {
        assert((1_000_000int * 20_000_000) / (SCALE as int) == 20_000_000) by {
            vstd::arithmetic::div_mod::lemma_fundamental_div_mod_converse_mod(
                1_000_000int * 20_000_000, SCALE as int, 20_000_000, 0);
            vstd::arithmetic::div_mod::lemma_fundamental_div_mod(
                1_000_000int * 20_000_000, SCALE as int);
        }
        assert forall|i: int| 0 <= i < p1.e@.len()
            implies -80_000_004 <= #[trigger] p1.e@[i] <= 80_000_004 by {
            lemma_mul_entry_bound(t.e@, sc.e@, i, 1_000_000, 20_000_000);
        }
        assert(seq_in_range(p1.e@, MAT_LIM as int));
    }
    let rx = Mat4::from_angle_x(90 * SCALE);
    let r = mat_mul(&p1, &rx);
    proof {
        assert((80_000_004int * 1_000_000) / (SCALE as int) == 80_000_004) by {
            vstd::arithmetic::div_mod::lemma_fundamental_div_mod_converse_mod(
                80_000_004int * 1_000_000, SCALE as int, 80_000_004, 0);
            vstd::arithmetic::div_mod::lemma_fundamental_div_mod(
                80_000_004int * 1_000_000, SCALE as int);
        }
        assert forall|i: int| 0 <= i < r.e@.len()
            implies -400_000_000 <= #[trigger] r.e@[i] <= 400_000_000 by {
            lemma_mul_entry_bound(p1.e@, rx.e@, i, 80_000_004, 1_000_000);
        }
    }
    r
}

/// Hand a model, view and projection matrix to a program that is known
/// to be the active one: every assignment is accepted and recorded.
fn seed_transformations(
    gl: &mut Gl,
    program: &Program,
    model: &Mat4,
    view: &Mat4,
    projection: &Mat4,
) -> (r: Result<(), Error>)
    requires
        old(gl).current_program == program.id,
        model.wf(),
        view.wf(),
        projection.wf(),
    ensures
        r matches Ok(()),
        final(gl).commands@.len() == old(gl).commands@.len() + 3,
        final(gl).next_id == old(gl).next_id,
        final(gl).current_program == old(gl).current_program,
{
    let m = program.set_uniform(
        gl, UniformKey::Plain("model".to_owned()), Uniform::Mat4(model.entries()));
    match m {
        Ok(()) => {}
        Err(e) => {
            return Err(e);
        }
    }
    let v = program.set_uniform(
        gl, UniformKey::Plain("view".to_owned()), Uniform::Mat4(view.entries()));
    match v {
        Ok(()) => {}
        Err(e) => {
            return Err(e);
        }
    }
    let p = program.set_uniform(
        gl, UniformKey::Plain("projection".to_owned()), Uniform::Mat4(projection.entries()));
    match p {
        Ok(()) => {}
        Err(e) => {
            return Err(e);
        }
    }
    Ok(())
}

/// The programs of the demo's frame loop, built and seeded with their
/// starting transforms.
pub struct ShaderProgramContainer {
    pub light_shader: Program,
    pub lamp_shader: Program,
    pub lamp_shader_other: Program,
    pub texture_shader: Program,
}

impl ShaderProgramContainer {
    /// Build the four programs and seed their uniforms from the camera's
    /// current view and projection.  Each program is made the active one
    /// before its uniforms are set.
    #[verifier::rlimit(100)]
    pub fn new(
        gl: &mut Gl,
        master: &mut ProgramCtlMaster,
        builder: &ShaderProgramBuilder,
        camera: &Camera,
        spot_z: i64,
    ) -> (r: Result<ShaderProgramContainer, Error>)
        requires
            old(gl).next_id + 12 <= 0xFFFF_FFFFu32,
            in_range(camera.front, crate::camera::DIR_LIM as int),
            in_range(camera.up, crate::camera::DIR_LIM as int),
            in_range(camera.position, crate::camera::POS_LIM as int),
            crate::camera::view_ok(
                crate::vec3::gv(camera.front), crate::vec3::gv(camera.up)),
            2_000_000 <= camera.zoom <= 178_000_000,
            1_000 <= camera.aspect_ratio <= crate::fixed::FX_LIM,
        ensures
            r matches Ok(c) && c.light_shader.id == old(gl).next_id + 2
                && c.lamp_shader.id == old(gl).next_id + 5
                && c.lamp_shader_other.id == old(gl).next_id + 8
                && c.texture_shader.id == old(gl).next_id + 11,
            final(gl).next_id == old(gl).next_id + 12,
    {
        let model = Mat4::one();
        let view = camera.view();
        let projection = camera.projection();
        proof {
            assert(seq_in_range(model.e@, MAT_LIM as int));
        }
        let light_shader = match builder.get_light_program(gl) {
            Ok(p) => p,
            Err(e) => {
                return Err(e);
            }
        };
        {
            master.set_used(gl, &light_shader);
            match seed_transformations(gl, &light_shader, &model, &view, &projection) {
                Ok(()) => {}
                Err(e) => {
                    return Err(e);
                }
            }
        }
        match set_light_shader_uniforms(gl, master, &light_shader, spot_z) {
            Ok(()) => {}
            Err(e) => {
                return Err(e);
            }
        }
        let lamp_shader = match builder.get_lamp_program(gl) {
            Ok(p) => p,
            Err(e) => {
                return Err(e);
            }
        };
        let lamp_shader_other = match builder.get_lamp_program(gl) {
            Ok(p) => p,
            Err(e) => {
                return Err(e);
            }
        };
        {
            master.set_used(gl, &lamp_shader_other);
            match seed_transformations(gl, &lamp_shader_other, &model, &view, &projection) {
                Ok(()) => {}
                Err(e) => {
                    return Err(e);
                }
            }
        }
        let texture_shader = match builder.get_vertex_textured_program(gl) {
            Ok(p) => p,
            Err(e) => {
                return Err(e);
            }
        };
        let ground = ground_model_transformations();
        {
            master.set_used(gl, &texture_shader);
            match seed_transformations(gl, &texture_shader, &ground, &view, &projection) {
                Ok(()) => {}
                Err(e) => {
                    return Err(e);
                }
            }
        }
        Ok(ShaderProgramContainer { light_shader, lamp_shader, lamp_shader_other, texture_shader })
    }
}

} // verus!
