//! The recording context and the renderer objects over it: which
//! commands each operation appends, which handles it hands out, and when
//! the model refuses.

use glcam::Error;
use glcam::buffer::{Buffer, BufferTypeArray, VertexArray};
use glcam::domain::mesh::TextureBind;
use glcam::domain::shader::{Uniform, UniformKey};
use glcam::domain::texture::{Kind, Unit, TEXTURE0, TEXTURE31};
use glcam::gl::{
    Command, Gl, ARRAY_BUFFER, ELEMENT_ARRAY_BUFFER, FRAGMENT_SHADER, STATIC_DRAW,
    TEXTURE_2D, VERTEX_SHADER,
};
use glcam::render_gl::{Program, ProgramCtlMaster, Shader, Source};
use glcam::shader_program_container::{
    build_shader_program, ShaderProgramBuilder, ShaderProgramContainer,
};
use glcam::texture::{Binder, Texture};

#[test]
fn texture_units_accept_below_the_limit() {
    let unit = Unit::zero();
    assert_eq!(unit.gl_value(), TEXTURE0);
    let unit = Unit::new(30).unwrap();
    assert_eq!(unit.gl_value(), TEXTURE0 + 30);
    // Indexes are compared against the unit constant itself, so
    // everything below it passes.
    assert!(Unit::new(TEXTURE31 - 1).is_ok());
    assert_eq!(Unit::new(TEXTURE31), Err(Error::TextureUnitOutOfRange));
    assert_eq!(Unit::new(40_000), Err(Error::TextureUnitOutOfRange));
}

#[test]
fn buffer_write_records_bind_upload_unbind() {
    let mut gl = Gl::new();
    let buffer: Buffer<BufferTypeArray, STATIC_DRAW> = Buffer::new(&mut gl);
    buffer.write(&mut gl, vec![1, 2, 3]);
    assert_eq!(gl.commands.len(), 4);
    assert_eq!(gl.commands[0], Command::GenBuffer { id: 1 });
    assert_eq!(gl.commands[1], Command::BindBuffer { target: ARRAY_BUFFER, id: 1 });
    assert_eq!(
        gl.commands[2],
        Command::BufferData { target: ARRAY_BUFFER, data: vec![1, 2, 3], usage: STATIC_DRAW },
    );
    assert_eq!(gl.commands[3], Command::BindBuffer { target: ARRAY_BUFFER, id: 0 });
}

#[test]
fn vertex_array_binds_with_element_buffer() {
    let mut gl = Gl::new();
    let vao = VertexArray::new(&mut gl);
    let ebo: Buffer<glcam::buffer::BufferTypeElementArray, STATIC_DRAW> =
        Buffer::new(&mut gl);
    vao.bind_with(&mut gl, &ebo);
    assert_eq!(gl.commands.len(), 4);
    assert_eq!(gl.commands[2], Command::BindVertexArray { id: 1 });
    assert_eq!(
        gl.commands[3],
        Command::BindBuffer { target: ELEMENT_ARRAY_BUFFER, id: 2 },
    );
}

#[test]
fn shaders_record_their_compilation() {
    let mut gl = Gl::new();
    let vert = Shader::from_vert_source(&mut gl, Source::Filepath("a.vert")).unwrap();
    let frag = Shader::from_frag_source(&mut gl, Source::Filepath("a.frag")).unwrap();
    assert_eq!(vert.id(), 1);
    assert_eq!(frag.id(), 2);
    assert_eq!(
        gl.commands[0],
        Command::CompileShader { id: 1, kind: VERTEX_SHADER, path: "a.vert".to_owned() },
    );
    assert_eq!(
        gl.commands[1],
        Command::CompileShader { id: 2, kind: FRAGMENT_SHADER, path: "a.frag".to_owned() },
    );
    let program = Program::from_shaders(&mut gl, &vec![vert, frag]).unwrap();
    assert_eq!(program.id(), 3);
    assert_eq!(
        gl.commands[2],
        Command::LinkProgram { id: 3, shaders: vec![1, 2] },
    );
}

#[test]
fn uniforms_need_the_active_program() {
    let mut gl = Gl::new();
    let mut master = ProgramCtlMaster;
    let vert = Shader::from_vert_source(&mut gl, Source::Filepath("v")).unwrap();
    let program = Program::from_shaders(&mut gl, &vec![vert]).unwrap();
    let refused = program.set_uniform(
        &mut gl,
        UniformKey::Plain("model".to_owned()),
        Uniform::Int(1),
    );
    assert_eq!(refused, Err(Error::ProgramNotActive));

    master.set_used(&mut gl, &program);
    let accepted = program.set_uniform(
        &mut gl,
        UniformKey::Plain("model".to_owned()),
        Uniform::Int(1),
    );
    assert_eq!(accepted, Ok(()));
    let last = gl.commands.last().unwrap();
    assert_eq!(
        *last,
        Command::Uniform {
            program: program.id(),
            key: UniformKey::Plain("model".to_owned()),
            value: Uniform::Int(1),
        },
    );
}

#[test]
fn building_a_program_records_three_commands() {
    let mut gl = Gl::new();
    let program = build_shader_program(&mut gl, "v.vert", "f.frag").unwrap();
    assert_eq!(program.id(), 3);
    assert_eq!(gl.commands.len(), 3);
    assert_eq!(
        gl.commands[0],
        Command::CompileShader { id: 1, kind: VERTEX_SHADER, path: "v.vert".to_owned() },
    );
    assert_eq!(
        gl.commands[1],
        Command::CompileShader { id: 2, kind: FRAGMENT_SHADER, path: "f.frag".to_owned() },
    );
    assert_eq!(gl.commands[2], Command::LinkProgram { id: 3, shaders: vec![1, 2] });
}

#[test]
fn texture_upload_records_the_whole_setup() {
    let mut gl = Gl::new();
    let texture = Texture::new(&mut gl, vec![7, 8, 9], (1, 1));
    assert_eq!(texture.id(), 1);
    assert_eq!(gl.commands.len(), 8);
    assert_eq!(gl.commands[0], Command::GenTexture { id: 1 });
    assert_eq!(gl.commands[1], Command::BindTexture { target: TEXTURE_2D, id: 1 });
    assert_eq!(
        gl.commands[6],
        Command::TexImage2D { id: 1, width: 1, height: 1, data: vec![7, 8, 9] },
    );
    assert_eq!(gl.commands[7], Command::GenerateMipmap { target: TEXTURE_2D });
}

#[test]
fn binder_numbers_material_slots_by_kind() {
    let mut gl = Gl::new();
    let mut master = ProgramCtlMaster;
    let vert = Shader::from_vert_source(&mut gl, Source::Filepath("v")).unwrap();
    let program = Program::from_shaders(&mut gl, &vec![vert]).unwrap();
    master.set_used(&mut gl, &program);

    let diffuse = Texture::new(&mut gl, vec![1], (1, 1));
    let specular = Texture::new(&mut gl, vec![2], (1, 1));
    let second_diffuse = Texture::new(&mut gl, vec![3], (1, 1));
    let textures = [
        (diffuse, Kind::Diffuse),
        (specular, Kind::Specular),
        (second_diffuse, Kind::Diffuse),
    ];

    let mut binder = Binder { shader_program: program };
    let before = gl.commands.len();
    assert_eq!(binder.texture_bind(&mut gl, &textures), Ok(()));
    // Each texture: an active-texture, a bind, and a uniform command.
    assert_eq!(gl.commands.len(), before + 9);
    assert_eq!(
        gl.commands[before + 2],
        Command::Uniform {
            program: program.id(),
            key: UniformKey::MaterialDiffuse(0),
            value: Uniform::Int(0),
        },
    );
    assert_eq!(
        gl.commands[before + 5],
        Command::Uniform {
            program: program.id(),
            key: UniformKey::MaterialSpecular(0),
            value: Uniform::Int(1),
        },
    );
    assert_eq!(
        gl.commands[before + 8],
        Command::Uniform {
            program: program.id(),
            key: UniformKey::MaterialDiffuse(1),
            value: Uniform::Int(2),
        },
    );
}

#[test]
fn container_builds_four_programs() {
    let mut gl = Gl::new();
    let mut master = ProgramCtlMaster;
    let builder = ShaderProgramBuilder::new();
    let camera = glcam::init::standard_camera(1_285_714);
    let container =
        ShaderProgramContainer::new(&mut gl, &mut master, &builder, &camera, 0).unwrap();
    assert_eq!(container.light_shader.id(), 3);
    assert_eq!(container.lamp_shader.id(), 6);
    assert_eq!(container.lamp_shader_other.id(), 9);
    assert_eq!(container.texture_shader.id(), 12);
}
