//! Shader and program objects over the recording context.
//!
//! Shaders and programs are handles drawn from the recorder's counter;
//! compilation and linking are recorded and happen when the application
//! replays the commands, so building them never fails here.  Setting a
//! uniform, though, is checked against the model state as a driver
//! would check it: the program must be the one currently in use, and
//! [`ProgramCtlMaster`] makes that discipline a compile-time borrow.

use vstd::prelude::*;
use core::marker::PhantomData;
use crate::gl::{Gl, Command, VERTEX_SHADER, FRAGMENT_SHADER};
use crate::domain::shader;
use crate::domain::shader::{Uniform, UniformKey};
use crate::Error;

verus! {

/// A linked shader program's handle.
#[derive(Clone, Copy, Debug)]
pub struct Program {
    pub id: u32,
}

impl Program {
    /// The program's handle number.
    pub fn id(&self) -> (r: u32)
        ensures
            r == self.id,
    {
        self.id
    }

    /// A program linked from the given shaders, recorded under a fresh
    /// handle.  Whether the link succeeds is known only when the
    /// recording is replayed, so this always hands the handle back.
    pub fn from_shaders(gl: &mut Gl, shaders: &Vec<Shader>) -> (r: Result<Program, Error>)
        requires
            old(gl).next_id < 0xFFFF_FFFFu32,
        ensures
            r matches Ok(p) && p.id == old(gl).next_id,
            final(gl).next_id == old(gl).next_id + 1,
            final(gl).commands@.len() == old(gl).commands@.len() + 1,
            final(gl).commands@[old(gl).commands@.len() as int] matches
                Command::LinkProgram { id, shaders: ids }
                && id == old(gl).next_id
                && ids@ == shaders@.map_values(|sh: Shader| sh.id),
            final(gl).commands@.subrange(0, old(gl).commands@.len() as int)
                == old(gl).commands@,
            final(gl).current_program == old(gl).current_program,
    {
        let mut ids: Vec<u32> = Vec::new();
        let mut i: usize = 0;
        while i < shaders.len()
            invariant
                i <= shaders@.len(),
                ids@ == shaders@.take(i as int).map_values(|sh: Shader| sh.id),
            decreases shaders@.len() - i,
        {
            ids.push(shaders[i].id);
            proof {
                assert(shaders@.take(i + 1).map_values(|sh: Shader| sh.id)
                    =~= shaders@.take(i as int).map_values(|sh: Shader| sh.id)
                        .push(shaders@[i as int].id));
            }
            i = i + 1;
        }
        proof {
            assert(shaders@.take(shaders@.len() as int) =~= shaders@);
        }
        let ghost before = gl.commands@;
        let id = gl.create_program(ids);
        proof {
            assert(final(gl).commands@.subrange(0, before.len() as int) =~= before);
        }
        Ok(Program { id })
    }

    /// Whether this program is the one currently in use: the recorder
    /// stands in for the driver's answer.
    fn assert_is_used(&self, gl: &Gl) -> (r: Result<(), Error>)
        ensures
            gl.current_program == self.id ==> r matches Ok(()),
            gl.current_program != self.id ==> (r matches Err(e)
                && e == Error::ProgramNotActive),
    {
        if gl.current_program != self.id {
            Err(Error::ProgramNotActive)
        } else {
            Ok(())
        }
    }

    /// Assign a uniform on this program: recorded if the program is in
    /// use, refused otherwise.
    pub fn set_uniform(&self, gl: &mut Gl, key: UniformKey, value: Uniform)
        -> (r: Result<(), Error>)
        ensures
            old(gl).current_program == self.id ==> (r matches Ok(())
                && final(gl).commands@ == old(gl).commands@.push(
                    Command::Uniform { program: self.id, key, value })
                && final(gl).next_id == old(gl).next_id
                && final(gl).current_program == old(gl).current_program),
            old(gl).current_program != self.id ==> (r matches Err(e)
                && e == Error::ProgramNotActive
                && final(gl).commands@ == old(gl).commands@
                && final(gl).next_id == old(gl).next_id
                && final(gl).current_program == old(gl).current_program),
    {
        match self.assert_is_used(gl) {
            Ok(()) => {
                gl.uniform(self.id, key, value);
                Ok(())
            }
            Err(e) => Err(e),
        }
    }
}

impl shader::SetUsed for Program {
    fn set_used(&self, gl: &mut Gl) {
        gl.use_program(self.id);
    }
}

impl shader::SetUniform for Program {
    fn set_uniform(&mut self, gl: &mut Gl, key: UniformKey, value: Uniform)
        -> Result<(), Error> {
        Program::set_uniform(self, gl, key, value)
    }
}

/// A witness that its program is the active one; uniforms set through it
/// cannot hit the inactive-program error.
pub struct ProgramCtl<'p, 'm> {
    pub program: &'p Program,
    pub master: PhantomData<&'m ProgramCtlMaster>,
}

impl<'p, 'm> shader::SetUniform for ProgramCtl<'p, 'm> {
    fn set_uniform(&mut self, gl: &mut Gl, key: UniformKey, value: Uniform)
        -> Result<(), Error> {
        Program::set_uniform(self.program, gl, key, value)
    }
}

/// Denies mutual activation of shaders at compile time: a control handle
/// exists only while the master is borrowed, so two programs cannot both
/// be held active.
pub struct ProgramCtlMaster;

impl ProgramCtlMaster {
    /// Make `target` the program in use and hand out its control handle.
    pub fn set_used<'me, 'prg>(&'me mut self, gl: &mut Gl, target: &'prg Program)
        -> (r: ProgramCtl<'prg, 'me>)
        ensures
            final(gl).commands@ == old(gl).commands@.push(
                Command::UseProgram { id: target.id }),
            final(gl).next_id == old(gl).next_id,
            final(gl).current_program == target.id,
            r.program == target,
    {
        gl.use_program(target.id());
        ProgramCtl { program: target, master: PhantomData }
    }
}

/// A compiled shader's handle.
#[derive(Clone, Copy, Debug)]
pub struct Shader {
    pub id: u32,
}

/// Where a shader's source text comes from.
pub enum Source<'a> {
    Filepath(&'a str),
}

impl Shader {
    /// A shader of the given kind, compiled from the source, recorded
    /// under a fresh handle.  The model records the path; the file is
    /// read and compiled when the recording is replayed, so this always
    /// hands the handle back.
    pub fn from_source(gl: &mut Gl, source: Source, kind: u32) -> (r: Result<Shader, Error>)
        requires
            old(gl).next_id < 0xFFFF_FFFFu32,
        ensures
            r matches Ok(sh) && sh.id == old(gl).next_id,
            final(gl).next_id == old(gl).next_id + 1,
            final(gl).commands@.len() == old(gl).commands@.len() + 1,
            source matches Source::Filepath(p) ==>
                (final(gl).commands@[old(gl).commands@.len() as int] matches
                    Command::CompileShader { id, kind: k, path }
                    && id == old(gl).next_id && k == kind && path@ == p@),
            final(gl).commands@.subrange(0, old(gl).commands@.len() as int)
                == old(gl).commands@,
            final(gl).current_program == old(gl).current_program,
    {
        match source {
            Source::Filepath(filepath) => {
                let id = gl.create_shader(kind, filepath);
                Ok(Shader { id })
            }
        }
    }

    /// A vertex shader from the given source.
    pub fn from_vert_source(gl: &mut Gl, source: Source) -> (r: Result<Shader, Error>)
        requires
            old(gl).next_id < 0xFFFF_FFFFu32,
        ensures
            r matches Ok(sh) && sh.id == old(gl).next_id,
            final(gl).next_id == old(gl).next_id + 1,
            final(gl).commands@.len() == old(gl).commands@.len() + 1,
            source matches Source::Filepath(p) ==>
                (final(gl).commands@[old(gl).commands@.len() as int] matches
                    Command::CompileShader { id, kind: k, path }
                    && id == old(gl).next_id && k == VERTEX_SHADER && path@ == p@),
            final(gl).commands@.subrange(0, old(gl).commands@.len() as int)
                == old(gl).commands@,
            final(gl).current_program == old(gl).current_program,
    {
        Shader::from_source(gl, source, VERTEX_SHADER)
    }

    /// A fragment shader from the given source.
    pub fn from_frag_source(gl: &mut Gl, source: Source) -> (r: Result<Shader, Error>)
        requires
            old(gl).next_id < 0xFFFF_FFFFu32,
        ensures
            r matches Ok(sh) && sh.id == old(gl).next_id,
            final(gl).next_id == old(gl).next_id + 1,
            final(gl).commands@.len() == old(gl).commands@.len() + 1,
            source matches Source::Filepath(p) ==>
                (final(gl).commands@[old(gl).commands@.len() as int] matches
                    Command::CompileShader { id, kind: k, path }
                    && id == old(gl).next_id && k == FRAGMENT_SHADER && path@ == p@),
            final(gl).commands@.subrange(0, old(gl).commands@.len() as int)
                == old(gl).commands@,
            final(gl).current_program == old(gl).current_program,
    {
        Shader::from_source(gl, source, FRAGMENT_SHADER)
    }

    /// The shader's handle number.
    pub fn id(&self) -> (r: u32)
        ensures
            r == self.id,
    {
        self.id
    }
}

} // verus!
