//! The shader compile/link state machine.
//!
//! Compiling a stage and linking a program are requests whose outcome only
//! the native driver knows. A request emits the native commands and returns
//! a pending value; the caller reports the driver's answer back to the
//! pending value, which decides between an owned handle and the driver's
//! diagnostic text, passed through unmodified.

use vstd::prelude::*;

use crate::context::{CmdView, GlCommand, GpuContext};

verus! {

/// The kind of a single shader stage.
#[derive(Clone, Copy, PartialEq, Eq, Structural, Debug)]
pub enum ShaderType {
    Vertex,
    Fragment,
}

/// The arity of a uniform value, kept for callers that tabulate uniform
/// layouts.
#[derive(Clone, Copy, PartialEq, Eq, Structural, Debug)]
pub enum UniformType {
    Float(u8),
    UInt(u8),
    Int(u8),
}

/// The driver's answer on a compile or link request: success, or failure
/// with the diagnostic log exactly as the driver produced it.
#[derive(Clone, PartialEq, Debug)]
pub enum ShaderCompilationStatus {
    Success,
    Failure(String),
}

/// A uniform setter's failure: the named uniform does not exist on the
/// program (the driver answered with its invalid-location sentinel), or the
/// value has an unsupported arity.
#[derive(Clone, Copy, PartialEq, Eq, Structural, Debug)]
pub enum UniformError {
    NotFound,
    WrongArity,
}

/// A compiled shader stage. The native handle is owned until the stage is
/// attached to a program, which consumes it.
#[derive(Debug)]
pub struct Shader {
    pub id: u32,
}

/// A stage whose compilation has been requested but not yet judged.
#[derive(Debug)]
pub struct PendingShader {
    pub id: u32,
}

/// A linked shader program that owns its native handle.
#[derive(Debug)]
pub struct ShaderProg {
    pub id: u32,
}

/// A program whose link has been requested but not yet judged.
#[derive(Debug)]
pub struct PendingProgram {
    pub id: u32,
}

/// The commands that attach each stage of `shaders` to program `prog` and
/// release the stage handle, no longer needed once attached.
pub open spec fn attach_cmds(prog: u32, shaders: Seq<Shader>) -> Seq<CmdView>
    decreases shaders.len(),
{
    if shaders.len() == 0 {
        Seq::<CmdView>::empty()
    } else {
        attach_cmds(prog, shaders.drop_last()) + seq![
            CmdView::AttachShader { prog, shader: shaders.last().id },
            CmdView::DeleteShader { id: shaders.last().id },
        ]
    }
}

impl Shader {
    /// Requests compilation of one stage from its source text: creates the
    /// native shader, submits the source, and asks the driver to compile.
    /// The answer is reported later to [`PendingShader::into_shader`].
    pub fn from_source(ctx: &mut GpuContext, source: String, kind: ShaderType) -> (r:
        PendingShader)
        requires
            old(ctx).id_counter() < u32::MAX,
        ensures
            r.id == old(ctx).id_counter(),
            final(ctx)@ == old(ctx)@ + seq![
                CmdView::CreateShader { id: r.id, kind },
                CmdView::ShaderSource { id: r.id, source: source@ },
                CmdView::CompileShader { id: r.id },
            ],
            final(ctx).id_counter() == old(ctx).id_counter() + 1,
    {
        let ghost source_view = source@;
        let id = ctx.alloc_id();
        ctx.emit(GlCommand::CreateShader { id, kind });
        ctx.emit(GlCommand::ShaderSource { id, source });
        ctx.emit(GlCommand::CompileShader { id });
        proof {
            assert(ctx@ =~= old(ctx)@ + seq![
                CmdView::CreateShader { id, kind },
                CmdView::ShaderSource { id, source: source_view },
                CmdView::CompileShader { id },
            ]);
        }
        PendingShader { id }
    }
}

impl PendingShader {
    /// Decides the compile request from the driver's answer: success
    /// yields an owned stage handle; failure yields the compiler's
    /// diagnostic text, word for word, as the error.
    pub fn into_shader(self, status: ShaderCompilationStatus) -> (r: Result<Shader, String>)
        ensures
            status is Success ==> (r matches Ok(s) && s.id == self.id),
            status matches ShaderCompilationStatus::Failure(log) ==> (r matches Err(e) && e@ == log@),
    {
        match status {
            ShaderCompilationStatus::Success => Ok(Shader { id: self.id }),
            ShaderCompilationStatus::Failure(log) => Err(log),
        }
    }
}

impl ShaderProg {
    /// Requests a link: creates the native program, attaches every stage
    /// (releasing each stage handle right after the attach), and asks the
    /// driver to link. The stages are consumed; the answer is reported
    /// later to [`PendingProgram::into_prog`]. A program with zero stages is
    /// a caller error and is not validated here.
    pub fn from_shaders(ctx: &mut GpuContext, shaders: Vec<Shader>) -> (r: PendingProgram)
        requires
            old(ctx).id_counter() < u32::MAX,
        ensures
            r.id == old(ctx).id_counter(),
            final(ctx)@ == old(ctx)@.push(CmdView::CreateProgram { id: r.id }) + attach_cmds(
                r.id,
                shaders@,
            ) + seq![CmdView::LinkProgram { id: r.id }],
            final(ctx).id_counter() == old(ctx).id_counter() + 1,
    {
        let prog_id = ctx.alloc_id();
        ctx.emit(GlCommand::CreateProgram { id: prog_id });
        let ghost base = ctx@;
        let ghost counter = ctx.id_counter();
        let mut i: usize = 0;
        while i < shaders.len()
            invariant
                i <= shaders@.len(),
                ctx@ == base + attach_cmds(prog_id, shaders@.take(i as int)),
                ctx.id_counter() == counter,
            decreases shaders@.len() - i,
        {
            let shader_id = shaders[i].id;
            ctx.emit(GlCommand::AttachShader { prog: prog_id, shader: shader_id });
            ctx.emit(GlCommand::DeleteShader { id: shader_id });
            proof {
                assert(shaders@.take(i + 1).drop_last() =~= shaders@.take(i as int));
                assert(ctx@ =~= base + attach_cmds(prog_id, shaders@.take(i + 1)));
            }
            i = i + 1;
        }
        ctx.emit(GlCommand::LinkProgram { id: prog_id });
        proof {
            assert(shaders@.take(shaders@.len() as int) =~= shaders@);
            assert(ctx@ =~= old(ctx)@.push(CmdView::CreateProgram { id: prog_id }) + attach_cmds(
                prog_id,
                shaders@,
            ) + seq![CmdView::LinkProgram { id: prog_id }]);
        }
        PendingProgram { id: prog_id }
    }

    /// Binds this program as the current one.
    pub fn activate(&self, ctx: &mut GpuContext)
        ensures
            final(ctx)@ == old(ctx)@.push(CmdView::UseProgram { id: self.id }),
            final(ctx).id_counter() == old(ctx).id_counter(),
    {
        ctx.emit(GlCommand::UseProgram { id: self.id });
    }

    /// Writes an integer uniform of one to four components to the currently
    /// active program. `location` is the driver's answer for the uniform's
    /// name; the driver's invalid-location sentinel is `-1`. The caller must
    /// have activated this program first.
    pub fn uniform_int_array(&self, ctx: &mut GpuContext, location: i32, data: Vec<i32>) -> (r:
        Result<(), UniformError>)
        ensures
            location == -1 ==> r == Err::<(), UniformError>(UniformError::NotFound),
            location != -1 && 1 <= data@.len() <= 4 ==> r is Ok && final(ctx)@ == old(
                ctx,
            )@.push(CmdView::UniformInts { location, values: data@ }),
            location != -1 && !(1 <= data@.len() <= 4) ==> r == Err::<(), UniformError>(
                UniformError::WrongArity,
            ),
            r is Err ==> final(ctx)@ == old(ctx)@,
            final(ctx).id_counter() == old(ctx).id_counter(),
    {
        if location == -1 {
            return Err(UniformError::NotFound);
        }
        if data.len() >= 1 && data.len() <= 4 {
            ctx.emit(GlCommand::UniformInts { location, values: data });
            Ok(())
        } else {
            Err(UniformError::WrongArity)
        }
    }

    /// Writes a scalar uniform of one to four components to the currently
    /// active program; the values are IEEE-754 binary32 encodings. The
    /// caller must have activated this program first.
    pub fn uniform_float_array(&self, ctx: &mut GpuContext, location: i32, data: Vec<u32>) -> (r:
        Result<(), UniformError>)
        ensures
            location == -1 ==> r == Err::<(), UniformError>(UniformError::NotFound),
            location != -1 && 1 <= data@.len() <= 4 ==> r is Ok && final(ctx)@ == old(
                ctx,
            )@.push(CmdView::UniformFloats { location, values: data@ }),
            location != -1 && !(1 <= data@.len() <= 4) ==> r == Err::<(), UniformError>(
                UniformError::WrongArity,
            ),
            r is Err ==> final(ctx)@ == old(ctx)@,
            final(ctx).id_counter() == old(ctx).id_counter(),
    {
        if location == -1 {
            return Err(UniformError::NotFound);
        }
        if data.len() >= 1 && data.len() <= 4 {
            ctx.emit(GlCommand::UniformFloats { location, values: data });
            Ok(())
        } else {
            Err(UniformError::WrongArity)
        }
    }

    /// Writes a row-major 4x4 matrix uniform, sixteen IEEE-754 binary32
    /// encodings, to the currently active program. The caller must have
    /// activated this program first.
    pub fn uniform_matrix4f(&self, ctx: &mut GpuContext, location: i32, data: Vec<u32>) -> (r:
        Result<(), UniformError>)
        ensures
            location == -1 ==> r == Err::<(), UniformError>(UniformError::NotFound),
            location != -1 && data@.len() == 16 ==> r is Ok && final(ctx)@ == old(ctx)@.push(
                CmdView::UniformMatrix { location, values: data@ },
            ),
            location != -1 && data@.len() != 16 ==> r == Err::<(), UniformError>(
                UniformError::WrongArity,
            ),
            r is Err ==> final(ctx)@ == old(ctx)@,
            final(ctx).id_counter() == old(ctx).id_counter(),
    {
        if location == -1 {
            return Err(UniformError::NotFound);
        }
        if data.len() != 16 {
            return Err(UniformError::WrongArity);
        }
        ctx.emit(GlCommand::UniformMatrix { location, values: data });
        Ok(())
    }

    /// Releases the owned native program handle, exactly once.
    pub fn release(self, ctx: &mut GpuContext)
        ensures
            final(ctx)@ == old(ctx)@.push(CmdView::DeleteProgram { id: self.id }),
            final(ctx).id_counter() == old(ctx).id_counter(),
    {
        ctx.emit(GlCommand::DeleteProgram { id: self.id });
    }
}

impl PendingProgram {
    /// Decides the link request from the driver's answer: success yields
    /// an owned program handle; failure yields the linker's diagnostic
    /// text, word for word, as the error.
    pub fn into_prog(self, status: ShaderCompilationStatus) -> (r: Result<ShaderProg, String>)
        ensures
            status is Success ==> (r matches Ok(p) && p.id == self.id),
            status matches ShaderCompilationStatus::Failure(log) ==> (r matches Err(e) && e@ == log@),
    {
        match status {
            ShaderCompilationStatus::Success => Ok(ShaderProg { id: self.id }),
            ShaderCompilationStatus::Failure(log) => Err(log),
        }
    }
}

} // verus!
