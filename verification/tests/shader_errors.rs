use rendercore::context::{GlCommand, GpuContext};
use rendercore::shader::{
    PendingProgram, PendingShader, Shader, ShaderCompilationStatus, ShaderProg, ShaderType,
    UniformError,
};

#[test]
fn compile_request_submits_source_and_compiles() {
    let mut ctx = GpuContext::new();
    let src = String::from("#version 330 core\nvoid main() {}\n");
    let pending = Shader::from_source(&mut ctx, src.clone(), ShaderType::Vertex);
    let cmds = ctx.take_commands();
    assert_eq!(
        cmds,
        vec![
            GlCommand::CreateShader { id: pending.id, kind: ShaderType::Vertex },
            GlCommand::ShaderSource { id: pending.id, source: src },
            GlCommand::CompileShader { id: pending.id },
        ]
    );
}

// A failed compile hands the compiler's diagnostic text through unmodified.
#[test]
fn failed_compile_returns_diagnostic_text_verbatim() {
    let pending = PendingShader { id: 7 };
    let log = String::from("0:3(12): error: syntax error, unexpected ';'");
    let result = pending.into_shader(ShaderCompilationStatus::Failure(log.clone()));
    assert_eq!(result.unwrap_err(), log);
}

#[test]
fn successful_compile_owns_the_stage_handle() {
    let pending = PendingShader { id: 9 };
    let shader = pending.into_shader(ShaderCompilationStatus::Success).unwrap();
    assert_eq!(shader.id, 9);
}

// A failed link hands the linker's diagnostic text through unmodified, not a
// generic message.
#[test]
fn failed_link_returns_diagnostic_text_verbatim() {
    let pending = PendingProgram { id: 4 };
    let log = String::from("error: vertex shader lacks `main'");
    let result = pending.into_prog(ShaderCompilationStatus::Failure(log.clone()));
    assert_eq!(result.unwrap_err(), log);
}

#[test]
fn link_request_attaches_each_stage_and_releases_it() {
    let mut ctx = GpuContext::new();
    let stages = vec![Shader { id: 31 }, Shader { id: 32 }];
    let pending = ShaderProg::from_shaders(&mut ctx, stages);
    let cmds = ctx.take_commands();
    assert_eq!(
        cmds,
        vec![
            GlCommand::CreateProgram { id: pending.id },
            GlCommand::AttachShader { prog: pending.id, shader: 31 },
            GlCommand::DeleteShader { id: 31 },
            GlCommand::AttachShader { prog: pending.id, shader: 32 },
            GlCommand::DeleteShader { id: 32 },
            GlCommand::LinkProgram { id: pending.id },
        ]
    );
    let prog = pending.into_prog(ShaderCompilationStatus::Success).unwrap();
    assert_eq!(prog.id, cmds_id(&cmds[0]));
}

fn cmds_id(c: &GlCommand) -> u32 {
    match c {
        GlCommand::CreateProgram { id } => *id,
        _ => panic!("expected a program creation"),
    }
}

#[test]
fn activate_binds_the_program() {
    let mut ctx = GpuContext::new();
    let prog = ShaderProg { id: 5 };
    prog.activate(&mut ctx);
    assert_eq!(ctx.take_commands(), vec![GlCommand::UseProgram { id: 5 }]);
}

#[test]
fn uniform_setters_reject_the_invalid_location_sentinel() {
    let mut ctx = GpuContext::new();
    let prog = ShaderProg { id: 5 };
    assert_eq!(prog.uniform_float_array(&mut ctx, -1, vec![1]), Err(UniformError::NotFound));
    assert_eq!(prog.uniform_int_array(&mut ctx, -1, vec![1]), Err(UniformError::NotFound));
    assert_eq!(
        prog.uniform_matrix4f(&mut ctx, -1, vec![0; 16]),
        Err(UniformError::NotFound)
    );
    assert!(ctx.take_commands().is_empty());
}

#[test]
fn uniform_setters_reject_unsupported_arity() {
    let mut ctx = GpuContext::new();
    let prog = ShaderProg { id: 5 };
    assert_eq!(prog.uniform_float_array(&mut ctx, 2, vec![]), Err(UniformError::WrongArity));
    assert_eq!(
        prog.uniform_float_array(&mut ctx, 2, vec![1, 2, 3, 4, 5]),
        Err(UniformError::WrongArity)
    );
    assert_eq!(prog.uniform_int_array(&mut ctx, 2, vec![]), Err(UniformError::WrongArity));
    assert_eq!(
        prog.uniform_matrix4f(&mut ctx, 2, vec![0; 15]),
        Err(UniformError::WrongArity)
    );
    assert!(ctx.take_commands().is_empty());
}

#[test]
fn uniform_setters_write_supported_arities() {
    let mut ctx = GpuContext::new();
    let prog = ShaderProg { id: 5 };
    assert_eq!(prog.uniform_float_array(&mut ctx, 3, vec![10, 20]), Ok(()));
    assert_eq!(prog.uniform_int_array(&mut ctx, 4, vec![-1, 0, 1]), Ok(()));
    let matrix: Vec<u32> = (0..16).collect();
    assert_eq!(prog.uniform_matrix4f(&mut ctx, 6, matrix.clone()), Ok(()));
    assert_eq!(
        ctx.take_commands(),
        vec![
            GlCommand::UniformFloats { location: 3, values: vec![10, 20] },
            GlCommand::UniformInts { location: 4, values: vec![-1, 0, 1] },
            GlCommand::UniformMatrix { location: 6, values: matrix },
        ]
    );
}
