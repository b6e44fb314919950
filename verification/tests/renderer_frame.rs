use rendercore::context::{Color, GlCommand, GpuContext};
use rendercore::gpu::Attribute;
use rendercore::localstate::LocalState;
use rendercore::model::Model;
use rendercore::renderer::{clear_screen, draw_models, Renderer};
use rendercore::shader::ShaderProg;

fn quad_attribs() -> Vec<Attribute> {
    let float_size = 4usize;
    vec![
        // attribute 0: position
        Attribute { width: 3, stride: 6 * float_size, start_idx: 0, ty: 0x1406 },
        // attribute 1: colour
        Attribute { width: 3, stride: 6 * float_size, start_idx: 3 * float_size, ty: 0x1406 },
    ]
}

fn quad_vertex_bits() -> Vec<u32> {
    let floats: [f32; 24] = [
        0.5, 0.5, 0.0, 1.0, 0.0, 0.0, //
        0.5, -0.5, 0.0, 0.0, 1.0, 0.0, //
        -0.5, -0.5, 0.0, 0.0, 0.0, 1.0, //
        -0.5, 0.5, 0.0, 0.3, 0.4, 0.5,
    ];
    floats.iter().map(|f| f.to_bits()).collect()
}

fn quad_model(ctx: &mut GpuContext) -> Model {
    Model::from_data_and_layout(ctx, quad_vertex_bits(), vec![0, 1, 3, 1, 2, 3], &quad_attribs())
}

// A freshly composed model from nonempty data reports loaded; a resourceless
// model reports unloaded and refuses to bind.
#[test]
fn fresh_model_is_loaded_and_empty_model_is_not() {
    let mut ctx = GpuContext::new();
    let mut model = quad_model(&mut ctx);
    assert!(model.is_loaded());

    let mut empty = Model::new_unloaded();
    assert!(!empty.is_loaded());
    ctx.take_commands();
    assert_eq!(empty.bind(&mut ctx), Err("Model not loaded"));
    assert!(ctx.take_commands().is_empty());
}

#[test]
fn models_may_share_resources() {
    let mut ctx = GpuContext::new();
    let first = quad_model(&mut ctx);
    let (buffer, array, indices) = (
        first.buffer.as_ref().unwrap(),
        first.array.as_ref().unwrap(),
        first.indices.as_ref().unwrap(),
    );
    let mut second = Model::from_parts(buffer, array, indices);
    assert!(second.is_loaded());
    assert_eq!(second.buffer.as_ref().unwrap().id, first.buffer.as_ref().unwrap().id);
}

// Drawing an unloaded model fails and emits no native command at all, so in
// particular no draw call reaches the driver.
#[test]
fn draw_model_on_unloaded_model_emits_no_draw_call() {
    let mut ctx = GpuContext::new();
    let mut rend = Renderer::init_only_once(&mut ctx, 800, 600);
    rend.load_shader_program(ShaderProg { id: 40 });
    rend.use_shader_idx(&mut ctx, 0).unwrap();
    ctx.take_commands();

    let mut empty = Model::new_unloaded();
    let result = rend.draw_model(&mut ctx, &mut empty, 0, 1);
    assert_eq!(result, Err("Model is not loaded"));
    assert!(ctx.take_commands().is_empty());
}

#[test]
fn draw_model_without_active_shader_fails_and_emits_nothing() {
    let mut ctx = GpuContext::new();
    let mut rend = Renderer::init_only_once(&mut ctx, 800, 600);
    let mut model = quad_model(&mut ctx);
    ctx.take_commands();
    assert_eq!(rend.draw_model(&mut ctx, &mut model, 0, 1), Err("No active shader"));
    assert!(ctx.take_commands().is_empty());
}

#[test]
fn draw_model_with_missing_uniform_fails_and_emits_nothing() {
    let mut ctx = GpuContext::new();
    let mut rend = Renderer::init_only_once(&mut ctx, 800, 600);
    rend.load_shader_program(ShaderProg { id: 40 });
    rend.use_shader_idx(&mut ctx, 0).unwrap();
    let mut model = quad_model(&mut ctx);
    ctx.take_commands();
    assert_eq!(rend.draw_model(&mut ctx, &mut model, -1, 1), Err("Could not set uniform"));
    assert!(ctx.take_commands().is_empty());
}

#[test]
fn use_shader_idx_rejects_invalid_indices_and_keeps_state() {
    let mut ctx = GpuContext::new();
    let mut rend = Renderer::init_only_once(&mut ctx, 800, 600);
    ctx.take_commands();
    assert_eq!(rend.use_shader_idx(&mut ctx, 0), Err("Could not activate given shader"));
    assert_eq!(rend.use_shader_idx(&mut ctx, -1), Err("Could not activate given shader"));
    assert_eq!(rend.shader_idx, -1);
    assert!(ctx.take_commands().is_empty());

    rend.load_shader_program(ShaderProg { id: 77 });
    assert_eq!(rend.use_shader_idx(&mut ctx, 0), Ok(()));
    assert_eq!(rend.shader_idx, 0);
    assert_eq!(ctx.take_commands(), vec![GlCommand::UseProgram { id: 77 }]);
}

#[test]
fn toggle_wireframe_mirrors_the_flag_into_polygon_mode() {
    let mut ctx = GpuContext::new();
    let mut rend = Renderer::init_only_once(&mut ctx, 100, 100);
    ctx.take_commands();
    rend.toggle_wireframe(&mut ctx);
    assert!(rend.wireframe);
    rend.toggle_wireframe(&mut ctx);
    assert!(!rend.wireframe);
    assert_eq!(
        ctx.take_commands(),
        vec![GlCommand::PolygonModeLine, GlCommand::PolygonModeFill]
    );
}

#[test]
fn clear_screen_uses_the_scene_clear_colour() {
    let mut ctx = GpuContext::new();
    let rend = Renderer::init_only_once(&mut ctx, 100, 100);
    let local = LocalState::new();
    ctx.take_commands();
    clear_screen(&rend, &mut ctx, &local);
    let grey = 0.1f32.to_bits();
    assert_eq!(
        ctx.take_commands(),
        vec![
            GlCommand::ClearColor {
                color: Color { r: grey, g: grey, b: grey, a: 1.0f32.to_bits() },
            },
            GlCommand::ClearColorBuffer,
        ]
    );
}

// End to end: a quad of four vertices and six indices, drawn under one
// shader, issues exactly one indexed draw call sized to six elements, and
// uploads the identity transform first.
#[test]
fn quad_frame_issues_exactly_one_draw_of_six_elements() {
    let mut ctx = GpuContext::new();
    let mut rend = Renderer::init_only_once(&mut ctx, 800, 600);
    let mut local = LocalState::new();
    local.add_model_moves(quad_model(&mut ctx));
    rend.load_shader_program(ShaderProg { id: 50 });
    rend.use_shader_idx(&mut ctx, 0).unwrap();
    ctx.take_commands();

    assert_eq!(draw_models(&mut rend, &mut ctx, &mut local, 2, 3), Ok(()));
    let cmds = ctx.take_commands();

    let draws: Vec<&GlCommand> = cmds
        .iter()
        .filter(|c| matches!(c, GlCommand::DrawTriangles { .. }))
        .collect();
    assert_eq!(draws.len(), 1);
    assert_eq!(draws[0], &GlCommand::DrawTriangles { index_count: 6 });

    let identity: Vec<u32> = (0..16)
        .map(|i| if i % 5 == 0 { 1.0f32.to_bits() } else { 0.0f32.to_bits() })
        .collect();
    assert!(cmds.contains(&GlCommand::UniformMatrix { location: 2, values: identity }));
    assert!(cmds.contains(&GlCommand::UniformFloats { location: 3, values: vec![0.4f32.to_bits()] }));
}

// A frame over two models issues one draw per model; an unloaded model in
// the scene stops the frame with the not-loaded error.
#[test]
fn frame_draw_count_matches_model_count() {
    let mut ctx = GpuContext::new();
    let mut rend = Renderer::init_only_once(&mut ctx, 800, 600);
    let mut local = LocalState::new();
    local.add_model_moves(quad_model(&mut ctx));
    local.add_model_moves(quad_model(&mut ctx));
    rend.load_shader_program(ShaderProg { id: 50 });
    rend.use_shader_idx(&mut ctx, 0).unwrap();
    ctx.take_commands();

    assert_eq!(draw_models(&mut rend, &mut ctx, &mut local, 2, 3), Ok(()));
    let draws = ctx
        .take_commands()
        .iter()
        .filter(|c| matches!(c, GlCommand::DrawTriangles { .. }))
        .count();
    assert_eq!(draws, 2);

    local.add_model_moves(Model::new_unloaded());
    assert_eq!(
        draw_models(&mut rend, &mut ctx, &mut local, 2, 3),
        Err("Model is not loaded")
    );
}

// An empty scene is a successful frame that draws nothing.
#[test]
fn empty_scene_draws_nothing_and_succeeds() {
    let mut ctx = GpuContext::new();
    let mut rend = Renderer::init_only_once(&mut ctx, 800, 600);
    let mut local = LocalState::new();
    ctx.take_commands();
    assert_eq!(draw_models(&mut rend, &mut ctx, &mut local, 2, 3), Ok(()));
    assert!(ctx.take_commands().is_empty());
}
