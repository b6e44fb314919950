//! The renderer: owns the shader programs, the active-shader index, the
//! wireframe toggle and the current transform, and gates every draw call on
//! the model being loaded and a shader being active.

use vstd::prelude::*;

use std::sync::Arc;

use crate::context::{CmdView, Color, GlCommand, GpuContext};
use crate::localstate::LocalState;
use crate::math::{identity_bits, Mat4};
use crate::model::Model;
use crate::shader::ShaderProg;

verus! {

/// The encoding of the fixed colour-factor value uploaded to the `c`
/// uniform on every draw (IEEE-754 binary32).
pub const COLOR_FACTOR: u32 = 0x3ECC_CCCD;

pub struct Renderer {
    pub wireframe: bool,
    pub shaders: Vec<Arc<ShaderProg>>,
    pub shader_idx: i32,
    pub matrix: Mat4,
}

/// The commands that draw one model: activate the shader, upload the
/// current transform (flushed, row-major) to `model_loc` and the fixed
/// colour factor to `color_loc`, bind the model, then issue one indexed
/// triangle-list draw sized to the model's index count.
pub open spec fn draw_cmds(
    active_id: u32,
    model: Model,
    rows: Seq<u32>,
    model_loc: i32,
    color_loc: i32,
) -> Seq<CmdView>
    recommends
        model.all_present(),
{
    seq![
        CmdView::UseProgram { id: active_id },
        CmdView::UniformMatrix { location: model_loc, values: rows },
        CmdView::UniformFloats { location: color_loc, values: seq![COLOR_FACTOR] },
    ] + model.bind_cmds() + seq![CmdView::DrawTriangles { index_count: model.index_count() }]
}

/// The commands of one whole frame over `models`: the draw commands of
/// each model, in order.
pub open spec fn frame_cmds(
    models: Seq<Model>,
    active_id: u32,
    rows: Seq<u32>,
    model_loc: i32,
    color_loc: i32,
) -> Seq<CmdView>
    decreases models.len(),
{
    if models.len() == 0 {
        Seq::<CmdView>::empty()
    } else {
        frame_cmds(models.drop_last(), active_id, rows, model_loc, color_loc) + draw_cmds(
            active_id,
            models.last(),
            rows,
            model_loc,
            color_loc,
        )
    }
}

/// Drawing one model issues exactly one draw call: the draw commands hold
/// a single draw, it is their last command, and it is sized to the model's
/// index count.
pub proof fn lemma_one_draw_per_model(
    active_id: u32,
    m: Model,
    rows: Seq<u32>,
    model_loc: i32,
    color_loc: i32,
)
    requires
        m.all_present(),
    ensures
        crate::context::count_draws(draw_cmds(active_id, m, rows, model_loc, color_loc)) == 1,
        draw_cmds(active_id, m, rows, model_loc, color_loc).last() == (CmdView::DrawTriangles {
            index_count: m.index_count(),
        }),
{
    let head = seq![
        CmdView::UseProgram { id: active_id },
        CmdView::UniformMatrix { location: model_loc, values: rows },
        CmdView::UniformFloats { location: color_loc, values: seq![COLOR_FACTOR] },
    ];
    let tail = seq![CmdView::DrawTriangles { index_count: m.index_count() }];
    crate::model::lemma_bind_emits_no_draw(m);
    crate::context::lemma_count_draws_zero(m.bind_cmds());
    let h2 = head.drop_last();
    let h1 = h2.drop_last();
    let h0 = h1.drop_last();
    assert(h0 =~= Seq::<CmdView>::empty());
    assert(crate::context::count_draws(h0) == 0);
    assert(!(h1.last() is DrawTriangles) && crate::context::count_draws(h1) == 0);
    assert(!(h2.last() is DrawTriangles) && crate::context::count_draws(h2) == 0);
    assert(!(head.last() is DrawTriangles) && crate::context::count_draws(head) == 0);
    assert(tail.drop_last() =~= Seq::<CmdView>::empty());
    assert(crate::context::count_draws(tail) == 1);
    crate::context::lemma_count_draws_concat(head, m.bind_cmds());
    crate::context::lemma_count_draws_concat(head + m.bind_cmds(), tail);
    assert(draw_cmds(active_id, m, rows, model_loc, color_loc) =~= (head + m.bind_cmds()) + tail);
    assert(draw_cmds(active_id, m, rows, model_loc, color_loc).last() == tail[0]);
}

/// A whole frame issues exactly as many draw calls as the scene has
/// models: one per model, each sized to that model's index count.
pub proof fn lemma_frame_draw_count(
    models: Seq<Model>,
    active_id: u32,
    rows: Seq<u32>,
    model_loc: i32,
    color_loc: i32,
)
    requires
        forall|i: int| 0 <= i < models.len() ==> (#[trigger] models[i]).all_present(),
    ensures
        crate::context::count_draws(frame_cmds(models, active_id, rows, model_loc, color_loc))
            == models.len(),
    decreases models.len(),
{
    if models.len() > 0 {
        lemma_frame_draw_count(models.drop_last(), active_id, rows, model_loc, color_loc);
        lemma_one_draw_per_model(active_id, models.last(), rows, model_loc, color_loc);
        crate::context::lemma_count_draws_concat(
            frame_cmds(models.drop_last(), active_id, rows, model_loc, color_loc),
            draw_cmds(active_id, models.last(), rows, model_loc, color_loc),
        );
    }
}

impl Renderer {
    /// The transform is well formed; every operation preserves this.
    pub open spec fn wf(&self) -> bool {
        self.matrix@.wf()
    }

    /// Whether `idx` denotes a shader of the collection.
    pub open spec fn valid_shader_idx(&self, idx: int) -> bool {
        0 <= idx < self.shaders@.len()
    }

    /// The handle of the active shader program.
    pub open spec fn active_shader_id(&self) -> u32
        recommends
            self.valid_shader_idx(self.shader_idx as int),
    {
        self.shaders@[self.shader_idx as int].id
    }

    /// Everything but the transform is unchanged.
    pub open spec fn same_but_matrix(&self, other: &Renderer) -> bool {
        &&& self.wireframe == other.wireframe
        &&& self.shaders == other.shaders
        &&& self.shader_idx == other.shader_idx
    }

    /// Initializes a renderer against a context whose drawable area is
    /// `width` by `height`: sets the viewport once, no shaders yet, the
    /// active-shader index at the none sentinel, the transform at identity.
    pub fn init_only_once(ctx: &mut GpuContext, width: i32, height: i32) -> (r: Renderer)
        ensures
            r.wf(),
            !r.wireframe,
            r.shaders@ == Seq::<Arc<ShaderProg>>::empty(),
            r.shader_idx == -1,
            r.matrix@.rows == identity_bits(),
            !r.matrix@.dirty,
            final(ctx)@ == old(ctx)@.push(CmdView::Viewport { width, height }),
            final(ctx).id_counter() == old(ctx).id_counter(),
    {
        ctx.emit(GlCommand::Viewport { width, height });
        let r = Renderer {
            wireframe: false,
            shaders: Vec::new(),
            shader_idx: -1,
            matrix: Mat4::identity(),
        };
        proof {
            assert(r.shaders@ =~= Seq::<Arc<ShaderProg>>::empty());
        }
        r
    }

    /// Takes ownership of a linked program, adds it to the collection, and
    /// returns its index.
    pub fn load_shader_program(&mut self, prog: ShaderProg) -> (idx: usize)
        ensures
            idx == old(self).shaders@.len(),
            final(self).shaders@.len() == old(self).shaders@.len() + 1,
            final(self).shaders@.last().id == prog.id,
            forall|i: int|
                0 <= i < old(self).shaders@.len()
                    ==> final(self).shaders@[i] == old(self).shaders@[i],
            final(self).wireframe == old(self).wireframe,
            final(self).shader_idx == old(self).shader_idx,
            final(self).matrix == old(self).matrix,
    {
        let idx = self.shaders.len();
        self.shaders.push(Arc::new(prog));
        idx
    }

    /// Makes the shader at `shader_idx` active: on a valid index it records
    /// the index and binds the program; on an invalid index it fails and
    /// changes nothing.
    pub fn use_shader_idx(&mut self, ctx: &mut GpuContext, shader_idx: i32) -> (r: Result<
        (),
        &'static str,
    >)
        ensures
            old(self).valid_shader_idx(shader_idx as int) ==> {
                &&& r is Ok
                &&& final(self).shader_idx == shader_idx
                &&& final(ctx)@ == old(ctx)@.push(
                    CmdView::UseProgram { id: old(self).shaders@[shader_idx as int].id },
                )
            },
            !old(self).valid_shader_idx(shader_idx as int) ==> {
                &&& (r matches Err(e) && e@ == "Could not activate given shader"@)
                &&& final(self).shader_idx == old(self).shader_idx
                &&& final(ctx)@ == old(ctx)@
            },
            final(self).wireframe == old(self).wireframe,
            final(self).shaders == old(self).shaders,
            final(self).matrix == old(self).matrix,
            final(ctx).id_counter() == old(ctx).id_counter(),
    {
        if shader_idx >= 0 && (shader_idx as usize) < self.shaders.len() {
            let shader = &self.shaders[shader_idx as usize];
            shader.activate(ctx);
            self.shader_idx = shader_idx;
            Ok(())
        } else {
            Err("Could not activate given shader")
        }
    }

    /// Draws a model under the active shader: fails with no command
    /// emitted if the model is not loaded, if no shader is active, or if a
    /// uniform location is the driver's invalid sentinel. On success it
    /// activates the shader, uploads the flushed transform and the fixed
    /// colour factor, binds the model, then issues exactly one indexed
    /// draw sized to the model's index count.
    pub fn draw_model(
        &mut self,
        ctx: &mut GpuContext,
        model: &mut Model,
        model_loc: i32,
        color_loc: i32,
    ) -> (r: Result<(), &'static str>)
        requires
            old(self).wf(),
            old(model).wf(),
        ensures
            final(self).wf(),
            old(self).same_but_matrix(final(self)),
            final(self).matrix@.rows == old(self).matrix@.rows,
            final(model).wf(),
            final(model).buffer == old(model).buffer,
            final(model).array == old(model).array,
            final(model).indices == old(model).indices,
            final(model).loaded_flag() == old(model).all_present(),
            final(ctx).id_counter() == old(ctx).id_counter(),
            !old(model).all_present() ==> {
                &&& (r matches Err(e) && e@ == "Model is not loaded"@)
                &&& final(ctx)@ == old(ctx)@
                &&& final(self).matrix == old(self).matrix
            },
            old(model).all_present() && !old(self).valid_shader_idx(old(self).shader_idx as int)
                ==> {
                &&& (r matches Err(e) && e@ == "No active shader"@)
                &&& final(ctx)@ == old(ctx)@
                &&& final(self).matrix == old(self).matrix
            },
            old(model).all_present() && old(self).valid_shader_idx(old(self).shader_idx as int)
                && (model_loc == -1 || color_loc == -1) ==> {
                &&& (r matches Err(e) && e@ == "Could not set uniform"@)
                &&& final(ctx)@ == old(ctx)@
                &&& final(self).matrix == old(self).matrix
            },
            old(model).all_present() && old(self).valid_shader_idx(old(self).shader_idx as int)
                && model_loc != -1 && color_loc != -1 ==> {
                &&& r is Ok
                &&& final(ctx)@ == old(ctx)@ + draw_cmds(
                    old(self).active_shader_id(),
                    *old(model),
                    old(self).matrix@.rows,
                    model_loc,
                    color_loc,
                )
                &&& !final(self).matrix@.dirty
            },
    {
        if !model.is_loaded() {
            return Err("Model is not loaded");
        }
        if !(self.shader_idx >= 0 && (self.shader_idx as usize) < self.shaders.len()) {
            return Err("No active shader");
        }
        if model_loc == -1 || color_loc == -1 {
            return Err("Could not set uniform");
        }
        let flat = self.matrix.get();
        let shader = &self.shaders[self.shader_idx as usize];
        shader.activate(ctx);
        match shader.uniform_matrix4f(ctx, model_loc, flat) {
            Ok(()) => {},
            Err(_) => {
                return Err("Could not set uniform");
            },
        }
        let mut color_value: Vec<u32> = Vec::new();
        color_value.push(COLOR_FACTOR);
        proof {
            assert(color_value@ =~= seq![COLOR_FACTOR]);
        }
        match shader.uniform_float_array(ctx, color_loc, color_value) {
            Ok(()) => {},
            Err(_) => {
                return Err("Could not set uniform");
            },
        }
        match model.bind(ctx) {
            Ok(()) => {},
            Err(_) => {
                return Err("Something is wrong with model.is_loaded");
            },
        }
        let num_indices: usize = match &model.indices {
            Some(ebo) => ebo.num_elems,
            None => {
                return Err("Something is wrong with model.is_loaded");
            },
        };
        ctx.emit(GlCommand::DrawTriangles { index_count: num_indices });
        proof {
            assert(ctx@ =~= old(ctx)@ + draw_cmds(
                old(self).active_shader_id(),
                *old(model),
                old(self).matrix@.rows,
                model_loc,
                color_loc,
            ));
        }
        Ok(())
    }

    /// Flips the wireframe flag and mirrors it into the native polygon
    /// mode: entering wireframe draws lines, leaving it draws filled faces.
    pub fn toggle_wireframe(&mut self, ctx: &mut GpuContext)
        ensures
            final(self).wireframe == !old(self).wireframe,
            final(self).shaders == old(self).shaders,
            final(self).shader_idx == old(self).shader_idx,
            final(self).matrix == old(self).matrix,
            old(self).wireframe ==> final(ctx)@ == old(ctx)@.push(CmdView::PolygonModeFill),
            !old(self).wireframe ==> final(ctx)@ == old(ctx)@.push(CmdView::PolygonModeLine),
            final(ctx).id_counter() == old(ctx).id_counter(),
    {
        if self.wireframe {
            ctx.emit(GlCommand::PolygonModeFill);
        } else {
            ctx.emit(GlCommand::PolygonModeLine);
        }
        self.wireframe = !self.wireframe;
    }

    /// Sets the clear colour and clears the colour buffer.
    pub fn clear(&self, ctx: &mut GpuContext, color: Color)
        ensures
            final(ctx)@ == old(ctx)@ + seq![
                CmdView::ClearColor { color },
                CmdView::ClearColorBuffer,
            ],
            final(ctx).id_counter() == old(ctx).id_counter(),
    {
        ctx.emit(GlCommand::ClearColor { color });
        ctx.emit(GlCommand::ClearColorBuffer);
        proof {
            assert(ctx@ =~= old(ctx)@ + seq![
                CmdView::ClearColor { color },
                CmdView::ClearColorBuffer,
            ]);
        }
    }
}

/// Clears the framebuffer to the scene's clear colour.
pub fn clear_screen(rend: &Renderer, ctx: &mut GpuContext, local: &LocalState)
    ensures
        final(ctx)@ == old(ctx)@ + seq![
            CmdView::ClearColor { color: local.clear_color },
            CmdView::ClearColorBuffer,
        ],
        final(ctx).id_counter() == old(ctx).id_counter(),
{
    rend.clear(ctx, local.clear_color);
}

/// Draws every model of the scene in order. The first failure stops the
/// frame and is returned; a frame succeeds exactly when every model is
/// loaded and, if there is anything to draw, a shader is active and both
/// uniform locations are valid.
pub fn draw_models(
    rend: &mut Renderer,
    ctx: &mut GpuContext,
    local: &mut LocalState,
    model_loc: i32,
    color_loc: i32,
) -> (r: Result<(), &'static str>)
    requires
        old(rend).wf(),
        forall|i: int|
            0 <= i < old(local).models@.len() ==> (#[trigger] old(local).models@[i]).wf(),
    ensures
        final(rend).wf(),
        old(rend).same_but_matrix(final(rend)),
        final(rend).matrix@.rows == old(rend).matrix@.rows,
        final(local).clear_color == old(local).clear_color,
        final(local).models@.len() == old(local).models@.len(),
        forall|i: int|
            0 <= i < old(local).models@.len() ==> {
                &&& (#[trigger] final(local).models@[i]).wf()
                &&& final(local).models@[i].buffer == old(local).models@[i].buffer
                &&& final(local).models@[i].array == old(local).models@[i].array
                &&& final(local).models@[i].indices == old(local).models@[i].indices
            },
        final(ctx).id_counter() == old(ctx).id_counter(),
        r is Ok <==> (forall|i: int|
            0 <= i < old(local).models@.len() ==> (#[trigger] old(local).models@[i]).all_present())
            && (old(local).models@.len() > 0 ==> old(rend).valid_shader_idx(
            old(rend).shader_idx as int,
        ) && model_loc != -1 && color_loc != -1),
        r is Ok ==> final(ctx)@ == old(ctx)@ + frame_cmds(
            old(local).models@,
            old(rend).active_shader_id(),
            old(rend).matrix@.rows,
            model_loc,
            color_loc,
        ),
{
    let ghost models0 = old(local).models@;
    let mut i: usize = 0;
    while i < local.models.len()
        invariant
            old(rend).wf(),
            rend.wf(),
            old(rend).same_but_matrix(rend),
            rend.matrix@.rows == old(rend).matrix@.rows,
            models0 == old(local).models@,
            i <= local.models@.len(),
            local.models@.len() == models0.len(),
            local.clear_color == old(local).clear_color,
            forall|j: int|
                0 <= j < models0.len() ==> {
                    &&& (#[trigger] local.models@[j]).wf()
                    &&& local.models@[j].buffer == models0[j].buffer
                    &&& local.models@[j].array == models0[j].array
                    &&& local.models@[j].indices == models0[j].indices
                },
            forall|j: int| 0 <= j < i ==> (#[trigger] models0[j]).all_present(),
            i > 0 ==> old(rend).valid_shader_idx(old(rend).shader_idx as int) && model_loc != -1
                && color_loc != -1,
            ctx@ == old(ctx)@ + frame_cmds(models0.take(i as int),
                old(rend).active_shader_id(), old(rend).matrix@.rows, model_loc, color_loc),
            ctx.id_counter() == old(ctx).id_counter(),
        decreases local.models@.len() - i,
    {
        let step: Result<(), &'static str> = {
            let model = &mut local.models[i];
            rend.draw_model(ctx, model, model_loc, color_loc)
        };
        match step {
            Ok(()) => {},
            Err(e) => {
                return Err(e);
            },
        }
        proof {
            assert(models0.take(i + 1).drop_last() =~= models0.take(i as int));
            assert(ctx@ =~= old(ctx)@ + frame_cmds(models0.take(i + 1),
                old(rend).active_shader_id(), old(rend).matrix@.rows, model_loc, color_loc));
        }
        i = i + 1;
    }
    proof {
        assert(models0.take(models0.len() as int) =~= models0);
    }
    Ok(())
}

} // verus!
