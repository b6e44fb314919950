//! The explicit graphics-context capability.
//!
//! Every constructor and operation of the GPU layer takes a [`GpuContext`]
//! instead of relying on ambient native state. The context hands out fresh
//! handle names and records, in order, every command the native driver must
//! execute. An unverified executor drains the queue with
//! [`GpuContext::take_commands`] and replays it against the native API; the
//! verified layer proves exactly which commands each operation emits.

use vstd::prelude::*;

use crate::gpu::Attribute;
use crate::shader::ShaderType;

verus! {

/// A framebuffer clear colour; each channel holds the IEEE-754 binary32
/// encoding of the channel value.
#[derive(Clone, Copy, PartialEq, Eq, Structural, Debug)]
pub struct Color {
    pub r: u32,
    pub g: u32,
    pub b: u32,
    pub a: u32,
}

/// One native command, as the executor receives it. Bulk payloads (vertex
/// data, index data, shader source) travel inside the command.
#[derive(Clone, PartialEq, Debug)]
pub enum GlCommand {
    GenVertexArray { id: u32 },
    GenBuffer { id: u32 },
    BindVertexArray { id: u32 },
    BindArrayBuffer { id: u32 },
    BindElementBuffer { id: u32 },
    /// Uploads static vertex data to the currently bound array buffer; the
    /// entries are IEEE-754 binary32 encodings.
    ArrayBufferData { data: Vec<u32> },
    /// Uploads static index data to the currently bound element buffer.
    ElementBufferData { data: Vec<u32> },
    /// Describes attribute `location` of the currently bound vertex array
    /// against the currently bound array buffer.
    VertexAttribPointer { location: u32, attr: Attribute },
    EnableVertexAttrib { location: u32 },
    CreateShader { id: u32, kind: ShaderType },
    ShaderSource { id: u32, source: String },
    CompileShader { id: u32 },
    CreateProgram { id: u32 },
    AttachShader { prog: u32, shader: u32 },
    DeleteShader { id: u32 },
    LinkProgram { id: u32 },
    UseProgram { id: u32 },
    UniformInts { location: i32, values: Vec<i32> },
    /// Scalar uniform values, IEEE-754 binary32 encodings.
    UniformFloats { location: i32, values: Vec<u32> },
    /// A row-major 4x4 matrix uniform, IEEE-754 binary32 encodings.
    UniformMatrix { location: i32, values: Vec<u32> },
    /// An indexed triangle-list draw sized to `index_count` elements.
    DrawTriangles { index_count: usize },
    PolygonModeLine,
    PolygonModeFill,
    ClearColor { color: Color },
    ClearColorBuffer,
    Viewport { width: i32, height: i32 },
    DeleteVertexArray { id: u32 },
    DeleteBuffer { id: u32 },
    DeleteProgram { id: u32 },
}

/// The mathematical image of one command: identical to [`GlCommand`] with
/// payloads abstracted to sequences.
pub enum CmdView {
    GenVertexArray { id: u32 },
    GenBuffer { id: u32 },
    BindVertexArray { id: u32 },
    BindArrayBuffer { id: u32 },
    BindElementBuffer { id: u32 },
    ArrayBufferData { data: Seq<u32> },
    ElementBufferData { data: Seq<u32> },
    VertexAttribPointer { location: u32, attr: Attribute },
    EnableVertexAttrib { location: u32 },
    CreateShader { id: u32, kind: ShaderType },
    ShaderSource { id: u32, source: Seq<char> },
    CompileShader { id: u32 },
    CreateProgram { id: u32 },
    AttachShader { prog: u32, shader: u32 },
    DeleteShader { id: u32 },
    LinkProgram { id: u32 },
    UseProgram { id: u32 },
    UniformInts { location: i32, values: Seq<i32> },
    UniformFloats { location: i32, values: Seq<u32> },
    UniformMatrix { location: i32, values: Seq<u32> },
    DrawTriangles { index_count: usize },
    PolygonModeLine,
    PolygonModeFill,
    ClearColor { color: Color },
    ClearColorBuffer,
    Viewport { width: i32, height: i32 },
    DeleteVertexArray { id: u32 },
    DeleteBuffer { id: u32 },
    DeleteProgram { id: u32 },
}

impl View for GlCommand {
    type V = CmdView;

    open spec fn view(&self) -> CmdView {
        match self {
            GlCommand::GenVertexArray { id } => CmdView::GenVertexArray { id: *id },
            GlCommand::GenBuffer { id } => CmdView::GenBuffer { id: *id },
            GlCommand::BindVertexArray { id } => CmdView::BindVertexArray { id: *id },
            GlCommand::BindArrayBuffer { id } => CmdView::BindArrayBuffer { id: *id },
            GlCommand::BindElementBuffer { id } => CmdView::BindElementBuffer { id: *id },
            GlCommand::ArrayBufferData { data } => CmdView::ArrayBufferData { data: data@ },
            GlCommand::ElementBufferData { data } => CmdView::ElementBufferData { data: data@ },
            GlCommand::VertexAttribPointer { location, attr } => CmdView::VertexAttribPointer {
                location: *location,
                attr: *attr,
            },
            GlCommand::EnableVertexAttrib { location } => CmdView::EnableVertexAttrib {
                location: *location,
            },
            GlCommand::CreateShader { id, kind } => CmdView::CreateShader {
                id: *id,
                kind: *kind,
            },
            GlCommand::ShaderSource { id, source } => CmdView::ShaderSource {
                id: *id,
                source: source@,
            },
            GlCommand::CompileShader { id } => CmdView::CompileShader { id: *id },
            GlCommand::CreateProgram { id } => CmdView::CreateProgram { id: *id },
            GlCommand::AttachShader { prog, shader } => CmdView::AttachShader {
                prog: *prog,
                shader: *shader,
            },
            GlCommand::DeleteShader { id } => CmdView::DeleteShader { id: *id },
            GlCommand::LinkProgram { id } => CmdView::LinkProgram { id: *id },
            GlCommand::UseProgram { id } => CmdView::UseProgram { id: *id },
            GlCommand::UniformInts { location, values } => CmdView::UniformInts {
                location: *location,
                values: values@,
            },
            GlCommand::UniformFloats { location, values } => CmdView::UniformFloats {
                location: *location,
                values: values@,
            },
            GlCommand::UniformMatrix { location, values } => CmdView::UniformMatrix {
                location: *location,
                values: values@,
            },
            GlCommand::DrawTriangles { index_count } => CmdView::DrawTriangles {
                index_count: *index_count,
            },
            GlCommand::PolygonModeLine => CmdView::PolygonModeLine,
            GlCommand::PolygonModeFill => CmdView::PolygonModeFill,
            GlCommand::ClearColor { color } => CmdView::ClearColor { color: *color },
            GlCommand::ClearColorBuffer => CmdView::ClearColorBuffer,
            GlCommand::Viewport { width, height } => CmdView::Viewport {
                width: *width,
                height: *height,
            },
            GlCommand::DeleteVertexArray { id } => CmdView::DeleteVertexArray { id: *id },
            GlCommand::DeleteBuffer { id } => CmdView::DeleteBuffer { id: *id },
            GlCommand::DeleteProgram { id } => CmdView::DeleteProgram { id: *id },
        }
    }
}

/// How many draw commands a command sequence holds.
pub open spec fn count_draws(cmds: Seq<CmdView>) -> nat
    decreases cmds.len(),
{
    if cmds.len() == 0 {
        0
    } else {
        count_draws(cmds.drop_last()) + (if cmds.last() is DrawTriangles {
            1nat
        } else {
            0nat
        })
    }
}

/// The buffer that the latest array-buffer bind of `cmds` selected, if any.
pub open spec fn last_array_buffer_bind(cmds: Seq<CmdView>) -> Option<u32>
    decreases cmds.len(),
{
    if cmds.len() == 0 {
        None
    } else {
        match cmds.last() {
            CmdView::BindArrayBuffer { id } => Some(id),
            _ => last_array_buffer_bind(cmds.drop_last()),
        }
    }
}

/// Counting draws distributes over concatenation.
pub proof fn lemma_count_draws_concat(a: Seq<CmdView>, b: Seq<CmdView>)
    ensures
        count_draws(a + b) == count_draws(a) + count_draws(b),
    decreases b.len(),
{
    if b.len() == 0 {
        assert(a + b =~= a);
    } else {
        lemma_count_draws_concat(a, b.drop_last());
        assert((a + b).drop_last() =~= a + b.drop_last());
    }
}

/// A sequence without draw commands counts zero draws.
pub proof fn lemma_count_draws_zero(cmds: Seq<CmdView>)
    requires
        forall|i: int| 0 <= i < cmds.len() ==> !(#[trigger] cmds[i] is DrawTriangles),
    ensures
        count_draws(cmds) == 0,
    decreases cmds.len(),
{
    if cmds.len() > 0 {
        lemma_count_draws_zero(cmds.drop_last());
    }
}

/// The latest array-buffer bind ignores a tail free of array-buffer binds.
pub proof fn lemma_last_bind_skips_tail(cmds: Seq<CmdView>, n: int)
    requires
        0 <= n <= cmds.len(),
        forall|k: int| n <= k < cmds.len() ==> !(#[trigger] cmds[k] is BindArrayBuffer),
    ensures
        last_array_buffer_bind(cmds) == last_array_buffer_bind(cmds.take(n)),
    decreases cmds.len() - n,
{
    if n < cmds.len() {
        lemma_last_bind_skips_tail(cmds.drop_last(), n);
        assert(cmds.drop_last().take(n) =~= cmds.take(n));
    } else {
        assert(cmds.take(n) =~= cmds);
    }
}

/// The latest array-buffer bind of a concatenation is the second part's,
/// whenever the second part has one.
pub proof fn lemma_last_bind_of_append(a: Seq<CmdView>, b: Seq<CmdView>, id: u32)
    requires
        last_array_buffer_bind(b) == Some(id),
    ensures
        last_array_buffer_bind(a + b) == Some(id),
    decreases b.len(),
{
    if b.len() > 0 {
        if !(b.last() is BindArrayBuffer) {
            assert((a + b).drop_last() =~= a + b.drop_last());
            lemma_last_bind_of_append(a, b.drop_last(), id);
        }
    }
}

/// The capability that owns the stream of pending native commands and the
/// supply of fresh handle names.
pub struct GpuContext {
    next_id: u32,
    commands: Vec<GlCommand>,
}

impl View for GpuContext {
    type V = Seq<CmdView>;

    /// The pending commands, oldest first.
    closed spec fn view(&self) -> Seq<CmdView> {
        self.commands@.map_values(|c: GlCommand| c@)
    }
}

impl GpuContext {
    /// The next handle name this context will hand out. Handle names are
    /// consumed in ascending order, so distinct allocations never collide.
    pub closed spec fn id_counter(&self) -> u32 {
        self.next_id
    }

    /// A context with no pending commands. Handle names start at 1, as
    /// native object names do; 0 is never handed out.
    pub fn new() -> (r: GpuContext)
        ensures
            r@ == Seq::<CmdView>::empty(),
            r.id_counter() == 1,
    {
        let r = GpuContext { next_id: 1, commands: Vec::new() };
        proof {
            assert(r@ =~= Seq::<CmdView>::empty());
        }
        r
    }

    /// The next handle name, as a runtime value: callers outside the
    /// verifier use it to check allocation headroom before constructing
    /// resources.
    pub fn peek_next_id(&self) -> (r: u32)
        ensures
            r == self.id_counter(),
    {
        self.next_id
    }

    /// Hands out a fresh handle name.
    pub(crate) fn alloc_id(&mut self) -> (id: u32)
        requires
            old(self).id_counter() < u32::MAX,
        ensures
            id == old(self).id_counter(),
            final(self).id_counter() == old(self).id_counter() + 1,
            final(self)@ == old(self)@,
    {
        let id = self.next_id;
        self.next_id = self.next_id + 1;
        id
    }

    /// Appends one command to the pending stream.
    pub(crate) fn emit(&mut self, cmd: GlCommand)
        ensures
            final(self)@ == old(self)@.push(cmd@),
            final(self).id_counter() == old(self).id_counter(),
    {
        self.commands.push(cmd);
        proof {
            assert(self@ =~= old(self)@.push(cmd@));
        }
    }

    /// Takes every pending command, leaving the stream empty; the executor
    /// replays the result in order.
    pub fn take_commands(&mut self) -> (r: Vec<GlCommand>)
        ensures
            r@.map_values(|c: GlCommand| c@) == old(self)@,
            final(self)@ == Seq::<CmdView>::empty(),
            final(self).id_counter() == old(self).id_counter(),
    {
        let mut taken: Vec<GlCommand> = Vec::new();
        core::mem::swap(&mut taken, &mut self.commands);
        proof {
            assert(self@ =~= Seq::<CmdView>::empty());
        }
        taken
    }
}

} // verus!
