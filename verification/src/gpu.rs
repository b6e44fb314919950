//! Owned GPU resource wrappers: the vertex-array object with its ordered
//! attribute descriptors, the vertex buffer, and the element (index) buffer.
//!
//! Each wrapper owns exactly one native handle name, allocated at
//! construction from the [`GpuContext`] and released exactly once by the
//! consuming `release` method; the wrappers are not copyable, so the type
//! system rules out a double release.

use vstd::prelude::*;

use crate::context::{CmdView, GlCommand, GpuContext};

verus! {

/// One vertex-attribute descriptor: `width` components of element type `ty`
/// (a native enumerant), read with byte stride `stride` starting at byte
/// offset `start_idx`, for one shader input location.
#[derive(Clone, Copy, PartialEq, Eq, Structural, Debug)]
pub struct Attribute {
    pub width: u8,
    pub stride: usize,
    pub start_idx: usize,
    pub ty: u32,
}

/// A vertex-array object: a native handle plus the ordered attribute
/// descriptors it describes, one per shader input location, in ascending
/// location order.
pub struct VertexArrayObject {
    pub id: u32,
    pub layout: Vec<Attribute>,
}

/// A vertex buffer: owns one native buffer handle.
pub struct VertexBufferObject {
    pub id: u32,
}

/// An index buffer: owns one native buffer handle and records the element
/// count used to size draw calls.
pub struct ElementBufferObject {
    pub id: u32,
    pub num_elems: usize,
}

/// The commands that describe and enable attribute `location` of a bound
/// vertex array against the currently bound array buffer.
pub open spec fn attrib_cmds(location: u32, attr: Attribute) -> Seq<CmdView> {
    seq![
        CmdView::VertexAttribPointer { location, attr },
        CmdView::EnableVertexAttrib { location },
    ]
}

/// The commands that re-apply descriptors `layout[0..n]` at locations
/// `0..n`, in ascending location order.
pub open spec fn replayed_attribs(layout: Seq<Attribute>) -> Seq<CmdView>
    decreases layout.len(),
{
    if layout.len() == 0 {
        Seq::<CmdView>::empty()
    } else {
        replayed_attribs(layout.drop_last()) + attrib_cmds(
            (layout.len() - 1) as u32,
            layout.last(),
        )
    }
}

/// The commands that describe attributes `layout[0..n]` one by one, each
/// preceded by a bind of vertex array `vao_id`, as layout construction emits
/// them.
pub open spec fn described_attribs(vao_id: u32, layout: Seq<Attribute>) -> Seq<CmdView>
    decreases layout.len(),
{
    if layout.len() == 0 {
        Seq::<CmdView>::empty()
    } else {
        described_attribs(vao_id, layout.drop_last())
            + seq![CmdView::BindVertexArray { id: vao_id }] + attrib_cmds(
            (layout.len() - 1) as u32,
            layout.last(),
        )
    }
}

/// The commands that repoint vertex array `vao_id` at buffer `buffer_id`:
/// bind the buffer, bind the vertex array, then re-apply every stored
/// descriptor against the newly bound buffer.
pub open spec fn rebind_cmds(vao_id: u32, buffer_id: u32, layout: Seq<Attribute>) -> Seq<CmdView> {
    seq![
        CmdView::BindArrayBuffer { id: buffer_id },
        CmdView::BindVertexArray { id: vao_id },
    ] + replayed_attribs(layout)
}

impl VertexArrayObject {
    /// Allocates a native vertex-array handle; no attributes are described
    /// yet.
    pub fn new(ctx: &mut GpuContext) -> (r: VertexArrayObject)
        requires
            old(ctx).id_counter() < u32::MAX,
        ensures
            r.id == old(ctx).id_counter(),
            r.layout@ == Seq::<Attribute>::empty(),
            final(ctx)@ == old(ctx)@.push(CmdView::GenVertexArray { id: r.id }),
            final(ctx).id_counter() == old(ctx).id_counter() + 1,
    {
        let id = ctx.alloc_id();
        ctx.emit(GlCommand::GenVertexArray { id });
        VertexArrayObject { id, layout: Vec::new() }
    }

    /// Records descriptor `attr` at location `idx` and emits the commands
    /// that bind this vertex array and describe the attribute against the
    /// currently bound array buffer.
    pub fn push_attrib(&mut self, ctx: &mut GpuContext, idx: u32, attr: Attribute)
        ensures
            final(self).id == old(self).id,
            final(self).layout@ == old(self).layout@.push(attr),
            final(ctx)@ == old(ctx)@.push(CmdView::BindVertexArray { id: old(self).id })
                + attrib_cmds(idx, attr),
            final(ctx).id_counter() == old(ctx).id_counter(),
    {
        self.layout.push(attr);
        ctx.emit(GlCommand::BindVertexArray { id: self.id });
        ctx.emit(GlCommand::VertexAttribPointer { location: idx, attr });
        ctx.emit(GlCommand::EnableVertexAttrib { location: idx });
        proof {
            assert(ctx@ =~= old(ctx)@.push(CmdView::BindVertexArray { id: old(self).id })
                + attrib_cmds(idx, attr));
        }
    }

    /// Allocates a vertex array and describes `attribs` in order, location
    /// `i` taking `attribs[i]`.
    pub fn from_layout(ctx: &mut GpuContext, attribs: &Vec<Attribute>) -> (r: VertexArrayObject)
        requires
            old(ctx).id_counter() < u32::MAX,
            attribs@.len() <= u32::MAX,
        ensures
            r.id == old(ctx).id_counter(),
            r.layout@ == attribs@,
            final(ctx)@ == old(ctx)@.push(CmdView::GenVertexArray { id: r.id })
                + described_attribs(r.id, attribs@),
            final(ctx).id_counter() == old(ctx).id_counter() + 1,
    {
        let mut result = VertexArrayObject::new(ctx);
        let ghost base = ctx@;
        let ghost counter = ctx.id_counter();
        let mut i: usize = 0;
        while i < attribs.len()
            invariant
                i <= attribs@.len() <= u32::MAX,
                result.id == old(ctx).id_counter(),
                result.layout@ == attribs@.take(i as int),
                ctx@ == base + described_attribs(result.id, attribs@.take(i as int)),
                ctx.id_counter() == counter,
            decreases attribs@.len() - i,
        {
            let ghost prev = ctx@;
            result.push_attrib(ctx, i as u32, attribs[i]);
            proof {
                assert(attribs@.take(i + 1).drop_last() =~= attribs@.take(i as int));
                assert(attribs@.take(i + 1).last() == attribs@[i as int]);
                assert(ctx@ =~= base + described_attribs(result.id, attribs@.take(i + 1)));
            }
            i = i + 1;
        }
        proof {
            assert(attribs@.take(attribs@.len() as int) =~= attribs@);
            assert(base =~= old(ctx)@.push(CmdView::GenVertexArray { id: result.id }));
        }
        result
    }

    /// Repoints this vertex array at `vbo`: binds the buffer and the vertex
    /// array, then re-applies every stored descriptor against the newly
    /// bound buffer. After these commands run, draws through this vertex
    /// array read from `vbo` under the original descriptor sequence.
    pub fn rebind_to_new_buffer(&self, ctx: &mut GpuContext, vbo: &VertexBufferObject)
        requires
            self.layout@.len() <= u32::MAX,
        ensures
            final(ctx)@ == old(ctx)@ + rebind_cmds(self.id, vbo.id, self.layout@),
            final(ctx).id_counter() == old(ctx).id_counter(),
    {
        ctx.emit(GlCommand::BindArrayBuffer { id: vbo.id });
        ctx.emit(GlCommand::BindVertexArray { id: self.id });
        let ghost base = ctx@;
        let ghost counter = ctx.id_counter();
        let mut i: usize = 0;
        while i < self.layout.len()
            invariant
                i <= self.layout@.len() <= u32::MAX,
                ctx@ == base + replayed_attribs(self.layout@.take(i as int)),
                ctx.id_counter() == counter,
            decreases self.layout@.len() - i,
        {
            let attr = self.layout[i];
            ctx.emit(GlCommand::VertexAttribPointer { location: i as u32, attr });
            ctx.emit(GlCommand::EnableVertexAttrib { location: i as u32 });
            proof {
                assert(self.layout@.take(i + 1).drop_last() =~= self.layout@.take(i as int));
                assert(ctx@ =~= base + replayed_attribs(self.layout@.take(i + 1)));
            }
            i = i + 1;
        }
        proof {
            assert(self.layout@.take(self.layout@.len() as int) =~= self.layout@);
            assert(base =~= old(ctx)@ + seq![
                CmdView::BindArrayBuffer { id: vbo.id },
                CmdView::BindVertexArray { id: self.id },
            ]);
            assert(ctx@ =~= old(ctx)@ + rebind_cmds(self.id, vbo.id, self.layout@));
        }
    }

    /// Binds this vertex array.
    pub fn bind(&self, ctx: &mut GpuContext)
        ensures
            final(ctx)@ == old(ctx)@.push(CmdView::BindVertexArray { id: self.id }),
            final(ctx).id_counter() == old(ctx).id_counter(),
    {
        ctx.emit(GlCommand::BindVertexArray { id: self.id });
    }

    /// Releases the owned native handle. Consuming the wrapper makes a
    /// second release impossible.
    pub fn release(self, ctx: &mut GpuContext)
        ensures
            final(ctx)@ == old(ctx)@.push(CmdView::DeleteVertexArray { id: self.id }),
            final(ctx).id_counter() == old(ctx).id_counter(),
    {
        ctx.emit(GlCommand::DeleteVertexArray { id: self.id });
    }
}

/// The shape of an attribute replay: two commands per descriptor, the
/// descriptor of location `k / 2` at even `k` and its enable at odd `k`.
pub proof fn lemma_replayed_attribs_shape(layout: Seq<Attribute>)
    ensures
        replayed_attribs(layout).len() == 2 * layout.len(),
        forall|k: int|
            #![trigger replayed_attribs(layout)[k]]
            0 <= k < 2 * layout.len() ==> replayed_attribs(layout)[k] == (if k % 2 == 0 {
                (CmdView::VertexAttribPointer { location: (k / 2) as u32, attr: layout[k / 2] })
            } else {
                (CmdView::EnableVertexAttrib { location: (k / 2) as u32 })
            }),
    decreases layout.len(),
{
    if layout.len() > 0 {
        lemma_replayed_attribs_shape(layout.drop_last());
    }
}

/// The rebinding protocol, command by command: first the new buffer is
/// bound, then the vertex array, and then every stored descriptor is
/// described and enabled, in location order, against the newly bound
/// buffer; no other array-buffer bind follows the first command. A draw
/// issued after these commands therefore fetches from the new buffer under
/// the original descriptor sequence.
pub proof fn lemma_rebind_protocol(vao_id: u32, buffer_id: u32, layout: Seq<Attribute>)
    ensures
        rebind_cmds(vao_id, buffer_id, layout).len() == 2 + 2 * layout.len(),
        rebind_cmds(vao_id, buffer_id, layout)[0] == (CmdView::BindArrayBuffer { id: buffer_id }),
        rebind_cmds(vao_id, buffer_id, layout)[1] == (CmdView::BindVertexArray { id: vao_id }),
        forall|k: int|
            #![trigger rebind_cmds(vao_id, buffer_id, layout)[k]]
            2 <= k < 2 + 2 * layout.len() ==> rebind_cmds(vao_id, buffer_id, layout)[k] == (if (k
                - 2) % 2 == 0 {
                (CmdView::VertexAttribPointer {
                    location: ((k - 2) / 2) as u32,
                    attr: layout[(k - 2) / 2],
                })
            } else {
                (CmdView::EnableVertexAttrib { location: ((k - 2) / 2) as u32 })
            }),
        forall|k: int|
            1 <= k < 2 + 2 * layout.len() ==> !(#[trigger] rebind_cmds(
                vao_id,
                buffer_id,
                layout,
            )[k] is BindArrayBuffer),
{
    lemma_replayed_attribs_shape(layout);
}

/// Repointing a layout at buffer `a` and then at buffer `b` leaves `b` as
/// the buffer that the latest array-buffer bind selected: a draw after the
/// two rebinds reads from `b`.
pub proof fn lemma_rebind_targets_latest(vao_id: u32, a: u32, b: u32, layout: Seq<Attribute>)
    ensures
        crate::context::last_array_buffer_bind(
            rebind_cmds(vao_id, a, layout) + rebind_cmds(vao_id, b, layout),
        ) == Some(b),
{
    let second = rebind_cmds(vao_id, b, layout);
    lemma_rebind_protocol(vao_id, b, layout);
    crate::context::lemma_last_bind_skips_tail(second, 1);
    assert(second.take(1) =~= seq![CmdView::BindArrayBuffer { id: b }]);
    crate::context::lemma_last_bind_of_append(rebind_cmds(vao_id, a, layout), second, b);
}

impl VertexBufferObject {
    /// Allocates a native buffer handle with no contents.
    pub fn new(ctx: &mut GpuContext) -> (r: VertexBufferObject)
        requires
            old(ctx).id_counter() < u32::MAX,
        ensures
            r.id == old(ctx).id_counter(),
            final(ctx)@ == old(ctx)@.push(CmdView::GenBuffer { id: r.id }),
            final(ctx).id_counter() == old(ctx).id_counter() + 1,
    {
        let id = ctx.alloc_id();
        ctx.emit(GlCommand::GenBuffer { id });
        VertexBufferObject { id }
    }

    /// Allocates a buffer and uploads `data` as its static contents.
    pub fn from_data(ctx: &mut GpuContext, data: Vec<u32>) -> (r: VertexBufferObject)
        requires
            old(ctx).id_counter() < u32::MAX,
        ensures
            r.id == old(ctx).id_counter(),
            final(ctx)@ == old(ctx)@ + seq![
                CmdView::GenBuffer { id: r.id },
                CmdView::BindArrayBuffer { id: r.id },
                CmdView::ArrayBufferData { data: data@ },
            ],
            final(ctx).id_counter() == old(ctx).id_counter() + 1,
    {
        let result = VertexBufferObject::new(ctx);
        result.bind(ctx);
        ctx.emit(GlCommand::ArrayBufferData { data });
        proof {
            assert(ctx@ =~= old(ctx)@ + seq![
                CmdView::GenBuffer { id: result.id },
                CmdView::BindArrayBuffer { id: result.id },
                CmdView::ArrayBufferData { data: data@ },
            ]);
        }
        result
    }

    /// Binds this buffer as the current array buffer.
    pub fn bind(&self, ctx: &mut GpuContext)
        ensures
            final(ctx)@ == old(ctx)@.push(CmdView::BindArrayBuffer { id: self.id }),
            final(ctx).id_counter() == old(ctx).id_counter(),
    {
        ctx.emit(GlCommand::BindArrayBuffer { id: self.id });
    }

    /// Releases the owned native handle, exactly once.
    pub fn release(self, ctx: &mut GpuContext)
        ensures
            final(ctx)@ == old(ctx)@.push(CmdView::DeleteBuffer { id: self.id }),
            final(ctx).id_counter() == old(ctx).id_counter(),
    {
        ctx.emit(GlCommand::DeleteBuffer { id: self.id });
    }
}

impl ElementBufferObject {
    /// Allocates a native buffer handle; the element count starts at zero.
    pub fn new(ctx: &mut GpuContext) -> (r: ElementBufferObject)
        requires
            old(ctx).id_counter() < u32::MAX,
        ensures
            r.id == old(ctx).id_counter(),
            r.num_elems == 0,
            final(ctx)@ == old(ctx)@.push(CmdView::GenBuffer { id: r.id }),
            final(ctx).id_counter() == old(ctx).id_counter() + 1,
    {
        let id = ctx.alloc_id();
        ctx.emit(GlCommand::GenBuffer { id });
        ElementBufferObject { id, num_elems: 0 }
    }

    /// Allocates an index buffer, uploads `indices` as its static contents,
    /// and records their count for draw-call sizing.
    pub fn from_indices(ctx: &mut GpuContext, indices: Vec<u32>) -> (r: ElementBufferObject)
        requires
            old(ctx).id_counter() < u32::MAX,
        ensures
            r.id == old(ctx).id_counter(),
            r.num_elems == indices@.len(),
            final(ctx)@ == old(ctx)@ + seq![
                CmdView::GenBuffer { id: r.id },
                CmdView::BindElementBuffer { id: r.id },
                CmdView::ElementBufferData { data: indices@ },
            ],
            final(ctx).id_counter() == old(ctx).id_counter() + 1,
    {
        let mut result = ElementBufferObject::new(ctx);
        result.bind(ctx);
        let count = indices.len();
        ctx.emit(GlCommand::ElementBufferData { data: indices });
        result.num_elems = count;
        proof {
            assert(ctx@ =~= old(ctx)@ + seq![
                CmdView::GenBuffer { id: result.id },
                CmdView::BindElementBuffer { id: result.id },
                CmdView::ElementBufferData { data: indices@ },
            ]);
        }
        result
    }

    /// Binds this buffer as the current element buffer.
    pub fn bind(&self, ctx: &mut GpuContext)
        ensures
            final(ctx)@ == old(ctx)@.push(CmdView::BindElementBuffer { id: self.id }),
            final(ctx).id_counter() == old(ctx).id_counter(),
    {
        ctx.emit(GlCommand::BindElementBuffer { id: self.id });
    }

    /// Releases the owned native handle, exactly once.
    pub fn release(self, ctx: &mut GpuContext)
        ensures
            final(ctx)@ == old(ctx)@.push(CmdView::DeleteBuffer { id: self.id }),
            final(ctx).id_counter() == old(ctx).id_counter(),
    {
        ctx.emit(GlCommand::DeleteBuffer { id: self.id });
    }
}

} // verus!
