//! Mesh composition: a model aggregates one vertex buffer, one index buffer
//! and one vertex layout, shared or exclusive, and gates binding on all
//! three being present.

use vstd::prelude::*;

use std::sync::Arc;

use crate::context::{CmdView, GpuContext};
use crate::gpu::{
    rebind_cmds, Attribute, ElementBufferObject, VertexArrayObject, VertexBufferObject,
};

verus! {

/// Relies on `Arc::clone` of std: the clone is a second owner of the same
/// allocation, so it holds the same value, and the shared native handle is
/// released only when the last owner is dropped.
#[verifier::external_body]
fn share_arc<T>(v: &Arc<T>) -> (res: Arc<T>)
    ensures
        res == *v,
{
    Arc::clone(v)
}

pub struct Model {
    pub buffer: Option<Arc<VertexBufferObject>>,
    pub array: Option<Arc<VertexArrayObject>>,
    pub indices: Option<Arc<ElementBufferObject>>,
    pub is_loaded: bool,
}

impl Model {
    /// All three sub-resources are present.
    pub open spec fn all_present(&self) -> bool {
        self.buffer is Some && self.array is Some && self.indices is Some
    }

    /// The cached loaded flag.
    pub open spec fn loaded_flag(&self) -> bool {
        self.is_loaded
    }

    /// The cached flag never claims more than the resources show.
    pub open spec fn wf(&self) -> bool {
        &&& (self.loaded_flag() ==> self.all_present())
        &&& (self.array matches Some(a) ==> a.layout@.len() <= u32::MAX)
    }

    /// The element count of the index buffer, which sizes draw calls.
    pub open spec fn index_count(&self) -> usize
        recommends
            self.indices is Some,
    {
        self.indices.unwrap().num_elems
    }

    /// The commands a successful bind emits: bind the index buffer, repoint
    /// the vertex array at the vertex buffer, bind the vertex buffer.
    pub open spec fn bind_cmds(&self) -> Seq<CmdView>
        recommends
            self.all_present(),
    {
        seq![CmdView::BindElementBuffer { id: self.indices.unwrap().id }] + rebind_cmds(
            self.array.unwrap().id,
            self.buffer.unwrap().id,
            self.array.unwrap().layout@,
        ) + seq![CmdView::BindArrayBuffer { id: self.buffer.unwrap().id }]
    }

    /// A model with no resources; it reports unloaded and refuses to bind.
    pub fn new_unloaded() -> (r: Model)
        ensures
            r.buffer is None,
            r.array is None,
            r.indices is None,
            !r.loaded_flag(),
            r.wf(),
    {
        Model { buffer: None, indices: None, array: None, is_loaded: false }
    }

    /// Composes a model from vertex data, index data and an already built
    /// vertex array: uploads the data into a fresh vertex buffer and a fresh
    /// index buffer. The result is loaded from the start.
    pub fn from_data_and_vao(
        ctx: &mut GpuContext,
        data: Vec<u32>,
        indices: Vec<u32>,
        vao: VertexArrayObject,
    ) -> (r: Model)
        requires
            old(ctx).id_counter() <= u32::MAX - 2,
            vao.layout@.len() <= u32::MAX,
        ensures
            r.wf(),
            r.all_present(),
            r.loaded_flag(),
            r.buffer.unwrap().id == old(ctx).id_counter(),
            r.indices.unwrap().id == old(ctx).id_counter() + 1,
            r.array.unwrap().id == vao.id,
            r.array.unwrap().layout@ == vao.layout@,
            r.index_count() == indices@.len(),
            final(ctx)@ == old(ctx)@ + seq![
                CmdView::GenBuffer { id: r.buffer.unwrap().id },
                CmdView::BindArrayBuffer { id: r.buffer.unwrap().id },
                CmdView::ArrayBufferData { data: data@ },
                CmdView::GenBuffer { id: r.indices.unwrap().id },
                CmdView::BindElementBuffer { id: r.indices.unwrap().id },
                CmdView::ElementBufferData { data: indices@ },
            ],
            final(ctx).id_counter() == old(ctx).id_counter() + 2,
    {
        let ghost data_view = data@;
        let ghost index_view = indices@;
        let vbo = VertexBufferObject::from_data(ctx, data);
        let ebo = ElementBufferObject::from_indices(ctx, indices);
        let r = Model {
            buffer: Some(Arc::new(vbo)),
            array: Some(Arc::new(vao)),
            indices: Some(Arc::new(ebo)),
            is_loaded: true,
        };
        proof {
            assert(ctx@ =~= old(ctx)@ + seq![
                CmdView::GenBuffer { id: r.buffer.unwrap().id },
                CmdView::BindArrayBuffer { id: r.buffer.unwrap().id },
                CmdView::ArrayBufferData { data: data_view },
                CmdView::GenBuffer { id: r.indices.unwrap().id },
                CmdView::BindElementBuffer { id: r.indices.unwrap().id },
                CmdView::ElementBufferData { data: index_view },
            ]);
        }
        r
    }

    /// Composes a model from raw data: builds a vertex array from the
    /// attribute descriptors, then uploads vertex and index data.
    pub fn from_data_and_layout(
        ctx: &mut GpuContext,
        data: Vec<u32>,
        indices: Vec<u32>,
        attribs: &Vec<Attribute>,
    ) -> (r: Model)
        requires
            old(ctx).id_counter() <= u32::MAX - 3,
            attribs@.len() <= u32::MAX,
        ensures
            r.wf(),
            r.all_present(),
            r.loaded_flag(),
            r.array.unwrap().id == old(ctx).id_counter(),
            r.array.unwrap().layout@ == attribs@,
            r.buffer.unwrap().id == old(ctx).id_counter() + 1,
            r.indices.unwrap().id == old(ctx).id_counter() + 2,
            r.index_count() == indices@.len(),
            final(ctx)@ == old(ctx)@ + seq![
                CmdView::GenVertexArray { id: r.array.unwrap().id },
            ] + crate::gpu::described_attribs(r.array.unwrap().id, attribs@) + seq![
                CmdView::GenBuffer { id: r.buffer.unwrap().id },
                CmdView::BindArrayBuffer { id: r.buffer.unwrap().id },
                CmdView::ArrayBufferData { data: data@ },
                CmdView::GenBuffer { id: r.indices.unwrap().id },
                CmdView::BindElementBuffer { id: r.indices.unwrap().id },
                CmdView::ElementBufferData { data: indices@ },
            ],
            final(ctx).id_counter() == old(ctx).id_counter() + 3,
    {
        let ghost data_view = data@;
        let ghost index_view = indices@;
        let vao = VertexArrayObject::from_layout(ctx, attribs);
        let r = Model::from_data_and_vao(ctx, data, indices, vao);
        proof {
            assert(ctx@ =~= old(ctx)@ + seq![
                CmdView::GenVertexArray { id: r.array.unwrap().id },
            ] + crate::gpu::described_attribs(r.array.unwrap().id, attribs@) + seq![
                CmdView::GenBuffer { id: r.buffer.unwrap().id },
                CmdView::BindArrayBuffer { id: r.buffer.unwrap().id },
                CmdView::ArrayBufferData { data: data_view },
                CmdView::GenBuffer { id: r.indices.unwrap().id },
                CmdView::BindElementBuffer { id: r.indices.unwrap().id },
                CmdView::ElementBufferData { data: index_view },
            ]);
        }
        r
    }

    /// Composes a model that shares already existing resources. Sharing is
    /// by reference count: the shared handles are released only when the
    /// last owner is dropped.
    pub fn from_parts(
        buffer: &Arc<VertexBufferObject>,
        array: &Arc<VertexArrayObject>,
        indices: &Arc<ElementBufferObject>,
    ) -> (r: Model)
        requires
            array.layout@.len() <= u32::MAX,
        ensures
            r.wf(),
            r.all_present(),
            r.loaded_flag(),
            r.buffer.unwrap() == *buffer,
            r.array.unwrap() == *array,
            r.indices.unwrap() == *indices,
    {
        Model {
            buffer: Some(share_arc(buffer)),
            array: Some(share_arc(array)),
            indices: Some(share_arc(indices)),
            is_loaded: true,
        }
    }

    /// Binds the model for drawing: index buffer, then the vertex array
    /// repointed at the vertex buffer, then the vertex buffer. With any
    /// sub-resource missing it fails and emits no command.
    pub fn bind(&self, ctx: &mut GpuContext) -> (r: Result<(), &'static str>)
        requires
            self.wf(),
        ensures
            self.all_present() ==> r is Ok && final(ctx)@ == old(ctx)@ + self.bind_cmds(),
            !self.all_present() ==> (r matches Err(e) && e@ == "Model not loaded"@),
            !self.all_present() ==> final(ctx)@ == old(ctx)@,
            final(ctx).id_counter() == old(ctx).id_counter(),
    {
        match (&self.buffer, &self.array, &self.indices) {
            (Some(vbo), Some(vao), Some(ebo)) => {
                ebo.bind(ctx);
                vao.rebind_to_new_buffer(ctx, vbo);
                vbo.bind(ctx);
                proof {
                    assert(ctx@ =~= old(ctx)@ + self.bind_cmds());
                }
                Ok(())
            },
            _ => Err("Model not loaded"),
        }
    }

    /// Whether the buffer, the vertex array and the index buffer are all
    /// present. The answer is computed once and cached: a model that has
    /// reported loaded keeps reporting loaded.
    pub fn is_loaded(&mut self) -> (r: bool)
        requires
            old(self).wf(),
        ensures
            r == old(self).all_present(),
            final(self).loaded_flag() == r,
            final(self).wf(),
            final(self).buffer == old(self).buffer,
            final(self).array == old(self).array,
            final(self).indices == old(self).indices,
    {
        if !self.is_loaded {
            self.is_loaded = match (&self.buffer, &self.array, &self.indices) {
                (Some(_), Some(_), Some(_)) => true,
                _ => false,
            };
        }
        self.is_loaded
    }
}

/// No command of a model bind rasterizes anything: binding never draws.
pub proof fn lemma_bind_emits_no_draw(m: Model)
    requires
        m.all_present(),
    ensures
        forall|i: int|
            0 <= i < m.bind_cmds().len() ==> !(#[trigger] m.bind_cmds()[i] is DrawTriangles),
{
    lemma_replayed_attribs_no_draw(m.array.unwrap().layout@);
}

/// Replaying attribute descriptors emits only describe and enable commands.
pub proof fn lemma_replayed_attribs_no_draw(layout: Seq<Attribute>)
    ensures
        forall|i: int|
            0 <= i < crate::gpu::replayed_attribs(layout).len() ==> {
                let c = #[trigger] crate::gpu::replayed_attribs(layout)[i];
                c is VertexAttribPointer || c is EnableVertexAttrib
            },
    decreases layout.len(),
{
    if layout.len() > 0 {
        lemma_replayed_attribs_no_draw(layout.drop_last());
    }
}

} // verus!
