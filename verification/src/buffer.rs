//! Scoped buffer and vertex-array objects.
//!
//! A [`Buffer`] owns one native buffer object of a fixed kind and the
//! bytes last uploaded to it; a [`VertexArray`] owns one native
//! vertex-array object and the attribute-pointer configuration recorded
//! while it was bound. Both allocate their handle on construction and
//! release it exactly once, in [`Buffer::destroy`] / [`VertexArray::destroy`];
//! single ownership makes a second release impossible.

use vstd::prelude::*;

use crate::context::{BufferKind, Context};
use crate::data::{AttribFormat, AttribPointer};
use core::marker::PhantomData;

verus! {

/// The binding slot a buffer object of this type occupies.
pub trait BufferType {
    spec fn spec_buffer_kind() -> BufferKind;

    fn buffer_kind() -> (k: BufferKind)
        ensures
            k == Self::spec_buffer_kind(),
    ;
}

/// Marker for buffers of vertex-attribute data.
pub struct VertexBufferType;

impl BufferType for VertexBufferType {
    open spec fn spec_buffer_kind() -> BufferKind {
        BufferKind::VertexData
    }

    fn buffer_kind() -> (k: BufferKind) {
        BufferKind::VertexData
    }
}

/// Marker for buffers of index data.
pub struct ElementArrayType;

impl BufferType for ElementArrayType {
    open spec fn spec_buffer_kind() -> BufferKind {
        BufferKind::IndexData
    }

    fn buffer_kind() -> (k: BufferKind) {
        BufferKind::IndexData
    }
}

pub type VertexBuffer = Buffer<VertexBufferType>;

pub type ElementArray = Buffer<ElementArrayType>;

/// An upload replaces the whole backing store: the resulting contents
/// are the payload alone, independent of what was stored before.
pub open spec fn uploaded(previous: Seq<u8>, payload: Seq<u8>) -> Seq<u8> {
    payload
}

/// After uploading `first` and then `second`, the store holds exactly
/// `second`: nothing of `first` (or of anything earlier) survives.
pub proof fn lemma_upload_replaces(initial: Seq<u8>, first: Seq<u8>, second: Seq<u8>)
    ensures
        uploaded(uploaded(initial, first), second) == second,
        uploaded(uploaded(initial, first), second) == uploaded(initial, second),
{
}

/// One buffer object of kind `B`, owning its native handle and the
/// bytes last uploaded.
pub struct Buffer<B: BufferType> {
    id: u64,
    data: Vec<u8>,
    _marker: PhantomData<B>,
}

impl<B: BufferType> Buffer<B> {
    /// The native handle.
    pub closed spec fn id(self) -> u64 {
        self.id
    }

    /// The bytes last uploaded.
    pub closed spec fn contents(self) -> Seq<u8> {
        self.data@
    }

    /// A buffer's handle is never the empty handle `0`.
    pub open spec fn wf(self) -> bool {
        self.id() >= 1
    }

    /// Allocate one native buffer object. The new buffer holds no bytes.
    pub fn new(ctx: &mut Context) -> (b: Buffer<B>)
        requires
            old(ctx).wf(),
            old(ctx).can_alloc(),
        ensures
            final(ctx).wf(),
            b.wf(),
            b.id() == final(ctx).allocated(),
            b.contents() == Seq::<u8>::empty(),
            final(ctx).allocated() == old(ctx).allocated() + 1,
            final(ctx).released() == old(ctx).released(),
            final(ctx).same_bindings(*old(ctx)),
            final(ctx).same_link_state(*old(ctx)),
            final(ctx).same_records(*old(ctx)),
    {
        let id = ctx.gen_handle();
        Buffer { id, data: Vec::new(), _marker: PhantomData }
    }

    /// The native handle, for inspection.
    pub fn handle(&self) -> (id: u64)
        ensures
            id == self.id(),
    {
        self.id
    }

    /// The bytes last uploaded, for readback.
    pub fn data(&self) -> (d: &Vec<u8>)
        ensures
            d@ == self.contents(),
    {
        &self.data
    }

    /// Make this buffer the active one of its kind. The buffer must be
    /// one of this session's objects.
    pub fn bind(&self, ctx: &mut Context)
        requires
            old(ctx).wf(),
            self.id() <= old(ctx).allocated(),
        ensures
            final(ctx).wf(),
            final(ctx).buffer_binding(B::spec_buffer_kind()) == self.id(),
            forall|k: BufferKind|
                k != B::spec_buffer_kind() ==> final(ctx).buffer_binding(k) == old(ctx).buffer_binding(k),
            final(ctx).bound_vertex_array() == old(ctx).bound_vertex_array(),
            final(ctx).bound_program() == old(ctx).bound_program(),
            final(ctx).bound_texture() == old(ctx).bound_texture(),
            final(ctx).active_texture_slot() == old(ctx).active_texture_slot(),
            final(ctx).same_accounting(*old(ctx)),
            final(ctx).same_link_state(*old(ctx)),
            final(ctx).same_records(*old(ctx)),
    {
        let kind = B::buffer_kind();
        ctx.bind_buffer(kind, self.id);
    }

    /// Clear the binding slot of this buffer's kind, making the active
    /// binding explicit between unrelated operations.
    pub fn unbind(&self, ctx: &mut Context)
        requires
            old(ctx).wf(),
        ensures
            final(ctx).wf(),
            final(ctx).buffer_binding(B::spec_buffer_kind()) == 0,
            forall|k: BufferKind|
                k != B::spec_buffer_kind() ==> final(ctx).buffer_binding(k) == old(ctx).buffer_binding(k),
            final(ctx).bound_vertex_array() == old(ctx).bound_vertex_array(),
            final(ctx).bound_program() == old(ctx).bound_program(),
            final(ctx).bound_texture() == old(ctx).bound_texture(),
            final(ctx).active_texture_slot() == old(ctx).active_texture_slot(),
            final(ctx).same_accounting(*old(ctx)),
            final(ctx).same_link_state(*old(ctx)),
            final(ctx).same_records(*old(ctx)),
    {
        let kind = B::buffer_kind();
        ctx.bind_buffer(kind, 0);
    }

    /// Replace the buffer's entire backing store with `data`. The
    /// buffer must currently be bound; there is no sub-range update.
    pub fn static_draw_data(&mut self, ctx: &Context, data: &[u8])
        requires
            ctx.buffer_binding(B::spec_buffer_kind()) == old(self).id(),
        ensures
            final(self).id() == old(self).id(),
            final(self).contents() == uploaded(old(self).contents(), data@),
    {
        self.data = vstd::slice::slice_to_vec(data);
    }

    /// Release the native buffer object. Consuming the buffer makes a
    /// second release impossible; if the buffer was still bound, its
    /// binding slot is cleared.
    pub fn destroy(self, ctx: &mut Context)
        requires
            old(ctx).wf(),
            self.wf(),
            self.id() <= old(ctx).allocated(),
            old(ctx).released() < old(ctx).allocated(),
        ensures
            final(ctx).wf(),
            final(ctx).allocated() == old(ctx).allocated(),
            final(ctx).released() == old(ctx).released() + 1,
            final(ctx).buffer_binding(B::spec_buffer_kind()) == (
                if old(ctx).buffer_binding(B::spec_buffer_kind()) == self.id() {
                    0u64
                } else {
                    old(ctx).buffer_binding(B::spec_buffer_kind())
                }
            ),
            forall|k: BufferKind|
                k != B::spec_buffer_kind() && old(ctx).buffer_binding(k) != self.id()
                    ==> final(ctx).buffer_binding(k) == old(ctx).buffer_binding(k),
            final(ctx).bound_vertex_array() == (
                if old(ctx).bound_vertex_array() == self.id() { 0u64 } else { old(ctx).bound_vertex_array() }
            ),
            final(ctx).bound_program() == (
                if old(ctx).bound_program() == self.id() { 0u64 } else { old(ctx).bound_program() }
            ),
            final(ctx).bound_texture() == (
                if old(ctx).bound_texture() == self.id() { 0u64 } else { old(ctx).bound_texture() }
            ),
            final(ctx).active_texture_slot() == old(ctx).active_texture_slot(),
            final(ctx).same_link_state(*old(ctx)),
            final(ctx).same_records(*old(ctx)),
    {
        ctx.release_handle(self.id);
    }
}

/// One vertex-array object, owning its native handle and the
/// attribute-pointer configuration recorded while it was bound.
pub struct VertexArray {
    id: u64,
    attribs: Vec<AttribPointer>,
}

impl VertexArray {
    /// The native handle.
    pub closed spec fn id(self) -> u64 {
        self.id
    }

    /// The attribute-pointer calls recorded into this vertex-array, in
    /// the order they were issued.
    pub closed spec fn attribs(self) -> Seq<AttribPointer> {
        self.attribs@
    }

    /// A vertex-array's handle is never the empty handle `0`.
    pub open spec fn wf(self) -> bool {
        self.id() >= 1
    }

    /// Allocate one native vertex-array object, with no configuration
    /// recorded yet.
    pub fn new(ctx: &mut Context) -> (v: VertexArray)
        requires
            old(ctx).wf(),
            old(ctx).can_alloc(),
        ensures
            final(ctx).wf(),
            v.wf(),
            v.id() == final(ctx).allocated(),
            v.attribs() == Seq::<AttribPointer>::empty(),
            final(ctx).allocated() == old(ctx).allocated() + 1,
            final(ctx).released() == old(ctx).released(),
            final(ctx).same_bindings(*old(ctx)),
            final(ctx).same_link_state(*old(ctx)),
            final(ctx).same_records(*old(ctx)),
    {
        let id = ctx.gen_handle();
        VertexArray { id, attribs: Vec::new() }
    }

    /// The native handle, for inspection.
    pub fn handle(&self) -> (id: u64)
        ensures
            id == self.id(),
    {
        self.id
    }

    /// The recorded attribute-pointer calls, for inspection.
    pub fn recorded(&self) -> (r: &Vec<AttribPointer>)
        ensures
            r@ == self.attribs(),
    {
        &self.attribs
    }

    /// Make this vertex-array the active one. The vertex-array must be
    /// one of this session's objects.
    pub fn bind(&self, ctx: &mut Context)
        requires
            old(ctx).wf(),
            self.id() <= old(ctx).allocated(),
        ensures
            final(ctx).wf(),
            final(ctx).bound_vertex_array() == self.id(),
            final(ctx).buffer_binding(BufferKind::VertexData) == old(ctx).buffer_binding(BufferKind::VertexData),
            final(ctx).buffer_binding(BufferKind::IndexData) == old(ctx).buffer_binding(BufferKind::IndexData),
            final(ctx).bound_program() == old(ctx).bound_program(),
            final(ctx).bound_texture() == old(ctx).bound_texture(),
            final(ctx).active_texture_slot() == old(ctx).active_texture_slot(),
            final(ctx).same_accounting(*old(ctx)),
            final(ctx).same_link_state(*old(ctx)),
            final(ctx).same_records(*old(ctx)),
    {
        ctx.bind_vertex_array(self.id);
    }

    /// Clear the vertex-array binding slot.
    pub fn unbind(&self, ctx: &mut Context)
        requires
            old(ctx).wf(),
        ensures
            final(ctx).wf(),
            final(ctx).bound_vertex_array() == 0,
            final(ctx).buffer_binding(BufferKind::VertexData) == old(ctx).buffer_binding(BufferKind::VertexData),
            final(ctx).buffer_binding(BufferKind::IndexData) == old(ctx).buffer_binding(BufferKind::IndexData),
            final(ctx).bound_program() == old(ctx).bound_program(),
            final(ctx).bound_texture() == old(ctx).bound_texture(),
            final(ctx).active_texture_slot() == old(ctx).active_texture_slot(),
            final(ctx).same_accounting(*old(ctx)),
            final(ctx).same_link_state(*old(ctx)),
            final(ctx).same_records(*old(ctx)),
    {
        ctx.bind_vertex_array(0);
    }

    /// Record one attribute-pointer call. The call is legal only while
    /// this vertex-array is bound and a vertex buffer is bound; the
    /// recorded entry remembers which buffer it reads from, so a later
    /// rebind cannot retroactively change it.
    pub fn record_attrib_pointer(&mut self, ctx: &Context, format: AttribFormat)
        requires
            ctx.bound_vertex_array() == old(self).id(),
            ctx.buffer_binding(BufferKind::VertexData) != 0,
        ensures
            final(self).id() == old(self).id(),
            final(self).attribs() == old(self).attribs().push(
                AttribPointer { format, source_buffer: ctx.buffer_binding(BufferKind::VertexData) },
            ),
    {
        let source_buffer = ctx.bound_vertex_buffer;
        self.attribs.push(AttribPointer { format, source_buffer });
    }

    /// Release the native vertex-array object. Consuming the object
    /// makes a second release impossible; if it was still bound, the
    /// binding slot is cleared.
    pub fn destroy(self, ctx: &mut Context)
        requires
            old(ctx).wf(),
            self.wf(),
            self.id() <= old(ctx).allocated(),
            old(ctx).released() < old(ctx).allocated(),
        ensures
            final(ctx).wf(),
            final(ctx).allocated() == old(ctx).allocated(),
            final(ctx).released() == old(ctx).released() + 1,
            final(ctx).bound_vertex_array() == (
                if old(ctx).bound_vertex_array() == self.id() { 0u64 } else { old(ctx).bound_vertex_array() }
            ),
            forall|k: BufferKind|
                old(ctx).buffer_binding(k) != self.id()
                    ==> final(ctx).buffer_binding(k) == old(ctx).buffer_binding(k),
            final(ctx).bound_program() == (
                if old(ctx).bound_program() == self.id() { 0u64 } else { old(ctx).bound_program() }
            ),
            final(ctx).bound_texture() == (
                if old(ctx).bound_texture() == self.id() { 0u64 } else { old(ctx).bound_texture() }
            ),
            final(ctx).active_texture_slot() == old(ctx).active_texture_slot(),
            final(ctx).same_link_state(*old(ctx)),
            final(ctx).same_records(*old(ctx)),
    {
        ctx.release_handle(self.id);
    }
}

} // verus!
