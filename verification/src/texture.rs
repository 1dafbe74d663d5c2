//! Scoped texture objects.
//!
//! A [`Texture`] owns one native texture object holding a decoded
//! image the host driver hands over as plain values: width, height and
//! tightly packed 4-byte texels. The texels go to the session and are
//! not readable back; the texture's contribution here is its handle
//! lifetime and its binding discipline.

use vstd::prelude::*;

use crate::context::Context;

verus! {

/// One texture object, owning its native handle.
pub struct Texture {
    id: u64,
    width: u32,
    height: u32,
}

impl Texture {
    /// The native handle.
    pub closed spec fn spec_id(self) -> u64 {
        self.id
    }

    /// The image width, in texels.
    pub closed spec fn spec_width(self) -> u32 {
        self.width
    }

    /// The image height, in texels.
    pub closed spec fn spec_height(self) -> u32 {
        self.height
    }

    /// A texture's handle is never the empty handle `0`.
    pub open spec fn wf(self) -> bool {
        self.spec_id() >= 1
    }

    /// Allocate one native texture object and hand it a decoded
    /// image: `width * height` texels of four bytes each. The object
    /// is bound for the upload and unbound again, so no binding is
    /// left dangling.
    pub fn from_image(ctx: &mut Context, width: u32, height: u32, pixels: &[u8]) -> (t: Texture)
        requires
            old(ctx).wf(),
            old(ctx).can_alloc(),
            pixels@.len() == 4 * (width as int) * (height as int),
        ensures
            final(ctx).wf(),
            t.wf(),
            t.spec_id() == old(ctx).allocated() + 1,
            t.spec_width() == width,
            t.spec_height() == height,
            final(ctx).allocated() == old(ctx).allocated() + 1,
            final(ctx).released() == old(ctx).released(),
            final(ctx).bound_texture() == 0,
            final(ctx).active_texture_slot() == old(ctx).active_texture_slot(),
            final(ctx).buffer_binding(crate::context::BufferKind::VertexData) == old(
                ctx,
            ).buffer_binding(crate::context::BufferKind::VertexData),
            final(ctx).buffer_binding(crate::context::BufferKind::IndexData) == old(
                ctx,
            ).buffer_binding(crate::context::BufferKind::IndexData),
            final(ctx).bound_vertex_array() == old(ctx).bound_vertex_array(),
            final(ctx).bound_program() == old(ctx).bound_program(),
            final(ctx).same_link_state(*old(ctx)),
            final(ctx).same_records(*old(ctx)),
    {
        let _ = pixels;
        let id = ctx.gen_handle();
        let slot = ctx.active_texture_slot;
        ctx.bind_texture(slot, id);
        ctx.bind_texture(slot, 0);
        Texture { id, width, height }
    }

    /// The native handle, for inspection.
    pub fn handle(&self) -> (id: u64)
        ensures
            id == self.spec_id(),
    {
        self.id
    }

    /// The image width, for inspection.
    pub fn width(&self) -> (w: u32)
        ensures
            w == self.spec_width(),
    {
        self.width
    }

    /// The image height, for inspection.
    pub fn height(&self) -> (h: u32)
        ensures
            h == self.spec_height(),
    {
        self.height
    }

    /// Select texture unit `slot` and make this texture the active
    /// one. The texture must be one of this session's objects.
    pub fn bind(&self, ctx: &mut Context, slot: u32)
        requires
            old(ctx).wf(),
            self.spec_id() <= old(ctx).allocated(),
        ensures
            final(ctx).wf(),
            final(ctx).bound_texture() == self.spec_id(),
            final(ctx).active_texture_slot() == slot,
            final(ctx).buffer_binding(crate::context::BufferKind::VertexData) == old(
                ctx,
            ).buffer_binding(crate::context::BufferKind::VertexData),
            final(ctx).buffer_binding(crate::context::BufferKind::IndexData) == old(
                ctx,
            ).buffer_binding(crate::context::BufferKind::IndexData),
            final(ctx).bound_vertex_array() == old(ctx).bound_vertex_array(),
            final(ctx).bound_program() == old(ctx).bound_program(),
            final(ctx).same_accounting(*old(ctx)),
            final(ctx).same_link_state(*old(ctx)),
            final(ctx).same_records(*old(ctx)),
    {
        ctx.bind_texture(slot, self.id);
    }

    /// Clear the texture binding slot.
    pub fn unbind(&self, ctx: &mut Context)
        requires
            old(ctx).wf(),
        ensures
            final(ctx).wf(),
            final(ctx).bound_texture() == 0,
            final(ctx).active_texture_slot() == old(ctx).active_texture_slot(),
            final(ctx).buffer_binding(crate::context::BufferKind::VertexData) == old(
                ctx,
            ).buffer_binding(crate::context::BufferKind::VertexData),
            final(ctx).buffer_binding(crate::context::BufferKind::IndexData) == old(
                ctx,
            ).buffer_binding(crate::context::BufferKind::IndexData),
            final(ctx).bound_vertex_array() == old(ctx).bound_vertex_array(),
            final(ctx).bound_program() == old(ctx).bound_program(),
            final(ctx).same_accounting(*old(ctx)),
            final(ctx).same_link_state(*old(ctx)),
            final(ctx).same_records(*old(ctx)),
    {
        let slot = ctx.active_texture_slot;
        ctx.bind_texture(slot, 0);
    }

    /// Release the native texture object. Consuming the texture makes
    /// a second release impossible; if it was still bound, the binding
    /// slot is cleared.
    pub fn destroy(self, ctx: &mut Context)
        requires
            old(ctx).wf(),
            self.wf(),
            self.spec_id() <= old(ctx).allocated(),
            old(ctx).released() < old(ctx).allocated(),
        ensures
            final(ctx).wf(),
            final(ctx).allocated() == old(ctx).allocated(),
            final(ctx).released() == old(ctx).released() + 1,
            final(ctx).bound_texture() == (
                if old(ctx).bound_texture() == self.spec_id() { 0u64 } else { old(ctx).bound_texture() }
            ),
            final(ctx).same_link_state(*old(ctx)),
            final(ctx).same_records(*old(ctx)),
    {
        ctx.release_handle(self.id);
    }
}

} // verus!
