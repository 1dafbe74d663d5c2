//! A drawable triangle: one linked program, one vertex buffer holding
//! three records, and one vertex-array recording how the records feed
//! the program's attribute slots.
//!
//! Scene data — which three corners, which colors — is the caller's
//! business and arrives as ready-made [`Vertex`] records; the assembly
//! sequence here is the core's: compile and link the program, bind the
//! vertex-array, bind and fill the buffer, record the attribute
//! pointers while both are bound, then unbind both.

use vstd::prelude::*;

use crate::buffer::{Buffer, VertexArray, VertexBuffer};
use crate::context::{BufferKind, Context};
use crate::data::{encoding_format, AttribPointer, FieldEncoding, LayoutField, VertexLayout};
use crate::resources::Resources;
use crate::shader::{program_res_error, shader_source_ok, frag_resource, vert_resource, Error, Program};
use crate::vertex::{spec_vertices_bytes, vertices_to_bytes, Vertex};

verus! {

/// The attribute-pointer calls a triangle's (or square's) vertex-array
/// records: the two calls of the [`Vertex`] record shape, reading from
/// vertex buffer `source`.
pub open spec fn vertex_attrib_calls(source: u64) -> Seq<AttribPointer> {
    Seq::<AttribPointer>::empty().push(
        AttribPointer {
            format: encoding_format(FieldEncoding::ThreeFloats, 0, 16, 0),
            source_buffer: source,
        },
    ).push(
        AttribPointer {
            format: encoding_format(FieldEncoding::PackedTenTenTenTwoRev, 1, 16, 12),
            source_buffer: source,
        },
    )
}

/// Applying the record's declarative layout and issuing the two
/// expanded calls record the same configuration: a layout shaped like
/// [`Vertex::layout`] produces exactly [`vertex_attrib_calls`].
pub proof fn lemma_layout_calls_match(l: VertexLayout, source: u64)
    requires
        l.stride() == 16,
        l.fields().len() == 2,
        l.fields()[0] == (LayoutField {
            location: 0,
            encoding: FieldEncoding::ThreeFloats,
            offset: 0,
        }),
        l.fields()[1] == (LayoutField {
            location: 1,
            encoding: FieldEncoding::PackedTenTenTenTwoRev,
            offset: 12,
        }),
    ensures
        l.layout_calls(source) == vertex_attrib_calls(source),
{
    assert(l.layout_calls(source) =~= vertex_attrib_calls(source));
}

/// One triangle's GPU-side state.
pub struct Triangle {
    program: Program,
    _vbo: VertexBuffer,
    vao: VertexArray,
}

impl Triangle {
    /// The linked program.
    pub closed spec fn spec_program(self) -> Program {
        self.program
    }

    /// The vertex buffer holding the three records.
    pub closed spec fn spec_vbo(self) -> VertexBuffer {
        self._vbo
    }

    /// The vertex-array recording the attribute configuration.
    pub closed spec fn spec_vao(self) -> VertexArray {
        self.vao
    }

    /// All three owned objects hold live-looking handles.
    pub open spec fn wf(self) -> bool {
        self.spec_program().wf() && self.spec_vbo().wf() && self.spec_vao().wf()
    }

    /// The linked program, for inspection.
    pub fn program(&self) -> (p: &Program)
        ensures
            *p == self.spec_program(),
    {
        &self.program
    }

    /// The vertex buffer, for inspection.
    pub fn vbo(&self) -> (b: &VertexBuffer)
        ensures
            *b == self.spec_vbo(),
    {
        &self._vbo
    }

    /// The vertex-array, for inspection.
    pub fn vao(&self) -> (v: &VertexArray)
        ensures
            *v == self.spec_vao(),
    {
        &self.vao
    }

    /// Assemble a triangle from three vertex records: link the program
    /// named `shaders/triangle` from the store, upload the records,
    /// and record the two attribute pointers while vertex-array and
    /// buffer are both bound. Both are unbound again afterwards; a
    /// program that fails to come up propagates its error with every
    /// handle it allocated released again.
    pub fn new(ctx: &mut Context, res: &Resources, vertices: &Vec<Vertex>) -> (r: Result<
        Triangle,
        Error,
    >)
        requires
            old(ctx).wf(),
            old(ctx).allocated() <= u64::MAX - 5,
            !old(ctx).attached_vertex(),
            !old(ctx).attached_fragment(),
            vertices@.len() == 3,
        ensures
            final(ctx).wf(),
            !final(ctx).attached_vertex(),
            !final(ctx).attached_fragment(),
            final(ctx).same_records(*old(ctx)),
            final(ctx).bound_program() == old(ctx).bound_program(),
            final(ctx).bound_texture() == old(ctx).bound_texture(),
            final(ctx).active_texture_slot() == old(ctx).active_texture_slot(),
            final(ctx).buffer_binding(BufferKind::IndexData) == old(ctx).buffer_binding(
                BufferKind::IndexData,
            ),
            match r {
                Ok(t) => {
                    &&& shader_source_ok(*res, vert_resource("shaders/triangle"@))
                    &&& shader_source_ok(*res, frag_resource("shaders/triangle"@))
                    &&& t.wf()
                    &&& t.spec_program().spec_id() == old(ctx).allocated() + 3
                    &&& t.spec_vao().id() == old(ctx).allocated() + 4
                    &&& t.spec_vbo().id() == old(ctx).allocated() + 5
                    &&& t.spec_vbo().contents() == spec_vertices_bytes(vertices@)
                    &&& t.spec_vao().attribs() == vertex_attrib_calls(t.spec_vbo().id())
                    &&& final(ctx).allocated() == old(ctx).allocated() + 5
                    &&& final(ctx).released() == old(ctx).released() + 2
                    &&& final(ctx).buffer_binding(BufferKind::VertexData) == 0
                    &&& final(ctx).bound_vertex_array() == 0
                },
                Err(e) => {
                    &&& program_res_error(*res, "shaders/triangle"@, e)
                    &&& final(ctx).allocated() - final(ctx).released() == old(ctx).allocated()
                        - old(ctx).released()
                    &&& final(ctx).buffer_binding(BufferKind::VertexData) == old(
                        ctx,
                    ).buffer_binding(BufferKind::VertexData)
                    &&& final(ctx).bound_vertex_array() == old(ctx).bound_vertex_array()
                },
            },
    {
        let program = match Program::from_res(ctx, res, "shaders/triangle") {
            Ok(p) => p,
            Err(e) => {
                return Err(e);
            },
        };
        let mut vao = VertexArray::new(ctx);
        vao.bind(ctx);
        let mut vbo: VertexBuffer = Buffer::new(ctx);
        vbo.bind(ctx);
        let bytes = vertices_to_bytes(vertices);
        vbo.static_draw_data(ctx, bytes.as_slice());
        Vertex::vertex_attrib_pointers(ctx, &mut vao);
        vao.unbind(ctx);
        vbo.unbind(ctx);
        proof {
            assert(vao.attribs() =~= vertex_attrib_calls(vbo.id()));
        }
        Ok(Triangle { program, _vbo: vbo, vao })
    }

    /// Make the triangle drawable and issue its draw call: bind the
    /// program and the vertex-array, then draw the three vertices.
    pub fn render(&self, ctx: &mut Context)
        requires
            old(ctx).wf(),
            self.wf(),
            self.spec_program().spec_id() <= old(ctx).allocated(),
            self.spec_vao().id() <= old(ctx).allocated(),
            old(ctx).draw_calls() < u64::MAX,
        ensures
            final(ctx).wf(),
            final(ctx).bound_program() == self.spec_program().spec_id(),
            final(ctx).bound_vertex_array() == self.spec_vao().id(),
            final(ctx).draw_calls() == old(ctx).draw_calls() + 1,
            final(ctx).buffer_binding(BufferKind::VertexData) == old(ctx).buffer_binding(
                BufferKind::VertexData,
            ),
            final(ctx).buffer_binding(BufferKind::IndexData) == old(ctx).buffer_binding(
                BufferKind::IndexData,
            ),
            final(ctx).bound_texture() == old(ctx).bound_texture(),
            final(ctx).active_texture_slot() == old(ctx).active_texture_slot(),
            final(ctx).same_accounting(*old(ctx)),
            final(ctx).same_link_state(*old(ctx)),
            final(ctx).active_uniforms() == old(ctx).active_uniforms(),
            final(ctx).uniform_calls() == old(ctx).uniform_calls(),
            final(ctx).warnings() == old(ctx).warnings(),
    {
        self.program.bind(ctx);
        self.vao.bind(ctx);
        ctx.draw_arrays(3);
    }

    /// Release all three native objects, each exactly once. Consuming
    /// the triangle makes a second release impossible.
    pub fn destroy(self, ctx: &mut Context)
        requires
            old(ctx).wf(),
            self.wf(),
            self.spec_program().spec_id() <= old(ctx).allocated(),
            self.spec_vbo().id() <= old(ctx).allocated(),
            self.spec_vao().id() <= old(ctx).allocated(),
            old(ctx).released() + 3 <= old(ctx).allocated(),
        ensures
            final(ctx).wf(),
            final(ctx).allocated() == old(ctx).allocated(),
            final(ctx).released() == old(ctx).released() + 3,
            final(ctx).same_link_state(*old(ctx)),
            final(ctx).same_records(*old(ctx)),
    {
        let Triangle { program, _vbo, vao } = self;
        program.destroy(ctx);
        vao.destroy(ctx);
        _vbo.destroy(ctx);
    }
}

} // verus!
