//! A drawable square: one linked program, a vertex buffer holding the
//! four corner records, an index buffer splitting them into two
//! triangles, and a vertex-array recording the attribute
//! configuration.
//!
//! The corner data arrives as ready-made [`Vertex`] records; the index
//! pattern `0 1 2, 2 3 0` is the square's own structure and fixed
//! here.

use vstd::prelude::*;

use crate::buffer::{Buffer, ElementArray, VertexArray, VertexBuffer};
use crate::context::{BufferKind, Context};
use crate::resources::Resources;
use crate::shader::{frag_resource, program_res_error, shader_source_ok, vert_resource, Error, Program};
use crate::triangle::vertex_attrib_calls;
use crate::vertex::{spec_vertices_bytes, vertices_to_bytes, Vertex};

verus! {

/// The index pattern of the square's two triangles.
pub open spec fn square_indices() -> Seq<u8> {
    seq![0u8, 1u8, 2u8, 2u8, 3u8, 0u8]
}

/// The index pattern, executable form.
fn square_indices_exec() -> (v: Vec<u8>)
    ensures
        v@ == square_indices(),
{
    let mut v: Vec<u8> = Vec::new();
    v.push(0);
    v.push(1);
    v.push(2);
    v.push(2);
    v.push(3);
    v.push(0);
    proof {
        assert(v@ =~= square_indices());
    }
    v
}

/// One square's GPU-side state.
pub struct Square {
    program: Program,
    _vbo: VertexBuffer,
    _ibo: ElementArray,
    vao: VertexArray,
}

impl Square {
    /// The linked program.
    pub closed spec fn spec_program(self) -> Program {
        self.program
    }

    /// The vertex buffer holding the four corner records.
    pub closed spec fn spec_vbo(self) -> VertexBuffer {
        self._vbo
    }

    /// The index buffer holding the two-triangle pattern.
    pub closed spec fn spec_ibo(self) -> ElementArray {
        self._ibo
    }

    /// The vertex-array recording the attribute configuration.
    pub closed spec fn spec_vao(self) -> VertexArray {
        self.vao
    }

    /// All four owned objects hold live-looking handles.
    pub open spec fn wf(self) -> bool {
        self.spec_program().wf() && self.spec_vbo().wf() && self.spec_ibo().wf()
            && self.spec_vao().wf()
    }

    /// The linked program, for inspection.
    pub fn program(&self) -> (p: &Program)
        ensures
            *p == self.spec_program(),
    {
        &self.program
    }

    /// The vertex buffer, for inspection.
    pub fn vbo(&self) -> (b: &VertexBuffer)
        ensures
            *b == self.spec_vbo(),
    {
        &self._vbo
    }

    /// The index buffer, for inspection.
    pub fn ibo(&self) -> (b: &ElementArray)
        ensures
            *b == self.spec_ibo(),
    {
        &self._ibo
    }

    /// The vertex-array, for inspection.
    pub fn vao(&self) -> (v: &VertexArray)
        ensures
            *v == self.spec_vao(),
    {
        &self.vao
    }

    /// Assemble a square from its four corner records: link the
    /// program named `shaders/triangle` from the store, upload the
    /// index pattern and the records, and record the two attribute
    /// pointers while vertex-array and vertex buffer are both bound.
    /// All three bindings are cleared afterwards; a program that fails
    /// to come up propagates its error with every handle it allocated
    /// released again.
    pub fn new(ctx: &mut Context, res: &Resources, vertices: &Vec<Vertex>) -> (r: Result<
        Square,
        Error,
    >)
        requires
            old(ctx).wf(),
            old(ctx).allocated() <= u64::MAX - 6,
            !old(ctx).attached_vertex(),
            !old(ctx).attached_fragment(),
            vertices@.len() == 4,
        ensures
            final(ctx).wf(),
            !final(ctx).attached_vertex(),
            !final(ctx).attached_fragment(),
            final(ctx).same_records(*old(ctx)),
            final(ctx).bound_program() == old(ctx).bound_program(),
            final(ctx).bound_texture() == old(ctx).bound_texture(),
            final(ctx).active_texture_slot() == old(ctx).active_texture_slot(),
            match r {
                Ok(s) => {
                    &&& shader_source_ok(*res, vert_resource("shaders/triangle"@))
                    &&& shader_source_ok(*res, frag_resource("shaders/triangle"@))
                    &&& s.wf()
                    &&& s.spec_program().spec_id() == old(ctx).allocated() + 3
                    &&& s.spec_vao().id() == old(ctx).allocated() + 4
                    &&& s.spec_vbo().id() == old(ctx).allocated() + 5
                    &&& s.spec_ibo().id() == old(ctx).allocated() + 6
                    &&& s.spec_vbo().contents() == spec_vertices_bytes(vertices@)
                    &&& s.spec_ibo().contents() == square_indices()
                    &&& s.spec_vao().attribs() == vertex_attrib_calls(s.spec_vbo().id())
                    &&& final(ctx).allocated() == old(ctx).allocated() + 6
                    &&& final(ctx).released() == old(ctx).released() + 2
                    &&& final(ctx).buffer_binding(BufferKind::VertexData) == 0
                    &&& final(ctx).buffer_binding(BufferKind::IndexData) == 0
                    &&& final(ctx).bound_vertex_array() == 0
                },
                Err(e) => {
                    &&& program_res_error(*res, "shaders/triangle"@, e)
                    &&& final(ctx).allocated() - final(ctx).released() == old(ctx).allocated()
                        - old(ctx).released()
                    &&& final(ctx).buffer_binding(BufferKind::VertexData) == old(
                        ctx,
                    ).buffer_binding(BufferKind::VertexData)
                    &&& final(ctx).buffer_binding(BufferKind::IndexData) == old(
                        ctx,
                    ).buffer_binding(BufferKind::IndexData)
                    &&& final(ctx).bound_vertex_array() == old(ctx).bound_vertex_array()
                },
            },
    {
        let program = match Program::from_res(ctx, res, "shaders/triangle") {
            Ok(p) => p,
            Err(e) => {
                return Err(e);
            },
        };
        let mut vao = VertexArray::new(ctx);
        vao.bind(ctx);
        let mut vbo: VertexBuffer = Buffer::new(ctx);
        vbo.bind(ctx);
        let mut ibo: ElementArray = Buffer::new(ctx);
        ibo.bind(ctx);
        let indices = square_indices_exec();
        ibo.static_draw_data(ctx, indices.as_slice());
        let bytes = vertices_to_bytes(vertices);
        vbo.static_draw_data(ctx, bytes.as_slice());
        Vertex::vertex_attrib_pointers(ctx, &mut vao);
        vao.unbind(ctx);
        vbo.unbind(ctx);
        ibo.unbind(ctx);
        proof {
            assert(vao.attribs() =~= vertex_attrib_calls(vbo.id()));
        }
        Ok(Square { program, _vbo: vbo, _ibo: ibo, vao })
    }

    /// Make the square drawable and issue its draw call: bind the
    /// program and the vertex-array, then draw the six indices.
    pub fn render(&self, ctx: &mut Context)
        requires
            old(ctx).wf(),
            self.wf(),
            self.spec_program().spec_id() <= old(ctx).allocated(),
            self.spec_vao().id() <= old(ctx).allocated(),
            old(ctx).draw_calls() < u64::MAX,
        ensures
            final(ctx).wf(),
            final(ctx).bound_program() == self.spec_program().spec_id(),
            final(ctx).bound_vertex_array() == self.spec_vao().id(),
            final(ctx).draw_calls() == old(ctx).draw_calls() + 1,
            final(ctx).buffer_binding(BufferKind::VertexData) == old(ctx).buffer_binding(
                BufferKind::VertexData,
            ),
            final(ctx).buffer_binding(BufferKind::IndexData) == old(ctx).buffer_binding(
                BufferKind::IndexData,
            ),
            final(ctx).bound_texture() == old(ctx).bound_texture(),
            final(ctx).active_texture_slot() == old(ctx).active_texture_slot(),
            final(ctx).same_accounting(*old(ctx)),
            final(ctx).same_link_state(*old(ctx)),
            final(ctx).active_uniforms() == old(ctx).active_uniforms(),
            final(ctx).uniform_calls() == old(ctx).uniform_calls(),
            final(ctx).warnings() == old(ctx).warnings(),
    {
        self.program.bind(ctx);
        self.vao.bind(ctx);
        ctx.draw_elements(6);
    }

    /// Release all four native objects, each exactly once. Consuming
    /// the square makes a second release impossible.
    pub fn destroy(self, ctx: &mut Context)
        requires
            old(ctx).wf(),
            self.wf(),
            self.spec_program().spec_id() <= old(ctx).allocated(),
            self.spec_vbo().id() <= old(ctx).allocated(),
            self.spec_ibo().id() <= old(ctx).allocated(),
            self.spec_vao().id() <= old(ctx).allocated(),
            old(ctx).released() + 4 <= old(ctx).allocated(),
        ensures
            final(ctx).wf(),
            final(ctx).allocated() == old(ctx).allocated(),
            final(ctx).released() == old(ctx).released() + 4,
            final(ctx).same_link_state(*old(ctx)),
            final(ctx).same_records(*old(ctx)),
    {
        let Square { program, _vbo, _ibo, vao } = self;
        program.destroy(ctx);
        vao.destroy(ctx);
        _vbo.destroy(ctx);
        _ibo.destroy(ctx);
    }
}

} // verus!
