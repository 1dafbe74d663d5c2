//! The demo vertex record: a three-float position feeding attribute
//! slot 0 and a packed 2-10-10-10 reversed color feeding slot 1, in a
//! tight 16-byte record (12 bytes position, then 4 bytes color).

use vstd::prelude::*;

use crate::buffer::VertexArray;
use crate::context::{BufferKind, Context};
use crate::data::{
    encoding_format, f32_f32_f32, u2_u10_u10_u10_rev_float, AttribPointer, FieldEncoding,
    LayoutField, VertexLayout,
};

verus! {

/// One vertex record.
#[derive(Copy, Clone, PartialEq, Eq, Structural, Debug)]
pub struct Vertex {
    pub pos: f32_f32_f32,
    pub clr: u2_u10_u10_u10_rev_float,
}

/// The record's byte stride: 12 bytes of position, 4 bytes of color,
/// tightly packed.
pub const VERTEX_STRIDE: usize = 16;

impl Vertex {
    /// The sixteen bytes this record uploads: position first, then
    /// color, each component little-endian.
    pub open spec fn spec_bytes(self) -> Seq<u8> {
        self.pos.spec_bytes() + self.clr.spec_bytes()
    }

    pub fn new(pos: f32_f32_f32, clr: u2_u10_u10_u10_rev_float) -> (v: Vertex)
        ensures
            v.pos == pos,
            v.clr == clr,
    {
        Vertex { pos, clr }
    }

    /// Serialize this record for upload.
    pub fn to_bytes(&self) -> (b: Vec<u8>)
        ensures
            b@ == self.spec_bytes(),
            b@.len() == 16,
    {
        let mut b = self.pos.to_bytes();
        let mut c = self.clr.to_bytes();
        b.append(&mut c);
        b
    }

    /// The declarative layout of this record shape: slot 0 holds three
    /// floats at offset 0, slot 1 the packed color at offset 12, with
    /// stride 16.
    pub fn layout() -> (l: VertexLayout)
        ensures
            l.wf(),
            l.stride() == 16,
            l.fields().len() == 2,
            l.fields()[0] == (LayoutField {
                location: 0,
                encoding: FieldEncoding::ThreeFloats,
                offset: 0,
            }),
            l.fields()[1] == (LayoutField {
                location: 1,
                encoding: FieldEncoding::PackedTenTenTenTwoRev,
                offset: 12,
            }),
    {
        let mut declared: Vec<(usize, FieldEncoding)> = Vec::new();
        declared.push((0, FieldEncoding::ThreeFloats));
        declared.push((1, FieldEncoding::PackedTenTenTenTwoRev));
        let r = VertexLayout::from_fields(&declared);
        proof {
            let encs = crate::data::declared_encodings(declared@);
            assert(encs.len() == 2);
            assert(encs[0] == FieldEncoding::ThreeFloats);
            assert(encs[1] == FieldEncoding::PackedTenTenTenTwoRev);
            assert(crate::data::widths_total(encs, 0) == 0);
            assert(crate::data::widths_total(encs, 1) == 12);
            assert(crate::data::widths_total(encs, 2) == 16);
            assert(crate::data::distinct_locations(declared@));
            assert(r.is_some());
            let l = r.unwrap();
            assert(crate::data::encodings_of(l.fields()) =~= encs);
            assert(l.stride() as int == crate::data::widths_total(encs, 2));
            assert(l.fields()[0].offset as int == crate::data::widths_total(encs, 0));
            assert(l.fields()[1].offset as int == crate::data::widths_total(encs, 1));
        }
        r.unwrap()
    }

    /// Enable and describe both attribute slots of this record shape:
    /// the expansion, field by field, of the record's layout into the
    /// two low-level calls. Must be called while the target
    /// vertex-array and the source vertex buffer are both bound.
    pub fn vertex_attrib_pointers(ctx: &Context, vao: &mut VertexArray)
        requires
            ctx.bound_vertex_array() == old(vao).id(),
            ctx.buffer_binding(BufferKind::VertexData) != 0,
        ensures
            final(vao).id() == old(vao).id(),
            final(vao).attribs() == old(vao).attribs().push(
                AttribPointer {
                    format: encoding_format(FieldEncoding::ThreeFloats, 0, 16, 0),
                    source_buffer: ctx.buffer_binding(BufferKind::VertexData),
                },
            ).push(
                AttribPointer {
                    format: encoding_format(FieldEncoding::PackedTenTenTenTwoRev, 1, 16, 12),
                    source_buffer: ctx.buffer_binding(BufferKind::VertexData),
                },
            ),
    {
        f32_f32_f32::vertex_attrib_pointer(ctx, vao, 16, 0, 0);
        u2_u10_u10_u10_rev_float::vertex_attrib_pointer(ctx, vao, 16, 1, 12);
    }
}

/// The bytes a whole vertex list uploads: each record's sixteen bytes,
/// in order.
pub open spec fn spec_vertices_bytes(s: Seq<Vertex>) -> Seq<u8>
    decreases s.len(),
{
    if s.len() == 0 {
        Seq::<u8>::empty()
    } else {
        spec_vertices_bytes(s.drop_last()) + s.last().spec_bytes()
    }
}

/// Every record contributes exactly sixteen bytes.
pub proof fn lemma_vertices_bytes_len(s: Seq<Vertex>)
    ensures
        spec_vertices_bytes(s).len() == 16 * s.len(),
    decreases s.len(),
{
    if s.len() > 0 {
        lemma_vertices_bytes_len(s.drop_last());
        vstd::bytes::lemma_auto_spec_u32_to_from_le_bytes();
    }
}

/// Serialize a vertex list for upload.
pub fn vertices_to_bytes(vs: &Vec<Vertex>) -> (b: Vec<u8>)
    ensures
        b@ == spec_vertices_bytes(vs@),
        b@.len() == 16 * vs@.len(),
{
    let mut b: Vec<u8> = Vec::new();
    let mut i: usize = 0;
    while i < vs.len()
        invariant
            i <= vs@.len(),
            b@ == spec_vertices_bytes(vs@.take(i as int)),
        decreases vs@.len() - i,
    {
        let mut next = vs[i].to_bytes();
        b.append(&mut next);
        proof {
            let t = vs@.take(i as int + 1);
            assert(t.drop_last() =~= vs@.take(i as int));
            assert(t.last() == vs@[i as int]);
        }
        i = i + 1;
    }
    proof {
        assert(vs@.take(vs@.len() as int) =~= vs@);
        lemma_vertices_bytes_len(vs@);
    }
    b
}

} // verus!
