//! Vertex record field types and the declarative vertex-layout
//! description.
//!
//! A vertex record is described once per record *shape* as an ordered
//! list of fields, each with an attribute location and an encoding.
//! From that list a [`VertexLayout`] derives the byte offset of every
//! field and the record's total byte stride, assuming a tight, packed
//! layout with no implicit padding; applying the layout while a
//! vertex-array and a vertex buffer are bound records one
//! attribute-pointer call per field.

use vstd::prelude::*;

use crate::buffer::VertexArray;
use crate::context::{BufferKind, Context};

verus! {

/// The base numeric element type of an attribute, as named in the
/// low-level attribute-pointer call.
#[derive(Copy, Clone, PartialEq, Eq, Structural, Debug)]
pub enum AttribElement {
    /// 32-bit float components.
    Float,
    /// Signed 8-bit integer components.
    Byte,
    /// One 32-bit word packing four components: 2 + 10 + 10 + 10 bits,
    /// reversed field order.
    UnsignedInt2101010Rev,
}

/// Everything one low-level attribute-pointer call carries.
#[derive(Copy, Clone, PartialEq, Eq, Structural, Debug)]
pub struct AttribFormat {
    /// The attribute slot this field feeds.
    pub location: usize,
    /// Component count, 1 to 4.
    pub components: u32,
    /// Base element type.
    pub element: AttribElement,
    /// Whether integer data is mapped into the unit range.
    pub normalized: bool,
    /// Whether the slot is read as an integer attribute (a distinct
    /// call shape from the float path).
    pub integer: bool,
    /// The record's total byte stride.
    pub stride: usize,
    /// The field's byte offset inside the record.
    pub offset: usize,
}

/// One attribute-pointer call as recorded by a vertex-array: the
/// format, plus the vertex buffer that was bound when the call was
/// issued and which the slot will therefore read from.
#[derive(Copy, Clone, PartialEq, Eq, Structural, Debug)]
pub struct AttribPointer {
    pub format: AttribFormat,
    pub source_buffer: u64,
}

/// The supported field encodings of a vertex record.
#[derive(Copy, Clone, PartialEq, Eq, Structural, Debug)]
pub enum FieldEncoding {
    /// Three 32-bit floats, read as floats: position-like data.
    ThreeFloats,
    /// Four components packed in one 32-bit word (2+10+10+10 bits,
    /// reversed), normalized: compact color or normal data.
    PackedTenTenTenTwoRev,
    /// One signed byte read as an integer attribute.
    RawByte,
    /// One signed byte mapped into the unit range.
    NormalizedByte,
}

/// The bytes a field of this encoding occupies inside the record:
/// component count times component width for the float and byte
/// encodings, and one 4-byte word for the packed encoding, whose four
/// components share it.
pub open spec fn encoding_width(e: FieldEncoding) -> int {
    match e {
        FieldEncoding::ThreeFloats => 12,
        FieldEncoding::PackedTenTenTenTwoRev => 4,
        FieldEncoding::RawByte => 1,
        FieldEncoding::NormalizedByte => 1,
    }
}

/// The attribute-pointer format a field of encoding `e` produces.
pub open spec fn encoding_format(
    e: FieldEncoding,
    location: usize,
    stride: usize,
    offset: usize,
) -> AttribFormat {
    match e {
        FieldEncoding::ThreeFloats => AttribFormat {
            location,
            components: 3,
            element: AttribElement::Float,
            normalized: false,
            integer: false,
            stride,
            offset,
        },
        FieldEncoding::PackedTenTenTenTwoRev => AttribFormat {
            location,
            components: 4,
            element: AttribElement::UnsignedInt2101010Rev,
            normalized: true,
            integer: false,
            stride,
            offset,
        },
        FieldEncoding::RawByte => AttribFormat {
            location,
            components: 1,
            element: AttribElement::Byte,
            normalized: false,
            integer: true,
            stride,
            offset,
        },
        FieldEncoding::NormalizedByte => AttribFormat {
            location,
            components: 1,
            element: AttribElement::Byte,
            normalized: true,
            integer: false,
            stride,
            offset,
        },
    }
}

/// The bytes a field of this encoding occupies, executable form.
pub fn encoding_width_exec(e: FieldEncoding) -> (w: usize)
    ensures
        w as int == encoding_width(e),
{
    match e {
        FieldEncoding::ThreeFloats => 12,
        FieldEncoding::PackedTenTenTenTwoRev => 4,
        FieldEncoding::RawByte => 1,
        FieldEncoding::NormalizedByte => 1,
    }
}

/// The attribute-pointer format a field produces, executable form.
pub fn format_for(e: FieldEncoding, location: usize, stride: usize, offset: usize) -> (f:
    AttribFormat)
    ensures
        f == encoding_format(e, location, stride, offset),
{
    match e {
        FieldEncoding::ThreeFloats => AttribFormat {
            location,
            components: 3,
            element: AttribElement::Float,
            normalized: false,
            integer: false,
            stride,
            offset,
        },
        FieldEncoding::PackedTenTenTenTwoRev => AttribFormat {
            location,
            components: 4,
            element: AttribElement::UnsignedInt2101010Rev,
            normalized: true,
            integer: false,
            stride,
            offset,
        },
        FieldEncoding::RawByte => AttribFormat {
            location,
            components: 1,
            element: AttribElement::Byte,
            normalized: false,
            integer: true,
            stride,
            offset,
        },
        FieldEncoding::NormalizedByte => AttribFormat {
            location,
            components: 1,
            element: AttribElement::Byte,
            normalized: true,
            integer: false,
            stride,
            offset,
        },
    }
}

/// One described field of a vertex record: its attribute location, its
/// encoding, and its derived byte offset inside the record.
#[derive(Copy, Clone, PartialEq, Eq, Structural, Debug)]
pub struct LayoutField {
    pub location: usize,
    pub encoding: FieldEncoding,
    pub offset: usize,
}

/// The summed widths of the first `n` encodings of `s`.
pub open spec fn widths_total(s: Seq<FieldEncoding>, n: int) -> int
    decreases n,
{
    if n <= 0 {
        0
    } else {
        widths_total(s, n - 1) + encoding_width(s[n - 1])
    }
}

/// The encodings of a described field list, in order.
pub open spec fn encodings_of(s: Seq<LayoutField>) -> Seq<FieldEncoding> {
    s.map(|i: int, f: LayoutField| f.encoding)
}

/// Summed widths only grow as more fields are taken.
pub proof fn lemma_widths_total_mono(s: Seq<FieldEncoding>, a: int, b: int)
    requires
        0 <= a <= b,
    ensures
        widths_total(s, a) <= widths_total(s, b),
    decreases b,
{
    if b > a {
        lemma_widths_total_mono(s, a, b - 1);
    }
}

/// No two described fields share an attribute location.
pub open spec fn distinct_locations(s: Seq<(usize, FieldEncoding)>) -> bool {
    forall|i: int, j: int| 0 <= i < j < s.len() ==> s[i].0 != s[j].0
}

/// The encodings of a declared field list, in order.
pub open spec fn declared_encodings(s: Seq<(usize, FieldEncoding)>) -> Seq<FieldEncoding> {
    s.map(|i: int, p: (usize, FieldEncoding)| p.1)
}

/// A declarative description of one vertex record shape: an ordered
/// field list with derived tight offsets, and the record's byte
/// stride. Built once per shape, never mutated.
pub struct VertexLayout {
    stride: usize,
    fields: Vec<LayoutField>,
}

impl VertexLayout {
    /// The record's total byte stride.
    pub closed spec fn stride(self) -> usize {
        self.stride
    }

    /// The described fields, in declaration order.
    pub closed spec fn fields(self) -> Seq<LayoutField> {
        self.fields@
    }

    /// Well-formedness: offsets are the tight running sums of the
    /// field widths, the stride is the total width, and attribute
    /// locations are unique (gaps are tolerated).
    pub open spec fn wf(self) -> bool {
        &&& forall|i: int|
            0 <= i < self.fields().len() ==> (#[trigger] self.fields()[i]).offset as int
                == widths_total(encodings_of(self.fields()), i)
        &&& self.stride() as int == widths_total(encodings_of(self.fields()), self.fields().len() as int)
        &&& forall|i: int, j: int|
            0 <= i < j < self.fields().len() ==> (#[trigger] self.fields()[i]).location != (#[trigger] self.fields()[j]).location
    }

    /// Every field of a well-formed layout lies inside the stride: the
    /// summed field widths never exceed the stride, and each field's
    /// offset plus its own width stays within the stride.
    pub proof fn lemma_fields_within_stride(self)
        requires
            self.wf(),
        ensures
            widths_total(encodings_of(self.fields()), self.fields().len() as int) <= self.stride() as int,
            forall|i: int|
                0 <= i < self.fields().len() ==> (#[trigger] self.fields()[i]).offset as int
                    + encoding_width(self.fields()[i].encoding) <= self.stride() as int,
    {
        let encs = encodings_of(self.fields());
        let n = self.fields().len() as int;
        assert forall|i: int| 0 <= i < n implies (#[trigger] self.fields()[i]).offset as int
            + encoding_width(self.fields()[i].encoding) <= self.stride() as int by {
            assert(encs[i] == self.fields()[i].encoding);
            assert(self.fields()[i].offset as int + encoding_width(self.fields()[i].encoding)
                == widths_total(encs, i + 1));
            lemma_widths_total_mono(encs, i + 1, n);
        }
    }

    /// Describe a record shape from its declared fields, in order:
    /// each field's offset is the sum of the widths before it and the
    /// stride is the total width (tight, packed layout). Returns
    /// `None` exactly when two fields share a location or the record
    /// does not fit in the address space.
    pub fn from_fields(declared: &Vec<(usize, FieldEncoding)>) -> (r: Option<VertexLayout>)
        ensures
            match r {
                Some(l) => {
                    &&& l.wf()
                    &&& l.fields().len() == declared@.len()
                    &&& forall|i: int|
                        0 <= i < declared@.len() ==> (#[trigger] l.fields()[i]).location == declared@[i].0
                            && l.fields()[i].encoding == declared@[i].1
                    &&& distinct_locations(declared@)
                    &&& widths_total(declared_encodings(declared@), declared@.len() as int) <= usize::MAX as int
                },
                None => !(distinct_locations(declared@) && widths_total(
                    declared_encodings(declared@),
                    declared@.len() as int,
                ) <= usize::MAX as int),
            },
    {
        let ghost encs = declared_encodings(declared@);
        let mut fields: Vec<LayoutField> = Vec::new();
        let mut offset: usize = 0;
        let mut i: usize = 0;
        while i < declared.len()
            invariant
                i <= declared@.len(),
                fields@.len() == i,
                forall|k: int|
                    0 <= k < i as int ==> (#[trigger] fields@[k]).location == declared@[k].0
                        && fields@[k].encoding == declared@[k].1
                        && fields@[k].offset as int == widths_total(encs, k),
                offset as int == widths_total(encs, i as int),
                forall|k: int, m: int| 0 <= k < m < i as int ==> declared@[k].0 != declared@[m].0,
                encs == declared_encodings(declared@),
            decreases declared@.len() - i,
        {
            let (location, encoding) = declared[i];
            // reject a location already used by an earlier field
            let mut j: usize = 0;
            while j < fields.len()
                invariant
                    j <= fields@.len(),
                    fields@.len() == i,
                    i < declared@.len(),
                    forall|k: int|
                        0 <= k < i as int ==> (#[trigger] fields@[k]).location == declared@[k].0,
                    forall|k: int| 0 <= k < j as int ==> (#[trigger] fields@[k]).location != location,
                    location == declared@[i as int].0,
                decreases fields@.len() - j,
            {
                if fields[j].location == location {
                    proof {
                        assert(declared@[j as int].0 == declared@[i as int].0);
                        assert(!distinct_locations(declared@));
                    }
                    return None;
                }
                j = j + 1;
            }
            let width = encoding_width_exec(encoding);
            proof {
                assert(encs[i as int] == declared@[i as int].1);
            }
            if offset > usize::MAX - width {
                proof {
                    assert(widths_total(encs, i as int + 1) > usize::MAX as int);
                    lemma_widths_total_mono(encs, i as int + 1, declared@.len() as int);
                }
                return None;
            }
            proof {
                assert forall|k: int| 0 <= k < i as int implies declared@[k].0 != declared@[
                    i as int].0 by {
                    assert(fields@[k].location == declared@[k].0);
                    assert(fields@[k].location != location);
                }
            }
            fields.push(LayoutField { location, encoding, offset });
            offset = offset + width;
            i = i + 1;
        }
        let l = VertexLayout { stride: offset, fields };
        proof {
            assert(encodings_of(l.fields()) =~= encs);
        }
        Some(l)
    }

    /// The number of described fields, for inspection.
    pub fn num_fields(&self) -> (n: usize)
        ensures
            n == self.fields().len(),
    {
        self.fields.len()
    }

    /// The described field at `i`, for inspection.
    pub fn field(&self, i: usize) -> (f: LayoutField)
        requires
            i < self.fields().len(),
        ensures
            f == self.fields()[i as int],
    {
        self.fields[i]
    }

    /// The record's byte stride, for inspection.
    pub fn stride_bytes(&self) -> (s: usize)
        ensures
            s == self.stride(),
    {
        self.stride
    }

    /// The attribute-pointer calls applying this layout issues when
    /// `source_buffer` is the bound vertex buffer: one per field, in
    /// field order.
    pub open spec fn layout_calls(self, source_buffer: u64) -> Seq<AttribPointer> {
        self.fields().map(
            |i: int, f: LayoutField|
                AttribPointer {
                    format: encoding_format(f.encoding, f.location, self.stride(), f.offset),
                    source_buffer,
                },
        )
    }

    /// Enable and describe every field's attribute slot: one
    /// attribute-pointer call per field, recorded by the bound
    /// vertex-array against the bound vertex buffer. A layout with no
    /// fields records nothing. Must be called while both the target
    /// vertex-array and the source vertex buffer are bound.
    pub fn apply(&self, ctx: &Context, vao: &mut VertexArray)
        requires
            ctx.bound_vertex_array() == old(vao).id(),
            ctx.buffer_binding(BufferKind::VertexData) != 0,
        ensures
            final(vao).id() == old(vao).id(),
            final(vao).attribs() == old(vao).attribs() + self.layout_calls(
                ctx.buffer_binding(BufferKind::VertexData),
            ),
    {
        let ghost source = ctx.buffer_binding(BufferKind::VertexData);
        let ghost calls = self.layout_calls(source);
        let mut i: usize = 0;
        while i < self.fields.len()
            invariant
                i <= self.fields().len(),
                ctx.bound_vertex_array() == vao.id(),
                ctx.buffer_binding(BufferKind::VertexData) == source,
                source != 0,
                vao.id() == old(vao).id(),
                calls == self.layout_calls(source),
                calls.len() == self.fields().len(),
                vao.attribs() == old(vao).attribs() + calls.subrange(0, i as int),
            decreases self.fields().len() - i,
        {
            let f = self.fields[i];
            let format = format_for(f.encoding, f.location, self.stride, f.offset);
            vao.record_attrib_pointer(ctx, format);
            proof {
                assert(calls[i as int] == (AttribPointer { format, source_buffer: source }));
                assert(calls.subrange(0, i as int + 1) =~= calls.subrange(0, i as int).push(
                    calls[i as int],
                ));
                assert(old(vao).attribs() + calls.subrange(0, i as int + 1) =~= (old(vao).attribs()
                    + calls.subrange(0, i as int)).push(calls[i as int]));
            }
            i = i + 1;
        }
        proof {
            assert(calls.subrange(0, calls.len() as int) =~= calls);
        }
    }
}

/// Three 32-bit float components, held as their raw bit patterns so
/// the layout layer stays free of float arithmetic; the slot reads
/// them as floats.
#[allow(non_camel_case_types)]
#[derive(Copy, Clone, PartialEq, Eq, Structural, Debug)]
pub struct f32_f32_f32 {
    pub d0: u32,
    pub d1: u32,
    pub d2: u32,
}

impl f32_f32_f32 {
    /// The twelve bytes this field contributes to a record, each
    /// component little-endian.
    pub open spec fn spec_bytes(self) -> Seq<u8> {
        vstd::bytes::spec_u32_to_le_bytes(self.d0) + vstd::bytes::spec_u32_to_le_bytes(self.d1)
            + vstd::bytes::spec_u32_to_le_bytes(self.d2)
    }

    pub fn new(d0: u32, d1: u32, d2: u32) -> (r: f32_f32_f32)
        ensures
            r.d0 == d0,
            r.d1 == d1,
            r.d2 == d2,
    {
        f32_f32_f32 { d0, d1, d2 }
    }

    /// Serialize for upload: the three components, little-endian.
    pub fn to_bytes(&self) -> (b: Vec<u8>)
        ensures
            b@ == self.spec_bytes(),
            b@.len() == 12,
    {
        proof {
            vstd::bytes::lemma_auto_spec_u32_to_from_le_bytes();
        }
        let mut b = vstd::bytes::u32_to_le_bytes(self.d0);
        let mut b1 = vstd::bytes::u32_to_le_bytes(self.d1);
        let mut b2 = vstd::bytes::u32_to_le_bytes(self.d2);
        b.append(&mut b1);
        b.append(&mut b2);
        b
    }

    /// Enable `location` and describe it as three unnormalized floats
    /// read from the bound vertex buffer.
    pub fn vertex_attrib_pointer(
        ctx: &Context,
        vao: &mut VertexArray,
        stride: usize,
        location: usize,
        offset: usize,
    )
        requires
            ctx.bound_vertex_array() == old(vao).id(),
            ctx.buffer_binding(BufferKind::VertexData) != 0,
        ensures
            final(vao).id() == old(vao).id(),
            final(vao).attribs() == old(vao).attribs().push(
                AttribPointer {
                    format: encoding_format(FieldEncoding::ThreeFloats, location, stride, offset),
                    source_buffer: ctx.buffer_binding(BufferKind::VertexData),
                },
            ),
    {
        let format = format_for(FieldEncoding::ThreeFloats, location, stride, offset);
        vao.record_attrib_pointer(ctx, format);
    }
}

/// The packed 32-bit word: `w` occupies the top 2 bits, then `z`, `y`
/// and `x` take 10 bits each, so the components sit in the word in
/// reverse declaration order.
pub open spec fn packed_2_10_10_10_rev(x: u16, y: u16, z: u16, w: u8) -> u32
    recommends
        x < 1024,
        y < 1024,
        z < 1024,
        w < 4,
{
    (((w as int) * 0x4000_0000 + (z as int) * 0x10_0000 + (y as int) * 0x400 + (x as int)) as u32)
}

/// Four components packed into one 32-bit word: 2 bits for the last
/// component, 10 for each of the other three, in reversed field order;
/// the slot reads them normalized into the unit range.
#[allow(non_camel_case_types)]
#[derive(Copy, Clone, PartialEq, Eq, Structural, Debug)]
pub struct u2_u10_u10_u10_rev_float {
    pub inner: u32,
}

impl u2_u10_u10_u10_rev_float {
    /// The four bytes this field contributes to a record, little-endian.
    pub open spec fn spec_bytes(self) -> Seq<u8> {
        vstd::bytes::spec_u32_to_le_bytes(self.inner)
    }

    /// Wrap an already-packed 32-bit word.
    pub fn from_raw(inner: u32) -> (r: u2_u10_u10_u10_rev_float)
        ensures
            r.inner == inner,
    {
        u2_u10_u10_u10_rev_float { inner }
    }

    /// Pack four quantized components: `x`, `y`, `z` in 10 bits each
    /// and `w` in 2 bits, in reversed field order.
    pub fn pack(x: u16, y: u16, z: u16, w: u8) -> (r: u2_u10_u10_u10_rev_float)
        requires
            x < 1024,
            y < 1024,
            z < 1024,
            w < 4,
        ensures
            r.inner == packed_2_10_10_10_rev(x, y, z, w),
    {
        let xw = x as u32;
        let yw = y as u32;
        let zw = z as u32;
        let ww = w as u32;
        let packed = (ww << 30) | (zw << 20) | (yw << 10) | xw;
        proof {
            assert((ww << 30) | (zw << 20) | (yw << 10) | xw == ((ww * 0x4000_0000 + zw * 0x10_0000
                + yw * 0x400 + xw) as u32)) by (bit_vector)
                requires
                    xw < 1024,
                    yw < 1024,
                    zw < 1024,
                    ww < 4,
            ;
        }
        u2_u10_u10_u10_rev_float { inner: packed }
    }

    /// Serialize for upload: the packed word, little-endian.
    pub fn to_bytes(&self) -> (b: Vec<u8>)
        ensures
            b@ == self.spec_bytes(),
            b@.len() == 4,
    {
        proof {
            vstd::bytes::lemma_auto_spec_u32_to_from_le_bytes();
        }
        vstd::bytes::u32_to_le_bytes(self.inner)
    }

    /// Enable `location` and describe it as one packed, normalized
    /// 2-10-10-10 reversed word read from the bound vertex buffer.
    pub fn vertex_attrib_pointer(
        ctx: &Context,
        vao: &mut VertexArray,
        stride: usize,
        location: usize,
        offset: usize,
    )
        requires
            ctx.bound_vertex_array() == old(vao).id(),
            ctx.buffer_binding(BufferKind::VertexData) != 0,
        ensures
            final(vao).id() == old(vao).id(),
            final(vao).attribs() == old(vao).attribs().push(
                AttribPointer {
                    format: encoding_format(
                        FieldEncoding::PackedTenTenTenTwoRev,
                        location,
                        stride,
                        offset,
                    ),
                    source_buffer: ctx.buffer_binding(BufferKind::VertexData),
                },
            ),
    {
        let format = format_for(FieldEncoding::PackedTenTenTenTwoRev, location, stride, offset);
        vao.record_attrib_pointer(ctx, format);
    }
}

/// One signed byte read raw, as an integer attribute.
#[allow(non_camel_case_types)]
#[derive(Copy, Clone, PartialEq, Eq, Structural, Debug)]
pub struct i8_ {
    pub d0: i8,
}

impl i8_ {
    pub fn new(d0: i8) -> (r: i8_)
        ensures
            r.d0 == d0,
    {
        i8_ { d0 }
    }

    /// Enable `location` and describe it as one raw signed byte read
    /// as an integer attribute from the bound vertex buffer.
    pub fn vertex_attrib_pointer(
        ctx: &Context,
        vao: &mut VertexArray,
        stride: usize,
        location: usize,
        offset: usize,
    )
        requires
            ctx.bound_vertex_array() == old(vao).id(),
            ctx.buffer_binding(BufferKind::VertexData) != 0,
        ensures
            final(vao).id() == old(vao).id(),
            final(vao).attribs() == old(vao).attribs().push(
                AttribPointer {
                    format: encoding_format(FieldEncoding::RawByte, location, stride, offset),
                    source_buffer: ctx.buffer_binding(BufferKind::VertexData),
                },
            ),
    {
        let format = format_for(FieldEncoding::RawByte, location, stride, offset);
        vao.record_attrib_pointer(ctx, format);
    }
}

/// One signed byte mapped into the unit range: a fractional attribute
/// derived from an 8-bit integer.
#[allow(non_camel_case_types)]
#[derive(Copy, Clone, PartialEq, Eq, Structural, Debug)]
pub struct i8_float {
    pub d0: i8,
}

impl i8_float {
    pub fn new(d0: i8) -> (r: i8_float)
        ensures
            r.d0 == d0,
    {
        i8_float { d0 }
    }

    /// Enable `location` and describe it as one normalized signed byte
    /// read from the bound vertex buffer.
    pub fn vertex_attrib_pointer(
        ctx: &Context,
        vao: &mut VertexArray,
        stride: usize,
        location: usize,
        offset: usize,
    )
        requires
            ctx.bound_vertex_array() == old(vao).id(),
            ctx.buffer_binding(BufferKind::VertexData) != 0,
        ensures
            final(vao).id() == old(vao).id(),
            final(vao).attribs() == old(vao).attribs().push(
                AttribPointer {
                    format: encoding_format(FieldEncoding::NormalizedByte, location, stride, offset),
                    source_buffer: ctx.buffer_binding(BufferKind::VertexData),
                },
            ),
    {
        let format = format_for(FieldEncoding::NormalizedByte, location, stride, offset);
        vao.record_attrib_pointer(ctx, format);
    }
}

} // verus!
