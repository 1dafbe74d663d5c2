use render_gl::data::{
    f32_f32_f32, i8_, i8_float, u2_u10_u10_u10_rev_float, AttribElement, FieldEncoding,
    VertexLayout,
};
use render_gl::buffer::{Buffer, VertexArray, VertexBuffer};
use render_gl::context::Context;
use render_gl::vertex::{vertices_to_bytes, Vertex, VERTEX_STRIDE};

fn pos(x: f32, y: f32, z: f32) -> f32_f32_f32 {
    f32_f32_f32::new(x.to_bits(), y.to_bits(), z.to_bits())
}

#[test]
fn layout_from_fields_derives_tight_offsets_and_stride() {
    let declared = vec![
        (0usize, FieldEncoding::ThreeFloats),
        (1usize, FieldEncoding::PackedTenTenTenTwoRev),
        (2usize, FieldEncoding::RawByte),
        (3usize, FieldEncoding::NormalizedByte),
    ];
    let layout = VertexLayout::from_fields(&declared).unwrap();
    assert_eq!(layout.num_fields(), 4);
    assert_eq!(layout.stride_bytes(), 18);
    assert_eq!(layout.field(0).offset, 0);
    assert_eq!(layout.field(1).offset, 12);
    assert_eq!(layout.field(2).offset, 16);
    assert_eq!(layout.field(3).offset, 17);
}

#[test]
fn layout_fields_stay_within_stride() {
    // stride S and N fields: every offset plus the field's width fits in S,
    // and the widths sum to no more than S
    let declared = vec![
        (5usize, FieldEncoding::RawByte),
        (1usize, FieldEncoding::ThreeFloats),
        (2usize, FieldEncoding::PackedTenTenTenTwoRev),
    ];
    let layout = VertexLayout::from_fields(&declared).unwrap();
    let stride = layout.stride_bytes();
    let mut total = 0usize;
    for i in 0..layout.num_fields() {
        let f = layout.field(i);
        let width = match f.encoding {
            FieldEncoding::ThreeFloats => 12,
            FieldEncoding::PackedTenTenTenTwoRev => 4,
            FieldEncoding::RawByte => 1,
            FieldEncoding::NormalizedByte => 1,
        };
        assert!(f.offset + width <= stride);
        total += width;
    }
    assert!(total <= stride);
}

#[test]
fn layout_rejects_duplicate_locations() {
    let declared = vec![
        (0usize, FieldEncoding::ThreeFloats),
        (0usize, FieldEncoding::RawByte),
    ];
    assert!(VertexLayout::from_fields(&declared).is_none());
}

#[test]
fn layout_tolerates_location_gaps() {
    let declared = vec![
        (0usize, FieldEncoding::ThreeFloats),
        (7usize, FieldEncoding::RawByte),
    ];
    let layout = VertexLayout::from_fields(&declared).unwrap();
    assert_eq!(layout.field(1).location, 7);
}

#[test]
fn empty_layout_applies_as_no_op() {
    let declared: Vec<(usize, FieldEncoding)> = vec![];
    let layout = VertexLayout::from_fields(&declared).unwrap();
    assert_eq!(layout.num_fields(), 0);
    assert_eq!(layout.stride_bytes(), 0);

    let mut ctx = Context::new();
    let mut vao = VertexArray::new(&mut ctx);
    let vbo: VertexBuffer = Buffer::new(&mut ctx);
    vao.bind(&mut ctx);
    vbo.bind(&mut ctx);
    layout.apply(&ctx, &mut vao);
    assert_eq!(vao.recorded().len(), 0);
}

#[test]
fn three_records_packed_color_layout_issues_exactly_two_calls() {
    // a 3-vertex record array: 12 bytes position plus 4 bytes packed
    // color, declared stride 16
    let mut ctx = Context::new();
    let vertices = vec![
        Vertex::new(pos(0.5, -0.5, 0.0), u2_u10_u10_u10_rev_float::pack(1023, 0, 0, 3)),
        Vertex::new(pos(-0.5, -0.5, 0.0), u2_u10_u10_u10_rev_float::pack(0, 1023, 0, 3)),
        Vertex::new(pos(0.0, 0.5, 0.0), u2_u10_u10_u10_rev_float::pack(0, 0, 1023, 3)),
    ];
    let mut vao = VertexArray::new(&mut ctx);
    let mut vbo: VertexBuffer = Buffer::new(&mut ctx);
    vao.bind(&mut ctx);
    vbo.bind(&mut ctx);
    let bytes = vertices_to_bytes(&vertices);
    assert_eq!(bytes.len(), 48);
    vbo.static_draw_data(&ctx, &bytes);

    let layout = Vertex::layout();
    assert_eq!(layout.stride_bytes(), VERTEX_STRIDE);
    layout.apply(&ctx, &mut vao);

    let calls = vao.recorded();
    assert_eq!(calls.len(), 2);

    assert_eq!(calls[0].format.location, 0);
    assert_eq!(calls[0].format.components, 3);
    assert_eq!(calls[0].format.element, AttribElement::Float);
    assert!(!calls[0].format.normalized);
    assert!(!calls[0].format.integer);
    assert_eq!(calls[0].format.stride, 16);
    assert_eq!(calls[0].format.offset, 0);
    assert_eq!(calls[0].source_buffer, vbo.handle());

    assert_eq!(calls[1].format.location, 1);
    assert_eq!(calls[1].format.components, 4);
    assert_eq!(calls[1].format.element, AttribElement::UnsignedInt2101010Rev);
    assert!(calls[1].format.normalized);
    assert!(!calls[1].format.integer);
    assert_eq!(calls[1].format.stride, 16);
    assert_eq!(calls[1].format.offset, 12);
    assert_eq!(calls[1].source_buffer, vbo.handle());
}

#[test]
fn derived_attrib_pointers_match_the_declared_layout() {
    let mut ctx = Context::new();
    let mut vao_a = VertexArray::new(&mut ctx);
    let mut vao_b = VertexArray::new(&mut ctx);
    let vbo: VertexBuffer = Buffer::new(&mut ctx);
    vbo.bind(&mut ctx);

    vao_a.bind(&mut ctx);
    Vertex::vertex_attrib_pointers(&ctx, &mut vao_a);

    vao_b.bind(&mut ctx);
    Vertex::layout().apply(&ctx, &mut vao_b);

    assert_eq!(vao_a.recorded().as_slice(), vao_b.recorded().as_slice());
}

#[test]
fn attrib_pointer_records_the_buffer_bound_at_configure_time() {
    // rebinding another buffer afterwards must not change what was recorded
    let mut ctx = Context::new();
    let mut vao = VertexArray::new(&mut ctx);
    let first: VertexBuffer = Buffer::new(&mut ctx);
    let second: VertexBuffer = Buffer::new(&mut ctx);
    vao.bind(&mut ctx);
    first.bind(&mut ctx);
    Vertex::vertex_attrib_pointers(&ctx, &mut vao);
    second.bind(&mut ctx);
    assert_eq!(vao.recorded()[0].source_buffer, first.handle());
    assert_eq!(vao.recorded()[1].source_buffer, first.handle());
}

#[test]
fn packed_word_places_components_in_reverse_order() {
    let v = u2_u10_u10_u10_rev_float::pack(1, 2, 3, 1);
    assert_eq!(v.inner, (1u32 << 30) | (3u32 << 20) | (2u32 << 10) | 1u32);
    let full = u2_u10_u10_u10_rev_float::pack(1023, 1023, 1023, 3);
    assert_eq!(full.inner, u32::MAX);
    let raw = u2_u10_u10_u10_rev_float::from_raw(0xC000_0000);
    assert_eq!(raw.inner, 0xC000_0000);
}

#[test]
fn vertex_serialization_is_little_endian_position_then_color() {
    let v = Vertex::new(pos(0.5, -0.5, 0.0), u2_u10_u10_u10_rev_float::from_raw(0x0102_0304));
    let bytes = v.to_bytes();
    assert_eq!(bytes.len(), 16);
    // 0.5 is 0x3F000000, -0.5 is 0xBF000000, 0.0 is 0x00000000
    assert_eq!(&bytes[0..4], &[0x00, 0x00, 0x00, 0x3F]);
    assert_eq!(&bytes[4..8], &[0x00, 0x00, 0x00, 0xBF]);
    assert_eq!(&bytes[8..12], &[0x00, 0x00, 0x00, 0x00]);
    assert_eq!(&bytes[12..16], &[0x04, 0x03, 0x02, 0x01]);
}

#[test]
fn byte_field_constructors_keep_their_value() {
    assert_eq!(i8_::new(-7).d0, -7);
    assert_eq!(i8_float::new(19).d0, 19);
}
