use render_gl::buffer::{Buffer, ElementArray, VertexArray, VertexBuffer};
use render_gl::context::{BufferKind, Context};
use render_gl::texture::Texture;

#[test]
fn upload_replaces_the_entire_content() {
    // upload N bytes, unbind, rebind, upload M bytes: readback reflects
    // only the M-byte payload
    let mut ctx = Context::new();
    let mut vbo: VertexBuffer = Buffer::new(&mut ctx);
    vbo.bind(&mut ctx);
    vbo.static_draw_data(&ctx, &[1, 2, 3, 4, 5, 6, 7]);
    vbo.unbind(&mut ctx);
    vbo.bind(&mut ctx);
    vbo.static_draw_data(&ctx, &[9, 9]);
    assert_eq!(vbo.data().as_slice(), &[9, 9]);
}

#[test]
fn fresh_buffer_holds_no_bytes() {
    let mut ctx = Context::new();
    let vbo: VertexBuffer = Buffer::new(&mut ctx);
    assert_eq!(vbo.data().len(), 0);
    assert!(vbo.handle() != 0);
}

#[test]
fn each_buffer_kind_has_its_own_binding_slot() {
    let mut ctx = Context::new();
    let vbo: VertexBuffer = Buffer::new(&mut ctx);
    let ibo: ElementArray = Buffer::new(&mut ctx);
    vbo.bind(&mut ctx);
    ibo.bind(&mut ctx);
    assert_eq!(ctx.bound_vertex_buffer, vbo.handle());
    assert_eq!(ctx.bound_index_buffer, ibo.handle());
    vbo.unbind(&mut ctx);
    assert_eq!(ctx.bound_vertex_buffer, 0);
    assert_eq!(ctx.bound_index_buffer, ibo.handle());
}

#[test]
fn destroying_a_buffer_releases_exactly_one_handle() {
    let mut ctx = Context::new();
    let vbo: VertexBuffer = Buffer::new(&mut ctx);
    assert_eq!(ctx.allocated, 1);
    assert_eq!(ctx.released, 0);
    vbo.destroy(&mut ctx);
    assert_eq!(ctx.allocated, 1);
    assert_eq!(ctx.released, 1);
}

#[test]
fn destroying_a_vertex_array_releases_exactly_one_handle() {
    let mut ctx = Context::new();
    let vao = VertexArray::new(&mut ctx);
    assert_eq!((ctx.allocated, ctx.released), (1, 0));
    vao.destroy(&mut ctx);
    assert_eq!((ctx.allocated, ctx.released), (1, 1));
}

#[test]
fn destroying_a_bound_buffer_clears_its_binding_slot() {
    let mut ctx = Context::new();
    let vbo: VertexBuffer = Buffer::new(&mut ctx);
    vbo.bind(&mut ctx);
    assert_eq!(ctx.bound_vertex_buffer, vbo.handle());
    vbo.destroy(&mut ctx);
    assert_eq!(ctx.bound_vertex_buffer, 0);
}

#[test]
fn handles_are_handed_out_in_order_and_never_zero() {
    let mut ctx = Context::new();
    let a: VertexBuffer = Buffer::new(&mut ctx);
    let b: VertexBuffer = Buffer::new(&mut ctx);
    let vao = VertexArray::new(&mut ctx);
    assert_eq!(a.handle(), 1);
    assert_eq!(b.handle(), 2);
    assert_eq!(vao.handle(), 3);
}

#[test]
fn vertex_array_bind_unbind_drives_the_single_slot() {
    let mut ctx = Context::new();
    let vao_a = VertexArray::new(&mut ctx);
    let vao_b = VertexArray::new(&mut ctx);
    vao_a.bind(&mut ctx);
    assert_eq!(ctx.bound_vertex_array, vao_a.handle());
    vao_b.bind(&mut ctx);
    assert_eq!(ctx.bound_vertex_array, vao_b.handle());
    vao_b.unbind(&mut ctx);
    assert_eq!(ctx.bound_vertex_array, 0);
}

#[test]
fn texture_upload_binds_then_unbinds() {
    let mut ctx = Context::new();
    let pixels = vec![0u8; 16];
    let tex = Texture::from_image(&mut ctx, 2, 2, &pixels);
    assert_eq!(ctx.allocated, 1);
    assert_eq!(tex.handle(), 1);
    assert_eq!(tex.width(), 2);
    assert_eq!(tex.height(), 2);
    assert_eq!(ctx.bound_texture, 0);
}

#[test]
fn texture_bind_selects_slot_and_destroy_releases_once() {
    let mut ctx = Context::new();
    let pixels = vec![0u8; 4];
    let tex = Texture::from_image(&mut ctx, 1, 1, &pixels);
    tex.bind(&mut ctx, 3);
    assert_eq!(ctx.active_texture_slot, 3);
    assert_eq!(ctx.bound_texture, tex.handle());
    tex.unbind(&mut ctx);
    assert_eq!(ctx.bound_texture, 0);
    assert_eq!(ctx.active_texture_slot, 3);
    tex.destroy(&mut ctx);
    assert_eq!((ctx.allocated, ctx.released), (1, 1));
}

#[test]
fn buffer_kinds_are_distinct() {
    assert_ne!(BufferKind::VertexData, BufferKind::IndexData);
}
