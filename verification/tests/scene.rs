use render_gl::context::Context;
use render_gl::data::{f32_f32_f32, u2_u10_u10_u10_rev_float, AttribElement};
use render_gl::input::{Input, InputEvent, Key};
use render_gl::resources::{resource_name_to_path, Resources};
use render_gl::shader::Error;
use render_gl::square::Square;
use render_gl::triangle::Triangle;
use render_gl::vertex::Vertex;

const VERT_SRC: &[u8] = b"#version 330 core\nlayout (location = 0) in vec3 Position;\nlayout (location = 1) in vec4 Color;\nvoid main() { gl_Position = vec4(Position, 1.0); }\n";
const FRAG_SRC: &[u8] = b"#version 330 core\nout vec4 Color;\nvoid main() { Color = vec4(1.0); }\n";

fn triangle_store() -> Resources {
    let mut res = Resources::new("assets".to_string());
    res.add_file(
        resource_name_to_path("assets", "shaders/triangle.vert.shader"),
        VERT_SRC.to_vec(),
    );
    res.add_file(
        resource_name_to_path("assets", "shaders/triangle.frag.shader"),
        FRAG_SRC.to_vec(),
    );
    res
}

fn corner(x: f32, y: f32, packed: u32) -> Vertex {
    Vertex::new(
        f32_f32_f32::new(x.to_bits(), y.to_bits(), 0.0f32.to_bits()),
        u2_u10_u10_u10_rev_float::from_raw(packed),
    )
}

#[test]
fn triangle_assembles_uploads_and_configures() {
    let mut ctx = Context::new();
    let res = triangle_store();
    let vertices = vec![
        corner(0.5, -0.5, 1),
        corner(-0.5, -0.5, 2),
        corner(0.0, 0.5, 3),
    ];
    let triangle = Triangle::new(&mut ctx, &res, &vertices).unwrap();

    // 2 units + 1 program + 1 vertex-array + 1 buffer allocated, the units
    // destroyed after the link
    assert_eq!((ctx.allocated, ctx.released), (5, 2));
    // nothing left dangling across unrelated operations
    assert_eq!(ctx.bound_vertex_array, 0);
    assert_eq!(ctx.bound_vertex_buffer, 0);

    assert_eq!(triangle.vbo().data().len(), 48);
    let calls = triangle.vao().recorded();
    assert_eq!(calls.len(), 2);
    assert_eq!(calls[0].format.location, 0);
    assert_eq!(calls[0].format.element, AttribElement::Float);
    assert_eq!(calls[1].format.location, 1);
    assert_eq!(calls[1].format.element, AttribElement::UnsignedInt2101010Rev);
    assert_eq!(calls[0].source_buffer, triangle.vbo().handle());
}

#[test]
fn triangle_render_binds_and_draws() {
    let mut ctx = Context::new();
    let res = triangle_store();
    let vertices = vec![corner(0.5, -0.5, 1), corner(-0.5, -0.5, 2), corner(0.0, 0.5, 3)];
    let triangle = Triangle::new(&mut ctx, &res, &vertices).unwrap();
    triangle.render(&mut ctx);
    assert_eq!(ctx.bound_program, triangle.program().id());
    assert_eq!(ctx.bound_vertex_array, triangle.vao().handle());
    assert_eq!(ctx.draw_calls, 1);
    triangle.render(&mut ctx);
    assert_eq!(ctx.draw_calls, 2);
}

#[test]
fn triangle_destroy_releases_its_three_handles() {
    let mut ctx = Context::new();
    let res = triangle_store();
    let vertices = vec![corner(0.5, -0.5, 1), corner(-0.5, -0.5, 2), corner(0.0, 0.5, 3)];
    let triangle = Triangle::new(&mut ctx, &res, &vertices).unwrap();
    triangle.destroy(&mut ctx);
    assert_eq!(ctx.allocated, 5);
    assert_eq!(ctx.released, 5);
}

#[test]
fn triangle_with_empty_store_propagates_the_load_error() {
    let mut ctx = Context::new();
    let res = Resources::new("assets".to_string());
    let vertices = vec![corner(0.5, -0.5, 1), corner(-0.5, -0.5, 2), corner(0.0, 0.5, 3)];
    let r = Triangle::new(&mut ctx, &res, &vertices);
    assert!(matches!(r.err().unwrap(), Error::ResourceLoad { .. }));
    assert_eq!(ctx.allocated - ctx.released, 0);
}

#[test]
fn square_assembles_with_index_pattern() {
    let mut ctx = Context::new();
    let res = triangle_store();
    let vertices = vec![
        corner(0.5, -0.5, 1),
        corner(-0.5, -0.5, 2),
        corner(-0.5, 0.5, 3),
        corner(0.5, 0.5, 4),
    ];
    let square = Square::new(&mut ctx, &res, &vertices).unwrap();
    assert_eq!((ctx.allocated, ctx.released), (6, 2));
    assert_eq!(square.ibo().data().as_slice(), &[0, 1, 2, 2, 3, 0]);
    assert_eq!(square.vbo().data().len(), 64);
    assert_eq!(square.vao().recorded().len(), 2);
    assert_eq!(ctx.bound_vertex_array, 0);
    assert_eq!(ctx.bound_vertex_buffer, 0);
    assert_eq!(ctx.bound_index_buffer, 0);

    square.render(&mut ctx);
    assert_eq!(ctx.draw_calls, 1);

    square.destroy(&mut ctx);
    assert_eq!((ctx.allocated, ctx.released), (6, 6));
}

#[test]
fn input_starts_with_no_direction_held() {
    let input = Input::new();
    assert_eq!((input.up, input.down, input.left, input.right), (0, 0, 0, 0));
}

#[test]
fn input_tracks_presses_and_releases() {
    let mut input = Input::new();
    input.callback(&InputEvent::KeyDown(Key::W));
    assert_eq!((input.up, input.down, input.left, input.right), (1, 0, 0, 0));
    input.callback(&InputEvent::KeyDown(Key::Right));
    assert_eq!((input.up, input.down, input.left, input.right), (1, 0, 0, 1));
    input.callback(&InputEvent::KeyUp(Key::Up));
    assert_eq!((input.up, input.down, input.left, input.right), (0, 0, 0, 1));
    input.callback(&InputEvent::KeyDown(Key::Other));
    assert_eq!((input.up, input.down, input.left, input.right), (0, 0, 0, 1));
    input.callback(&InputEvent::Other);
    assert_eq!((input.up, input.down, input.left, input.right), (0, 0, 0, 1));
}

#[test]
fn resource_names_join_under_the_root() {
    assert_eq!(
        resource_name_to_path("assets", "shaders/triangle.vert.shader"),
        "assets/shaders/triangle.vert.shader"
    );
    assert_eq!(resource_name_to_path("root", "file"), "root/file");
}

#[test]
fn the_store_returns_what_was_added() {
    let mut res = Resources::new("base".to_string());
    res.add_file("base/hello".to_string(), vec![104, 105]);
    let bytes = res.load_cstring("hello").unwrap();
    assert_eq!(bytes, vec![104, 105]);
    assert!(res.load_cstring("absent").is_err());
}
