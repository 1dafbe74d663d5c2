use render_gl::context::Context;
use render_gl::resources::{self, resource_name_to_path, Resources};
use render_gl::shader::{
    shader_kind_for_name, whitespace_c_str, Error, Program, Shader, ShaderKind,
};

const VERT_SRC: &[u8] = b"#version 330 core\nlayout (location = 0) in vec3 Position;\nvoid main() { gl_Position = vec4(Position, 1.0); }\n";
const FRAG_SRC: &[u8] = b"#version 330 core\nout vec4 Color;\nvoid main() { Color = vec4(1.0); }\n";

fn store_with(files: &[(&str, &[u8])]) -> Resources {
    let mut res = Resources::new("assets".to_string());
    for (name, bytes) in files {
        let path = resource_name_to_path("assets", name);
        res.add_file(path, bytes.to_vec());
    }
    res
}

#[test]
fn invalid_source_yields_nonempty_diagnostic() {
    let mut ctx = Context::new();
    let r = Shader::from_source(&mut ctx, b"garbage", ShaderKind::Vertex);
    let message = r.err().unwrap();
    assert!(!message.is_empty());
    // the half-constructed unit was released again
    assert_eq!((ctx.allocated, ctx.released), (1, 1));
}

#[test]
fn valid_minimal_source_compiles_to_nonzero_identifier() {
    let mut ctx = Context::new();
    let unit = Shader::from_vert_source(&mut ctx, VERT_SRC).unwrap();
    assert!(unit.id() != 0);
    assert_eq!(unit.shader_kind(), ShaderKind::Vertex);
    assert_eq!((ctx.allocated, ctx.released), (1, 0));
    unit.destroy(&mut ctx);
    assert_eq!((ctx.allocated, ctx.released), (1, 1));
}

#[test]
fn linking_two_vertex_units_yields_link_error() {
    let mut ctx = Context::new();
    let a = Shader::from_vert_source(&mut ctx, VERT_SRC).unwrap();
    let b = Shader::from_vert_source(&mut ctx, VERT_SRC).unwrap();
    let units = vec![a, b];
    let r = Program::from_shaders(&mut ctx, &units);
    let message = r.err().unwrap();
    assert!(!message.is_empty());
    // the partially-created program object was released again
    assert_eq!((ctx.allocated, ctx.released), (3, 1));
}

#[test]
fn linking_vertex_and_fragment_units_succeeds() {
    let mut ctx = Context::new();
    let v = Shader::from_vert_source(&mut ctx, VERT_SRC).unwrap();
    let f = Shader::from_frag_source(&mut ctx, FRAG_SRC).unwrap();
    let units = vec![v, f];
    let program = Program::from_shaders(&mut ctx, &units).unwrap();
    assert!(program.id() != 0);
    assert_eq!((ctx.allocated, ctx.released), (3, 0));
    assert!(!ctx.attached_vertex);
    assert!(!ctx.attached_fragment);
}

#[test]
fn vert_suffix_resolves_to_vertex_kind() {
    assert_eq!(shader_kind_for_name("triangle.vert.shader"), Some(ShaderKind::Vertex));
}

#[test]
fn frag_suffix_resolves_to_fragment_kind() {
    assert_eq!(shader_kind_for_name("triangle.frag.shader"), Some(ShaderKind::Fragment));
}

#[test]
fn unrecognized_suffix_resolves_to_no_kind() {
    assert_eq!(shader_kind_for_name("triangle.geom.shader"), None);
}

#[test]
fn unknown_suffix_is_reported_before_touching_the_context() {
    let mut ctx = Context::new();
    let res = store_with(&[]);
    let r = Shader::from_res(&mut ctx, &res, "triangle.geom.shader");
    match r.err().unwrap() {
        Error::UnknownShaderType { name } => assert_eq!(name, "triangle.geom.shader"),
        other => panic!("unexpected error: {:?}", other),
    }
    assert_eq!((ctx.allocated, ctx.released), (0, 0));
}

#[test]
fn missing_resource_reports_the_path_it_was_looked_up_under() {
    let mut ctx = Context::new();
    let res = store_with(&[]);
    let r = Shader::from_res(&mut ctx, &res, "shaders/missing.vert.shader");
    match r.err().unwrap() {
        Error::ResourceLoad { name, inner } => {
            assert_eq!(name, "shaders/missing.vert.shader");
            match inner {
                resources::Error::IO { path } => {
                    assert_eq!(path, "assets/shaders/missing.vert.shader");
                },
                other => panic!("unexpected inner error: {:?}", other),
            }
        },
        other => panic!("unexpected error: {:?}", other),
    }
    assert_eq!((ctx.allocated, ctx.released), (0, 0));
}

#[test]
fn source_with_interior_null_byte_is_a_load_error() {
    let mut ctx = Context::new();
    let res = store_with(&[("nil.vert.shader", b"#version 330\0core")]);
    let r = Shader::from_res(&mut ctx, &res, "nil.vert.shader");
    match r.err().unwrap() {
        Error::ResourceLoad { name, inner } => {
            assert_eq!(name, "nil.vert.shader");
            assert!(matches!(inner, resources::Error::FileContainsNil));
        },
        other => panic!("unexpected error: {:?}", other),
    }
    assert_eq!((ctx.allocated, ctx.released), (0, 0));
}

#[test]
fn rejected_source_is_a_compile_error_with_its_diagnostic() {
    let mut ctx = Context::new();
    let res = store_with(&[("bad.frag.shader", b"not a shader")]);
    let r = Shader::from_res(&mut ctx, &res, "bad.frag.shader");
    match r.err().unwrap() {
        Error::CompileError { name, message } => {
            assert_eq!(name, "bad.frag.shader");
            assert!(!message.is_empty());
        },
        other => panic!("unexpected error: {:?}", other),
    }
    assert_eq!((ctx.allocated, ctx.released), (1, 1));
}

#[test]
fn program_from_res_loads_compiles_and_links_the_pair() {
    let mut ctx = Context::new();
    let res = store_with(&[
        ("shaders/triangle.vert.shader", VERT_SRC),
        ("shaders/triangle.frag.shader", FRAG_SRC),
    ]);
    let program = Program::from_res(&mut ctx, &res, "shaders/triangle").unwrap();
    assert!(program.id() != 0);
    // two units and one program allocated; the units were destroyed after
    // the link, leaving the program as the only live object
    assert_eq!((ctx.allocated, ctx.released), (3, 2));
    program.destroy(&mut ctx);
    assert_eq!((ctx.allocated, ctx.released), (3, 3));
}

#[test]
fn program_from_res_propagates_a_missing_fragment_unit() {
    let mut ctx = Context::new();
    let res = store_with(&[("shaders/triangle.vert.shader", VERT_SRC)]);
    let r = Program::from_res(&mut ctx, &res, "shaders/triangle");
    match r.err().unwrap() {
        Error::ResourceLoad { name, inner } => {
            assert_eq!(name, "shaders/triangle.frag.shader");
            assert!(matches!(inner, resources::Error::IO { .. }));
        },
        other => panic!("unexpected error: {:?}", other),
    }
    // the vertex unit that had been compiled was released again
    assert_eq!(ctx.allocated - ctx.released, 0);
}

#[test]
fn program_bind_and_unbind_drive_the_program_slot() {
    let mut ctx = Context::new();
    let res = store_with(&[
        ("shaders/triangle.vert.shader", VERT_SRC),
        ("shaders/triangle.frag.shader", FRAG_SRC),
    ]);
    let program = Program::from_res(&mut ctx, &res, "shaders/triangle").unwrap();
    program.bind(&mut ctx);
    assert_eq!(ctx.bound_program, program.id());
    program.unbind(&mut ctx);
    assert_eq!(ctx.bound_program, 0);
}

#[test]
fn destroying_a_bound_program_clears_the_program_slot() {
    let mut ctx = Context::new();
    let res = store_with(&[
        ("shaders/triangle.vert.shader", VERT_SRC),
        ("shaders/triangle.frag.shader", FRAG_SRC),
    ]);
    let program = Program::from_res(&mut ctx, &res, "shaders/triangle").unwrap();
    program.bind(&mut ctx);
    program.destroy(&mut ctx);
    assert_eq!(ctx.bound_program, 0);
}

#[test]
fn resolved_uniform_name_issues_one_assignment() {
    let mut ctx = Context::new();
    let res = store_with(&[
        ("shaders/triangle.vert.shader", VERT_SRC),
        ("shaders/triangle.frag.shader", FRAG_SRC),
    ]);
    let program = Program::from_res(&mut ctx, &res, "shaders/triangle").unwrap();
    ctx.declare_uniform("Alpha".to_string());
    ctx.declare_uniform("Slot".to_string());
    program.bind(&mut ctx);
    program.set_uniform1i(&mut ctx, "Slot", 7);
    assert_eq!(ctx.uniform_calls.as_slice(), &[(1, 7)]);
    assert!(ctx.warnings.is_empty());
}

#[test]
fn unresolved_uniform_name_warns_and_assigns_nothing() {
    let mut ctx = Context::new();
    let res = store_with(&[
        ("shaders/triangle.vert.shader", VERT_SRC),
        ("shaders/triangle.frag.shader", FRAG_SRC),
    ]);
    let program = Program::from_res(&mut ctx, &res, "shaders/triangle").unwrap();
    program.bind(&mut ctx);
    program.set_uniform1i(&mut ctx, "Missing", 7);
    assert!(ctx.uniform_calls.is_empty());
    assert_eq!(ctx.warnings.as_slice(), &["uniform not found: Missing".to_string()]);
}

#[test]
fn whitespace_c_str_allocates_exactly_the_queried_length() {
    let s = whitespace_c_str(5);
    assert_eq!(s, "     ");
    assert_eq!(whitespace_c_str(0), "");
}
