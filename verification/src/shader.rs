//! Shader units and linked programs.
//!
//! A [`Shader`] is one compiled unit of a stage; a [`Program`] is the
//! linked result of a vertex unit and a fragment unit. Compile and
//! link diagnostics are read back with the length-queried pattern:
//! query the log length, allocate exactly that many characters, then
//! fetch. A resource name resolves to a unit kind by its suffix before
//! the graphics context is ever touched.

use vstd::prelude::*;
use vstd::string::StringExecFns;

use crate::context::{
    compile_diagnostic_text, lemma_compile_diagnostic_nonempty, lemma_link_diagnostic_nonempty,
    lemma_uniform_index_range, link_diagnostic_text, source_compiles, uniform_index, Context,
};
use crate::resources::{has_nil, Resources};

verus! {

/// The two supported unit stages.
#[derive(Copy, Clone, PartialEq, Eq, Structural, Debug)]
pub enum ShaderKind {
    Vertex,
    Fragment,
}

/// Why a shader or program could not be produced.
#[derive(Debug)]
pub enum Error {
    /// The resource could not be loaded; `inner` says why.
    ResourceLoad { name: String, inner: crate::resources::Error },
    /// No recognized stage suffix matches the resource name.
    UnknownShaderType { name: String },
    /// The compiler rejected the unit; `message` is its diagnostic.
    CompileError { name: String, message: String },
    /// The linker rejected the program; `message` is its diagnostic.
    LinkError { name: String, message: String },
}

/// Whether `s` ends with `suffix`.
pub open spec fn ends_with_spec(s: Seq<char>, suffix: Seq<char>) -> bool {
    s.len() >= suffix.len() && s.skip(s.len() - suffix.len()) == suffix
}

/// Whether a resource name resolves to a vertex unit.
pub open spec fn is_vertex_name(name: Seq<char>) -> bool {
    ends_with_spec(name, ".vert.shader"@)
}

/// Whether a resource name resolves to a fragment unit.
pub open spec fn is_fragment_name(name: Seq<char>) -> bool {
    ends_with_spec(name, ".frag.shader"@)
}

/// The unit kind a resolvable resource name names; vertex is checked
/// first, as the suffix list is ordered.
pub open spec fn resolved_kind(name: Seq<char>) -> ShaderKind {
    if is_vertex_name(name) {
        ShaderKind::Vertex
    } else {
        ShaderKind::Fragment
    }
}

/// Character-wise suffix test.
fn str_ends_with(s: &str, suffix: &str) -> (r: bool)
    ensures
        r == ends_with_spec(s@, suffix@),
{
    let n = s.unicode_len();
    let m = suffix.unicode_len();
    if m > n {
        return false;
    }
    let mut i: usize = 0;
    while i < m
        invariant
            i <= m,
            m <= n,
            n == s@.len(),
            m == suffix@.len(),
            forall|k: int| 0 <= k < i as int ==> s@[n - m + k] == suffix@[k],
        decreases m - i,
    {
        if s.get_char(n - m + i) != suffix.get_char(i) {
            proof {
                assert(s@.skip(n as int - m as int)[i as int] != suffix@[i as int]);
            }
            return false;
        }
        i = i + 1;
    }
    proof {
        assert(s@.skip(n as int - m as int) =~= suffix@);
    }
    true
}

/// Determine the unit kind from a resource name's suffix, touching no
/// graphics state: `.vert.shader` names a vertex unit, `.frag.shader`
/// a fragment unit, anything else is unrecognized.
pub fn shader_kind_for_name(name: &str) -> (r: Option<ShaderKind>)
    ensures
        r == (if is_vertex_name(name@) {
            Some(ShaderKind::Vertex)
        } else if is_fragment_name(name@) {
            Some(ShaderKind::Fragment)
        } else {
            None::<ShaderKind>
        }),
{
    if str_ends_with(name, ".vert.shader") {
        Some(ShaderKind::Vertex)
    } else if str_ends_with(name, ".frag.shader") {
        Some(ShaderKind::Fragment)
    } else {
        None
    }
}

/// The resource name of the vertex unit sharing base name `name`.
pub open spec fn vert_resource(name: Seq<char>) -> Seq<char> {
    name + ".vert.shader"@
}

/// The resource name of the fragment unit sharing base name `name`.
pub open spec fn frag_resource(name: Seq<char>) -> Seq<char> {
    name + ".frag.shader"@
}

/// Appending the vertex suffix yields a vertex resource name.
pub proof fn lemma_vert_resource_resolves(name: Seq<char>)
    ensures
        is_vertex_name(vert_resource(name)),
        resolved_kind(vert_resource(name)) == ShaderKind::Vertex,
{
    reveal_strlit(".vert.shader");
    assert(vert_resource(name).skip(name.len() as int) =~= ".vert.shader"@);
}

/// Appending the fragment suffix yields a fragment resource name, and
/// never a vertex one.
pub proof fn lemma_frag_resource_resolves(name: Seq<char>)
    ensures
        is_fragment_name(frag_resource(name)),
        !is_vertex_name(frag_resource(name)),
        resolved_kind(frag_resource(name)) == ShaderKind::Fragment,
{
    reveal_strlit(".vert.shader");
    reveal_strlit(".frag.shader");
    assert(frag_resource(name).skip(name.len() as int) =~= ".frag.shader"@);
    if is_vertex_name(frag_resource(name)) {
        assert(frag_resource(name).skip(name.len() as int) == ".vert.shader"@);
        assert(".vert.shader"@[1] == ".frag.shader"@[1]);
        assert(false);
    }
}

/// A buffer of `len` spaces, allocated to receive a diagnostic log of
/// exactly the queried length.
pub fn whitespace_c_str(len: usize) -> (s: String)
    ensures
        s@.len() == len,
        forall|i: int| 0 <= i < len ==> s@[i] == ' ',
{
    let mut s = String::new();
    let mut i: usize = 0;
    while i < len
        invariant
            i <= len,
            s@.len() == i,
            forall|k: int| 0 <= k < i as int ==> s@[k] == ' ',
        decreases len - i,
    {
        proof {
            reveal_strlit(" ");
        }
        s.append(" ");
        i = i + 1;
    }
    s
}

/// Whether a resource both loads and compiles as unit source.
pub open spec fn shader_source_ok(res: Resources, rname: Seq<char>) -> bool {
    res.loads_ok(rname) && source_compiles(res.file_bytes(rname))
}

/// One compiled unit of a stage, owning its native handle. It exists
/// only if its source compiled.
pub struct Shader {
    id: u64,
    kind: ShaderKind,
}

impl Shader {
    /// The native handle.
    pub closed spec fn spec_id(self) -> u64 {
        self.id
    }

    /// The unit's stage.
    pub closed spec fn kind(self) -> ShaderKind {
        self.kind
    }

    /// A unit's handle is never the empty handle `0`.
    pub open spec fn wf(self) -> bool {
        self.spec_id() >= 1
    }

    /// The native handle, for inspection.
    pub fn id(&self) -> (id: u64)
        ensures
            id == self.spec_id(),
    {
        self.id
    }

    /// The unit's stage, for inspection.
    pub fn shader_kind(&self) -> (k: ShaderKind)
        ensures
            k == self.kind(),
    {
        self.kind
    }

    /// Compile one unit from source. On acceptance the unit owns a
    /// fresh handle; on rejection the half-constructed native object
    /// is released and the compiler's diagnostic is returned, read
    /// back through a buffer allocated to the queried log length.
    pub fn from_source(ctx: &mut Context, source: &[u8], kind: ShaderKind) -> (r: Result<
        Shader,
        String,
    >)
        requires
            old(ctx).wf(),
            old(ctx).can_alloc(),
        ensures
            final(ctx).wf(),
            final(ctx).allocated() == old(ctx).allocated() + 1,
            final(ctx).same_bindings(*old(ctx)),
            final(ctx).attached_vertex() == old(ctx).attached_vertex(),
            final(ctx).attached_fragment() == old(ctx).attached_fragment(),
            final(ctx).same_records(*old(ctx)),
            match r {
                Ok(sh) => {
                    &&& source_compiles(source@)
                    &&& sh.wf()
                    &&& sh.kind() == kind
                    &&& sh.spec_id() == old(ctx).allocated() + 1
                    &&& final(ctx).released() == old(ctx).released()
                    &&& final(ctx).info_log() == Seq::<char>::empty()
                },
                Err(message) => {
                    &&& !source_compiles(source@)
                    &&& message@ == compile_diagnostic_text()
                    &&& message@.len() > 0
                    &&& final(ctx).released() == old(ctx).released() + 1
                    &&& final(ctx).info_log() == compile_diagnostic_text()
                },
            },
    {
        match shader_from_source(ctx, source) {
            Ok(id) => Ok(Shader { id, kind }),
            Err(message) => Err(message),
        }
    }

    /// Compile one vertex unit from source.
    pub fn from_vert_source(ctx: &mut Context, source: &[u8]) -> (r: Result<Shader, String>)
        requires
            old(ctx).wf(),
            old(ctx).can_alloc(),
        ensures
            final(ctx).wf(),
            final(ctx).allocated() == old(ctx).allocated() + 1,
            final(ctx).same_bindings(*old(ctx)),
            final(ctx).attached_vertex() == old(ctx).attached_vertex(),
            final(ctx).attached_fragment() == old(ctx).attached_fragment(),
            final(ctx).same_records(*old(ctx)),
            match r {
                Ok(sh) => source_compiles(source@) && sh.wf() && sh.kind() == ShaderKind::Vertex
                    && sh.spec_id() == old(ctx).allocated() + 1 && final(ctx).released() == old(ctx).released(),
                Err(message) => !source_compiles(source@) && message@ == compile_diagnostic_text()
                    && message@.len() > 0 && final(ctx).released() == old(ctx).released() + 1,
            },
    {
        Shader::from_source(ctx, source, ShaderKind::Vertex)
    }

    /// Compile one fragment unit from source.
    pub fn from_frag_source(ctx: &mut Context, source: &[u8]) -> (r: Result<Shader, String>)
        requires
            old(ctx).wf(),
            old(ctx).can_alloc(),
        ensures
            final(ctx).wf(),
            final(ctx).allocated() == old(ctx).allocated() + 1,
            final(ctx).same_bindings(*old(ctx)),
            final(ctx).attached_vertex() == old(ctx).attached_vertex(),
            final(ctx).attached_fragment() == old(ctx).attached_fragment(),
            final(ctx).same_records(*old(ctx)),
            match r {
                Ok(sh) => source_compiles(source@) && sh.wf() && sh.kind() == ShaderKind::Fragment
                    && sh.spec_id() == old(ctx).allocated() + 1 && final(ctx).released() == old(ctx).released(),
                Err(message) => !source_compiles(source@) && message@ == compile_diagnostic_text()
                    && message@.len() > 0 && final(ctx).released() == old(ctx).released() + 1,
            },
    {
        Shader::from_source(ctx, source, ShaderKind::Fragment)
    }

    /// Load and compile the unit a resource name names. The kind is
    /// resolved from the name's suffix before the graphics context is
    /// touched; an unresolvable name or a failing load leaves the
    /// context exactly as it was.
    pub fn from_res(ctx: &mut Context, res: &Resources, name: &str) -> (r: Result<Shader, Error>)
        requires
            old(ctx).wf(),
            old(ctx).can_alloc(),
        ensures
            final(ctx).wf(),
            final(ctx).same_bindings(*old(ctx)),
            final(ctx).attached_vertex() == old(ctx).attached_vertex(),
            final(ctx).attached_fragment() == old(ctx).attached_fragment(),
            final(ctx).same_records(*old(ctx)),
            match r {
                Ok(sh) => {
                    &&& (is_vertex_name(name@) || is_fragment_name(name@))
                    &&& shader_source_ok(*res, name@)
                    &&& sh.wf()
                    &&& sh.kind() == resolved_kind(name@)
                    &&& sh.spec_id() == old(ctx).allocated() + 1
                    &&& final(ctx).allocated() == old(ctx).allocated() + 1
                    &&& final(ctx).released() == old(ctx).released()
                    &&& final(ctx).info_log() == Seq::<char>::empty()
                },
                Err(e) => match e {
                    Error::UnknownShaderType { name: n } => {
                        &&& !is_vertex_name(name@)
                        &&& !is_fragment_name(name@)
                        &&& n@ == name@
                        &&& *final(ctx) == *old(ctx)
                    },
                    Error::ResourceLoad { name: n, inner } => {
                        &&& (is_vertex_name(name@) || is_fragment_name(name@))
                        &&& !res.loads_ok(name@)
                        &&& n@ == name@
                        &&& load_error_matches(*res, name@, inner)
                        &&& *final(ctx) == *old(ctx)
                    },
                    Error::CompileError { name: n, message } => {
                        &&& (is_vertex_name(name@) || is_fragment_name(name@))
                        &&& res.loads_ok(name@)
                        &&& !source_compiles(res.file_bytes(name@))
                        &&& n@ == name@
                        &&& message@ == compile_diagnostic_text()
                        &&& message@.len() > 0
                        &&& final(ctx).allocated() == old(ctx).allocated() + 1
                        &&& final(ctx).released() == old(ctx).released() + 1
                    },
                    Error::LinkError { .. } => false,
                },
            },
    {
        let kind_opt = shader_kind_for_name(name);
        let kind = match kind_opt {
            Some(k) => k,
            None => {
                return Err(Error::UnknownShaderType { name: name.to_owned() });
            },
        };
        let source = match res.load_cstring(name) {
            Ok(bytes) => bytes,
            Err(inner) => {
                return Err(Error::ResourceLoad { name: name.to_owned(), inner });
            },
        };
        match Shader::from_source(ctx, source.as_slice(), kind) {
            Ok(sh) => Ok(sh),
            Err(message) => Err(Error::CompileError { name: name.to_owned(), message }),
        }
    }

    /// Release the native unit object. Consuming the unit makes a
    /// second release impossible.
    pub fn destroy(self, ctx: &mut Context)
        requires
            old(ctx).wf(),
            self.wf(),
            self.spec_id() <= old(ctx).allocated(),
            old(ctx).released() < old(ctx).allocated(),
        ensures
            final(ctx).wf(),
            final(ctx).allocated() == old(ctx).allocated(),
            final(ctx).released() == old(ctx).released() + 1,
            old(ctx).buffer_binding(crate::context::BufferKind::VertexData) != self.spec_id()
                && old(ctx).buffer_binding(crate::context::BufferKind::IndexData) != self.spec_id()
                && old(ctx).bound_vertex_array() != self.spec_id() && old(ctx).bound_program()
                != self.spec_id() && old(ctx).bound_texture() != self.spec_id() ==> final(ctx).same_bindings(*old(ctx)),
            final(ctx).same_link_state(*old(ctx)),
            final(ctx).same_records(*old(ctx)),
    {
        ctx.release_handle(self.id);
    }
}

/// Allocate one native unit object and compile `source` into it. On
/// rejection the object is released again and the compiler's
/// diagnostic is returned, read back through a buffer allocated to the
/// queried log length.
fn shader_from_source(ctx: &mut Context, source: &[u8]) -> (r: Result<u64, String>)
    requires
        old(ctx).wf(),
        old(ctx).can_alloc(),
    ensures
        final(ctx).wf(),
        final(ctx).allocated() == old(ctx).allocated() + 1,
        final(ctx).same_bindings(*old(ctx)),
        final(ctx).attached_vertex() == old(ctx).attached_vertex(),
        final(ctx).attached_fragment() == old(ctx).attached_fragment(),
        final(ctx).same_records(*old(ctx)),
        match r {
            Ok(id) => {
                &&& source_compiles(source@)
                &&& id == old(ctx).allocated() + 1
                &&& id >= 1
                &&& final(ctx).released() == old(ctx).released()
                &&& final(ctx).info_log() == Seq::<char>::empty()
            },
            Err(message) => {
                &&& !source_compiles(source@)
                &&& message@ == compile_diagnostic_text()
                &&& message@.len() > 0
                &&& final(ctx).released() == old(ctx).released() + 1
                &&& final(ctx).info_log() == compile_diagnostic_text()
            },
        },
{
    let id = ctx.gen_handle();
    let ok = ctx.compile_shader(source);
    if !ok {
        let len = ctx.info_log_len();
        let mut err_msg = whitespace_c_str(len);
        ctx.fetch_info_log(&mut err_msg);
        ctx.release_handle(id);
        proof {
            lemma_compile_diagnostic_nonempty();
        }
        return Err(err_msg);
    }
    Ok(id)
}

/// Whether some unit of the list has the given stage.
pub open spec fn has_kind(shaders: Seq<Shader>, kind: ShaderKind) -> bool {
    exists|i: int| 0 <= i < shaders.len() && (#[trigger] shaders[i]).kind() == kind
}

/// The session linker accepts exactly a list carrying both stages.
pub open spec fn link_ok(shaders: Seq<Shader>) -> bool {
    has_kind(shaders, ShaderKind::Vertex) && has_kind(shaders, ShaderKind::Fragment)
}

/// Appending one unit adds exactly its stage to the stages present.
proof fn lemma_has_kind_push(s: Seq<Shader>, x: Shader, k: ShaderKind)
    ensures
        has_kind(s.push(x), k) == (has_kind(s, k) || x.kind() == k),
{
    if has_kind(s, k) {
        let i = choose|i: int| 0 <= i < s.len() && s[i].kind() == k;
        assert(s.push(x)[i].kind() == k);
    }
    if x.kind() == k {
        assert(s.push(x)[s.len() as int].kind() == k);
    }
    if has_kind(s.push(x), k) {
        let i = choose|i: int| 0 <= i < s.push(x).len() && s.push(x)[i].kind() == k;
        if i < s.len() {
            assert(s[i].kind() == k);
        }
    }
}

/// The text of the warning recorded when a uniform name resolves to no
/// slot.
pub open spec fn warning_text(name: Seq<char>) -> Seq<char> {
    "uniform not found: "@ + name
}

/// One linked program, owning its native handle.
pub struct Program {
    id: u64,
}

impl Program {
    /// The native handle.
    pub closed spec fn spec_id(self) -> u64 {
        self.id
    }

    /// A program's handle is never the empty handle `0`.
    pub open spec fn wf(self) -> bool {
        self.spec_id() >= 1
    }

    /// The native handle, for inspection.
    pub fn id(&self) -> (id: u64)
        ensures
            id == self.spec_id(),
    {
        self.id
    }

    /// Attach the given compiled units, link them, and on success
    /// detach (but do not destroy) them, leaving each independently
    /// destructible. Linking succeeds exactly when the units carry
    /// both stages; on failure the linker's diagnostic is read back
    /// through a buffer allocated to the queried log length, and the
    /// partially-created native program object is released.
    pub fn from_shaders(ctx: &mut Context, shaders: &Vec<Shader>) -> (r: Result<Program, String>)
        requires
            old(ctx).wf(),
            old(ctx).can_alloc(),
            !old(ctx).attached_vertex(),
            !old(ctx).attached_fragment(),
        ensures
            final(ctx).wf(),
            final(ctx).allocated() == old(ctx).allocated() + 1,
            final(ctx).same_bindings(*old(ctx)),
            !final(ctx).attached_vertex(),
            !final(ctx).attached_fragment(),
            final(ctx).same_records(*old(ctx)),
            match r {
                Ok(p) => {
                    &&& link_ok(shaders@)
                    &&& p.wf()
                    &&& p.spec_id() == old(ctx).allocated() + 1
                    &&& final(ctx).released() == old(ctx).released()
                    &&& final(ctx).info_log() == Seq::<char>::empty()
                },
                Err(message) => {
                    &&& !link_ok(shaders@)
                    &&& message@ == link_diagnostic_text()
                    &&& message@.len() > 0
                    &&& final(ctx).released() == old(ctx).released() + 1
                    &&& final(ctx).info_log() == link_diagnostic_text()
                },
            },
    {
        let program_id = ctx.gen_handle();
        let mut i: usize = 0;
        while i < shaders.len()
            invariant
                i <= shaders@.len(),
                ctx.wf(),
                ctx.attached_vertex() == has_kind(shaders@.take(i as int), ShaderKind::Vertex),
                ctx.attached_fragment() == has_kind(shaders@.take(i as int), ShaderKind::Fragment),
                ctx.allocated() == old(ctx).allocated() + 1,
                ctx.released() == old(ctx).released(),
                ctx.same_bindings(*old(ctx)),
                ctx.same_records(*old(ctx)),
                program_id == old(ctx).allocated() + 1,
            decreases shaders@.len() - i,
        {
            ctx.attach_shader(shaders[i].shader_kind());
            proof {
                let prefix = shaders@.take(i as int);
                assert(shaders@.take(i as int + 1) =~= prefix.push(shaders@[i as int]));
                lemma_has_kind_push(prefix, shaders@[i as int], ShaderKind::Vertex);
                lemma_has_kind_push(prefix, shaders@[i as int], ShaderKind::Fragment);
            }
            i = i + 1;
        }
        proof {
            assert(shaders@.take(shaders@.len() as int) =~= shaders@);
        }
        let ok = ctx.link_program();
        if !ok {
            let len = ctx.info_log_len();
            let mut err_msg = whitespace_c_str(len);
            ctx.fetch_info_log(&mut err_msg);
            ctx.release_handle(program_id);
            proof {
                lemma_link_diagnostic_nonempty();
            }
            return Err(err_msg);
        }
        let mut j: usize = 0;
        while j < shaders.len()
            invariant
                j <= shaders@.len(),
                ctx.wf(),
                !ctx.attached_vertex(),
                !ctx.attached_fragment(),
                ctx.allocated() == old(ctx).allocated() + 1,
                ctx.released() == old(ctx).released(),
                ctx.same_bindings(*old(ctx)),
                ctx.same_records(*old(ctx)),
                ctx.info_log() == Seq::<char>::empty(),
                program_id == old(ctx).allocated() + 1,
            decreases shaders@.len() - j,
        {
            ctx.detach_shader(shaders[j].shader_kind());
            j = j + 1;
        }
        Ok(Program { id: program_id })
    }

    /// Load, compile and link the program a base resource name names:
    /// its vertex unit from `<name>.vert.shader` and its fragment unit
    /// from `<name>.frag.shader`. The compiled units are attached,
    /// linked, detached and then destroyed: the program is the only
    /// long-lived owner. A unit that fails to load or compile
    /// propagates its own error, with whatever was already allocated
    /// released again; a vertex and fragment pair always satisfies the
    /// session linker, so no link error arises here.
    pub fn from_res(ctx: &mut Context, res: &Resources, name: &str) -> (r: Result<Program, Error>)
        requires
            old(ctx).wf(),
            old(ctx).allocated() <= u64::MAX - 3,
            !old(ctx).attached_vertex(),
            !old(ctx).attached_fragment(),
        ensures
            final(ctx).wf(),
            final(ctx).same_bindings(*old(ctx)),
            !final(ctx).attached_vertex(),
            !final(ctx).attached_fragment(),
            final(ctx).same_records(*old(ctx)),
            match r {
                Ok(p) => {
                    &&& shader_source_ok(*res, vert_resource(name@))
                    &&& shader_source_ok(*res, frag_resource(name@))
                    &&& p.wf()
                    &&& p.spec_id() == old(ctx).allocated() + 3
                    &&& final(ctx).allocated() == old(ctx).allocated() + 3
                    &&& final(ctx).released() == old(ctx).released() + 2
                    &&& final(ctx).info_log() == Seq::<char>::empty()
                },
                Err(e) => {
                    &&& final(ctx).allocated() - final(ctx).released() == old(ctx).allocated()
                        - old(ctx).released()
                    &&& final(ctx).allocated() <= old(ctx).allocated() + 2
                    &&& program_res_error(*res, name@, e)
                },
            },
    {
        let vert_name = name.to_owned().concat(".vert.shader");
        proof {
            lemma_vert_resource_resolves(name@);
        }
        let vs = match Shader::from_res(ctx, res, vert_name.as_str()) {
            Ok(sh) => sh,
            Err(e) => {
                return Err(e);
            },
        };
        let frag_name = name.to_owned().concat(".frag.shader");
        proof {
            lemma_frag_resource_resolves(name@);
        }
        let fs = match Shader::from_res(ctx, res, frag_name.as_str()) {
            Ok(sh) => sh,
            Err(e) => {
                vs.destroy(ctx);
                return Err(e);
            },
        };
        let mut shaders: Vec<Shader> = Vec::new();
        shaders.push(vs);
        shaders.push(fs);
        proof {
            assert(shaders@[0].kind() == ShaderKind::Vertex);
            assert(shaders@[1].kind() == ShaderKind::Fragment);
            assert(link_ok(shaders@));
        }
        let linked = Program::from_shaders(ctx, &shaders);
        let unit_b = shaders.pop().unwrap();
        unit_b.destroy(ctx);
        let unit_a = shaders.pop().unwrap();
        unit_a.destroy(ctx);
        match linked {
            Ok(p) => Ok(p),
            Err(message) => Err(Error::LinkError { name: name.to_owned(), message }),
        }
    }

    /// Make this program the active one. The program must be one of
    /// this session's objects.
    pub fn bind(&self, ctx: &mut Context)
        requires
            old(ctx).wf(),
            self.spec_id() <= old(ctx).allocated(),
        ensures
            final(ctx).wf(),
            final(ctx).bound_program() == self.spec_id(),
            final(ctx).buffer_binding(crate::context::BufferKind::VertexData) == old(ctx).buffer_binding(crate::context::BufferKind::VertexData),
            final(ctx).buffer_binding(crate::context::BufferKind::IndexData) == old(ctx).buffer_binding(crate::context::BufferKind::IndexData),
            final(ctx).bound_vertex_array() == old(ctx).bound_vertex_array(),
            final(ctx).bound_texture() == old(ctx).bound_texture(),
            final(ctx).active_texture_slot() == old(ctx).active_texture_slot(),
            final(ctx).same_accounting(*old(ctx)),
            final(ctx).same_link_state(*old(ctx)),
            final(ctx).same_records(*old(ctx)),
    {
        ctx.use_program(self.id);
    }

    /// Clear the program binding slot.
    pub fn unbind(&self, ctx: &mut Context)
        requires
            old(ctx).wf(),
        ensures
            final(ctx).wf(),
            final(ctx).bound_program() == 0,
            final(ctx).buffer_binding(crate::context::BufferKind::VertexData) == old(ctx).buffer_binding(crate::context::BufferKind::VertexData),
            final(ctx).buffer_binding(crate::context::BufferKind::IndexData) == old(ctx).buffer_binding(crate::context::BufferKind::IndexData),
            final(ctx).bound_vertex_array() == old(ctx).bound_vertex_array(),
            final(ctx).bound_texture() == old(ctx).bound_texture(),
            final(ctx).active_texture_slot() == old(ctx).active_texture_slot(),
            final(ctx).same_accounting(*old(ctx)),
            final(ctx).same_link_state(*old(ctx)),
            final(ctx).same_records(*old(ctx)),
    {
        ctx.use_program(0);
    }

    /// Resolve a uniform name to its slot in the session, recording a
    /// warning when the name resolves to no slot: an unused uniform
    /// name is benign, not a caller error.
    fn uniform_location(&self, ctx: &mut Context, name: &str) -> (location: i32)
        requires
            old(ctx).wf(),
        ensures
            final(ctx).wf(),
            final(ctx).same_accounting(*old(ctx)),
            final(ctx).same_bindings(*old(ctx)),
            final(ctx).same_link_state(*old(ctx)),
            final(ctx).active_uniforms() == old(ctx).active_uniforms(),
            final(ctx).uniform_calls() == old(ctx).uniform_calls(),
            final(ctx).draw_calls() == old(ctx).draw_calls(),
            match uniform_index(old(ctx).active_uniforms(), name@) {
                Some(k) => location as int == k && 0 <= k && final(ctx).warnings() == old(ctx).warnings(),
                None => location == -1 && final(ctx).warnings().len() == old(ctx).warnings().len()
                    + 1 && final(ctx).warnings().drop_last() == old(ctx).warnings() && final(ctx).warnings().last()@ == warning_text(name@),
            },
    {
        proof {
            lemma_uniform_index_range(ctx.active_uniforms(), name@);
        }
        let location = ctx.get_uniform_location(name);
        if location == -1 {
            let mut w = ("uniform not found: ").to_owned();
            w.append(name);
            ctx.log_warning(w);
            proof {
                assert(ctx.warnings().drop_last() =~= old(ctx).warnings());
            }
        }
        location
    }

    /// Assign an integer value to the named uniform of this program,
    /// which must be bound. A name that resolves to no slot records a
    /// warning and assigns nothing; a resolved name issues exactly one
    /// assignment to its slot.
    pub fn set_uniform1i(&self, ctx: &mut Context, name: &str, value: i32)
        requires
            old(ctx).wf(),
            self.wf(),
            old(ctx).bound_program() == self.spec_id(),
        ensures
            final(ctx).wf(),
            final(ctx).same_accounting(*old(ctx)),
            final(ctx).same_bindings(*old(ctx)),
            final(ctx).same_link_state(*old(ctx)),
            final(ctx).active_uniforms() == old(ctx).active_uniforms(),
            final(ctx).draw_calls() == old(ctx).draw_calls(),
            match uniform_index(old(ctx).active_uniforms(), name@) {
                Some(k) => final(ctx).uniform_calls() == old(ctx).uniform_calls().push(
                    (k as i32, value),
                ) && final(ctx).warnings() == old(ctx).warnings(),
                None => final(ctx).uniform_calls() == old(ctx).uniform_calls() && final(ctx).warnings().len() == old(ctx).warnings().len() + 1 && final(ctx).warnings().drop_last() == old(ctx).warnings() && final(ctx).warnings().last()@
                    == warning_text(name@),
            },
    {
        proof {
            lemma_uniform_index_range(ctx.active_uniforms(), name@);
        }
        let location = self.uniform_location(ctx, name);
        if location != -1 {
            ctx.uniform1i(location, value);
        }
    }

    /// Release the native program object. Consuming the program makes
    /// a second release impossible; if it was still bound, the binding
    /// slot is cleared.
    pub fn destroy(self, ctx: &mut Context)
        requires
            old(ctx).wf(),
            self.wf(),
            self.spec_id() <= old(ctx).allocated(),
            old(ctx).released() < old(ctx).allocated(),
        ensures
            final(ctx).wf(),
            final(ctx).allocated() == old(ctx).allocated(),
            final(ctx).released() == old(ctx).released() + 1,
            final(ctx).bound_program() == (
                if old(ctx).bound_program() == self.spec_id() { 0u64 } else { old(ctx).bound_program() }
            ),
            final(ctx).buffer_binding(crate::context::BufferKind::VertexData) == (
                if old(ctx).buffer_binding(crate::context::BufferKind::VertexData) == self.spec_id() {
                    0u64
                } else {
                    old(ctx).buffer_binding(crate::context::BufferKind::VertexData)
                }
            ),
            final(ctx).buffer_binding(crate::context::BufferKind::IndexData) == (
                if old(ctx).buffer_binding(crate::context::BufferKind::IndexData) == self.spec_id() {
                    0u64
                } else {
                    old(ctx).buffer_binding(crate::context::BufferKind::IndexData)
                }
            ),
            final(ctx).bound_vertex_array() == (
                if old(ctx).bound_vertex_array() == self.spec_id() { 0u64 } else { old(ctx).bound_vertex_array() }
            ),
            final(ctx).bound_texture() == (
                if old(ctx).bound_texture() == self.spec_id() { 0u64 } else { old(ctx).bound_texture() }
            ),
            final(ctx).active_texture_slot() == old(ctx).active_texture_slot(),
            final(ctx).same_link_state(*old(ctx)),
            final(ctx).same_records(*old(ctx)),
    {
        ctx.release_handle(self.id);
    }
}

/// Whether `e` reports exactly why no program could be produced for
/// base name `name`: which unit failed, at which step, with the exact
/// diagnostic. The vertex unit is tried first, so a fragment-side
/// error implies the vertex unit was fine; the suffixes always
/// resolve, and a vertex plus fragment pair always links, so neither
/// of those errors can arise.
pub open spec fn program_res_error(res: Resources, name: Seq<char>, e: Error) -> bool {
    match e {
        Error::ResourceLoad { name: n, inner } => {
            ||| {
                &&& !res.loads_ok(vert_resource(name))
                &&& n@ == vert_resource(name)
                &&& load_error_matches(res, vert_resource(name), inner)
            }
            ||| {
                &&& shader_source_ok(res, vert_resource(name))
                &&& !res.loads_ok(frag_resource(name))
                &&& n@ == frag_resource(name)
                &&& load_error_matches(res, frag_resource(name), inner)
            }
        },
        Error::CompileError { name: n, message } => {
            &&& message@ == compile_diagnostic_text()
            &&& {
                ||| {
                    &&& res.loads_ok(vert_resource(name))
                    &&& !source_compiles(res.file_bytes(vert_resource(name)))
                    &&& n@ == vert_resource(name)
                }
                ||| {
                    &&& shader_source_ok(res, vert_resource(name))
                    &&& res.loads_ok(frag_resource(name))
                    &&& !source_compiles(res.file_bytes(frag_resource(name)))
                    &&& n@ == frag_resource(name)
                }
            }
        },
        Error::UnknownShaderType { .. } => false,
        Error::LinkError { .. } => false,
    }
}

/// Whether a load error reports exactly what the store holds for the
/// resource: a missing file names the path it was looked up under, and
/// a present file failed on an interior null byte.
pub open spec fn load_error_matches(
    res: Resources,
    rname: Seq<char>,
    inner: crate::resources::Error,
) -> bool {
    match inner {
        crate::resources::Error::IO { path } => !res.has_file(rname) && path@ == res.full_path(
            rname,
        ),
        crate::resources::Error::FileContainsNil => res.has_file(rname) && has_nil(
            res.file_bytes(rname),
        ),
        _ => false,
    }
}

} // verus!
