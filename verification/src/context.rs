//! The graphics session model.
//!
//! Every owning object in this crate (buffer, vertex-array, shader,
//! program, texture) borrows a [`Context`] to issue its calls. The
//! context hands out native handles, counts allocations and releases,
//! and holds the handful of global binding slots that the session
//! maintains: the active buffer of each kind, the active vertex-array,
//! the active program and the active texture. It also keeps the
//! diagnostic log of the most recent compile or link, which callers
//! read back with the length-queried pattern: ask for the length,
//! allocate exactly that many characters, then fetch.

use vstd::prelude::*;

verus! {

/// The two kinds of buffer object, each with its own binding slot:
/// vertex-attribute data and index data.
#[derive(Copy, Clone, PartialEq, Eq, Structural, Debug)]
pub enum BufferKind {
    VertexData,
    IndexData,
}

/// The session state. Handles are positive integers handed out in
/// order; a binding slot holding `0` is empty.
pub struct Context {
    /// How many native handles were ever allocated; the next handle is
    /// `allocated + 1`, so `0` is never a valid handle.
    pub allocated: u64,
    /// How many native handles were released.
    pub released: u64,
    /// The active vertex-data buffer, or `0`.
    pub bound_vertex_buffer: u64,
    /// The active index-data buffer, or `0`.
    pub bound_index_buffer: u64,
    /// The active vertex-array, or `0`.
    pub bound_vertex_array: u64,
    /// The active program, or `0`.
    pub bound_program: u64,
    /// The active texture, or `0`.
    pub bound_texture: u64,
    /// The texture unit selected by the last texture bind.
    pub active_texture_slot: u32,
    /// Whether a vertex-stage unit is attached to the program being linked.
    pub attached_vertex: bool,
    /// Whether a fragment-stage unit is attached to the program being linked.
    pub attached_fragment: bool,
    /// The diagnostic log of the most recent compile or link; empty on success.
    pub info_log: String,
    /// The uniform names the active program exposes, in declaration order;
    /// a name's slot is its index here.
    pub active_uniforms: Vec<String>,
    /// Every `(slot, value)` integer uniform assignment issued so far.
    pub uniform_calls: Vec<(i32, i32)>,
    /// Warnings recorded for benign failures, such as a uniform name
    /// that resolves to no slot.
    pub warnings: Vec<String>,
    /// How many draw calls were issued.
    pub draw_calls: u64,
}

impl Context {
    /// The session never releases more handles than it allocated,
    /// every binding slot holds an allocated handle or is empty, and
    /// uniform slots stay within the signed 32-bit range the binding
    /// calls use.
    pub open spec fn wf(self) -> bool {
        &&& self.released <= self.allocated
        &&& self.bound_vertex_buffer <= self.allocated
        &&& self.bound_index_buffer <= self.allocated
        &&& self.bound_vertex_array <= self.allocated
        &&& self.bound_program <= self.allocated
        &&& self.bound_texture <= self.allocated
        &&& self.active_uniforms@.len() < 0x8000_0000
    }

    /// Room for one more handle.
    pub open spec fn can_alloc(self) -> bool {
        self.allocated < u64::MAX
    }

    pub open spec fn allocated(self) -> u64 {
        self.allocated
    }

    pub open spec fn released(self) -> u64 {
        self.released
    }

    /// The buffer binding slot for `kind`.
    pub open spec fn buffer_binding(self, kind: BufferKind) -> u64 {
        match kind {
            BufferKind::VertexData => self.bound_vertex_buffer,
            BufferKind::IndexData => self.bound_index_buffer,
        }
    }

    pub open spec fn bound_vertex_array(self) -> u64 {
        self.bound_vertex_array
    }

    pub open spec fn bound_program(self) -> u64 {
        self.bound_program
    }

    pub open spec fn bound_texture(self) -> u64 {
        self.bound_texture
    }

    pub open spec fn active_texture_slot(self) -> u32 {
        self.active_texture_slot
    }

    pub open spec fn attached_vertex(self) -> bool {
        self.attached_vertex
    }

    pub open spec fn attached_fragment(self) -> bool {
        self.attached_fragment
    }

    pub open spec fn info_log(self) -> Seq<char> {
        self.info_log@
    }

    pub open spec fn active_uniforms(self) -> Seq<String> {
        self.active_uniforms@
    }

    pub open spec fn uniform_calls(self) -> Seq<(i32, i32)> {
        self.uniform_calls@
    }

    pub open spec fn warnings(self) -> Seq<String> {
        self.warnings@
    }

    pub open spec fn draw_calls(self) -> u64 {
        self.draw_calls
    }

    /// Handle accounting unchanged between two states.
    pub open spec fn same_accounting(self, other: Context) -> bool {
        &&& self.allocated == other.allocated
        &&& self.released == other.released
    }

    /// All binding slots unchanged between two states.
    pub open spec fn same_bindings(self, other: Context) -> bool {
        &&& self.bound_vertex_buffer == other.bound_vertex_buffer
        &&& self.bound_index_buffer == other.bound_index_buffer
        &&& self.bound_vertex_array == other.bound_vertex_array
        &&& self.bound_program == other.bound_program
        &&& self.bound_texture == other.bound_texture
        &&& self.active_texture_slot == other.active_texture_slot
    }

    /// Attachment flags and diagnostic log unchanged between two states.
    pub open spec fn same_link_state(self, other: Context) -> bool {
        &&& self.attached_vertex == other.attached_vertex
        &&& self.attached_fragment == other.attached_fragment
        &&& self.info_log@ == other.info_log@
    }

    /// Uniform table, uniform assignments, warnings and draw count
    /// unchanged between two states.
    pub open spec fn same_records(self, other: Context) -> bool {
        &&& self.active_uniforms@ == other.active_uniforms@
        &&& self.uniform_calls@ == other.uniform_calls@
        &&& self.warnings@ == other.warnings@
        &&& self.draw_calls == other.draw_calls
    }

    /// A fresh session: nothing allocated, nothing bound, empty log.
    pub fn new() -> (ctx: Context)
        ensures
            ctx.wf(),
            ctx.allocated() == 0,
            ctx.released() == 0,
            ctx.buffer_binding(BufferKind::VertexData) == 0,
            ctx.buffer_binding(BufferKind::IndexData) == 0,
            ctx.bound_vertex_array() == 0,
            ctx.bound_program() == 0,
            ctx.bound_texture() == 0,
            ctx.active_texture_slot() == 0,
            !ctx.attached_vertex(),
            !ctx.attached_fragment(),
            ctx.info_log() == Seq::<char>::empty(),
            ctx.active_uniforms() == Seq::<String>::empty(),
            ctx.uniform_calls() == Seq::<(i32, i32)>::empty(),
            ctx.warnings() == Seq::<String>::empty(),
            ctx.draw_calls() == 0,
    {
        Context {
            allocated: 0,
            released: 0,
            bound_vertex_buffer: 0,
            bound_index_buffer: 0,
            bound_vertex_array: 0,
            bound_program: 0,
            bound_texture: 0,
            active_texture_slot: 0,
            attached_vertex: false,
            attached_fragment: false,
            info_log: String::new(),
            active_uniforms: Vec::new(),
            uniform_calls: Vec::new(),
            warnings: Vec::new(),
            draw_calls: 0,
        }
    }

    /// Allocate one native handle. Handles are `1, 2, 3, ...`, so the
    /// result is never `0`.
    pub fn gen_handle(&mut self) -> (id: u64)
        requires
            old(self).wf(),
            old(self).can_alloc(),
        ensures
            final(self).wf(),
            id == final(self).allocated(),
            id >= 1,
            final(self).allocated() == old(self).allocated() + 1,
            final(self).released() == old(self).released(),
            final(self).same_bindings(*old(self)),
            final(self).same_link_state(*old(self)),
            final(self).same_records(*old(self)),
    {
        self.allocated = self.allocated + 1;
        self.allocated
    }

    /// Release one native handle. Any binding slot still holding the
    /// handle is cleared, so a released handle is never left bound.
    pub fn release_handle(&mut self, id: u64)
        requires
            old(self).wf(),
            1 <= id <= old(self).allocated(),
            old(self).released() < old(self).allocated(),
        ensures
            final(self).wf(),
            final(self).allocated() == old(self).allocated(),
            final(self).released() == old(self).released() + 1,
            final(self).buffer_binding(BufferKind::VertexData) == (
                if old(self).buffer_binding(BufferKind::VertexData) == id { 0u64 } else { old(self).buffer_binding(BufferKind::VertexData) }
            ),
            final(self).buffer_binding(BufferKind::IndexData) == (
                if old(self).buffer_binding(BufferKind::IndexData) == id { 0u64 } else { old(self).buffer_binding(BufferKind::IndexData) }
            ),
            final(self).bound_vertex_array() == (
                if old(self).bound_vertex_array() == id { 0u64 } else { old(self).bound_vertex_array() }
            ),
            final(self).bound_program() == (
                if old(self).bound_program() == id { 0u64 } else { old(self).bound_program() }
            ),
            final(self).bound_texture() == (
                if old(self).bound_texture() == id { 0u64 } else { old(self).bound_texture() }
            ),
            final(self).active_texture_slot() == old(self).active_texture_slot(),
            final(self).same_link_state(*old(self)),
            final(self).same_records(*old(self)),
    {
        self.released = self.released + 1;
        if self.bound_vertex_buffer == id {
            self.bound_vertex_buffer = 0;
        }
        if self.bound_index_buffer == id {
            self.bound_index_buffer = 0;
        }
        if self.bound_vertex_array == id {
            self.bound_vertex_array = 0;
        }
        if self.bound_program == id {
            self.bound_program = 0;
        }
        if self.bound_texture == id {
            self.bound_texture = 0;
        }
    }

    /// Set the buffer binding slot for `kind`; `0` clears it.
    pub fn bind_buffer(&mut self, kind: BufferKind, id: u64)
        requires
            old(self).wf(),
            id <= old(self).allocated(),
        ensures
            final(self).wf(),
            final(self).buffer_binding(kind) == id,
            final(self).buffer_binding(match kind {
                BufferKind::VertexData => BufferKind::IndexData,
                BufferKind::IndexData => BufferKind::VertexData,
            }) == old(self).buffer_binding(match kind {
                BufferKind::VertexData => BufferKind::IndexData,
                BufferKind::IndexData => BufferKind::VertexData,
            }),
            final(self).bound_vertex_array() == old(self).bound_vertex_array(),
            final(self).bound_program() == old(self).bound_program(),
            final(self).bound_texture() == old(self).bound_texture(),
            final(self).active_texture_slot() == old(self).active_texture_slot(),
            final(self).same_accounting(*old(self)),
            final(self).same_link_state(*old(self)),
            final(self).same_records(*old(self)),
    {
        match kind {
            BufferKind::VertexData => {
                self.bound_vertex_buffer = id;
            },
            BufferKind::IndexData => {
                self.bound_index_buffer = id;
            },
        }
    }

    /// Set the vertex-array binding slot; `0` clears it.
    pub fn bind_vertex_array(&mut self, id: u64)
        requires
            old(self).wf(),
            id <= old(self).allocated(),
        ensures
            final(self).wf(),
            final(self).bound_vertex_array() == id,
            final(self).buffer_binding(BufferKind::VertexData) == old(self).buffer_binding(BufferKind::VertexData),
            final(self).buffer_binding(BufferKind::IndexData) == old(self).buffer_binding(BufferKind::IndexData),
            final(self).bound_program() == old(self).bound_program(),
            final(self).bound_texture() == old(self).bound_texture(),
            final(self).active_texture_slot() == old(self).active_texture_slot(),
            final(self).same_accounting(*old(self)),
            final(self).same_link_state(*old(self)),
            final(self).same_records(*old(self)),
    {
        self.bound_vertex_array = id;
    }

    /// Set the program binding slot; `0` clears it.
    pub fn use_program(&mut self, id: u64)
        requires
            old(self).wf(),
            id <= old(self).allocated(),
        ensures
            final(self).wf(),
            final(self).bound_program() == id,
            final(self).buffer_binding(BufferKind::VertexData) == old(self).buffer_binding(BufferKind::VertexData),
            final(self).buffer_binding(BufferKind::IndexData) == old(self).buffer_binding(BufferKind::IndexData),
            final(self).bound_vertex_array() == old(self).bound_vertex_array(),
            final(self).bound_texture() == old(self).bound_texture(),
            final(self).active_texture_slot() == old(self).active_texture_slot(),
            final(self).same_accounting(*old(self)),
            final(self).same_link_state(*old(self)),
            final(self).same_records(*old(self)),
    {
        self.bound_program = id;
    }

    /// Select a texture unit and set the texture binding slot; `0` clears it.
    pub fn bind_texture(&mut self, slot: u32, id: u64)
        requires
            old(self).wf(),
            id <= old(self).allocated(),
        ensures
            final(self).wf(),
            final(self).bound_texture() == id,
            final(self).active_texture_slot() == slot,
            final(self).buffer_binding(BufferKind::VertexData) == old(self).buffer_binding(BufferKind::VertexData),
            final(self).buffer_binding(BufferKind::IndexData) == old(self).buffer_binding(BufferKind::IndexData),
            final(self).bound_vertex_array() == old(self).bound_vertex_array(),
            final(self).bound_program() == old(self).bound_program(),
            final(self).same_accounting(*old(self)),
            final(self).same_link_state(*old(self)),
            final(self).same_records(*old(self)),
    {
        self.active_texture_slot = slot;
        self.bound_texture = id;
    }
}

/// The bytes of the version directive every unit's source must open
/// with: `#version`.
pub open spec fn version_directive() -> Seq<u8> {
    seq![35u8, 118u8, 101u8, 114u8, 115u8, 105u8, 111u8, 110u8]
}

/// The session compiler's acceptance rule: a unit's source must begin
/// with a version directive, as the shading language requires.
pub open spec fn source_compiles(source: Seq<u8>) -> bool {
    source.len() >= 8 && source.subrange(0, 8) == version_directive()
}

/// The diagnostic the session compiler reports for a rejected unit.
pub open spec fn compile_diagnostic_text() -> Seq<char> {
    "shader source must begin with a version directive"@
}

/// The diagnostic the session linker reports for an incomplete program.
pub open spec fn link_diagnostic_text() -> Seq<char> {
    "a program needs one vertex unit and one fragment unit"@
}

/// The compiler's diagnostic is never silent.
pub proof fn lemma_compile_diagnostic_nonempty()
    ensures
        compile_diagnostic_text().len() > 0,
{
    reveal_strlit("shader source must begin with a version directive");
}

/// The linker's diagnostic is never silent.
pub proof fn lemma_link_diagnostic_nonempty()
    ensures
        link_diagnostic_text().len() > 0,
{
    reveal_strlit("a program needs one vertex unit and one fragment unit");
}

/// The version directive, executable form.
fn version_directive_exec() -> (v: Vec<u8>)
    ensures
        v@ == version_directive(),
{
    let mut v: Vec<u8> = Vec::new();
    v.push(35);
    v.push(118);
    v.push(101);
    v.push(114);
    v.push(115);
    v.push(105);
    v.push(111);
    v.push(110);
    proof {
        assert(v@ =~= version_directive());
    }
    v
}

/// Whether `source` opens with the version directive.
fn has_version_directive(source: &[u8]) -> (r: bool)
    ensures
        r == source_compiles(source@),
{
    let directive = version_directive_exec();
    if source.len() < 8 {
        return false;
    }
    let mut i: usize = 0;
    while i < 8
        invariant
            i <= 8,
            source@.len() >= 8,
            directive@ == version_directive(),
            forall|k: int| 0 <= k < i as int ==> source@[k] == version_directive()[k],
        decreases 8 - i,
    {
        if *vstd::slice::slice_index_get(source, i) != directive[i] {
            proof {
                assert(source@.subrange(0, 8)[i as int] != version_directive()[i as int]);
            }
            return false;
        }
        i = i + 1;
    }
    proof {
        assert(source@.subrange(0, 8) =~= version_directive());
    }
    true
}

/// The diagnostic the session compiler reports, executable form.
fn compile_diagnostic() -> (s: String)
    ensures
        s@ == compile_diagnostic_text(),
{
    ("shader source must begin with a version directive").to_owned()
}

/// The diagnostic the session linker reports, executable form.
fn link_diagnostic() -> (s: String)
    ensures
        s@ == link_diagnostic_text(),
{
    ("a program needs one vertex unit and one fragment unit").to_owned()
}

/// The slot of the first uniform named `name`, if any.
pub open spec fn uniform_index(uniforms: Seq<String>, name: Seq<char>) -> Option<int>
    decreases uniforms.len(),
{
    if uniforms.len() == 0 {
        None
    } else if uniforms[0]@ == name {
        Some(0int)
    } else {
        match uniform_index(uniforms.drop_first(), name) {
            Some(i) => Some(i + 1),
            None => None,
        }
    }
}

/// A found uniform slot is an index into the table.
pub proof fn lemma_uniform_index_range(uniforms: Seq<String>, name: Seq<char>)
    ensures
        match uniform_index(uniforms, name) {
            Some(i) => 0 <= i < uniforms.len() && uniforms[i]@ == name,
            None => true,
        },
    decreases uniforms.len(),
{
    if uniforms.len() > 0 && uniforms[0]@ != name {
        lemma_uniform_index_range(uniforms.drop_first(), name);
    }
}

/// If entry `i` is the first whose name matches, the lookup finds it.
proof fn lemma_uniform_index_found(uniforms: Seq<String>, name: Seq<char>, i: int)
    requires
        0 <= i < uniforms.len(),
        uniforms[i]@ == name,
        forall|j: int| 0 <= j < i ==> (#[trigger] uniforms[j])@ != name,
    ensures
        uniform_index(uniforms, name) == Some(i),
    decreases i,
{
    if i > 0 {
        lemma_uniform_index_found(uniforms.drop_first(), name, i - 1);
    }
}

/// If no entry's name matches, the lookup finds nothing.
proof fn lemma_uniform_index_none(uniforms: Seq<String>, name: Seq<char>)
    requires
        forall|j: int| 0 <= j < uniforms.len() ==> (#[trigger] uniforms[j])@ != name,
    ensures
        uniform_index(uniforms, name) is None,
    decreases uniforms.len(),
{
    if uniforms.len() > 0 {
        lemma_uniform_index_none(uniforms.drop_first(), name);
    }
}

/// Character-wise string equality.
fn str_eq(a: &str, b: &str) -> (r: bool)
    ensures
        r == (a@ == b@),
{
    let n = a.unicode_len();
    let m = b.unicode_len();
    if n != m {
        return false;
    }
    let mut i: usize = 0;
    while i < n
        invariant
            i <= n,
            n == a@.len(),
            n == b@.len(),
            forall|k: int| 0 <= k < i as int ==> a@[k] == b@[k],
        decreases n - i,
    {
        if a.get_char(i) != b.get_char(i) {
            return false;
        }
        i = i + 1;
    }
    proof {
        assert(a@ =~= b@);
    }
    true
}

impl Context {
    /// Compile one unit's source with the session compiler. The
    /// diagnostic log is set: empty on acceptance, the compiler's
    /// message on rejection.
    pub fn compile_shader(&mut self, source: &[u8]) -> (ok: bool)
        requires
            old(self).wf(),
        ensures
            final(self).wf(),
            ok == source_compiles(source@),
            final(self).info_log() == (if ok {
                Seq::<char>::empty()
            } else {
                compile_diagnostic_text()
            }),
            final(self).same_accounting(*old(self)),
            final(self).same_bindings(*old(self)),
            final(self).attached_vertex() == old(self).attached_vertex(),
            final(self).attached_fragment() == old(self).attached_fragment(),
            final(self).same_records(*old(self)),
    {
        let ok = has_version_directive(source);
        if ok {
            self.info_log = String::new();
        } else {
            self.info_log = compile_diagnostic();
        }
        ok
    }

    /// Attach one compiled unit's stage to the program being assembled.
    pub fn attach_shader(&mut self, kind: crate::shader::ShaderKind)
        requires
            old(self).wf(),
        ensures
            final(self).wf(),
            final(self).attached_vertex() == (old(self).attached_vertex() || kind
                == crate::shader::ShaderKind::Vertex),
            final(self).attached_fragment() == (old(self).attached_fragment() || kind
                == crate::shader::ShaderKind::Fragment),
            final(self).info_log() == old(self).info_log(),
            final(self).same_accounting(*old(self)),
            final(self).same_bindings(*old(self)),
            final(self).same_records(*old(self)),
    {
        match kind {
            crate::shader::ShaderKind::Vertex => {
                self.attached_vertex = true;
            },
            crate::shader::ShaderKind::Fragment => {
                self.attached_fragment = true;
            },
        }
    }

    /// Detach one unit's stage from the program being assembled.
    pub fn detach_shader(&mut self, kind: crate::shader::ShaderKind)
        requires
            old(self).wf(),
        ensures
            final(self).wf(),
            final(self).attached_vertex() == (old(self).attached_vertex() && kind
                != crate::shader::ShaderKind::Vertex),
            final(self).attached_fragment() == (old(self).attached_fragment() && kind
                != crate::shader::ShaderKind::Fragment),
            final(self).info_log() == old(self).info_log(),
            final(self).same_accounting(*old(self)),
            final(self).same_bindings(*old(self)),
            final(self).same_records(*old(self)),
    {
        match kind {
            crate::shader::ShaderKind::Vertex => {
                self.attached_vertex = false;
            },
            crate::shader::ShaderKind::Fragment => {
                self.attached_fragment = false;
            },
        }
    }

    /// Link the attached stages into a program. Linking succeeds
    /// exactly when a vertex unit and a fragment unit are attached; it
    /// consumes the pending attachments either way, and sets the
    /// diagnostic log: empty on success, the linker's message on
    /// failure.
    pub fn link_program(&mut self) -> (ok: bool)
        requires
            old(self).wf(),
        ensures
            final(self).wf(),
            ok == (old(self).attached_vertex() && old(self).attached_fragment()),
            !final(self).attached_vertex(),
            !final(self).attached_fragment(),
            final(self).info_log() == (if ok {
                Seq::<char>::empty()
            } else {
                link_diagnostic_text()
            }),
            final(self).same_accounting(*old(self)),
            final(self).same_bindings(*old(self)),
            final(self).same_records(*old(self)),
    {
        let ok = self.attached_vertex && self.attached_fragment;
        self.attached_vertex = false;
        self.attached_fragment = false;
        if ok {
            self.info_log = String::new();
        } else {
            self.info_log = link_diagnostic();
        }
        ok
    }

    /// The length of the diagnostic log, queried before allocating the
    /// buffer that will receive it.
    pub fn info_log_len(&self) -> (n: usize)
        ensures
            n == self.info_log().len(),
    {
        self.info_log.as_str().unicode_len()
    }

    /// Fetch the diagnostic log into a buffer allocated to exactly the
    /// queried length.
    pub fn fetch_info_log(&self, buffer: &mut String)
        requires
            old(buffer)@.len() == self.info_log().len(),
        ensures
            final(buffer)@ == self.info_log(),
    {
        *buffer = self.info_log.as_str().to_owned();
    }

    /// Declare one uniform name the active program exposes; its slot is
    /// its position in the declaration order.
    pub fn declare_uniform(&mut self, name: String)
        requires
            old(self).wf(),
            old(self).active_uniforms().len() + 1 < 0x8000_0000,
        ensures
            final(self).wf(),
            final(self).active_uniforms() == old(self).active_uniforms().push(name),
            final(self).same_accounting(*old(self)),
            final(self).same_bindings(*old(self)),
            final(self).same_link_state(*old(self)),
            final(self).uniform_calls() == old(self).uniform_calls(),
            final(self).warnings() == old(self).warnings(),
            final(self).draw_calls() == old(self).draw_calls(),
    {
        self.active_uniforms.push(name);
    }

    /// Resolve a uniform name to its slot: the name's position in the
    /// declaration order, or `-1` if the name resolves to no slot.
    pub fn get_uniform_location(&self, name: &str) -> (location: i32)
        requires
            self.wf(),
        ensures
            match uniform_index(self.active_uniforms(), name@) {
                Some(k) => location as int == k,
                None => location == -1,
            },
    {
        let mut i: usize = 0;
        while i < self.active_uniforms.len()
            invariant
                self.wf(),
                i <= self.active_uniforms().len(),
                forall|j: int| 0 <= j < i as int ==> (#[trigger] self.active_uniforms()[j])@ != name@,
            decreases self.active_uniforms().len() - i,
        {
            if str_eq(self.active_uniforms[i].as_str(), name) {
                proof {
                    lemma_uniform_index_found(self.active_uniforms(), name@, i as int);
                }
                return i as i32;
            }
            i = i + 1;
        }
        proof {
            lemma_uniform_index_none(self.active_uniforms(), name@);
        }
        -1
    }

    /// Issue one integer uniform assignment to the bound program.
    pub fn uniform1i(&mut self, location: i32, value: i32)
        requires
            old(self).wf(),
            location >= 0,
            old(self).bound_program() != 0,
        ensures
            final(self).wf(),
            final(self).uniform_calls() == old(self).uniform_calls().push((location, value)),
            final(self).same_accounting(*old(self)),
            final(self).same_bindings(*old(self)),
            final(self).same_link_state(*old(self)),
            final(self).active_uniforms() == old(self).active_uniforms(),
            final(self).warnings() == old(self).warnings(),
            final(self).draw_calls() == old(self).draw_calls(),
    {
        self.uniform_calls.push((location, value));
    }

    /// Record a warning about a benign failure.
    pub fn log_warning(&mut self, message: String)
        requires
            old(self).wf(),
        ensures
            final(self).wf(),
            final(self).warnings() == old(self).warnings().push(message),
            final(self).same_accounting(*old(self)),
            final(self).same_bindings(*old(self)),
            final(self).same_link_state(*old(self)),
            final(self).active_uniforms() == old(self).active_uniforms(),
            final(self).uniform_calls() == old(self).uniform_calls(),
            final(self).draw_calls() == old(self).draw_calls(),
    {
        self.warnings.push(message);
    }

    /// Issue one non-indexed draw call. A program and a vertex-array
    /// must be bound.
    pub fn draw_arrays(&mut self, count: u64)
        requires
            old(self).wf(),
            old(self).bound_program() != 0,
            old(self).bound_vertex_array() != 0,
            old(self).draw_calls() < u64::MAX,
        ensures
            final(self).wf(),
            final(self).draw_calls() == old(self).draw_calls() + 1,
            final(self).same_accounting(*old(self)),
            final(self).same_bindings(*old(self)),
            final(self).same_link_state(*old(self)),
            final(self).active_uniforms() == old(self).active_uniforms(),
            final(self).uniform_calls() == old(self).uniform_calls(),
            final(self).warnings() == old(self).warnings(),
    {
        let _ = count;
        self.draw_calls = self.draw_calls + 1;
    }

    /// Issue one indexed draw call. A program and a vertex-array must
    /// be bound.
    pub fn draw_elements(&mut self, count: u64)
        requires
            old(self).wf(),
            old(self).bound_program() != 0,
            old(self).bound_vertex_array() != 0,
            old(self).draw_calls() < u64::MAX,
        ensures
            final(self).wf(),
            final(self).draw_calls() == old(self).draw_calls() + 1,
            final(self).same_accounting(*old(self)),
            final(self).same_bindings(*old(self)),
            final(self).same_link_state(*old(self)),
            final(self).active_uniforms() == old(self).active_uniforms(),
            final(self).uniform_calls() == old(self).uniform_calls(),
            final(self).warnings() == old(self).warnings(),
    {
        let _ = count;
        self.draw_calls = self.draw_calls + 1;
    }
}

} // verus!
