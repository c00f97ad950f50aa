//! The decision layer of the shader pipeline: naming conventions, the
//! compile and link verdicts, and the attach/detach bookkeeping of a program
//! under construction. The driver calls themselves (compile, link, detach)
//! are performed by the outer layer, which reports their outcomes to the
//! functions here; everything decided from those outcomes is verified.

use vstd::prelude::*;
use vstd::string::StrSliceExecFns;
use vstd::string::StringExecFns;

verus! {

/// A failure reported by the external resource loader.
#[derive(Clone, Debug)]
pub struct ResourceError {
    pub message: String,
}

/// Everything the pipeline can fail with. Each error is terminal for the
/// operation that raised it; nothing is retried internally.
#[derive(Clone, Debug)]
pub enum Error {
    /// The resource loader could not supply the named resource.
    ResourceLoad { name: String, inner: ResourceError },
    /// The driver rejected the program link; `message` is its full info log.
    LinkError { name: String, message: String },
    /// The driver rejected the stage source; `message` is its full info log.
    CompileError { name: String, message: String },
    /// The resource name carries no recognized stage suffix.
    UnknownShaderType { name: String },
}

/// The two shader stage kinds, told apart by the resource-name suffix.
#[derive(Clone, Copy, Debug, PartialEq, Eq, Structural)]
pub enum ShaderKind {
    Vertex,
    Fragment,
}

/// `s` ends with `suffix`.
pub open spec fn spec_ends_with(s: Seq<char>, suffix: Seq<char>) -> bool {
    suffix.len() <= s.len() && s.skip(s.len() - suffix.len()) == suffix
}

/// True exactly when the character sequence of `s` ends with that of
/// `suffix`.
pub fn str_ends_with(s: &str, suffix: &str) -> (r: bool)
    ensures
        r == spec_ends_with(s@, suffix@),
{
    let n: usize = s.unicode_len();
    let m: usize = suffix.unicode_len();
    if m > n {
        return false;
    }
    let mut i: usize = 0;
    while i < m
        invariant
            m <= n,
            n == s@.len(),
            m == suffix@.len(),
            0 <= i <= m,
            forall|j: int| 0 <= j < i ==> s@[n - m + j] == suffix@[j],
        decreases m - i,
    {
        let cs: char = s.get_char(n - m + i);
        let cx: char = suffix.get_char(i);
        if cs != cx {
            proof {
                assert(s@.skip(s@.len() - suffix@.len())[i as int] != suffix@[i as int]);
            }
            return false;
        }
        i = i + 1;
    }
    proof {
        assert(s@.skip(s@.len() - suffix@.len()) =~= suffix@);
    }
    true
}

/// The stage kind a resource name denotes: `.vert` marks a vertex stage and
/// `.frag` a fragment stage; any other name is unrecognized.
pub open spec fn spec_shader_kind(name: Seq<char>) -> Option<ShaderKind> {
    if spec_ends_with(name, ".vert"@) {
        Some(ShaderKind::Vertex)
    } else if spec_ends_with(name, ".frag"@) {
        Some(ShaderKind::Fragment)
    } else {
        None
    }
}

pub fn shader_kind_for_name(name: &str) -> (r: Option<ShaderKind>)
    ensures
        r == spec_shader_kind(name@),
{
    if str_ends_with(name, ".vert") {
        Some(ShaderKind::Vertex)
    } else if str_ends_with(name, ".frag") {
        Some(ShaderKind::Fragment)
    } else {
        None
    }
}

/// The vertex-stage resource name a logical program name resolves to.
pub fn vertex_resource_name(name: &str) -> (r: String)
    ensures
        r@ == name@ + ".vert"@,
{
    let mut r: String = String::from_str(name);
    r.append(".vert");
    r
}

/// The fragment-stage resource name a logical program name resolves to.
pub fn fragment_resource_name(name: &str) -> (r: String)
    ensures
        r@ == name@ + ".frag"@,
{
    let mut r: String = String::from_str(name);
    r.append(".frag");
    r
}

/// The two resource names a logical program name resolves to, vertex stage
/// first.
pub fn program_resource_names(name: &str) -> (r: Vec<String>)
    ensures
        r@.len() == 2,
        r@[0]@ == name@ + ".vert"@,
        r@[1]@ == name@ + ".frag"@,
{
    let mut r: Vec<String> = Vec::new();
    r.push(vertex_resource_name(name));
    r.push(fragment_resource_name(name));
    r
}

/// A resource name derived from a logical name is always recognized, and as
/// the stage its suffix says: appending `.vert` yields a vertex-stage name
/// and appending `.frag` a fragment-stage name, whatever the logical name.
pub proof fn lemma_derived_names_are_recognized(name: Seq<char>)
    ensures
        spec_shader_kind(name + ".vert"@) == Some(ShaderKind::Vertex),
        spec_shader_kind(name + ".frag"@) == Some(ShaderKind::Fragment),
{
    reveal_strlit(".vert");
    reveal_strlit(".frag");
    let v = name + ".vert"@;
    let f = name + ".frag"@;
    assert(v.skip(v.len() - 5) =~= ".vert"@);
    assert(f.skip(f.len() - 5) =~= ".frag"@);
    assert(!spec_ends_with(f, ".vert"@)) by {
        if spec_ends_with(f, ".vert"@) {
            assert(f.skip(f.len() - 5)[4] == ".vert"@[4]);
            assert(f.skip(f.len() - 5)[4] == 'g');
        }
    }
}

/// Classify one stage resource: an unrecognized suffix fails before the
/// loader is consulted; a loader failure becomes `ResourceLoad`; otherwise
/// the stage kind and the loaded source are handed on for compilation.
pub fn stage_from_load(name: &str, load: Result<String, ResourceError>) -> (r: Result<
    (ShaderKind, String),
    Error,
>)
    ensures
        match spec_shader_kind(name@) {
            Option::None => r matches Err(Error::UnknownShaderType { name: n }) && n@ == name@,
            Option::Some(kind) => match load {
                Result::Ok(src) => r matches Ok(p) && p.0 == kind && p.1 == src,
                Result::Err(e) => r matches Err(Error::ResourceLoad { name: n, inner }) && n@
                    == name@ && inner == e,
            },
        },
{
    let kind: Option<ShaderKind> = shader_kind_for_name(name);
    match kind {
        None => Err(Error::UnknownShaderType { name: String::from_str(name) }),
        Some(kind) => match load {
            Ok(src) => Ok((kind, src)),
            Err(e) => Err(Error::ResourceLoad { name: String::from_str(name), inner: e }),
        },
    }
}

/// Judge the driver's compile verdict for one stage. Success hands the
/// stage handle on; failure becomes `CompileError` whose message is the
/// driver's full info log, kept verbatim even when it is empty.
pub fn compile_result(name: &str, shader_id: u32, success: bool, log: String) -> (r: Result<
    u32,
    Error,
>)
    ensures
        success ==> r == Ok::<u32, Error>(shader_id),
        !success ==> (r matches Err(Error::CompileError { name: n, message }) && n@ == name@
            && message == log),
{
    if success {
        Ok(shader_id)
    } else {
        Err(Error::CompileError { name: String::from_str(name), message: log })
    }
}

/// Where a program under construction stands: stages are being attached, the
/// link succeeded, or the link failed. A failed link is terminal.
#[derive(Clone, Copy, Debug, PartialEq, Eq, Structural)]
pub enum LinkState {
    Attaching,
    Linked,
    LinkFailed,
}

/// The bookkeeping of one program being linked: which stages are attached
/// and how far the build has come. A program is usable only once its state
/// is `Linked`; there is no partially linked observable state.
pub struct ProgramBuilder {
    pub program_id: u32,
    pub attached: Vec<u32>,
    pub state: LinkState,
}

impl ProgramBuilder {
    /// Start building around a fresh driver program handle: nothing attached.
    pub fn new(program_id: u32) -> (r: ProgramBuilder)
        ensures
            r.program_id == program_id,
            r.attached@ == Seq::<u32>::empty(),
            r.state == LinkState::Attaching,
    {
        ProgramBuilder { program_id, attached: Vec::new(), state: LinkState::Attaching }
    }

    /// Record that a compiled stage was attached to the program.
    pub fn attach(&mut self, shader_id: u32)
        requires
            old(self).state == LinkState::Attaching,
        ensures
            final(self).program_id == old(self).program_id,
            final(self).state == LinkState::Attaching,
            final(self).attached@ == old(self).attached@.push(shader_id),
    {
        self.attached.push(shader_id);
    }

    /// Judge the driver's link verdict. On success every attached stage is
    /// released for detaching (the returned handles) and the program is
    /// usable; on failure nothing is detached — the attach list stays as it
    /// was, for inspection — and the result is `LinkError` whose message is
    /// the driver's full info log, kept verbatim even when it is empty.
    pub fn record_link(&mut self, name: &str, success: bool, log: String) -> (r: Result<
        Vec<u32>,
        Error,
    >)
        requires
            old(self).state == LinkState::Attaching,
        ensures
            final(self).program_id == old(self).program_id,
            success ==> final(self).state == LinkState::Linked && final(self).attached@
                == Seq::<u32>::empty() && (r matches Ok(detach) && detach@
                == old(self).attached@),
            !success ==> final(self).state == LinkState::LinkFailed && final(self).attached@
                == old(self).attached@ && (r matches Err(Error::LinkError { name: n, message })
                && n@ == name@ && message == log),
    {
        if success {
            self.state = LinkState::Linked;
            let mut detach: Vec<u32> = Vec::new();
            core::mem::swap(&mut detach, &mut self.attached);
            Ok(detach)
        } else {
            self.state = LinkState::LinkFailed;
            Err(Error::LinkError { name: String::from_str(name), message: log })
        }
    }
}

} // verus!
