//! Shader objects and the compile decision.
//!
//! Compiling runs as a dialogue with the driver: the caller obtains a fresh
//! shader handle for a stage kind, submits the NUL-terminated source text,
//! requests compilation, and reads the compile-status flag back; on failure
//! it retrieves the driver's log. The functions here take those replies and
//! decide the outcome: a `Ready` shader owning the handle on success, the
//! diagnostic text and no usable handle on failure.

use vstd::prelude::*;

use crate::context::ContextModel;
use crate::diagnostic::{diagnostic_from_log, diagnostic_of, terminated_prefix};

verus! {

/// The pipeline stage a shader object belongs to. The stage determines which
/// compiler entry point of the driver handles the shader's source text.
#[derive(Clone, Copy, Debug, PartialEq, Eq, Structural)]
pub enum ShaderStageKind {
    Vertex,
    Fragment,
}

/// Shader source as the driver takes it: a byte string ending in its one NUL.
/// That the text holds no interior NUL is the supplier's obligation, not
/// checked here.
pub open spec fn nul_terminated(s: Seq<u8>) -> bool {
    &&& s.len() > 0
    &&& s[s.len() - 1] == 0
    &&& forall|i: int| 0 <= i < s.len() - 1 ==> s[i] != 0
}

/// A compiled, ready-to-link shader: a driver handle of a known stage kind.
/// Values exist only for compilations the driver accepted; whether the handle
/// is still live, and that it is released at most once, is the
/// [`ContextModel`]'s to track.
#[derive(Clone, Debug)]
pub struct Shader {
    id: u32,
    kind: ShaderStageKind,
}

/// A successful compile outcome: a shader owning exactly the created handle,
/// of the requested stage kind, and no diagnostic.
pub open spec fn compiled_ok(r: Result<Shader, String>, handle: u32, kind: ShaderStageKind) -> bool {
    r matches Ok(s) && s.spec_id() == handle && s.spec_kind() == kind
}

/// A failed compile or link outcome: no handle, and the driver's log text as
/// the diagnostic, non-empty exactly when the driver wrote any text.
pub open spec fn failed_with_log<T>(r: Result<T, String>, log: Seq<u8>) -> bool {
    r matches Err(d) && d@ == diagnostic_of(log) && (d@.len() == 0) == (terminated_prefix(
        log,
    ).len() == 0)
}

/// A rejected compile or link always explains itself: whenever the driver
/// wrote any text before the terminator of its log, the diagnostic handed to
/// the caller is non-empty.
pub proof fn lemma_failed_diagnostic_nonempty<T>(r: Result<T, String>, log: Seq<u8>)
    requires
        failed_with_log(r, log),
        log.len() > 0,
        log[0] != 0,
    ensures
        r matches Err(d) && d@.len() > 0,
{
    crate::diagnostic::lemma_first_nul_bounds(log.drop_first());
    assert(crate::diagnostic::first_nul(log) >= 1);
    assert(terminated_prefix(log).len() >= 1);
}

impl Shader {
    pub closed spec fn spec_id(self) -> u32 {
        self.id
    }

    pub closed spec fn spec_kind(self) -> ShaderStageKind {
        self.kind
    }

    /// The driver handle this shader owns.
    pub fn id(&self) -> (r: u32)
        ensures
            r == self.spec_id(),
    {
        self.id
    }

    /// The stage kind this shader was compiled for.
    pub fn kind(&self) -> (r: ShaderStageKind)
        ensures
            r == self.spec_kind(),
    {
        self.kind
    }

    /// Decide a compilation from the driver's replies: `handle` is the fresh
    /// shader object created for `kind`, `compile_status` the driver's
    /// compile-status flag after `source` was submitted, and `log` the
    /// retrieved log buffer (empty unless the status was zero).
    ///
    /// A nonzero status means the source was accepted: the result owns the
    /// handle, now live, and there is no diagnostic. A zero status means the
    /// source was rejected: the result is the driver's diagnostic text, no
    /// handle is handed out, and the abandoned shader object is not kept
    /// live — the caller deletes it at once, so nothing leaks.
    pub fn from_source(
        ctx: &mut ContextModel,
        source: &Vec<u8>,
        kind: ShaderStageKind,
        handle: u32,
        compile_status: i32,
        log: Vec<u8>,
    ) -> (r: Result<Shader, String>)
        requires
            old(ctx).wf(),
            nul_terminated(source@),
            !old(ctx).shader_live_spec(handle),
        ensures
            final(ctx).wf(),
            compile_status != 0 ==> compiled_ok(r, handle, kind) && (forall|x: u32|
                final(ctx).shader_live_spec(x) == (old(ctx).shader_live_spec(x) || x == handle)),
            compile_status == 0 ==> failed_with_log(r, log@) && (forall|x: u32|
                final(ctx).shader_live_spec(x) == old(ctx).shader_live_spec(x)),
            forall|x: u32| final(ctx).program_live_spec(x) == old(ctx).program_live_spec(x),
            final(ctx).active_spec() == old(ctx).active_spec(),
    {
        if compile_status != 0 {
            ctx.register_shader(handle);
            Ok(Shader { id: handle, kind })
        } else {
            Err(diagnostic_from_log(&log))
        }
    }

    /// `from_source` for the vertex stage.
    pub fn from_vert_source(
        ctx: &mut ContextModel,
        source: &Vec<u8>,
        handle: u32,
        compile_status: i32,
        log: Vec<u8>,
    ) -> (r: Result<Shader, String>)
        requires
            old(ctx).wf(),
            nul_terminated(source@),
            !old(ctx).shader_live_spec(handle),
        ensures
            final(ctx).wf(),
            compile_status != 0 ==> compiled_ok(r, handle, ShaderStageKind::Vertex) && (forall|
                x: u32,
            |
                final(ctx).shader_live_spec(x) == (old(ctx).shader_live_spec(x) || x == handle)),
            compile_status == 0 ==> failed_with_log(r, log@) && (forall|x: u32|
                final(ctx).shader_live_spec(x) == old(ctx).shader_live_spec(x)),
            forall|x: u32| final(ctx).program_live_spec(x) == old(ctx).program_live_spec(x),
            final(ctx).active_spec() == old(ctx).active_spec(),
    {
        Shader::from_source(ctx, source, ShaderStageKind::Vertex, handle, compile_status, log)
    }

    /// `from_source` for the fragment stage.
    pub fn from_frag_source(
        ctx: &mut ContextModel,
        source: &Vec<u8>,
        handle: u32,
        compile_status: i32,
        log: Vec<u8>,
    ) -> (r: Result<Shader, String>)
        requires
            old(ctx).wf(),
            nul_terminated(source@),
            !old(ctx).shader_live_spec(handle),
        ensures
            final(ctx).wf(),
            compile_status != 0 ==> compiled_ok(r, handle, ShaderStageKind::Fragment) && (forall|
                x: u32,
            |
                final(ctx).shader_live_spec(x) == (old(ctx).shader_live_spec(x) || x == handle)),
            compile_status == 0 ==> failed_with_log(r, log@) && (forall|x: u32|
                final(ctx).shader_live_spec(x) == old(ctx).shader_live_spec(x)),
            forall|x: u32| final(ctx).program_live_spec(x) == old(ctx).program_live_spec(x),
            final(ctx).active_spec() == old(ctx).active_spec(),
    {
        Shader::from_source(ctx, source, ShaderStageKind::Fragment, handle, compile_status, log)
    }
}

} // verus!
