//! Linked programs and the link decision.
//!
//! Linking runs as a dialogue with the driver: the caller obtains a fresh
//! program handle, attaches every compiled shader to it in the given order,
//! requests linking, and reads the link-status flag back; on success it
//! detaches the shaders again (in the same order), on failure it retrieves
//! the driver's log and deletes the abandoned program object. The functions
//! here fix the attach and detach order and decide the outcome.

use vstd::prelude::*;

use crate::context::ContextModel;
use crate::diagnostic::diagnostic_from_log;
use crate::shader::{failed_with_log, Shader};

verus! {

/// An executable graphics program: sole owner of the driver handle produced
/// by a successful link. It holds no reference to the shaders it was linked
/// from; they stay independently owned.
#[derive(Debug)]
pub struct Program {
    id: u32,
}

/// A successful link outcome: a program owning exactly the created handle,
/// and no diagnostic.
pub open spec fn linked_ok(r: Result<Program, String>, handle: u32) -> bool {
    r matches Ok(p) && p.spec_id() == handle
}

impl Program {
    pub closed spec fn spec_id(self) -> u32 {
        self.id
    }

    /// The driver handle this program owns.
    pub fn id(&self) -> (r: u32)
        ensures
            r == self.spec_id(),
    {
        self.id
    }

    /// The order in which shaders are attached to a program, and later
    /// detached from it: the order of the given sequence, so that link
    /// diagnostics are reproducible.
    pub fn shader_ids(shaders: &Vec<Shader>) -> (ids: Vec<u32>)
        ensures
            ids@.len() == shaders@.len(),
            forall|i: int| 0 <= i < shaders@.len() ==> ids@[i] == shaders@[i].spec_id(),
    {
        let n = shaders.len();
        let mut ids: Vec<u32> = Vec::new();
        let mut i: usize = 0;
        while i < n
            invariant
                n == shaders@.len(),
                i <= n,
                ids@.len() == i,
                forall|j: int| 0 <= j < i ==> ids@[j] == shaders@[j].spec_id(),
            decreases n - i,
        {
            ids.push(shaders.get(i).unwrap().id());
            i = i + 1;
        }
        ids
    }

    /// Decide a link from the driver's replies: `program_handle` is the fresh
    /// program object, `link_status` the driver's link-status flag after the
    /// shaders were attached in `shader_ids` order and linking was requested,
    /// and `log` the retrieved log buffer (empty unless the status was zero).
    ///
    /// A nonzero status means the stages linked: the result owns the handle,
    /// now live, the shaders are detached again, and every one of them stays
    /// live and independently usable. A zero status means the link failed:
    /// the result is the driver's diagnostic text, and the abandoned program
    /// object is not kept live — the caller deletes it at once, so nothing
    /// leaks. Either way no shader is consumed or released.
    pub fn from_shaders(
        ctx: &mut ContextModel,
        shaders: &Vec<Shader>,
        program_handle: u32,
        link_status: i32,
        log: Vec<u8>,
    ) -> (r: Result<Program, String>)
        requires
            old(ctx).wf(),
            !old(ctx).program_live_spec(program_handle),
            forall|i: int|
                0 <= i < shaders@.len() ==> old(ctx).shader_live_spec(shaders@[i].spec_id()),
        ensures
            final(ctx).wf(),
            link_status != 0 ==> linked_ok(r, program_handle) && (forall|x: u32|
                final(ctx).program_live_spec(x) == (old(ctx).program_live_spec(x) || x
                    == program_handle)),
            link_status == 0 ==> failed_with_log(r, log@) && (forall|x: u32|
                final(ctx).program_live_spec(x) == old(ctx).program_live_spec(x)),
            forall|x: u32| final(ctx).shader_live_spec(x) == old(ctx).shader_live_spec(x),
            final(ctx).active_spec() == old(ctx).active_spec(),
    {
        if link_status != 0 {
            ctx.register_program(program_handle);
            Ok(Program { id: program_handle })
        } else {
            Err(diagnostic_from_log(&log))
        }
    }

    /// Make this program the one subsequent draw operations use. Only a live
    /// handle — one from a successful link, not yet released — may be
    /// activated; that is a precondition, not a runtime check.
    pub fn set_used(&self, ctx: &mut ContextModel)
        requires
            old(ctx).wf(),
            old(ctx).program_live_spec(self.spec_id()),
        ensures
            final(ctx).wf(),
            final(ctx).active_spec() == Some(self.spec_id()),
            forall|x: u32| final(ctx).shader_live_spec(x) == old(ctx).shader_live_spec(x),
            forall|x: u32| final(ctx).program_live_spec(x) == old(ctx).program_live_spec(x),
    {
        ctx.activate(self.id);
    }
}

} // verus!
