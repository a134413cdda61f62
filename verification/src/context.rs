//! A verified model of the driver-side object table.
//!
//! The graphics context hands out integer handles for shader and program
//! objects; each handle must be released at most once, and only a live
//! program handle may be made active. `ContextModel` tracks, per context,
//! which handles are live and which program is active, so that ownership and
//! release-exactly-once are checked facts rather than conventions. The
//! unverified shell keeps one `ContextModel` beside the real context and
//! records every handle it obtains or deletes in it.

use vstd::prelude::*;

verus! {

/// True when `v` holds `id`.
fn contains_value(v: &Vec<u32>, id: u32) -> (r: bool)
    ensures
        r == v@.contains(id),
{
    let n = v.len();
    let mut i: usize = 0;
    while i < n
        invariant
            n == v@.len(),
            i <= n,
            forall|j: int| 0 <= j < i ==> v@[j] != id,
        decreases n - i,
    {
        if *v.get(i).unwrap() == id {
            return true;
        }
        i = i + 1;
    }
    false
}

/// Remove `id` from a duplicate-free vector, if present. Returns whether it
/// was there; afterwards it is not, and nothing else has changed.
fn remove_value_once(v: &mut Vec<u32>, id: u32) -> (r: bool)
    requires
        old(v)@.no_duplicates(),
    ensures
        final(v)@.no_duplicates(),
        r == old(v)@.contains(id),
        forall|x: u32| final(v)@.contains(x) == (old(v)@.contains(x) && x != id),
{
    let ghost orig = v@;
    let n = v.len();
    let mut i: usize = 0;
    while i < n
        invariant
            v@ == orig,
            orig == old(v)@,
            orig.no_duplicates(),
            n == v@.len(),
            i <= n,
            forall|j: int| 0 <= j < i ==> v@[j] != id,
        decreases n - i,
    {
        if *v.get(i).unwrap() == id {
            proof {
                assert(orig[i as int] == id);
            }
            v.remove(i);
            proof {
                let removed = orig.remove(i as int);
                orig.remove_ensures(i as int);
                assert(v@ == removed);
                assert forall|x: u32| removed.contains(x) implies (orig.contains(x)
                    && x != id) by {
                    let m = choose|m: int| 0 <= m < removed.len() && removed[m] == x;
                    if m < i {
                        assert(removed[m] == orig[m]);
                        assert(orig[m] != id);
                    } else {
                        assert(removed[m] == orig[m + 1]);
                        if x == id {
                            assert(orig[m + 1] == orig[i as int]);
                            assert(false);
                        }
                    }
                }
                assert forall|x: u32| orig.contains(x) && x != id implies removed.contains(
                    x,
                ) by {
                    let k = choose|k: int| 0 <= k < orig.len() && orig[k] == x;
                    if k < i {
                        assert(removed[k] == x);
                    } else {
                        assert(k != i);
                        assert(removed[k - 1] == orig[k]);
                    }
                }
                assert forall|m: int, k: int|
                    0 <= m < removed.len() && 0 <= k < removed.len() && m
                        != k implies removed[m] != removed[k] by {
                    let ghost mo: int = if m < i {
                        m
                    } else {
                        m + 1
                    };
                    let ghost ko: int = if k < i {
                        k
                    } else {
                        k + 1
                    };
                    assert(removed[m] == orig[mo]);
                    assert(removed[k] == orig[ko]);
                    assert(mo != ko);
                }
                assert(removed.no_duplicates());
            }
            return true;
        }
        i = i + 1;
    }
    false
}

/// The model of one graphics context: the live shader handles, the live
/// program handles, and the program currently in use, if any.
pub struct ContextModel {
    live_shaders: Vec<u32>,
    live_programs: Vec<u32>,
    active_program: Option<u32>,
}

impl ContextModel {
    /// The shader handle `id` has been created and not yet released.
    pub closed spec fn shader_live_spec(self, id: u32) -> bool {
        self.live_shaders@.contains(id)
    }

    /// The program handle `id` has been created and not yet released.
    pub closed spec fn program_live_spec(self, id: u32) -> bool {
        self.live_programs@.contains(id)
    }

    /// The program made active by the latest activation, if it is still live.
    pub closed spec fn active_spec(self) -> Option<u32> {
        self.active_program
    }

    /// Each handle is tracked once, and only a live program can be active.
    pub closed spec fn wf(self) -> bool {
        &&& self.live_shaders@.no_duplicates()
        &&& self.live_programs@.no_duplicates()
        &&& match self.active_program {
            Some(p) => self.live_programs@.contains(p),
            None => true,
        }
    }

    /// A fresh context: no live handles, no active program.
    pub fn new() -> (c: Self)
        ensures
            c.wf(),
            forall|x: u32| !c.shader_live_spec(x),
            forall|x: u32| !c.program_live_spec(x),
            c.active_spec() is None,
    {
        ContextModel { live_shaders: Vec::new(), live_programs: Vec::new(), active_program: None }
    }

    pub fn shader_live(&self, id: u32) -> (r: bool)
        ensures
            r == self.shader_live_spec(id),
    {
        contains_value(&self.live_shaders, id)
    }

    pub fn program_live(&self, id: u32) -> (r: bool)
        ensures
            r == self.program_live_spec(id),
    {
        contains_value(&self.live_programs, id)
    }

    /// The currently active program, if any.
    pub fn active(&self) -> (r: Option<u32>)
        ensures
            r == self.active_spec(),
    {
        self.active_program
    }

    /// Record a shader handle the driver has just created. The driver never
    /// hands out a handle that is already live.
    pub fn register_shader(&mut self, id: u32)
        requires
            old(self).wf(),
            !old(self).shader_live_spec(id),
        ensures
            final(self).wf(),
            forall|x: u32|
                final(self).shader_live_spec(x) == (old(self).shader_live_spec(x) || x == id),
            forall|x: u32| final(self).program_live_spec(x) == old(self).program_live_spec(x),
            final(self).active_spec() == old(self).active_spec(),
    {
        let ghost orig = self.live_shaders@;
        self.live_shaders.push(id);
        proof {
            assert forall|x: u32|
                self.live_shaders@.contains(x) == (orig.contains(x) || x == id) by {
                if orig.contains(x) {
                    let k = choose|k: int| 0 <= k < orig.len() && orig[k] == x;
                    assert(self.live_shaders@[k] == x);
                }
                if x == id {
                    assert(self.live_shaders@[orig.len() as int] == x);
                }
                if self.live_shaders@.contains(x) {
                    let k = choose|k: int|
                        0 <= k < self.live_shaders@.len() && self.live_shaders@[k] == x;
                    if k < orig.len() {
                        assert(orig[k] == x);
                    }
                }
            }
        }
    }

    /// Record a program handle the driver has just created.
    pub fn register_program(&mut self, id: u32)
        requires
            old(self).wf(),
            !old(self).program_live_spec(id),
        ensures
            final(self).wf(),
            forall|x: u32|
                final(self).program_live_spec(x) == (old(self).program_live_spec(x) || x == id),
            forall|x: u32| final(self).shader_live_spec(x) == old(self).shader_live_spec(x),
            final(self).active_spec() == old(self).active_spec(),
    {
        let ghost orig = self.live_programs@;
        self.live_programs.push(id);
        proof {
            assert forall|x: u32|
                self.live_programs@.contains(x) == (orig.contains(x) || x == id) by {
                if orig.contains(x) {
                    let k = choose|k: int| 0 <= k < orig.len() && orig[k] == x;
                    assert(self.live_programs@[k] == x);
                }
                if x == id {
                    assert(self.live_programs@[orig.len() as int] == x);
                }
                if self.live_programs@.contains(x) {
                    let k = choose|k: int|
                        0 <= k < self.live_programs@.len() && self.live_programs@[k] == x;
                    if k < orig.len() {
                        assert(orig[k] == x);
                    }
                }
            }
        }
    }

    /// Release a shader handle. The first release of a live handle returns
    /// `true`; afterwards the handle is no longer live, so a second release
    /// of it finds nothing, returns `false`, and changes nothing: no handle
    /// is ever released twice.
    pub fn release_shader(&mut self, id: u32) -> (r: bool)
        requires
            old(self).wf(),
        ensures
            final(self).wf(),
            r == old(self).shader_live_spec(id),
            forall|x: u32|
                final(self).shader_live_spec(x) == (old(self).shader_live_spec(x) && x != id),
            forall|x: u32| final(self).program_live_spec(x) == old(self).program_live_spec(x),
            final(self).active_spec() == old(self).active_spec(),
    {
        remove_value_once(&mut self.live_shaders, id)
    }

    /// Release a program handle; like `release_shader`, a second release of
    /// the same handle returns `false` and changes nothing. A program that
    /// was active when released stops being active.
    pub fn release_program(&mut self, id: u32) -> (r: bool)
        requires
            old(self).wf(),
        ensures
            final(self).wf(),
            r == old(self).program_live_spec(id),
            forall|x: u32|
                final(self).program_live_spec(x) == (old(self).program_live_spec(x) && x != id),
            forall|x: u32| final(self).shader_live_spec(x) == old(self).shader_live_spec(x),
            final(self).active_spec() == (if old(self).active_spec() == Some(id) {
                None::<u32>
            } else {
                old(self).active_spec()
            }),
    {
        let r = remove_value_once(&mut self.live_programs, id);
        match self.active_program {
            Some(p) => {
                if p == id {
                    self.active_program = None;
                }
            },
            None => {},
        }
        r
    }

    /// Make a live program the active one. Only a live, successfully linked
    /// handle may be activated; that is a precondition, not a runtime check.
    pub fn activate(&mut self, id: u32)
        requires
            old(self).wf(),
            old(self).program_live_spec(id),
        ensures
            final(self).wf(),
            final(self).active_spec() == Some(id),
            forall|x: u32| final(self).shader_live_spec(x) == old(self).shader_live_spec(x),
            forall|x: u32| final(self).program_live_spec(x) == old(self).program_live_spec(x),
    {
        self.active_program = Some(id);
    }
}

/// Releasing is final: whatever was live before, after a release of `id` the
/// handle `id` is not live, so no sequence of releases touches the same
/// handle twice.
pub proof fn lemma_release_is_final(c0: ContextModel, c1: ContextModel, id: u32)
    requires
        forall|x: u32| c1.shader_live_spec(x) == (c0.shader_live_spec(x) && x != id),
    ensures
        !c1.shader_live_spec(id),
{
}

} // verus!
