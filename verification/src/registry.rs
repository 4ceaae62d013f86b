use vstd::prelude::*;

use crate::hook::Hook;
use crate::hook::HookError;
use crate::hook::HookView;

verus! {

/// The process-wide hook table: every live hook, with at most one per target
/// address. Installing, enabling and disabling go through this registry, so a
/// second installation on an already-patched target can be rejected instead
/// of stacking a second patch.
pub struct HookRegistry {
    hooks: Vec<Hook>,
}

impl View for HookRegistry {
    type V = Seq<HookView>;

    closed spec fn view(&self) -> Seq<HookView> {
        self.hooks@.map_values(|h: Hook| h@)
    }
}

impl HookRegistry {
    /// Every hook is well formed and no two hooks patch the same target.
    pub open spec fn wf(self) -> bool {
        &&& forall|i: int| 0 <= i < self@.len() ==> (#[trigger] self@[i]).wf()
        &&& forall|i: int, j: int|
            0 <= i < j < self@.len() ==> (#[trigger] self@[i]).target != (
            #[trigger] self@[j]).target
    }

    /// Whether some hook in the registry patches this target.
    pub open spec fn has_target(self, target: usize) -> bool {
        exists|i: int| 0 <= i < self@.len() && (#[trigger] self@[i]).target == target
    }

    /// An empty registry: the pristine, unhooked process state.
    pub fn new() -> (r: HookRegistry)
        ensures
            r@ == Seq::<HookView>::empty(),
            r.wf(),
    {
        let r = HookRegistry { hooks: Vec::new() };
        proof {
            assert(r@ =~= Seq::<HookView>::empty());
        }
        r
    }

    /// How many hooks are live.
    pub fn len(&self) -> (n: usize)
        ensures
            n == self@.len(),
    {
        self.hooks.len()
    }

    /// The handle of the hook patching this target, if one is installed.
    pub fn find(&self, target: usize) -> (r: Option<usize>)
        ensures
            r matches Some(i) ==> i < self@.len() && self@[i as int].target == target,
            r is None ==> !self.has_target(target),
    {
        let mut i: usize = 0;
        while i < self.hooks.len()
            invariant
                i <= self@.len(),
                self@.len() == self.hooks@.len(),
                forall|j: int| 0 <= j < i ==> (#[trigger] self@[j]).target != target,
            decreases self@.len() - i,
        {
            if self.hooks[i].target() == target {
                return Some(i);
            }
            i += 1;
        }
        None
    }

    /// The entry bytes a caller of the hooked target observes right now.
    pub fn current_entry(&self, handle: usize) -> (r: Vec<u8>)
        requires
            self.wf(),
            handle < self@.len(),
        ensures
            r@ == self@[handle as int].entry(),
    {
        proof {
            assert(self.hooks@[handle as int]@ == self@[handle as int]);
        }
        self.hooks[handle].current_entry()
    }

    /// Installs a hook on the target: captures the given original entry bytes
    /// and prepares the patch, initially disabled, and hands back the handle.
    /// Rejected with `AlreadyHooked` when some hook already patches the
    /// target — the target is never patched twice — and with `InstallFailure`
    /// when the patch cannot be placed. Either rejection leaves the registry
    /// exactly as it was.
    pub fn install(&mut self, target: usize, original_entry: Vec<u8>, patch_entry: Vec<u8>) -> (r:
        Result<usize, HookError>)
        requires
            old(self).wf(),
        ensures
            final(self).wf(),
            old(self).has_target(target) ==> r == Err::<usize, HookError>(
                HookError::AlreadyHooked,
            ),
            !old(self).has_target(target) && !(0 < patch_entry@.len() <= original_entry@.len())
                ==> r == Err::<usize, HookError>(HookError::InstallFailure),
            !old(self).has_target(target) && 0 < patch_entry@.len() <= original_entry@.len()
                ==> r is Ok,
            r is Err ==> final(self)@ == old(self)@,
            r matches Ok(handle) ==> {
                &&& !old(self).has_target(target)
                &&& handle == old(self)@.len()
                &&& final(self)@ == old(self)@.push(
                    HookView {
                        target,
                        original: original_entry@,
                        patch: patch_entry@,
                        enabled: false,
                    },
                )
            },
    {
        if let Some(_) = self.find(target) {
            return Err(HookError::AlreadyHooked);
        }
        let hook = match Hook::prepare(target, original_entry, patch_entry) {
            Ok(h) => h,
            Err(e) => {
                return Err(e);
            },
        };
        let handle = self.hooks.len();
        let ghost prev = self@;
        self.hooks.push(hook);
        proof {
            assert(self@ =~= prev.push(hook@));
            assert forall|i: int| 0 <= i < self@.len() implies (#[trigger] self@[i]).wf() by {
                if i < prev.len() {
                    assert(self@[i] == prev[i]);
                }
            }
        }
        Ok(handle)
    }

    /// Routes every future caller of the hooked target into the replacement.
    /// Only that hook's toggle changes; every other hook is untouched.
    pub fn enable(&mut self, handle: usize)
        requires
            old(self).wf(),
            handle < old(self)@.len(),
        ensures
            final(self).wf(),
            final(self)@ == old(self)@.update(
                handle as int,
                old(self)@[handle as int].with_enabled(true),
            ),
    {
        let mut hook = self.hooks.remove(handle);
        hook.enable();
        self.hooks.insert(handle, hook);
        proof {
            assert(final(self)@ =~= old(self)@.update(
                handle as int,
                old(self)@[handle as int].with_enabled(true),
            ));
        }
    }

    /// Restores the hooked target's original entry exactly, byte for byte.
    /// Only that hook's toggle changes; every other hook is untouched.
    pub fn disable(&mut self, handle: usize)
        requires
            old(self).wf(),
            handle < old(self)@.len(),
        ensures
            final(self).wf(),
            final(self)@ == old(self)@.update(
                handle as int,
                old(self)@[handle as int].with_enabled(false),
            ),
            final(self)@[handle as int].entry() == old(self)@[handle as int].original,
    {
        let mut hook = self.hooks.remove(handle);
        hook.disable();
        self.hooks.insert(handle, hook);
        proof {
            assert(final(self)@ =~= old(self)@.update(
                handle as int,
                old(self)@[handle as int].with_enabled(false),
            ));
        }
    }

    /// Removes the hook patching this target, disabling it first so the
    /// original entry bytes are restored before the hook is destroyed. With
    /// no hook on the target this is a no-op that cannot fail.
    pub fn remove(&mut self, target: usize) -> (r: Option<Hook>)
        requires
            old(self).wf(),
        ensures
            final(self).wf(),
            r is None ==> !old(self).has_target(target) && final(self)@ == old(self)@,
            r matches Some(h) ==> {
                &&& exists|i: int|
                    {
                        &&& 0 <= i < old(self)@.len()
                        &&& (#[trigger] old(self)@[i]).target == target
                        &&& h@ == old(self)@[i].with_enabled(false)
                        &&& final(self)@ == old(self)@.remove(i)
                    }
                &&& h@.entry() == h@.original
                &&& !final(self).has_target(target)
            },
    {
        match self.find(target) {
            None => None,
            Some(i) => {
                let ghost prev = self@;
                let mut hook = self.hooks.remove(i);
                hook.disable();
                proof {
                    assert(self@ =~= prev.remove(i as int));
                    assert forall|k: int| 0 <= k < self@.len() implies (
                    #[trigger] self@[k]).target != target by {
                        if k < i {
                            assert(prev[k] == self@[k]);
                        } else {
                            assert(prev[k + 1] == self@[k]);
                        }
                    }
                }
                Some(hook)
            },
        }
    }
}

} // verus!
