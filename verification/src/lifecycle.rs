use vstd::prelude::*;

use crate::hook::Hook;
use crate::hook::HookError;
use crate::hook::HookView;
use crate::registry::HookRegistry;

verus! {

/// The attach sequence, run once when the host environment loads this
/// component: the target symbol must already be resolved to an address, then
/// a hook is installed on it and enabled, so every future caller of the
/// target is redirected into the replacement. Every failure short-circuits
/// and leaves the registry exactly as it was: no partial hook state ever
/// survives a failed attach.
///
/// A lookup that found nothing arrives as `None` and aborts the attach with
/// `ResolutionFailure`; a target already patched is rejected with
/// `AlreadyHooked`; a patch that cannot be placed with `InstallFailure`.
pub fn on_attach(
    resolved: Option<usize>,
    registry: &mut HookRegistry,
    original_entry: Vec<u8>,
    patch_entry: Vec<u8>,
) -> (r: Result<usize, HookError>)
    requires
        old(registry).wf(),
    ensures
        final(registry).wf(),
        r is Err ==> final(registry)@ == old(registry)@,
        resolved is None ==> r == Err::<usize, HookError>(HookError::ResolutionFailure),
        resolved matches Some(target) ==> {
            &&& old(registry).has_target(target) ==> r == Err::<usize, HookError>(
                HookError::AlreadyHooked,
            )
            &&& !old(registry).has_target(target) && !(0 < patch_entry@.len()
                <= original_entry@.len()) ==> r == Err::<usize, HookError>(
                HookError::InstallFailure,
            )
            &&& !old(registry).has_target(target) && 0 < patch_entry@.len()
                <= original_entry@.len() ==> r is Ok
            &&& r matches Ok(handle) ==> {
                &&& !old(registry).has_target(target)
                &&& handle == old(registry)@.len()
                &&& final(registry)@ == old(registry)@.push(
                    HookView {
                        target,
                        original: original_entry@,
                        patch: patch_entry@,
                        enabled: true,
                    },
                )
            }
        },
{
    let target = match resolved {
        None => {
            return Err(HookError::ResolutionFailure);
        },
        Some(a) => a,
    };
    let handle = match registry.install(target, original_entry, patch_entry) {
        Ok(h) => h,
        Err(e) => {
            return Err(e);
        },
    };
    registry.enable(handle);
    proof {
        assert(registry@ =~= old(registry)@.push(
            HookView { target, original: original_entry@, patch: patch_entry@, enabled: true },
        ));
    }
    Ok(handle)
}

/// The detach sequence, run when the host environment unloads this component:
/// the hook on the target is disabled — restoring the original entry bytes
/// exactly — and removed. With no hook installed, detaching is a no-op; it
/// never fails either way.
pub fn on_detach(registry: &mut HookRegistry, target: usize) -> (r: Option<Hook>)
    requires
        old(registry).wf(),
    ensures
        final(registry).wf(),
        !final(registry).has_target(target),
        r is None ==> !old(registry).has_target(target) && final(registry)@ == old(registry)@,
        r matches Some(h) ==> {
            &&& exists|i: int|
                {
                    &&& 0 <= i < old(registry)@.len()
                    &&& (#[trigger] old(registry)@[i]).target == target
                    &&& h@ == old(registry)@[i].with_enabled(false)
                    &&& final(registry)@ == old(registry)@.remove(i)
                }
            &&& h@.entry() == h@.original
        },
{
    let removed = registry.remove(target);
    proof {
        match removed {
            Some(ref h) => {
                let i = choose|i: int|
                    0 <= i < old(registry)@.len() && (#[trigger] old(registry)@[i]).target
                        == target && h@ == old(registry)@[i].with_enabled(false) && registry@
                        == old(registry)@.remove(i);
                assert(old(registry)@[i].target == target);
            },
            None => {},
        }
    }
    removed
}

} // verus!
