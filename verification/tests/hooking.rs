use connect_redirect::hook::Hook;
use connect_redirect::hook::HookError;
use connect_redirect::lifecycle::on_attach;
use connect_redirect::lifecycle::on_detach;
use connect_redirect::registry::HookRegistry;

fn original() -> Vec<u8> {
    vec![0x55, 0x48, 0x89, 0xE5, 0x41, 0x57, 0x41, 0x56]
}

fn patch() -> Vec<u8> {
    vec![0xE9, 0x11, 0x22, 0x33, 0x44]
}

fn patched_entry() -> Vec<u8> {
    // The patch laid over the front of the original entry.
    vec![0xE9, 0x11, 0x22, 0x33, 0x44, 0x57, 0x41, 0x56]
}

#[test]
fn prepared_hook_starts_disabled() {
    let hook = Hook::prepare(0x1000, original(), patch()).unwrap();
    assert_eq!(hook.target(), 0x1000);
    assert!(!hook.is_enabled());
    assert_eq!(hook.current_entry(), original());
}

#[test]
fn empty_patch_cannot_be_placed() {
    let r = Hook::prepare(0x1000, original(), Vec::new());
    assert_eq!(r.unwrap_err(), HookError::InstallFailure);
}

#[test]
fn oversized_patch_cannot_be_placed() {
    let r = Hook::prepare(0x1000, vec![0x55, 0x48], patch());
    assert_eq!(r.unwrap_err(), HookError::InstallFailure);
}

#[test]
fn enable_patches_and_disable_restores_byte_for_byte() {
    let mut hook = Hook::prepare(0x1000, original(), patch()).unwrap();
    hook.enable();
    assert!(hook.is_enabled());
    let first_enabled = hook.current_entry();
    assert_eq!(first_enabled, patched_entry());
    assert_eq!(hook.trampoline_entry(), original());
    hook.disable();
    assert!(!hook.is_enabled());
    assert_eq!(hook.current_entry(), original());
    hook.enable();
    assert_eq!(hook.current_entry(), first_enabled);
}

#[test]
fn entry_is_never_torn() {
    let mut hook = Hook::prepare(0x1000, original(), patch()).unwrap();
    for _ in 0..4 {
        let entry = hook.current_entry();
        assert!(entry == original() || entry == patched_entry());
        hook.enable();
        let entry = hook.current_entry();
        assert!(entry == original() || entry == patched_entry());
        hook.disable();
    }
}

#[test]
fn double_install_is_rejected_without_second_patch() {
    let mut reg = HookRegistry::new();
    let handle = reg.install(0x1000, original(), patch()).unwrap();
    assert_eq!(handle, 0);
    assert_eq!(reg.len(), 1);
    let second = reg.install(0x1000, original(), patch());
    assert_eq!(second.unwrap_err(), HookError::AlreadyHooked);
    assert_eq!(reg.len(), 1);
}

#[test]
fn distinct_targets_hook_independently() {
    let mut reg = HookRegistry::new();
    let a = reg.install(0x1000, original(), patch()).unwrap();
    let b = reg.install(0x2000, original(), patch()).unwrap();
    assert_ne!(a, b);
    reg.enable(a);
    assert_eq!(reg.current_entry(a), patched_entry());
    assert_eq!(reg.current_entry(b), original());
}

#[test]
fn find_reports_handle_of_installed_target() {
    let mut reg = HookRegistry::new();
    assert!(reg.find(0x1000).is_none());
    let handle = reg.install(0x1000, original(), patch()).unwrap();
    assert_eq!(reg.find(0x1000), Some(handle));
    assert!(reg.find(0x2000).is_none());
}

#[test]
fn registry_rejects_patch_that_does_not_fit() {
    let mut reg = HookRegistry::new();
    let r = reg.install(0x1000, vec![0x55], patch());
    assert_eq!(r.unwrap_err(), HookError::InstallFailure);
    assert_eq!(reg.len(), 0);
}

#[test]
fn remove_restores_original_and_frees_target() {
    let mut reg = HookRegistry::new();
    let handle = reg.install(0x1000, original(), patch()).unwrap();
    reg.enable(handle);
    let hook = reg.remove(0x1000).unwrap();
    assert!(!hook.is_enabled());
    assert_eq!(hook.current_entry(), original());
    assert_eq!(reg.len(), 0);
    assert!(reg.install(0x1000, original(), patch()).is_ok());
}

#[test]
fn attach_installs_and_enables() {
    let mut reg = HookRegistry::new();
    let handle = on_attach(Some(0x1000), &mut reg, original(), patch()).unwrap();
    assert_eq!(reg.len(), 1);
    assert_eq!(reg.current_entry(handle), patched_entry());
}

#[test]
fn attach_without_resolved_symbol_aborts_with_no_patch() {
    let mut reg = HookRegistry::new();
    let r = on_attach(None, &mut reg, original(), patch());
    assert_eq!(r.unwrap_err(), HookError::ResolutionFailure);
    assert_eq!(reg.len(), 0);
}

#[test]
fn failed_attach_leaves_earlier_hooks_as_they_were() {
    let mut reg = HookRegistry::new();
    let first = on_attach(Some(0x1000), &mut reg, original(), patch()).unwrap();
    let again = on_attach(Some(0x1000), &mut reg, original(), patch());
    assert_eq!(again.unwrap_err(), HookError::AlreadyHooked);
    let unplaceable = on_attach(Some(0x2000), &mut reg, vec![0x55], patch());
    assert_eq!(unplaceable.unwrap_err(), HookError::InstallFailure);
    assert_eq!(reg.len(), 1);
    assert_eq!(reg.current_entry(first), patched_entry());
}

#[test]
fn detach_restores_original_behavior() {
    let mut reg = HookRegistry::new();
    on_attach(Some(0x1000), &mut reg, original(), patch()).unwrap();
    let hook = on_detach(&mut reg, 0x1000).unwrap();
    assert_eq!(hook.current_entry(), original());
    assert_eq!(reg.len(), 0);
}

#[test]
fn detach_without_hook_is_a_harmless_no_op() {
    let mut reg = HookRegistry::new();
    assert!(on_detach(&mut reg, 0x1000).is_none());
    assert_eq!(reg.len(), 0);
}
