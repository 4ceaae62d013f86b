use vstd::prelude::*;

use crate::endpoint::copy_bytes;

verus! {

/// Everything that can go wrong while wiring the interception up. Any of
/// these aborts the attach and leaves the process unhooked.
#[derive(Clone, Copy, Debug, PartialEq, Eq, Structural)]
pub enum HookError {
    /// The module is not loaded or the symbol is not exported.
    ResolutionFailure,
    /// The target cannot be patched.
    InstallFailure,
    /// A hook is already active on this target.
    AlreadyHooked,
}

/// The abstract state of one hook: the target address, the saved original
/// entry bytes, the patch bytes that transfer control to the replacement, and
/// whether redirection is currently live.
pub struct HookView {
    pub target: usize,
    pub original: Seq<u8>,
    pub patch: Seq<u8>,
    pub enabled: bool,
}

impl HookView {
    /// The patch must fit inside the captured entry, and capturing nothing
    /// would leave no way back to the original.
    pub open spec fn wf(self) -> bool {
        0 < self.patch.len() <= self.original.len()
    }

    /// The entry bytes a caller reaching the target observes: the patch laid
    /// over the front of the original entry while the hook is enabled, the
    /// original bytes otherwise. There is no third, half-patched state.
    pub open spec fn entry(self) -> Seq<u8> {
        if self.enabled {
            self.patch + self.original.subrange(self.patch.len() as int, self.original.len() as int)
        } else {
            self.original
        }
    }

    /// The same hook with redirection toggled to the given state.
    pub open spec fn with_enabled(self, enabled: bool) -> HookView {
        HookView { enabled, ..self }
    }
}

/// One live hook: owns the association between a target address, the saved
/// original entry bytes and the patch that transfers control to the
/// replacement, plus the toggle deciding which of the two is in force.
#[derive(Debug)]
pub struct Hook {
    target: usize,
    original_entry: Vec<u8>,
    patch_entry: Vec<u8>,
    enabled: bool,
}

impl View for Hook {
    type V = HookView;

    closed spec fn view(&self) -> HookView {
        HookView {
            target: self.target,
            original: self.original_entry@,
            patch: self.patch_entry@,
            enabled: self.enabled,
        }
    }
}

impl Hook {
    pub open spec fn wf(self) -> bool {
        self@.wf()
    }

    /// Captures the original entry bytes and prepares the patch for the
    /// target, initially disabled. Fails with `InstallFailure` exactly when
    /// the patch cannot be placed: it is empty or longer than the captured
    /// entry.
    pub fn prepare(target: usize, original_entry: Vec<u8>, patch_entry: Vec<u8>) -> (r: Result<
        Hook,
        HookError,
    >)
        ensures
            r is Ok <==> 0 < patch_entry@.len() <= original_entry@.len(),
            r matches Ok(h) ==> h@ == (HookView {
                target,
                original: original_entry@,
                patch: patch_entry@,
                enabled: false,
            }),
            r matches Err(e) ==> e == HookError::InstallFailure,
    {
        if patch_entry.len() == 0 || patch_entry.len() > original_entry.len() {
            Err(HookError::InstallFailure)
        } else {
            Ok(Hook { target, original_entry, patch_entry, enabled: false })
        }
    }

    /// The address this hook patches.
    pub fn target(&self) -> (t: usize)
        ensures
            t == self@.target,
    {
        self.target
    }

    /// Whether callers of the target are currently redirected.
    pub fn is_enabled(&self) -> (b: bool)
        ensures
            b == self@.enabled,
    {
        self.enabled
    }

    /// Routes every future caller of the target into the replacement. Only
    /// the toggle changes: the saved original bytes and the patch stay as
    /// they were captured.
    pub fn enable(&mut self)
        ensures
            final(self)@ == old(self)@.with_enabled(true),
    {
        self.enabled = true;
    }

    /// Restores the original entry exactly, byte for byte: afterwards the
    /// target behaves as if it had never been hooked.
    pub fn disable(&mut self)
        ensures
            final(self)@ == old(self)@.with_enabled(false),
            final(self)@.entry() == old(self)@.original,
    {
        self.enabled = false;
    }

    /// The entry bytes the call-through capability executes: always the
    /// pristine original instructions, whatever the toggle state, so invoking
    /// the original from inside the replacement never re-enters the hook.
    pub fn trampoline_entry(&self) -> (r: Vec<u8>)
        ensures
            r@ == self@.original,
    {
        copy_bytes(&self.original_entry)
    }

    /// The entry bytes a caller of the target observes right now.
    pub fn current_entry(&self) -> (r: Vec<u8>)
        requires
            self.wf(),
        ensures
            r@ == self@.entry(),
    {
        if self.enabled {
            let mut out = copy_bytes(&self.patch_entry);
            let mut i: usize = self.patch_entry.len();
            while i < self.original_entry.len()
                invariant
                    self.patch_entry@.len() <= i <= self.original_entry@.len(),
                    out@ == self.patch_entry@ + self.original_entry@.subrange(
                        self.patch_entry@.len() as int,
                        i as int,
                    ),
                decreases self.original_entry@.len() - i,
            {
                out.push(self.original_entry[i]);
                proof {
                    assert(self.patch_entry@ + self.original_entry@.subrange(
                        self.patch_entry@.len() as int,
                        i + 1 as int,
                    ) =~= (self.patch_entry@ + self.original_entry@.subrange(
                        self.patch_entry@.len() as int,
                        i as int,
                    )).push(self.original_entry@[i as int]));
                }
                i += 1;
            }
            out
        } else {
            copy_bytes(&self.original_entry)
        }
    }
}

/// Law: toggling is idempotent. Disabling after an enable restores the
/// original entry bytes exactly, and enabling again shows the very same
/// patched entry the first enable did.
pub proof fn lemma_toggle_restores_original(v: HookView)
    requires
        v.wf(),
    ensures
        v.with_enabled(true).with_enabled(false).entry() == v.original,
        v.with_enabled(true).with_enabled(false).with_enabled(true).entry() == v.with_enabled(
            true,
        ).entry(),
{
}

/// Law: a hook's entry is never torn. Whatever the toggle state, a caller of
/// the target observes either exactly the original bytes or exactly the
/// patched bytes; the model admits no half-patched entry.
pub proof fn lemma_entry_never_torn(v: HookView)
    requires
        v.wf(),
    ensures
        v.entry() == v.original || v.entry() == v.with_enabled(true).entry(),
{
}

} // verus!
