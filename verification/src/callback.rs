//! Polling callback bridge: the single process-wide slot holding the
//! closure that the display subsystem polls through a zero-argument
//! C-ABI trampoline.
//!
//! At most one callback is installed at a time. Installing a new one
//! first destroys the one already there, so the old callback can
//! never be reached again once the new one is in place. The
//! trampoline answers "no action" while the slot is empty; there is
//! deliberately no uninstall operation, so in the intended usage the
//! slot is filled once at startup and stays filled for the life of
//! the process.

use vstd::prelude::*;
use crate::actions::VisionUiAction;

verus! {

/// The observable state of the callback slot: which callback is
/// live, and which ones have been destroyed, in order. Callbacks are
/// told apart by a caller-chosen identifier.
pub struct CallbackSlot {
    installed: Option<u64>,
    retired: Vec<u64>,
}

impl CallbackSlot {
    /// The identifier of the live callback, if one is installed.
    pub closed spec fn installed_id(&self) -> Option<u64> {
        self.installed
    }

    /// The identifiers of the callbacks destroyed so far, oldest
    /// first.
    pub closed spec fn retired_ids(&self) -> Seq<u64> {
        self.retired@
    }

    /// The empty slot, before anything is installed.
    pub fn empty() -> (s: CallbackSlot)
        ensures
            s.installed_id() is None,
            s.retired_ids() == Seq::<u64>::empty(),
    {
        let s = CallbackSlot { installed: None, retired: Vec::new() };
        proof {
            assert(s.retired_ids() =~= Seq::<u64>::empty());
        }
        s
    }

    /// Install a callback: whatever was installed before is destroyed
    /// first, then the new callback becomes the one the trampoline
    /// reaches. After every install exactly one callback is live.
    pub fn install(&mut self, id: u64)
        ensures
            final(self).installed_id() == Some(id),
            old(self).installed_id() matches Some(prev) ==> final(self).retired_ids() == old(
                self,
            ).retired_ids().push(prev),
            old(self).installed_id() is None ==> final(self).retired_ids() == old(
                self,
            ).retired_ids(),
    {
        match self.installed {
            Some(prev) => {
                self.retired.push(prev);
            },
            None => {},
        }
        self.installed = Some(id);
    }

    /// Which callback one poll of the trampoline invokes: the live
    /// one, or none while the slot is empty.
    pub fn poll_target(&self) -> (r: Option<u64>)
        ensures
            r == self.installed_id(),
    {
        self.installed
    }

    /// How many callbacks have been destroyed so far.
    pub fn retired_count(&self) -> (n: usize)
        ensures
            n == self.retired_ids().len(),
    {
        self.retired.len()
    }

    /// The identifier of the `i`-th destroyed callback, oldest first.
    pub fn retired_at(&self, i: usize) -> (id: u64)
        requires
            i < self.retired_ids().len(),
        ensures
            id == self.retired_ids()[i as int],
    {
        self.retired[i]
    }
}

/// What the trampoline answers the display subsystem for one poll:
/// "no action" while no callback is installed, otherwise the action
/// the invoked callback returned.
pub fn trampoline_answer(target: Option<u64>, invoked_result: VisionUiAction) -> (a:
    VisionUiAction)
    ensures
        target is Some ==> a == invoked_result,
        target is None ==> a == VisionUiAction::UiActionNone,
{
    match target {
        Some(_) => invoked_result,
        None => VisionUiAction::UiActionNone,
    }
}

} // verus!
