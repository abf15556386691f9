//! Critical-section provider: the pairing discipline of the single
//! global mutual-exclusion primitive.
//!
//! Acquire disables preemption on the current core, release restores
//! it; the host primitive nests, so preemption stays disabled until
//! every acquire has been matched by its release. The discipline this
//! module pins down is the pairing itself: a release is only ever
//! issued inside a section some acquire opened, and each release
//! closes exactly one level, so balanced use always ends with
//! preemption enabled again. Sections must stay short and
//! non-blocking, since they suspend scheduling entirely.

use vstd::prelude::*;

verus! {

/// The nesting state of the global critical section on this core.
pub struct CriticalSection {
    depth: u64,
}

impl CriticalSection {
    /// How many acquires are currently unmatched by a release.
    pub closed spec fn nesting(&self) -> u64 {
        self.depth
    }

    /// Preemption is disabled while at least one acquire is open.
    pub open spec fn active(&self) -> bool {
        self.nesting() > 0
    }

    /// The state at process start: no section open, preemption
    /// enabled.
    pub fn new() -> (s: CriticalSection)
        ensures
            s.nesting() == 0,
            !s.active(),
    {
        CriticalSection { depth: 0 }
    }

    /// Enter the critical section: disable preemption, one level
    /// deeper.
    pub fn acquire(&mut self)
        requires
            old(self).nesting() < u64::MAX,
        ensures
            final(self).nesting() == old(self).nesting() + 1,
            final(self).active(),
    {
        self.depth = self.depth + 1;
    }

    /// Leave the critical section: one level up; only legal inside a
    /// section, so acquire and release always pair. Preemption is
    /// enabled again exactly when the outermost acquire is matched.
    pub fn release(&mut self)
        requires
            old(self).active(),
        ensures
            final(self).nesting() == old(self).nesting() - 1,
            final(self).active() == (old(self).nesting() > 1),
    {
        self.depth = self.depth - 1;
    }

    /// The current nesting depth.
    pub fn depth_now(&self) -> (n: u64)
        ensures
            n == self.nesting(),
    {
        self.depth
    }
}

} // verus!
