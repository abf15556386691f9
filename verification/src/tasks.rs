//! One-shot task bridge: the lifecycle discipline of a closure handed
//! to the external scheduler.
//!
//! A spawn boxes the caller's closure and asks the scheduler to
//! create a task bound to a fixed trampoline entry point, with the
//! box as the task's opaque parameter. The scheduler answers with a
//! result code: `1` means the task was created and now owns the box;
//! anything else means creation failed, in which case the box is
//! reclaimed and freed before the spawn returns and the caller gets a
//! handle that stands for "no task". The trampoline, run once by the
//! scheduler on the new task, reclaims the box, invokes the closure
//! exactly once, frees it, and asks the scheduler to end the task.
//! Dropping a live handle forcibly terminates the task; dropping a
//! "no task" handle does nothing.

use vstd::prelude::*;

verus! {

/// The observable lifecycle of one spawned task: who holds the
/// closure box, how often the closure has run, whether the handle is
/// live, and how many termination requests the handle has issued.
pub struct TaskLifecycle {
    closure_pending: bool,
    closure_freed: bool,
    invoked: u64,
    handle_live: bool,
    terminations: u64,
    exit_requested: bool,
}

impl TaskLifecycle {
    /// The scheduler still holds the closure box, not yet invoked.
    pub closed spec fn closure_pending(&self) -> bool {
        self.closure_pending
    }

    /// The closure box has been freed, either on spawn failure or
    /// after its one invocation.
    pub closed spec fn closure_freed(&self) -> bool {
        self.closure_freed
    }

    /// How often the closure has been invoked.
    pub closed spec fn invoke_count(&self) -> u64 {
        self.invoked
    }

    /// The handle still refers to a task it may terminate.
    pub closed spec fn handle_live(&self) -> bool {
        self.handle_live
    }

    /// How many termination requests the handle has issued.
    pub closed spec fn termination_count(&self) -> u64 {
        self.terminations
    }

    /// The trampoline has asked the scheduler to end its own task.
    pub closed spec fn exit_requested(&self) -> bool {
        self.exit_requested
    }

    /// The lifecycle invariant: the closure runs at most once and is
    /// freed once it has run or once creation failed; a live handle
    /// has issued no termination request yet, and never issues more
    /// than one.
    pub open spec fn wf(&self) -> bool {
        &&& self.invoke_count() <= 1
        &&& self.termination_count() <= 1
        &&& (self.closure_pending() ==> self.invoke_count() == 0)
        &&& (self.closure_pending() ==> !self.closure_freed())
        &&& (self.invoke_count() == 1 ==> self.closure_freed())
        &&& (self.handle_live() ==> self.termination_count() == 0)
    }

    /// Record the outcome of one spawn, given the scheduler's task
    /// creation result code. On success (`1`) the scheduler owns the
    /// closure box and the handle is live; on any other code the box
    /// has already been freed, the closure never ran, and the handle
    /// stands for "no task".
    pub fn spawn(create_result: i32) -> (t: TaskLifecycle)
        ensures
            t.wf(),
            t.invoke_count() == 0,
            t.termination_count() == 0,
            !t.exit_requested(),
            t.handle_live() == (create_result == 1),
            t.closure_pending() == (create_result == 1),
            t.closure_freed() == (create_result != 1),
    {
        let ok = create_result == 1;
        TaskLifecycle {
            closure_pending: ok,
            closure_freed: !ok,
            invoked: 0,
            handle_live: ok,
            terminations: 0,
            exit_requested: false,
        }
    }

    /// The trampoline's one run: reclaim the closure box, invoke the
    /// closure, free the box, and ask the scheduler to end the task.
    /// It is only ever reached while the scheduler holds the box, and
    /// leaves the closure invoked exactly once.
    pub fn run_trampoline(&mut self)
        requires
            old(self).wf(),
            old(self).closure_pending(),
        ensures
            final(self).wf(),
            final(self).invoke_count() == 1,
            !final(self).closure_pending(),
            final(self).closure_freed(),
            final(self).exit_requested(),
            final(self).handle_live() == old(self).handle_live(),
            final(self).termination_count() == old(self).termination_count(),
    {
        self.closure_pending = false;
        self.invoked = self.invoked + 1;
        self.closure_freed = true;
        self.exit_requested = true;
    }

    /// Drop the handle: a live handle issues exactly one termination
    /// request and goes dead; a "no task" handle does nothing.
    pub fn drop_handle(&mut self)
        requires
            old(self).wf(),
        ensures
            final(self).wf(),
            !final(self).handle_live(),
            old(self).handle_live() ==> final(self).termination_count() == old(
                self,
            ).termination_count() + 1,
            !old(self).handle_live() ==> *final(self) == *old(self),
            final(self).invoke_count() == old(self).invoke_count(),
            final(self).closure_pending() == old(self).closure_pending(),
            final(self).closure_freed() == old(self).closure_freed(),
            final(self).exit_requested() == old(self).exit_requested(),
    {
        if self.handle_live {
            self.terminations = self.terminations + 1;
            self.handle_live = false;
        }
    }

    /// Whether the handle is live; a "no task" handle is not.
    pub fn is_live(&self) -> (b: bool)
        ensures
            b == self.handle_live(),
    {
        self.handle_live
    }

    /// How often the closure has been invoked.
    pub fn invocations(&self) -> (n: u64)
        ensures
            n == self.invoke_count(),
    {
        self.invoked
    }

    /// How many termination requests the handle has issued.
    pub fn termination_requests(&self) -> (n: u64)
        ensures
            n == self.termination_count(),
    {
        self.terminations
    }

    /// Whether the scheduler still holds the unfired closure box.
    pub fn pending(&self) -> (b: bool)
        ensures
            b == self.closure_pending(),
    {
        self.closure_pending
    }

    /// Whether the closure box has been freed.
    pub fn freed(&self) -> (b: bool)
        ensures
            b == self.closure_freed(),
    {
        self.closure_freed
    }

    /// Whether the trampoline has asked to end its own task.
    pub fn exit_was_requested(&self) -> (b: bool)
        ensures
            b == self.exit_requested(),
    {
        self.exit_requested
    }
}

/// A one-shot closure is never invoked more than once, whatever
/// sequence of bridge operations produced the state.
pub proof fn lemma_closure_runs_at_most_once(t: &TaskLifecycle)
    requires
        t.wf(),
    ensures
        t.invoke_count() <= 1,
{
}

/// Termination of the underlying task is never requested by the
/// handle more than once, whatever sequence of bridge operations
/// produced the state.
pub proof fn lemma_termination_requested_at_most_once(t: &TaskLifecycle)
    requires
        t.wf(),
    ensures
        t.termination_count() <= 1,
{
}

} // verus!
