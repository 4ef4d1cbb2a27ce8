use vstd::prelude::*;
use crate::id::ID;
use crate::runtime::{RegistryModel, Runtime, Scheduler, AsyncCreateContext, AsyncNotifier};

verus! {

/// A short-lived execution scope handed to one task for the duration of one
/// dispatch: it carries the readiness bitmask of the triggering event and
/// holds the registry for the task to act on through the scheduler
/// capability, so that a task can register or remove tasks — itself included
/// — while it runs.
pub struct Context<T> {
    runtime: Runtime<T>,
    event: u32,
}

impl<T> Context<T> {
    /// The readiness bitmask of the event that triggered this dispatch.
    pub closed spec fn spec_event(self) -> u32 {
        self.event
    }

    pub(crate) fn new(runtime: Runtime<T>, event: u32) -> (r: Context<T>)
        ensures
            r.reg() == runtime.reg(),
            r.armed() == runtime.armed(),
            r.spec_event() == event,
    {
        Context { runtime, event }
    }

    pub(crate) fn into_runtime(self) -> (r: Runtime<T>)
        ensures
            r.reg() == self.reg(),
            r.armed() == self.armed(),
    {
        self.runtime
    }

    /// The readiness bitmask of the event that triggered this dispatch.
    pub fn event(&self) -> (r: u32)
        ensures
            r == self.spec_event(),
    {
        self.event
    }

    /// Starts binding a readiness source to a task: builds the binder for the
    /// descriptor `as_raw_fd` hands out, as `for_descriptor` would, and `with`
    /// completes the binding against a scheduler capability. `AsyncNotifier`
    /// is an uncontracted user trait, so only `for_descriptor` can tie the
    /// binder's descriptor to its argument in the contract.
    pub fn register_async<N: AsyncNotifier>(&self, source: &N) -> (r: AsyncCreateContext) {
        AsyncCreateContext::for_descriptor(source.as_raw_fd())
    }
}

impl<T> Scheduler<T> for Context<T> {
    closed spec fn reg(&self) -> RegistryModel<T> {
        self.runtime.reg()
    }

    closed spec fn armed(&self) -> Seq<Option<i32>> {
        self.runtime.armed()
    }

    fn register(&mut self, task: T) -> (id: ID) {
        self.runtime.register(task)
    }

    fn remove(&mut self, id: ID) {
        self.runtime.remove(id)
    }

    fn sys_register(&mut self, id: ID, fd: i32) -> (r: Result<(), std::io::Error>) {
        self.runtime.sys_register(id, fd)
    }

    fn free_len(&self) -> (n: usize) {
        self.runtime.free_len()
    }

    fn table_len(&self) -> (n: usize) {
        self.runtime.table_len()
    }

    fn rollback_register(&mut self, id: ID, appended: bool) {
        self.runtime.rollback_register(id, appended)
    }
}

} // verus!
