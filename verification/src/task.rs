use vstd::prelude::*;
use crate::context::Context;
use crate::runtime::Scheduler;

verus! {

/// A unit of suspended computation. Execution consumes the task: a task that
/// wants to run again on a later readiness event re-suspends by re-binding
/// itself through the context's scheduler capability before returning, and
/// never by blocking.
pub trait Task: Sized {
    /// One execution step, run by the dispatch loop when the task's source
    /// became ready. The context is valid only for the duration of this call.
    fn execute(self, context: &mut Context<Self>)
        requires
            old(context).reg().wf(),
        ensures
            final(context).reg().wf(),
    ;
}

/// The error-aware task variant: a fallible execution step paired with a
/// reporting hook. A failure is absorbed at the task boundary — reported to
/// the hook, never propagated into the dispatch loop, and the task is not
/// resumed.
pub trait TryTask: Sized {
    type Error;

    /// One fallible execution step; see `Task::execute`.
    fn try_execute(self, context: &mut Context<Self>) -> (r: Result<(), Self::Error>)
        requires
            old(context).reg().wf(),
        ensures
            final(context).reg().wf(),
    ;

    /// Invoked with the failure of `try_execute`, purely for reporting.
    fn on_error(error: Self::Error, context: &mut Context<Self>)
        requires
            old(context).reg().wf(),
        ensures
            final(context).reg().wf(),
    ;
}

impl<T: TryTask> Task for T {
    fn execute(self, context: &mut Context<Self>) {
        match self.try_execute(context) {
            Ok(()) => {},
            Err(e) => {
                Self::on_error(e, context);
            },
        }
    }
}

} // verus!
