use vstd::prelude::*;
use crate::scheduler::StepError;

verus! {

/// What the background loop does next.
pub enum LoopAction {
    /// Hand the step's error to the consumer; answer with `after_report`.
    Report(StepError),
    /// Wait for the interval, then run the next step.
    Sleep,
    /// The consumer is gone: leave the loop.
    Stop,
}

/// The terminal notice, pending from the loop's start until the graceful exit disarms it.
pub struct CrashNotifier {
    pub armed: bool,
}

impl CrashNotifier {
    pub fn new() -> (r: Self)
        ensures
            r.armed,
    {
        CrashNotifier { armed: true }
    }

    /// Disarms the notice: the graceful exit.
    pub fn disable(&mut self)
        ensures
            !final(self).armed,
    {
        self.armed = false;
    }

    /// Whether leaving now must send the terminal notice.
    pub fn fires_on_exit(&self) -> (r: bool)
        ensures
            r == self.armed,
    {
        self.armed
    }
}

/// After a step: a failure is reported, a success waits for the next tick.
pub fn after_step(result: Result<(), StepError>) -> (r: LoopAction)
    ensures
        result is Ok ==> r is Sleep,
        result matches Err(e) ==> r matches LoopAction::Report(e2) && e2 == e,
{
    match result {
        Ok(()) => LoopAction::Sleep,
        Err(e) => LoopAction::Report(e),
    }
}

/// After a report: the loop goes on while the consumer takes errors. When it is gone
/// the loop stops, and the notice is disarmed, so that this exit alone sends none.
pub fn after_report(delivered: bool, notifier: &mut CrashNotifier) -> (r: LoopAction)
    ensures
        delivered ==> r is Sleep && final(notifier).armed == old(notifier).armed,
        !delivered ==> r is Stop && !final(notifier).armed,
{
    if delivered {
        LoopAction::Sleep
    } else {
        notifier.disable();
        LoopAction::Stop
    }
}

} // verus!
