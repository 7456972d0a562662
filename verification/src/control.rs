//! The decisions of the two orchestration loops around a subscription: the
//! pull loop, which only the running flag may stop, and the shutdown
//! coordinator, which destroys the subscription only once it is the sole
//! owner. The loops themselves perform network work and sleeps, so a
//! runtime drives them; every decision they take stands here.
use vstd::prelude::*;

verus! {

/// What the pull loop does at the top of an iteration, where the running
/// flag is checked — and nowhere else, so an in-flight pull or
/// acknowledgment always completes before the flag is observed.
#[derive(Clone, Copy, PartialEq, Eq, Structural, Debug)]
pub enum LoopAction {
    Pull,
    Exit,
}

/// The pull loop's decision at the top of an iteration: pull while the
/// client runs, exit exactly when the flag is off.
pub fn pull_loop_decision(running: bool) -> (r: LoopAction)
    ensures
        r is Pull <==> running,
        r is Exit <==> !running,
{
    if running {
        LoopAction::Pull
    } else {
        LoopAction::Exit
    }
}

/// What the pull loop does with one completed pull: dispatch a received
/// batch, or log a failed pull and retry at once. Neither outcome exits
/// the loop: only the running flag can.
#[derive(Clone, Copy, PartialEq, Eq, Structural, Debug)]
pub enum AfterPull {
    DispatchAndContinue,
    RetryAfterError,
}

/// The pull loop's decision over a pull's outcome: a batch is dispatched,
/// an error is retried; the loop never exits on a failed pull.
pub fn after_pull_decision<A, B>(outcome: &Result<A, B>) -> (r: AfterPull)
    ensures
        r is DispatchAndContinue <==> outcome is Ok,
        r is RetryAfterError <==> outcome is Err,
{
    match outcome {
        Ok(_) => AfterPull::DispatchAndContinue,
        Err(_) => AfterPull::RetryAfterError,
    }
}

/// Where one pull-loop iteration stands: at the top (about to read the
/// flag), with a pull in flight, dispatching a received batch, or exited.
#[derive(Clone, Copy, PartialEq, Eq, Structural, Debug)]
pub enum LoopPhase {
    AtTop,
    InFlight,
    Dispatching,
    Exited,
}

/// What happens to the loop: the flag was read, the in-flight pull
/// finished (well or not), or the batch's dispatch and acknowledgment
/// completed.
#[derive(Clone, Copy, PartialEq, Eq, Structural, Debug)]
pub enum LoopEvent {
    FlagRead(bool),
    PullFinished(bool),
    Dispatched,
}

/// How the pull loop moves between phases: the flag is read only at the
/// top, a pull in flight always finishes (into dispatch or a logged
/// retry), and a dispatched batch returns the loop to the top. An event
/// that does not belong to the phase changes nothing.
pub open spec fn loop_next(s: LoopPhase, e: LoopEvent) -> LoopPhase {
    match (s, e) {
        (LoopPhase::AtTop, LoopEvent::FlagRead(running)) => if running {
            LoopPhase::InFlight
        } else {
            LoopPhase::Exited
        },
        (LoopPhase::InFlight, LoopEvent::PullFinished(ok)) => if ok {
            LoopPhase::Dispatching
        } else {
            LoopPhase::AtTop
        },
        (LoopPhase::Dispatching, LoopEvent::Dispatched) => LoopPhase::AtTop,
        (_, _) => s,
    }
}

/// The loop exits only at the top of an iteration, on a stopped flag:
/// never while a pull is in flight, never while a batch is dispatched, and
/// never on a pull's failure. So an iteration that has started always
/// completes its pull and acknowledgment before the flag can end the loop.
pub proof fn lemma_exit_only_at_top(s: LoopPhase, e: LoopEvent)
    requires
        s != LoopPhase::Exited,
        loop_next(s, e) == LoopPhase::Exited,
    ensures
        s == LoopPhase::AtTop,
        e == LoopEvent::FlagRead(false),
{
}

/// Takes the loop one phase further on an event.
pub fn loop_step(s: LoopPhase, e: LoopEvent) -> (r: LoopPhase)
    ensures
        r == loop_next(s, e),
{
    match (s, e) {
        (LoopPhase::AtTop, LoopEvent::FlagRead(running)) => {
            if running {
                LoopPhase::InFlight
            } else {
                LoopPhase::Exited
            }
        },
        (LoopPhase::InFlight, LoopEvent::PullFinished(ok)) => {
            if ok {
                LoopPhase::Dispatching
            } else {
                LoopPhase::AtTop
            }
        },
        (LoopPhase::Dispatching, LoopEvent::Dispatched) => LoopPhase::AtTop,
        (_, _) => s,
    }
}

/// What the shutdown coordinator does at one poll of the subscription
/// handle's owner count.
#[derive(Clone, Copy, PartialEq, Eq, Structural, Debug)]
pub enum ShutdownAction {
    Destroy,
    Wait,
    GiveUp,
}

/// The shutdown coordinator's decision, its wait bounded by a poll count:
/// destroy exactly when this coordinator is the only owner left; keep
/// waiting while other owners remain and the bound allows; once the bound
/// is spent, give up — deletion is skipped with a diagnostic rather than
/// blocking forever on a handle some task still holds.
pub fn shutdown_decision(owners: usize, polls_so_far: u64, poll_limit: u64) -> (r: ShutdownAction)
    ensures
        r is Destroy <==> owners <= 1,
        r is Wait <==> (owners > 1 && polls_so_far < poll_limit),
        r is GiveUp <==> (owners > 1 && polls_so_far >= poll_limit),
{
    if owners <= 1 {
        ShutdownAction::Destroy
    } else if polls_so_far < poll_limit {
        ShutdownAction::Wait
    } else {
        ShutdownAction::GiveUp
    }
}

} // verus!
