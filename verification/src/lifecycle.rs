//! The graceful-abort protocol: the ordered steps that stop the worker's
//! run loop without racing an in-flight callback.
//!
//! The danger in stopping the loop is a callback that is still running on
//! the worker thread: stopping under it could tear the native stream down
//! while it is in use, or lose a delivery.  The protocol therefore first
//! installs a one-shot observer for the loop's before-waiting activity,
//! waits — unless the loop is already waiting — for that observer to fire,
//! and only then removes the observer, stops the loop, joins the worker
//! and cancels the consumer stream.
//!
//! The machine here decides each step; the unverified shell performs the
//! native call or blocking wait the decided action names and reports the
//! outcome back as the next event.

use vstd::prelude::*;

verus! {

/// Where the abort protocol stands.
#[derive(Clone, Copy, Debug, PartialEq, Eq, Structural)]
pub enum AbortPhase {
    /// The observer must be installed on the run loop.
    Installing,
    /// The observer is in place; the loop's state must be queried.
    Probing,
    /// The loop was busy; the one-shot signal must be awaited.
    Blocked,
    /// The loop is known idle; it is safe to remove the observer and stop.
    Quiescent,
    /// The loop is stopped; the worker thread must be joined.
    Stopped,
    /// The worker is gone; the consumer stream must be cancelled.
    Joined,
    /// Nothing is left to do.
    Finished,
}

/// What the unverified shell reports after performing an action.
#[derive(Clone, Copy, Debug, PartialEq, Eq, Structural)]
pub enum AbortEvent {
    /// The one-shot observer is installed.
    ObserverInstalled,
    /// The answer to the loop-state query.
    LoopWaiting(bool),
    /// The one-shot before-waiting signal arrived.
    SignalReceived,
    /// The loop is stopped and the observer removed.
    LoopStopped,
    /// The worker thread is joined.
    WorkerJoined,
    /// The consumer stream is cancelled.
    StreamCancelled,
}

/// What the unverified shell must do next.
#[derive(Clone, Copy, Debug, PartialEq, Eq, Structural)]
pub enum AbortAction {
    /// Install the one-shot before-waiting observer on the run loop.
    InstallObserver,
    /// Ask the run loop whether it is waiting.
    QueryWaiting,
    /// Block until the one-shot signal arrives.
    AwaitSignal,
    /// Remove the observer, then stop the run loop.
    RemoveObserverAndStop,
    /// Join the worker thread.
    JoinWorker,
    /// Cancel the consumer stream.
    CancelStream,
    /// The protocol is complete.
    Done,
}

/// The action outstanding in each phase.
pub open spec fn spec_next_action(phase: AbortPhase) -> AbortAction {
    match phase {
        AbortPhase::Installing => AbortAction::InstallObserver,
        AbortPhase::Probing => AbortAction::QueryWaiting,
        AbortPhase::Blocked => AbortAction::AwaitSignal,
        AbortPhase::Quiescent => AbortAction::RemoveObserverAndStop,
        AbortPhase::Stopped => AbortAction::JoinWorker,
        AbortPhase::Joined => AbortAction::CancelStream,
        AbortPhase::Finished => AbortAction::Done,
    }
}

/// Whether an event is the one the phase is waiting for.
pub open spec fn spec_event_matches(phase: AbortPhase, event: AbortEvent) -> bool {
    match (phase, event) {
        (AbortPhase::Installing, AbortEvent::ObserverInstalled) => true,
        (AbortPhase::Probing, AbortEvent::LoopWaiting(_)) => true,
        (AbortPhase::Blocked, AbortEvent::SignalReceived) => true,
        (AbortPhase::Quiescent, AbortEvent::LoopStopped) => true,
        (AbortPhase::Stopped, AbortEvent::WorkerJoined) => true,
        (AbortPhase::Joined, AbortEvent::StreamCancelled) => true,
        _ => false,
    }
}

/// The phase after an event: a matching event advances the protocol; any
/// other event leaves it where it stands, its action still outstanding.
pub open spec fn spec_advance(phase: AbortPhase, event: AbortEvent) -> AbortPhase {
    match (phase, event) {
        (AbortPhase::Installing, AbortEvent::ObserverInstalled) => AbortPhase::Probing,
        (AbortPhase::Probing, AbortEvent::LoopWaiting(true)) => AbortPhase::Quiescent,
        (AbortPhase::Probing, AbortEvent::LoopWaiting(false)) => AbortPhase::Blocked,
        (AbortPhase::Blocked, AbortEvent::SignalReceived) => AbortPhase::Quiescent,
        (AbortPhase::Quiescent, AbortEvent::LoopStopped) => AbortPhase::Stopped,
        (AbortPhase::Stopped, AbortEvent::WorkerJoined) => AbortPhase::Joined,
        (AbortPhase::Joined, AbortEvent::StreamCancelled) => AbortPhase::Finished,
        (p, _) => p,
    }
}

/// How many protocol steps remain at worst from a phase.
pub open spec fn spec_rank(phase: AbortPhase) -> nat {
    match phase {
        AbortPhase::Installing => 6,
        AbortPhase::Probing => 5,
        AbortPhase::Blocked => 4,
        AbortPhase::Quiescent => 3,
        AbortPhase::Stopped => 2,
        AbortPhase::Joined => 1,
        AbortPhase::Finished => 0,
    }
}

/// Feed the protocol one event; get the new phase and the action now
/// outstanding.
pub fn abort_step(phase: AbortPhase, event: AbortEvent) -> (r: (AbortPhase, AbortAction))
    ensures
        r.0 == spec_advance(phase, event),
        r.1 == spec_next_action(spec_advance(phase, event)),
{
    let next = match (phase, event) {
        (AbortPhase::Installing, AbortEvent::ObserverInstalled) => AbortPhase::Probing,
        (AbortPhase::Probing, AbortEvent::LoopWaiting(true)) => AbortPhase::Quiescent,
        (AbortPhase::Probing, AbortEvent::LoopWaiting(false)) => AbortPhase::Blocked,
        (AbortPhase::Blocked, AbortEvent::SignalReceived) => AbortPhase::Quiescent,
        (AbortPhase::Quiescent, AbortEvent::LoopStopped) => AbortPhase::Stopped,
        (AbortPhase::Stopped, AbortEvent::WorkerJoined) => AbortPhase::Joined,
        (AbortPhase::Joined, AbortEvent::StreamCancelled) => AbortPhase::Finished,
        (p, _) => p,
    };
    let action = match next {
        AbortPhase::Installing => AbortAction::InstallObserver,
        AbortPhase::Probing => AbortAction::QueryWaiting,
        AbortPhase::Blocked => AbortAction::AwaitSignal,
        AbortPhase::Quiescent => AbortAction::RemoveObserverAndStop,
        AbortPhase::Stopped => AbortAction::JoinWorker,
        AbortPhase::Joined => AbortAction::CancelStream,
        AbortPhase::Finished => AbortAction::Done,
    };
    (next, action)
}

/// The protocol never runs backwards, and every matching event brings it
/// strictly closer to completion: driven with the events its actions ask
/// for, the abort finishes within a bounded number of steps.
pub proof fn lemma_abort_protocol_progress(phase: AbortPhase, event: AbortEvent)
    ensures
        spec_rank(spec_advance(phase, event)) <= spec_rank(phase),
        spec_event_matches(phase, event) && phase != AbortPhase::Finished ==> spec_rank(
            spec_advance(phase, event),
        ) < spec_rank(phase),
{
}

/// The phase the protocol reaches from `phase` after a run of events.
pub open spec fn spec_run(phase: AbortPhase, events: Seq<AbortEvent>) -> AbortPhase
    decreases events.len(),
{
    if events.len() == 0 {
        phase
    } else {
        spec_run(spec_advance(phase, events.first()), events.drop_first())
    }
}

/// The safe-teardown guarantee: starting from the beginning of the
/// protocol, the run loop is never ordered stopped — the protocol never
/// passes the `Quiescent` phase — unless the loop was first observed idle:
/// the run holds a query answered "waiting" or a delivered before-waiting
/// signal.
pub proof fn lemma_stop_only_after_observed_idle(events: Seq<AbortEvent>)
    requires
        spec_rank(spec_run(AbortPhase::Installing, events)) <= spec_rank(AbortPhase::Quiescent),
    ensures
        exists|i: int|
            0 <= i < events.len() && (events[i] == AbortEvent::LoopWaiting(true) || events[i]
                == AbortEvent::SignalReceived),
{
    lemma_idle_witness(AbortPhase::Installing, events);
}

/// Helper for the safe-teardown guarantee, generalized over the phases the
/// protocol can start from before the loop was observed idle.
proof fn lemma_idle_witness(phase: AbortPhase, events: Seq<AbortEvent>)
    requires
        phase == AbortPhase::Installing || phase == AbortPhase::Probing || phase
            == AbortPhase::Blocked,
        spec_rank(spec_run(phase, events)) <= spec_rank(AbortPhase::Quiescent),
    ensures
        exists|i: int|
            0 <= i < events.len() && (events[i] == AbortEvent::LoopWaiting(true) || events[i]
                == AbortEvent::SignalReceived),
    decreases events.len(),
{
    if events.len() == 0 {
    } else {
        let next = spec_advance(phase, events.first());
        if next == AbortPhase::Quiescent {
            assert(events.first() == AbortEvent::LoopWaiting(true) || events.first()
                == AbortEvent::SignalReceived);
            assert(events[0] == events.first());
        } else {
            lemma_idle_witness(next, events.drop_first());
            let j = choose|j: int|
                0 <= j < events.drop_first().len() && (events.drop_first()[j]
                    == AbortEvent::LoopWaiting(true) || events.drop_first()[j]
                    == AbortEvent::SignalReceived);
            assert(events[j + 1] == events.drop_first()[j]);
        }
    }
}

} // verus!
