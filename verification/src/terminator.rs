//! Stopping the worker: first asked to stop, then, after a deadline, killed.
//!
//! The signals, the polling and the clock are the caller's. This module
//! decides: the caller performs the action it is given and hands back what
//! happened as the next event, until the action is `Finish`.
use vstd::prelude::*;
use crate::state::AppState;

verus! {

/// Milliseconds between two polls of the worker.
pub const POLL_INTERVAL_MS: u64 = 100;

/// Milliseconds that the worker is given to stop after it was asked to.
pub const GRACE_PERIOD_MS: u64 = 5000;

/// How far the stopping has come.
#[derive(Debug, Clone, Copy, PartialEq, Eq, Structural)]
pub enum StopPhase {
    /// The worker was asked to stop and is polled.
    Polling,
    /// The kill was asked for; whether it was delivered is not yet known.
    Killing,
    /// The kill was delivered; the worker's exit is awaited.
    Reaping,
    /// Nothing is left to do.
    Done,
}

/// What the caller saw after carrying out an action.
#[derive(Debug, Clone, Copy, PartialEq, Eq, Structural)]
pub enum StopEvent {
    /// A poll found that the worker has exited.
    Exited,
    /// A poll found the worker running, this long after it was asked to stop.
    StillRunning { elapsed_ms: u64 },
    /// A poll could not tell.
    StatusUnavailable,
    /// The kill was delivered.
    KillDelivered,
    /// The kill could not be delivered.
    KillFailed,
    /// The wait for the worker's exit has returned.
    Reaped,
}

/// What the caller is to do next.
#[derive(Debug, Clone, Copy, PartialEq, Eq, Structural)]
pub enum StopAction {
    /// Ask the worker to stop, then poll it.
    SignalGraceful,
    /// Sleep for so long, then poll again.
    PollAgain { after_ms: u64 },
    /// Kill the worker.
    ForceKill,
    /// Block until the worker has exited.
    AwaitExit,
    /// The event does not belong to this phase: go on waiting for one that does.
    Ignore,
    /// Stop: the protocol is over.
    Finish,
}

/// The start of a termination: the handle that was taken, if any, and what to
/// do with it first.
pub struct Termination<P> {
    pub handle: Option<P>,
    pub phase: StopPhase,
    pub action: StopAction,
}

/// The phase and the action that follow `event` in `phase`.
pub open spec fn step(phase: StopPhase, event: StopEvent) -> (StopPhase, StopAction) {
    match phase {
        StopPhase::Polling => match event {
            StopEvent::Exited => (StopPhase::Done, StopAction::Finish),
            StopEvent::StillRunning { elapsed_ms } => if elapsed_ms >= GRACE_PERIOD_MS {
                (StopPhase::Killing, StopAction::ForceKill)
            } else {
                (StopPhase::Polling, StopAction::PollAgain { after_ms: POLL_INTERVAL_MS })
            },
            StopEvent::StatusUnavailable => (StopPhase::Killing, StopAction::ForceKill),
            _ => (StopPhase::Polling, StopAction::Ignore),
        },
        StopPhase::Killing => match event {
            StopEvent::KillDelivered => (StopPhase::Reaping, StopAction::AwaitExit),
            StopEvent::KillFailed => (StopPhase::Done, StopAction::Finish),
            _ => (StopPhase::Killing, StopAction::Ignore),
        },
        StopPhase::Reaping => match event {
            StopEvent::Reaped => (StopPhase::Done, StopAction::Finish),
            _ => (StopPhase::Reaping, StopAction::Ignore),
        },
        StopPhase::Done => (StopPhase::Done, StopAction::Finish),
    }
}

/// The phase reached from `phase` after `events`, in order.
pub open spec fn phase_after(phase: StopPhase, events: Seq<StopEvent>) -> StopPhase
    decreases events.len(),
{
    if events.len() == 0 {
        phase
    } else {
        phase_after(step(phase, events[0]).0, events.drop_first())
    }
}

/// How many kills are asked for on the way from `phase` through `events`.
pub open spec fn kills_issued(phase: StopPhase, events: Seq<StopEvent>) -> nat
    decreases events.len(),
{
    if events.len() == 0 {
        0
    } else {
        let (next, action) = step(phase, events[0]);
        let here: nat = if action == StopAction::ForceKill {
            1
        } else {
            0
        };
        here + kills_issued(next, events.drop_first())
    }
}

/// A poll that found the worker running before the deadline.
pub open spec fn is_early_poll(event: StopEvent) -> bool {
    match event {
        StopEvent::StillRunning { elapsed_ms } => elapsed_ms < GRACE_PERIOD_MS,
        _ => false,
    }
}

/// Every event is a poll that found the worker running before the deadline.
pub open spec fn all_early_polls(events: Seq<StopEvent>) -> bool {
    forall|i: int| 0 <= i < events.len() ==> is_early_poll(#[trigger] events[i])
}

/// Takes the tracked handle out of the state and starts the protocol on it.
/// With no handle tracked there is nothing to do, and the state stays as it
/// is: calling this again is harmless.
pub fn cleanup<P>(state: &mut AppState<P>) -> (start: Termination<P>)
    ensures
        start.handle == old(state).python_process,
        *final(state) == (AppState { python_process: None, ..*old(state) }),
        old(state).python_process.is_none() ==> *final(state) == *old(state),
        start.phase == (if old(state).python_process.is_some() {
            StopPhase::Polling
        } else {
            StopPhase::Done
        }),
        start.action == (if old(state).python_process.is_some() {
            StopAction::SignalGraceful
        } else {
            StopAction::Finish
        }),
{
    match state.take_process() {
        Some(handle) => Termination {
            handle: Some(handle),
            phase: StopPhase::Polling,
            action: StopAction::SignalGraceful,
        },
        None => Termination { handle: None, phase: StopPhase::Done, action: StopAction::Finish },
    }
}

/// Decides what follows `event` in `phase`.
pub fn next_stop_step(phase: StopPhase, event: StopEvent) -> (next: (StopPhase, StopAction))
    ensures
        next == step(phase, event),
{
    match phase {
        StopPhase::Polling => match event {
            StopEvent::Exited => (StopPhase::Done, StopAction::Finish),
            StopEvent::StillRunning { elapsed_ms } => {
                if elapsed_ms >= GRACE_PERIOD_MS {
                    (StopPhase::Killing, StopAction::ForceKill)
                } else {
                    (StopPhase::Polling, StopAction::PollAgain { after_ms: POLL_INTERVAL_MS })
                }
            },
            StopEvent::StatusUnavailable => (StopPhase::Killing, StopAction::ForceKill),
            _ => (StopPhase::Polling, StopAction::Ignore),
        },
        StopPhase::Killing => match event {
            StopEvent::KillDelivered => (StopPhase::Reaping, StopAction::AwaitExit),
            StopEvent::KillFailed => (StopPhase::Done, StopAction::Finish),
            _ => (StopPhase::Killing, StopAction::Ignore),
        },
        StopPhase::Reaping => match event {
            StopEvent::Reaped => (StopPhase::Done, StopAction::Finish),
            _ => (StopPhase::Reaping, StopAction::Ignore),
        },
        StopPhase::Done => (StopPhase::Done, StopAction::Finish),
    }
}

/// Once the kill was asked for, it is never asked for again.
pub proof fn no_kill_after_polling(phase: StopPhase, events: Seq<StopEvent>)
    requires
        phase != StopPhase::Polling,
    ensures
        kills_issued(phase, events) == 0,
    decreases events.len(),
{
    if events.len() > 0 {
        no_kill_after_polling(step(phase, events[0]).0, events.drop_first());
    }
}

/// Whatever happens, a termination asks for at most one kill.
pub proof fn at_most_one_kill(events: Seq<StopEvent>)
    ensures
        kills_issued(StopPhase::Polling, events) <= 1,
    decreases events.len(),
{
    if events.len() > 0 {
        let next = step(StopPhase::Polling, events[0]).0;
        if next == StopPhase::Polling {
            at_most_one_kill(events.drop_first());
        } else {
            no_kill_after_polling(next, events.drop_first());
        }
    }
}

/// Polls that find the worker running before the deadline change nothing:
/// what follows them goes as if they had not been.
pub proof fn early_polls_keep_polling(waiting: Seq<StopEvent>, rest: Seq<StopEvent>)
    requires
        all_early_polls(waiting),
    ensures
        phase_after(StopPhase::Polling, waiting + rest) == phase_after(StopPhase::Polling, rest),
        kills_issued(StopPhase::Polling, waiting + rest) == kills_issued(
            StopPhase::Polling,
            rest,
        ),
    decreases waiting.len(),
{
    if waiting.len() == 0 {
        assert(waiting + rest =~= rest);
    } else {
        let all = waiting + rest;
        assert(all[0] == waiting[0]);
        assert(is_early_poll(waiting[0]));
        assert(all.drop_first() =~= waiting.drop_first() + rest);
        assert forall|i: int| 0 <= i < waiting.drop_first().len() implies is_early_poll(
            #[trigger] waiting.drop_first()[i],
        ) by {
            assert(waiting.drop_first()[i] == waiting[i + 1]);
        }
        early_polls_keep_polling(waiting.drop_first(), rest);
    }
}

/// A worker that exits before the deadline is never killed: after any
/// number of polls that found it running in time, the poll that finds it
/// gone ends the protocol.
pub proof fn exit_in_time_never_kills(waiting: Seq<StopEvent>)
    requires
        all_early_polls(waiting),
    ensures
        kills_issued(StopPhase::Polling, waiting + seq![StopEvent::Exited]) == 0,
        phase_after(StopPhase::Polling, waiting + seq![StopEvent::Exited]) == StopPhase::Done,
{
    let rest = seq![StopEvent::Exited];
    early_polls_keep_polling(waiting, rest);
    reveal_with_fuel(phase_after, 3);
    reveal_with_fuel(kills_issued, 3);
    assert(rest.drop_first().len() == 0);
}

/// A worker that is still running at the deadline is killed exactly once,
/// and the protocol ends only when its exit was seen: it is in `Reaping`
/// until then.
pub proof fn deadline_kills_once_and_waits(waiting: Seq<StopEvent>, elapsed_ms: u64)
    requires
        all_early_polls(waiting),
        elapsed_ms >= GRACE_PERIOD_MS,
    ensures
        kills_issued(
            StopPhase::Polling,
            waiting + seq![
                StopEvent::StillRunning { elapsed_ms },
                StopEvent::KillDelivered,
                StopEvent::Reaped,
            ],
        ) == 1,
        phase_after(
            StopPhase::Polling,
            waiting + seq![StopEvent::StillRunning { elapsed_ms }, StopEvent::KillDelivered],
        ) == StopPhase::Reaping,
        phase_after(
            StopPhase::Polling,
            waiting + seq![
                StopEvent::StillRunning { elapsed_ms },
                StopEvent::KillDelivered,
                StopEvent::Reaped,
            ],
        ) == StopPhase::Done,
{
    let late = StopEvent::StillRunning { elapsed_ms };
    let two = seq![late, StopEvent::KillDelivered];
    let three = seq![late, StopEvent::KillDelivered, StopEvent::Reaped];
    early_polls_keep_polling(waiting, two);
    early_polls_keep_polling(waiting, three);
    let two_1 = two.drop_first();
    let three_1 = three.drop_first();
    let three_2 = three_1.drop_first();
    assert(two_1.drop_first().len() == 0);
    assert(three_2.drop_first().len() == 0);
    assert(phase_after(StopPhase::Reaping, two_1.drop_first()) == StopPhase::Reaping);
    assert(phase_after(StopPhase::Killing, two_1) == StopPhase::Reaping);
    assert(phase_after(StopPhase::Polling, two) == StopPhase::Reaping);
    assert(phase_after(StopPhase::Done, three_2.drop_first()) == StopPhase::Done);
    assert(phase_after(StopPhase::Reaping, three_2) == StopPhase::Done);
    assert(phase_after(StopPhase::Killing, three_1) == StopPhase::Done);
    assert(phase_after(StopPhase::Polling, three) == StopPhase::Done);
    no_kill_after_polling(StopPhase::Killing, three_1);
    assert(kills_issued(StopPhase::Polling, three) == 1);
}

} // verus!
