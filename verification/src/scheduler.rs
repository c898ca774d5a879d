//! One tick of the scheduler loop.
//!
//! The loop itself sleeps, prints and writes files, so it lives with the
//! caller. What a tick decides is here: which command is applied, what the
//! timer becomes, and what the caller has to do next.

use vstd::prelude::*;
use crate::clock::Reading;
use crate::command::{Command, CommandQueue};
use crate::record::record_text;
use crate::state::TimerState;
use crate::timer::{Pomodoro, StatusReport};

verus! {

/// What the caller does after a tick.
#[derive(Clone, Debug)]
pub enum TickOutcome {
    /// Print the status line, send the notification if there is one, and
    /// sleep until the next tick.
    Publish(StatusReport),
    /// Write the text as the persisted state and end the loop.
    Shutdown(String),
}

/// The command that a tick takes from the queue.
pub open spec fn drained(queue: Seq<Command>) -> Option<Command> {
    if queue.len() > 0 {
        Some(queue[0])
    } else {
        None
    }
}

/// The queue after a tick.
pub open spec fn undrained(queue: Seq<Command>) -> Seq<Command> {
    if queue.len() > 0 {
        queue.drop_first()
    } else {
        queue
    }
}

/// The state after the command of a tick is applied, before the status is
/// computed. Without a command the state is the same.
pub open spec fn obeyed(state: TimerState, command: Option<Command>, now: int) -> TimerState {
    match command {
        Some(c) => state.commanded(c, now),
        None => state,
    }
}

/// The state after a whole tick: the command comes first, the status
/// computation second. `Stop` ends the loop before any status is computed.
pub open spec fn ticked(state: TimerState, command: Option<Command>, now: int) -> TimerState {
    match command {
        Some(Command::Stop) => state.paused(now),
        _ => obeyed(state, command, now).after_status(now),
    }
}

/// Whether `outcome` is what a tick with `command` at `now` hands back for
/// a timer in `state`.
pub open spec fn tick_outcome_of(
    outcome: TickOutcome,
    state: TimerState,
    command: Option<Command>,
    now: int,
) -> bool {
    match command {
        Some(Command::Stop) => outcome matches TickOutcome::Shutdown(text) && text@ == record_text(
            state.paused(now).snapshot(now),
        ),
        _ => outcome matches TickOutcome::Publish(report) && report.text@ == obeyed(
            state,
            command,
            now,
        ).status_text(now) && report.notification == obeyed(state, command, now).status_event(now),
    }
}

/// One tick at `now`: takes the oldest command from the queue, if there is
/// one, and applies it; then computes the status. `Stop` pauses the timer
/// and hands back the persisted state instead of a status.
pub fn tick_at(timer: &mut Pomodoro, queue: &mut CommandQueue, now: Reading) -> (outcome:
    TickOutcome)
    ensures
        final(queue)@ == undrained(old(queue)@),
        final(timer)@ == ticked(old(timer)@, drained(old(queue)@), now.nanos()),
        final(timer)@.wf(),
        tick_outcome_of(outcome, old(timer)@, drained(old(queue)@), now.nanos()),
{
    match queue.pop() {
        Some(Command::Stop) => {
            timer.apply_command_at(Command::Stop, now);
            TickOutcome::Shutdown(timer.save_state_at(now))
        },
        Some(command) => {
            timer.apply_command_at(command, now);
            TickOutcome::Publish(timer.current_pomodoro_at(now))
        },
        None => TickOutcome::Publish(timer.current_pomodoro_at(now)),
    }
}

/// One tick at the time that the timer's clock shows.
pub fn tick(timer: &mut Pomodoro, queue: &mut CommandQueue) -> (outcome: TickOutcome)
    ensures
        final(queue)@ == undrained(old(queue)@),
        exists|now: Reading|
            {
                &&& final(timer)@ == ticked(
                    old(timer)@,
                    drained(old(queue)@),
                    #[trigger] now.nanos(),
                )
                &&& tick_outcome_of(outcome, old(timer)@, drained(old(queue)@), now.nanos())
            },
        final(timer)@.wf(),
{
    let now = timer.now();
    tick_at(timer, queue, now)
}

} // verus!
