//! What holds of the timer, whatever the commands and whatever the times.
//!
//! Each law is stated over the model in [`crate::state`], the same functions
//! that the contracts of the timer use.

use vstd::prelude::*;
use crate::clock::{Reading, lemma_reading_bounds};
use crate::command::Command;
use crate::event::PomodoroEvent;
use crate::state::{PersistedRecord, Phase, TimerState, whole_secs};

verus! {

/// A command and the clock reading at which it arrives.
pub struct TimedCommand {
    /// The command.
    pub command: Command,
    /// When it is applied.
    pub at: Reading,
}

/// The state after a list of commands, each applied at its own time.
pub open spec fn replayed(state: TimerState, commands: Seq<TimedCommand>) -> TimerState
    decreases commands.len(),
{
    if commands.len() == 0 {
        state
    } else {
        replayed(state, commands.drop_last()).commanded(
            commands.last().command,
            commands.last().at.nanos(),
        )
    }
}

/// The time of the `k`-th observation: `from` before any command, else the
/// time of the command applied last.
pub open spec fn observed_at(commands: Seq<TimedCommand>, from: Reading, k: int) -> int {
    if k <= 0 {
        from.nanos()
    } else {
        commands[k - 1].at.nanos()
    }
}

/// The elapsed time that a status computation reports after the first `k`
/// commands, at the time of the `k`-th observation.
pub open spec fn observed(
    state: TimerState,
    commands: Seq<TimedCommand>,
    from: Reading,
    k: int,
) -> nat {
    replayed(state, commands.take(k)).shown_elapsed(observed_at(commands, from, k))
}

/// Whether the times of the observations never go back.
pub open spec fn in_order(commands: Seq<TimedCommand>, from: Reading) -> bool {
    forall|k: int|
        0 <= k < commands.len() ==> observed_at(commands, from, k) <= #[trigger] observed_at(
            commands,
            from,
            k + 1,
        )
}

/// Whether no command finds the timer past the end of its phase.
pub open spec fn within_phase(state: TimerState, commands: Seq<TimedCommand>) -> bool {
    forall|k: int|
        0 <= k < commands.len() ==> !(#[trigger] replayed(state, commands.take(k))).crossed(
            commands[k].at.nanos(),
        )
}

/// Every command keeps the invariant of the timer.
pub proof fn lemma_commanded_wf(state: TimerState, command: Command, now: Reading)
    requires
        state.wf(),
    ensures
        state.commanded(command, now.nanos()).wf(),
{
    lemma_reading_bounds(now);
}

/// Entering the next phase keeps the invariant of the timer.
pub proof fn lemma_advanced_wf(state: TimerState)
    requires
        state.wf(),
    ensures
        state.advanced().wf(),
{
}

/// A list of commands keeps the invariant of the timer.
pub proof fn lemma_replayed_wf(state: TimerState, commands: Seq<TimedCommand>)
    requires
        state.wf(),
    ensures
        replayed(state, commands).wf(),
    decreases commands.len(),
{
    if commands.len() > 0 {
        lemma_replayed_wf(state, commands.drop_last());
        lemma_commanded_wf(
            replayed(state, commands.drop_last()),
            commands.last().command,
            commands.last().at,
        );
    }
}

/// Between two commands: the live elapsed time of a timer never decreases
/// as time goes on, and stands still while the timer is paused. As long as
/// the later time is not past the end of the phase, the same holds of the
/// elapsed time that the status reports.
pub proof fn lemma_elapsed_over_time(state: TimerState, earlier: Reading, later: Reading)
    requires
        state.wf(),
        earlier.nanos() <= later.nanos(),
    ensures
        state.live_elapsed(earlier.nanos()) <= state.live_elapsed(later.nanos()),
        !state.running ==> state.live_elapsed(earlier.nanos()) == state.live_elapsed(
            later.nanos(),
        ) && state.live_elapsed(later.nanos()) == state.elapsed,
        !state.crossed(later.nanos()) ==> state.shown_elapsed(earlier.nanos())
            <= state.shown_elapsed(later.nanos()),
        !state.crossed(later.nanos()) && !state.running ==> state.shown_elapsed(earlier.nanos())
            == state.shown_elapsed(later.nanos()),
{
}

/// One command does not take elapsed time away. If the command does not
/// find the timer past the end of its phase, the timer is not past it after
/// the command either, nor was it at any time before; and what the status
/// reports right after the command is at least what it reported before.
/// Where the timer was paused before the command, the two are the same.
pub proof fn lemma_elapsed_over_command(
    state: TimerState,
    command: Command,
    earlier: Reading,
    at: Reading,
)
    requires
        state.wf(),
        earlier.nanos() <= at.nanos(),
        !state.crossed(at.nanos()),
    ensures
        !state.crossed(earlier.nanos()),
        !state.commanded(command, at.nanos()).crossed(at.nanos()),
        state.shown_elapsed(earlier.nanos()) <= state.commanded(command, at.nanos()).shown_elapsed(
            at.nanos(),
        ),
        !state.running ==> state.shown_elapsed(earlier.nanos()) == state.commanded(
            command,
            at.nanos(),
        ).shown_elapsed(at.nanos()),
{
}

/// Over any list of start, pause, toggle and stop commands whose times
/// never go back and none of which finds the timer past the end of its
/// phase, the elapsed time that the status reports never decreases from one
/// observation to a later one.
pub proof fn lemma_elapsed_never_decreases(
    state: TimerState,
    commands: Seq<TimedCommand>,
    from: Reading,
    i: int,
    j: int,
)
    requires
        state.wf(),
        in_order(commands, from),
        within_phase(state, commands),
        0 <= i <= j <= commands.len(),
    ensures
        observed(state, commands, from, i) <= observed(state, commands, from, j),
    decreases j - i,
{
    if i < j {
        lemma_elapsed_never_decreases(state, commands, from, i, j - 1);
        lemma_observed_step(state, commands, from, j - 1);
    }
}

/// Over such a list, the elapsed time that the status reports stands still
/// from one observation to the next while the timer is paused.
pub proof fn lemma_elapsed_frozen_while_paused(
    state: TimerState,
    commands: Seq<TimedCommand>,
    from: Reading,
    k: int,
)
    requires
        state.wf(),
        in_order(commands, from),
        within_phase(state, commands),
        0 <= k < commands.len(),
        !replayed(state, commands.take(k)).running,
    ensures
        observed(state, commands, from, k) == observed(state, commands, from, k + 1),
{
    lemma_observed_step(state, commands, from, k);
}

/// From one observation to the next.
proof fn lemma_observed_step(state: TimerState, commands: Seq<TimedCommand>, from: Reading, k: int)
    requires
        state.wf(),
        in_order(commands, from),
        within_phase(state, commands),
        0 <= k < commands.len(),
    ensures
        observed(state, commands, from, k) <= observed(state, commands, from, k + 1),
        !replayed(state, commands.take(k)).running ==> observed(state, commands, from, k)
            == observed(state, commands, from, k + 1),
{
    let before = replayed(state, commands.take(k));
    let step = commands[k];
    assert(commands.take(k + 1).drop_last() =~= commands.take(k));
    assert(commands.take(k + 1).last() == step);
    assert(replayed(state, commands.take(k + 1)) == before.commanded(
        step.command,
        step.at.nanos(),
    ));
    lemma_replayed_wf(state, commands.take(k));
    assert(observed_at(commands, from, k) <= observed_at(commands, from, k + 1));
    assert(!before.crossed(step.at.nanos()));
    if k == 0 {
        lemma_elapsed_over_command(before, step.command, from, step.at);
    } else {
        lemma_elapsed_over_command(before, step.command, commands[k - 1].at, step.at);
    }
}

/// Pausing and starting again changes nothing that the status shows,
/// however long the pause: right after the start the status reports the
/// elapsed time, the remaining time and the line that it reported right
/// before the pause.
pub proof fn lemma_pause_then_start(state: TimerState, paused_at: Reading, resumed_at: Reading)
    requires
        state.wf(),
        !state.crossed(paused_at.nanos()),
    ensures
        ({
            let resumed = state.paused(paused_at.nanos()).started(resumed_at.nanos());
            &&& resumed.running
            &&& resumed.total == state.total
            &&& !resumed.crossed(resumed_at.nanos())
            &&& resumed.shown_elapsed(resumed_at.nanos()) == state.shown_elapsed(
                paused_at.nanos(),
            )
            &&& resumed.shown_remaining(resumed_at.nanos()) == state.shown_remaining(
                paused_at.nanos(),
            )
            &&& resumed.status_text(resumed_at.nanos()) == state.status_text(paused_at.nanos())
        }),
{
}

/// A status computation that finds the boundary crossed enters the next
/// phase once and asks for one notification. The status computed after
/// that, at whatever time, shows nothing elapsed and the whole length of
/// the new phase, asks for no notification and leaves the timer as it is.
pub proof fn lemma_status_after_crossing(state: TimerState, now: Reading, again: Reading)
    requires
        state.wf(),
        state.crossed(now.nanos()),
    ensures
        ({
            let next = state.after_status(now.nanos());
            &&& next == state.advanced()
            &&& next == state.advanced().reset(next.total)
            &&& state.status_event(now.nanos()) == Some(state.announcement())
            &&& state.shown_elapsed(now.nanos()) == 0
            &&& state.shown_remaining(now.nanos()) == next.total
            &&& !next.crossed(again.nanos())
            &&& next.after_status(again.nanos()) == next
            &&& next.status_event(again.nanos()) is None
            &&& next.shown_elapsed(again.nanos()) == 0
            &&& next.shown_remaining(again.nanos()) == next.total
            &&& next.status_text(again.nanos()) == state.status_text(now.nanos())
        }),
{
}

/// The rule of the cycle. After a focus session comes a break: a long one,
/// with the count of sessions back at zero, when the session was the last
/// of its round, else a short one, with the count raised by one. After a
/// break comes a focus session, with the count as it was.
pub proof fn lemma_cycle_rule(state: TimerState)
    requires
        state.wf(),
    ensures
        state.phase() == Phase::Focus && state.cycles + 1 == 4 ==> state.advanced().phase()
            == Phase::LongBreak && state.advanced().cycles == 0 && state.announcement()
            == PomodoroEvent::LongBreak,
        state.phase() == Phase::Focus && state.cycles + 1 != 4 && state.cycles < u64::MAX
            ==> state.advanced().phase() == Phase::ShortBreak && state.advanced().cycles
            == state.cycles + 1 && state.announcement() == PomodoroEvent::ShortBreak,
        state.phase() != Phase::Focus ==> state.advanced().phase() == Phase::Focus
            && state.advanced().cycles == state.cycles && state.announcement()
            == PomodoroEvent::Pomodoro,
        state.advanced().cycles == 0 <==> state.advanced().phase() == Phase::LongBreak || (
        state.phase() != Phase::Focus && state.cycles == 0),
{
}

/// The phase after `n` phases have ended.
pub open spec fn after_phases(state: TimerState, n: nat) -> TimerState
    decreases n,
{
    if n == 0 {
        state
    } else {
        after_phases(state, (n - 1) as nat).advanced()
    }
}

/// From a focus session with no session counted yet, the breaks after the
/// first three sessions are short, the break after the fourth session is
/// long and sets the count back to zero, and the phase after that long
/// break is a focus session with the count still at zero.
pub proof fn lemma_long_break_after_four(state: TimerState)
    requires
        state.wf(),
        state.phase() == Phase::Focus,
        state.cycles == 0,
    ensures
        after_phases(state, 1).phase() == Phase::ShortBreak && after_phases(state, 1).cycles == 1,
        after_phases(state, 2).phase() == Phase::Focus,
        after_phases(state, 3).phase() == Phase::ShortBreak && after_phases(state, 3).cycles == 2,
        after_phases(state, 4).phase() == Phase::Focus,
        after_phases(state, 5).phase() == Phase::ShortBreak && after_phases(state, 5).cycles == 3,
        after_phases(state, 6).phase() == Phase::Focus,
        after_phases(state, 7).phase() == Phase::LongBreak && after_phases(state, 7).cycles == 0,
        after_phases(state, 8).phase() == Phase::Focus && after_phases(state, 8).cycles == 0,
{
    reveal_with_fuel(after_phases, 9);
}

/// Whether the current run of `state` at `now` is one that a record can
/// hold: its whole seconds fit 64 bits.
pub open spec fn run_fits(state: TimerState, now: int) -> bool {
    state.run_secs(now) <= u64::MAX
}

/// Writing a timer to a record and reading the record back, at whatever
/// later time, gives a timer that shows the same status as the first one
/// did when it was written: the same elapsed time, the same line, the same
/// notification, and the same state after the status computation as far as
/// the counters go.
pub proof fn lemma_round_trip(state: TimerState, saved_at: Reading, loaded_at: Reading)
    requires
        state.wf(),
        run_fits(state, saved_at.nanos()),
    ensures
        ({
            let record = state.snapshot(saved_at.nanos());
            let back = TimerState::restored(record, loaded_at.nanos(), state.sound);
            &&& record.coherent()
            &&& back.wf()
            &&& back.total == state.total
            &&& back.running == state.running
            &&& back.elapsed == state.elapsed
            &&& back.cycles == state.cycles
            &&& back.sound == state.sound
            &&& back.live_elapsed(loaded_at.nanos()) == state.live_elapsed(saved_at.nanos())
            &&& back.after_status(loaded_at.nanos()).total == state.after_status(
                saved_at.nanos(),
            ).total
            &&& back.status_text(loaded_at.nanos()) == state.status_text(saved_at.nanos())
            &&& back.status_event(loaded_at.nanos()) == state.status_event(saved_at.nanos())
        }),
{
    lemma_reading_bounds(saved_at);
    lemma_reading_bounds(loaded_at);
    let record = state.snapshot(saved_at.nanos());
    let back = TimerState::restored(record, loaded_at.nanos(), state.sound);
    match state.start {
        Some(s) => {
            let ago = whole_secs(s, saved_at.nanos());
            assert(whole_secs(loaded_at.nanos() - ago * 1_000_000_000, loaded_at.nanos()) == ago);
        },
        None => {},
    }
}

/// A record that is missing, empty or malformed stands for a fresh timer.
pub proof fn lemma_blank_record_is_fresh(now: Reading, sound: Option<Seq<char>>)
    ensures
        TimerState::restored(PersistedRecord::blank(), now.nanos(), sound) == TimerState::fresh(
            sound,
        ),
{
}

} // verus!
