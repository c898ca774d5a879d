//! The mathematical model of the timer.
//!
//! A [`TimerState`] is what a timer stands for: its fields are unbounded
//! numbers, and instants are nanosecond counts on the time line of the
//! timer's clock. Every operation of the timer is stated here as a function
//! from state to state; the executable timer is proved to follow it.

use vstd::prelude::*;
use crate::clock::reading_limit;
use crate::command::Command;
use crate::event::PomodoroEvent;
use crate::json::{compact_object, text_member};
use crate::text::clock_face;

verus! {

/// Length of a focus session, in seconds.
pub const POMODORO_DURATION: u64 = 25 * 60;

/// Length of a short break, in seconds.
pub const SHORT_BREAK_DURATION: u64 = 5 * 60;

/// Length of a long break, in seconds.
pub const LONG_BREAK_DURATION: u64 = 30 * 60;

/// The number of focus sessions that ends with a long break.
pub const POMODOROS_PER_LONG_BREAK: u64 = 4;

/// What the timer is counting.
#[derive(Clone, Copy, Debug, PartialEq, Eq, Structural)]
pub enum Phase {
    /// A focus session.
    Focus,
    /// A short break.
    ShortBreak,
    /// A long break.
    LongBreak,
}

/// The kind of a break.
#[derive(Clone, Copy, Debug, PartialEq, Eq, Structural)]
pub enum BreakType {
    /// A short break.
    Short,
    /// A long break.
    Long,
}

/// The persisted form of a timer: every instant as whole seconds relative to
/// the moment of writing, every member optional as it is in a file.
#[derive(Clone, Copy, Debug, PartialEq, Eq, Structural)]
pub struct PersistedRecord {
    /// How many seconds ago the current run began.
    pub start_time: Option<u64>,
    /// How many seconds lie ahead until the deadline.
    pub end_time: Option<u64>,
    /// The length of the current phase, in seconds.
    pub total_time: Option<u64>,
    /// Whether the timer is counting.
    pub is_running: Option<bool>,
    /// The seconds counted before the current run.
    pub elapsed_time: Option<u64>,
    /// The focus sessions completed since the last long break.
    pub cycles_completed: Option<u64>,
}

/// The phase that a target duration stands for: the two break lengths mark
/// the breaks, every other length is a focus session.
pub open spec fn phase_of(total: nat) -> Phase {
    if total == LONG_BREAK_DURATION {
        Phase::LongBreak
    } else if total == SHORT_BREAK_DURATION {
        Phase::ShortBreak
    } else {
        Phase::Focus
    }
}

/// The whole seconds that lie between two instants, zero where the second
/// is not later than the first.
pub open spec fn whole_secs(from: int, to: int) -> nat {
    if to > from {
        ((to - from) / 1_000_000_000) as nat
    } else {
        0
    }
}

/// A count as far as 64 bits hold it.
pub open spec fn cap64(n: nat) -> nat {
    if n > u64::MAX {
        u64::MAX as nat
    } else {
        n
    }
}

/// The status line: elapsed and remaining time as `MM:SS` in a JSON object.
pub open spec fn status_line(elapsed: nat, remaining: nat) -> Seq<char> {
    compact_object(
        seq![
            text_member("elapsed_time"@, clock_face(elapsed)),
            text_member("text"@, clock_face(remaining)),
        ],
    )
}

/// The status line of a timer that was never started: an empty text.
pub open spec fn idle_line() -> Seq<char> {
    compact_object(seq![text_member("text"@, Seq::empty())])
}

/// What a timer stands for.
pub struct TimerState {
    /// When the current run began, if the timer was started in this phase.
    pub start: Option<int>,
    /// When the current phase is due.
    pub deadline: Option<int>,
    /// The length of the current phase, in seconds.
    pub total: nat,
    /// Whether the timer is counting.
    pub running: bool,
    /// The seconds counted before the current run.
    pub elapsed: nat,
    /// The focus sessions completed since the last long break.
    pub cycles: nat,
    /// The sound file that notifications play.
    pub sound: Option<Seq<char>>,
}

impl PersistedRecord {
    /// A record without any member.
    pub open spec fn blank() -> PersistedRecord {
        PersistedRecord {
            start_time: None,
            end_time: None,
            total_time: None,
            is_running: None,
            elapsed_time: None,
            cycles_completed: None,
        }
    }

    /// Whether the members fit together: a running timer has a start, and a
    /// start comes with a deadline.
    pub open spec fn coherent(self) -> bool {
        &&& self.is_running == Some(true) ==> self.start_time is Some
        &&& self.start_time is Some ==> self.end_time is Some
    }
}

impl TimerState {
    /// The invariant of a timer: a running timer has a start, a start comes
    /// with a deadline that is not before it, and every number is one that
    /// the timer can hold.
    pub open spec fn wf(self) -> bool {
        &&& self.running ==> self.start is Some
        &&& self.start is Some ==> self.deadline is Some
        &&& self.start matches Some(s) ==> -reading_limit() <= s < reading_limit()
        &&& self.deadline matches Some(d) ==> match self.start {
            Some(s) => s <= d <= s + 2 * reading_limit(),
            None => 0 <= d <= 2 * reading_limit(),
        }
        &&& self.total <= u64::MAX
        &&& self.elapsed <= u64::MAX
        &&& self.cycles <= u64::MAX
    }

    /// A timer that was never used: a focus session that is not running.
    pub open spec fn fresh(sound: Option<Seq<char>>) -> TimerState {
        TimerState {
            start: None,
            deadline: None,
            total: POMODORO_DURATION as nat,
            running: false,
            elapsed: 0,
            cycles: 0,
            sound,
        }
    }

    /// The phase that the timer is in.
    pub open spec fn phase(self) -> Phase {
        phase_of(self.total)
    }

    /// The whole seconds of the current run at `now`; zero while paused.
    pub open spec fn run_secs(self, now: int) -> nat {
        match self.start {
            Some(s) if self.running => whole_secs(s, now),
            _ => 0,
        }
    }

    /// The live elapsed time at `now`: what was counted before the current
    /// run, and the current run.
    pub open spec fn live_elapsed(self, now: int) -> nat {
        self.elapsed + self.run_secs(now)
    }

    /// The state after `start` at `now`. A running timer stays as it is. A
    /// timer that was never started in this phase is due after its whole
    /// length; one that resumes keeps the span between its start and its
    /// deadline.
    pub open spec fn started(self, now: int) -> TimerState {
        if self.running {
            self
        } else {
            TimerState {
                start: Some(now),
                deadline: Some(
                    match (self.start, self.deadline) {
                        (Some(s), Some(d)) => now + (d - s),
                        _ => now + self.total * 1_000_000_000,
                    },
                ),
                running: true,
                ..self
            }
        }
    }

    /// The state after `pause` at `now`. A paused timer stays as it is. A
    /// running one commits the seconds of its run, as far as 64 bits hold
    /// the sum.
    pub open spec fn paused(self, now: int) -> TimerState {
        if self.running {
            TimerState { elapsed: cap64(self.live_elapsed(now)), running: false, ..self }
        } else {
            self
        }
    }

    /// The state after `toggle` at `now`.
    pub open spec fn toggled(self, now: int) -> TimerState {
        if self.running {
            self.paused(now)
        } else {
            self.started(now)
        }
    }

    /// The state after a command at `now`. `Stop` pauses the timer; that it
    /// also ends the loop is the scheduler's business.
    pub open spec fn commanded(self, command: Command, now: int) -> TimerState {
        match command {
            Command::Start => self.started(now),
            Command::Pause => self.paused(now),
            Command::Toggle => self.toggled(now),
            Command::Stop => self.paused(now),
        }
    }

    /// The state after `setup_timer`: a phase of the given length that was
    /// not started yet.
    pub open spec fn reset(self, duration: nat) -> TimerState {
        TimerState {
            start: None,
            deadline: None,
            total: duration,
            running: false,
            elapsed: 0,
            ..self
        }
    }

    /// Whether a phase boundary is crossed at `now`: the live elapsed time
    /// exceeds the length of the phase.
    pub open spec fn crossed(self, now: int) -> bool {
        self.live_elapsed(now) > self.total
    }

    /// The break that follows the focus session in progress. The session
    /// counts as completed before the kind is decided: the break is long
    /// when the count, the session included, is exactly the number of
    /// sessions per long break.
    pub open spec fn next_break(self) -> BreakType {
        if self.cycles + 1 == POMODOROS_PER_LONG_BREAK {
            BreakType::Long
        } else {
            BreakType::Short
        }
    }

    /// The state after the current phase is over. A focus session is
    /// followed by a break: a long one sets the count of sessions back to
    /// zero, a short one raises it by one (as far as 64 bits hold it). A
    /// break is followed by a focus session.
    pub open spec fn advanced(self) -> TimerState {
        match self.phase() {
            Phase::Focus => match self.next_break() {
                BreakType::Long => TimerState {
                    cycles: 0,
                    ..self.reset(LONG_BREAK_DURATION as nat)
                },
                BreakType::Short => TimerState {
                    cycles: cap64(self.cycles + 1),
                    ..self.reset(SHORT_BREAK_DURATION as nat)
                },
            },
            _ => self.reset(POMODORO_DURATION as nat),
        }
    }

    /// The event that announces the phase which `advanced` enters.
    pub open spec fn announcement(self) -> PomodoroEvent {
        match self.phase() {
            Phase::Focus => match self.next_break() {
                BreakType::Long => PomodoroEvent::LongBreak,
                BreakType::Short => PomodoroEvent::ShortBreak,
            },
            _ => PomodoroEvent::Pomodoro,
        }
    }

    /// The state after a status computation at `now`: the next phase where
    /// the boundary is crossed, the same state where it is not.
    pub open spec fn after_status(self, now: int) -> TimerState {
        if self.crossed(now) {
            self.advanced()
        } else {
            self
        }
    }

    /// The notification that a status computation at `now` asks for.
    pub open spec fn status_event(self, now: int) -> Option<PomodoroEvent> {
        if self.crossed(now) {
            Some(self.announcement())
        } else {
            None
        }
    }

    /// The seconds that a status computation at `now` reports as elapsed.
    pub open spec fn shown_elapsed(self, now: int) -> nat {
        if self.crossed(now) {
            0
        } else {
            self.live_elapsed(now)
        }
    }

    /// The seconds that a status computation at `now` reports as remaining.
    pub open spec fn shown_remaining(self, now: int) -> nat {
        if self.crossed(now) {
            self.advanced().total
        } else {
            (self.total - self.live_elapsed(now)) as nat
        }
    }

    /// The status line that a status computation at `now` returns.
    pub open spec fn status_text(self, now: int) -> Seq<char> {
        status_line(self.shown_elapsed(now), self.shown_remaining(now))
    }

    /// Whether the timer was never started in its current phase.
    pub open spec fn never_started(self) -> bool {
        self.start is None
    }

    /// The record that stands for the state at `now`: instants as whole
    /// seconds from `now`, as far as 64 bits hold them.
    pub open spec fn snapshot(self, now: int) -> PersistedRecord {
        PersistedRecord {
            start_time: match self.start {
                Some(s) => Some(cap64(whole_secs(s, now)) as u64),
                None => None,
            },
            end_time: match self.deadline {
                Some(d) => Some(cap64(whole_secs(now, d)) as u64),
                None => None,
            },
            total_time: Some(self.total as u64),
            is_running: Some(self.running),
            elapsed_time: Some(self.elapsed as u64),
            cycles_completed: Some(self.cycles as u64),
        }
    }

    /// The state that a record stands for at `now`. Instants are anchored at
    /// `now`; a member that is missing has the value of a fresh timer. A
    /// record whose members do not fit together counts as malformed and
    /// gives a fresh timer.
    pub open spec fn restored(
        record: PersistedRecord,
        now: int,
        sound: Option<Seq<char>>,
    ) -> TimerState {
        if record.coherent() {
            TimerState {
                start: match record.start_time {
                    Some(ago) => Some(now - ago * 1_000_000_000),
                    None => None,
                },
                deadline: match record.end_time {
                    Some(ahead) => Some(now + ahead * 1_000_000_000),
                    None => None,
                },
                total: match record.total_time {
                    Some(total) => total as nat,
                    None => POMODORO_DURATION as nat,
                },
                running: record.is_running == Some(true),
                elapsed: match record.elapsed_time {
                    Some(elapsed) => elapsed as nat,
                    None => 0,
                },
                cycles: match record.cycles_completed {
                    Some(cycles) => cycles as nat,
                    None => 0,
                },
                sound,
            }
        } else {
            TimerState::fresh(sound)
        }
    }
}

} // verus!
