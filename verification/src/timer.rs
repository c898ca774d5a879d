//! The executable timer.

use vstd::prelude::*;
use vstd::string::*;
use crate::clock::{Clock, Reading, reading_limit};
use crate::command::Command;
use crate::event::PomodoroEvent;
use crate::json::{
    JsonMember, JsonScalar, compact_json, member_models, plain_members, text_member, verbatim,
};
use crate::record::{record_of_text, record_text};
use crate::state::{
    BreakType, LONG_BREAK_DURATION, POMODOROS_PER_LONG_BREAK, POMODORO_DURATION, PersistedRecord,
    Phase, SHORT_BREAK_DURATION, TimerState, cap64, idle_line, status_line, whole_secs,
};
use crate::text::{clock_face, format_clock, lemma_clock_face_chars};

verus! {

/// What a status computation hands back: the line to print, and the
/// notification to send where a phase boundary was crossed.
#[derive(Clone, Debug)]
pub struct StatusReport {
    /// The status line, a JSON object.
    pub text: String,
    /// The notification that is due, if any.
    pub notification: Option<PomodoroEvent>,
}

/// The status line for the given seconds.
pub fn status_json(elapsed: u64, remaining: u64) -> (text: String)
    ensures
        text@ == status_line(elapsed as nat, remaining as nat),
{
    let elapsed_face = format_clock(elapsed);
    let remaining_face = format_clock(remaining);
    let mut members: Vec<JsonMember> = Vec::new();
    members.push(
        JsonMember { key: String::from_str("elapsed_time"), value: JsonScalar::Text(elapsed_face) },
    );
    members.push(
        JsonMember { key: String::from_str("text"), value: JsonScalar::Text(remaining_face) },
    );
    proof {
        reveal_strlit("elapsed_time");
        reveal_strlit("text");
        lemma_clock_face_chars(elapsed as nat);
        lemma_clock_face_chars(remaining as nat);
        let models = member_models(members@);
        assert(models =~= seq![
            text_member("elapsed_time"@, clock_face(elapsed as nat)),
            text_member("text"@, clock_face(remaining as nat)),
        ]);
        assert(verbatim("elapsed_time"@));
        assert(verbatim("text"@));
        assert(plain_members(models));
    }
    compact_json(&members)
}

/// The numbers of a timer. They change together, under one invariant.
#[derive(Clone, Copy, Debug)]
struct Counters {
    start_time: Option<i128>,
    end_time: Option<i128>,
    total_time: u64,
    is_running: bool,
    elapsed_time: u64,
    cycles_completed: u64,
}

impl Counters {
    #[verifier::type_invariant]
    spec fn inv(self) -> bool {
        self.model(None).wf()
    }

    spec fn model(self, sound: Option<Seq<char>>) -> TimerState {
        TimerState {
            start: match self.start_time {
                Some(s) => Some(s as int),
                None => None,
            },
            deadline: match self.end_time {
                Some(d) => Some(d as int),
                None => None,
            },
            total: self.total_time as nat,
            running: self.is_running,
            elapsed: self.elapsed_time as nat,
            cycles: self.cycles_completed as nat,
            sound,
        }
    }
}

/// A Pomodoro timer: focus sessions and breaks in turn, started and paused
/// on command.
#[derive(Clone, Debug)]
pub struct Pomodoro {
    clock: Clock,
    counters: Counters,
    sound_path: Option<String>,
}

impl View for Pomodoro {
    type V = TimerState;

    closed spec fn view(&self) -> TimerState {
        self.counters.model(
            match self.sound_path {
                Some(path) => Some(path@),
                None => None,
            },
        )
    }
}

impl Pomodoro {
    /// A fresh timer: a focus session that was not started yet.
    pub fn new(sound_path: Option<String>) -> (timer: Pomodoro)
        ensures
            timer@ == TimerState::fresh(
                match sound_path {
                    Some(path) => Some(path@),
                    None => None,
                },
            ),
            timer@.wf(),
    {
        Pomodoro {
            clock: Clock::new(),
            counters: Counters {
                start_time: None,
                end_time: None,
                total_time: POMODORO_DURATION,
                is_running: false,
                elapsed_time: 0,
                cycles_completed: 0,
            },
            sound_path,
        }
    }

    /// What the timer's clock shows: whole seconds, and a fraction of a
    /// second in nanoseconds.
    pub fn now(&self) -> (reading: Reading)
        ensures
            reading.is_normal(),
    {
        self.clock.now()
    }

    /// Whether the timer is counting.
    pub fn is_running(&self) -> (running: bool)
        ensures
            running == self@.running,
            self@.wf(),
    {
        proof {
            use_type_invariant(&self.counters);
        }
        self.counters.is_running
    }

    /// The length of the current phase, in seconds.
    pub fn total_time(&self) -> (total: u64)
        ensures
            total == self@.total,
    {
        self.counters.total_time
    }

    /// The seconds counted before the current run.
    pub fn elapsed_time(&self) -> (elapsed: u64)
        ensures
            elapsed == self@.elapsed,
    {
        self.counters.elapsed_time
    }

    /// The focus sessions completed since the last long break.
    pub fn cycles_completed(&self) -> (cycles: u64)
        ensures
            cycles == self@.cycles,
    {
        self.counters.cycles_completed
    }

    /// The sound file that notifications play.
    pub fn sound_path(&self) -> (path: Option<&String>)
        ensures
            match path {
                Some(p) => self@.sound == Some(p@),
                None => self@.sound is None,
            },
    {
        self.sound_path.as_ref()
    }

    /// The phase that the timer is in.
    pub fn phase(&self) -> (phase: Phase)
        ensures
            phase == self@.phase(),
    {
        if self.counters.total_time == LONG_BREAK_DURATION {
            Phase::LongBreak
        } else if self.counters.total_time == SHORT_BREAK_DURATION {
            Phase::ShortBreak
        } else {
            Phase::Focus
        }
    }

    /// Whether the timer was never started in its current phase.
    pub fn never_started(&self) -> (never: bool)
        ensures
            never == self@.never_started(),
    {
        self.counters.start_time.is_none()
    }

    /// Starts the timer at `now`, or resumes it. Does nothing while the
    /// timer is running.
    pub fn start_at(&mut self, now: Reading)
        ensures
            final(self)@ == old(self)@.started(now.nanos()),
            final(self)@.wf(),
    {
        proof {
            use_type_invariant(&self.counters);
        }
        let counters = self.counters;
        if !counters.is_running {
            let now_nanos = now.as_nanos();
            let deadline = match (counters.start_time, counters.end_time) {
                (Some(start), Some(end)) => now_nanos + (end - start),
                _ => now_nanos + (counters.total_time as i128) * 1_000_000_000,
            };
            self.counters = Counters {
                start_time: Some(now_nanos),
                end_time: Some(deadline),
                is_running: true,
                ..counters
            };
        }
    }

    /// Starts the timer at the time that its clock shows, or resumes it.
    pub fn start(&mut self)
        ensures
            exists|now: Reading| final(self)@ == old(self)@.started(#[trigger] now.nanos()),
            final(self)@.wf(),
    {
        let now = self.clock.now();
        self.start_at(now);
    }

    /// Pauses the timer at `now` and commits the seconds of the run. Does
    /// nothing while the timer is paused.
    pub fn pause_at(&mut self, now: Reading)
        ensures
            final(self)@ == old(self)@.paused(now.nanos()),
            final(self)@.wf(),
    {
        proof {
            use_type_invariant(&self.counters);
        }
        let counters = self.counters;
        if counters.is_running {
            let live = self.get_elapsed_time_at(now);
            let committed: u64 = if live > u64::MAX as u128 {
                u64::MAX
            } else {
                live as u64
            };
            self.counters = Counters { elapsed_time: committed, is_running: false, ..counters };
        }
    }

    /// Pauses the timer at the time that its clock shows.
    pub fn pause(&mut self)
        ensures
            exists|now: Reading| final(self)@ == old(self)@.paused(#[trigger] now.nanos()),
            final(self)@.wf(),
    {
        let now = self.clock.now();
        self.pause_at(now);
    }

    /// Pauses a running timer, starts a paused one.
    pub fn toggle_at(&mut self, now: Reading)
        ensures
            final(self)@ == old(self)@.toggled(now.nanos()),
            final(self)@.wf(),
    {
        if self.counters.is_running {
            self.pause_at(now);
        } else {
            self.start_at(now);
        }
    }

    /// Pauses a running timer, starts a paused one, at the time that the
    /// timer's clock shows.
    pub fn toggle(&mut self)
        ensures
            exists|now: Reading| final(self)@ == old(self)@.toggled(#[trigger] now.nanos()),
            final(self)@.wf(),
    {
        let now = self.clock.now();
        self.toggle_at(now);
    }

    /// Obeys a command at `now`. `Stop` pauses the timer.
    pub fn apply_command_at(&mut self, command: Command, now: Reading)
        ensures
            final(self)@ == old(self)@.commanded(command, now.nanos()),
            final(self)@.wf(),
    {
        match command {
            Command::Start => self.start_at(now),
            Command::Pause => self.pause_at(now),
            Command::Toggle => self.toggle_at(now),
            Command::Stop => self.pause_at(now),
        }
    }

    /// Sets the timer up for a phase of `break_duration` seconds that is
    /// not started yet.
    pub fn setup_timer(&mut self, break_duration: u64)
        ensures
            final(self)@ == old(self)@.reset(break_duration as nat),
            final(self)@.wf(),
    {
        proof {
            use_type_invariant(&self.counters);
        }
        let counters = self.counters;
        self.counters = Counters {
            start_time: None,
            end_time: None,
            total_time: break_duration,
            is_running: false,
            elapsed_time: 0,
            ..counters
        };
    }

    /// The live elapsed time at `now`, in seconds.
    pub fn get_elapsed_time_at(&self, now: Reading) -> (live: u128)
        ensures
            live == self@.live_elapsed(now.nanos()),
    {
        proof {
            use_type_invariant(&self.counters);
        }
        let elapsed: u128 = self.counters.elapsed_time as u128;
        match self.counters.start_time {
            Some(start) => {
                if self.counters.is_running {
                    let now_nanos = now.as_nanos();
                    if now_nanos > start {
                        let run: u128 = ((now_nanos - start) as u128) / 1_000_000_000;
                        elapsed + run
                    } else {
                        elapsed
                    }
                } else {
                    elapsed
                }
            },
            None => elapsed,
        }
    }

    /// The live elapsed time at the time that the timer's clock shows.
    pub fn get_elapsed_time(&self) -> (live: u128)
        ensures
            exists|now: Reading| live == self@.live_elapsed(#[trigger] now.nanos()),
    {
        let now = self.clock.now();
        self.get_elapsed_time_at(now)
    }

    /// The length and the kind of the break that follows the focus session
    /// in progress.
    pub fn get_total_time_and_break_type(&self) -> (next: (u64, BreakType))
        ensures
            next.1 == self@.next_break(),
            next.0 == match self@.next_break() {
                BreakType::Long => LONG_BREAK_DURATION,
                BreakType::Short => SHORT_BREAK_DURATION,
            },
    {
        if self.counters.cycles_completed == POMODOROS_PER_LONG_BREAK - 1 {
            (LONG_BREAK_DURATION, BreakType::Long)
        } else {
            (SHORT_BREAK_DURATION, BreakType::Short)
        }
    }

    /// Ends the current phase and enters the next one. Returns the status
    /// of the new phase, with nothing elapsed, and the event that announces
    /// it.
    pub fn handle_elapsed_time_over_total_time(&mut self) -> (report: StatusReport)
        ensures
            final(self)@ == old(self)@.advanced(),
            final(self)@.wf(),
            report.text@ == status_line(0, old(self)@.advanced().total),
            report.notification == Some(old(self)@.announcement()),
    {
        proof {
            use_type_invariant(&self.counters);
        }
        let counters = self.counters;
        let event = match self.phase() {
            Phase::Focus => {
                let (duration, break_type) = self.get_total_time_and_break_type();
                match break_type {
                    BreakType::Long => {
                        self.counters = Counters { cycles_completed: 0, ..counters };
                        self.setup_timer(duration);
                        PomodoroEvent::LongBreak
                    },
                    BreakType::Short => {
                        let cycles: u64 = if counters.cycles_completed < u64::MAX {
                            counters.cycles_completed + 1
                        } else {
                            u64::MAX
                        };
                        self.counters = Counters { cycles_completed: cycles, ..counters };
                        self.setup_timer(duration);
                        PomodoroEvent::ShortBreak
                    },
                }
            },
            _ => {
                self.setup_timer(POMODORO_DURATION);
                PomodoroEvent::Pomodoro
            },
        };
        StatusReport { text: status_json(0, self.counters.total_time), notification: Some(event) }
    }

    /// The status line of a phase of `total_time` seconds of which
    /// `elapsed_time` have passed.
    pub fn handle_remaining_time(total_time: u64, elapsed_time: u64) -> (text: String)
        requires
            elapsed_time <= total_time,
        ensures
            text@ == status_line(elapsed_time as nat, (total_time - elapsed_time) as nat),
    {
        let remaining_time = total_time - elapsed_time;
        status_json(elapsed_time, remaining_time)
    }

    /// Computes the status at `now`. Where the live elapsed time exceeds the
    /// length of the phase, the timer enters the next phase, and the report
    /// shows that phase in full and carries the event that announces it.
    /// Otherwise the timer stays as it is and the report shows the elapsed
    /// and the remaining time.
    pub fn current_pomodoro_at(&mut self, now: Reading) -> (report: StatusReport)
        ensures
            final(self)@ == old(self)@.after_status(now.nanos()),
            final(self)@.wf(),
            report.text@ == old(self)@.status_text(now.nanos()),
            report.notification == old(self)@.status_event(now.nanos()),
    {
        proof {
            use_type_invariant(&self.counters);
        }
        let elapsed_time = self.get_elapsed_time_at(now);
        let total_time = self.counters.total_time;
        if elapsed_time > total_time as u128 {
            self.handle_elapsed_time_over_total_time()
        } else {
            StatusReport {
                text: Pomodoro::handle_remaining_time(total_time, elapsed_time as u64),
                notification: None,
            }
        }
    }

    /// Computes the status at the time that the timer's clock shows.
    pub fn current_pomodoro(&mut self) -> (report: StatusReport)
        ensures
            exists|now: Reading|
                {
                    &&& final(self)@ == old(self)@.after_status(#[trigger] now.nanos())
                    &&& report.text@ == old(self)@.status_text(now.nanos())
                    &&& report.notification == old(self)@.status_event(now.nanos())
                },
            final(self)@.wf(),
    {
        let now = self.clock.now();
        self.current_pomodoro_at(now)
    }

    /// Computes the status for the first print after start-up. A timer
    /// that was never started gives a line with an empty text and stays as
    /// it is; any other gives what `current_pomodoro_at` gives.
    pub fn startup_status_at(&mut self, now: Reading) -> (report: StatusReport)
        ensures
            old(self)@.never_started() ==> final(self)@ == old(self)@ && report.text@
                == idle_line() && report.notification is None,
            !old(self)@.never_started() ==> final(self)@ == old(self)@.after_status(now.nanos())
                && report.text@ == old(self)@.status_text(now.nanos()) && report.notification
                == old(self)@.status_event(now.nanos()),
            final(self)@.wf(),
    {
        proof {
            use_type_invariant(&self.counters);
        }
        if self.never_started() {
            let mut members: Vec<JsonMember> = Vec::new();
            members.push(
                JsonMember {
                    key: String::from_str("text"),
                    value: JsonScalar::Text(String::new()),
                },
            );
            proof {
                reveal_strlit("text");
                let models = member_models(members@);
                assert(models =~= seq![text_member("text"@, Seq::empty())]);
                assert(verbatim("text"@));
                assert(plain_members(models));
            }
            StatusReport { text: compact_json(&members), notification: None }
        } else {
            self.current_pomodoro_at(now)
        }
    }

    /// Computes the status for the first print after start-up, at the time
    /// that the timer's clock shows.
    pub fn startup_status(&mut self) -> (report: StatusReport)
        ensures
            old(self)@.never_started() ==> final(self)@ == old(self)@ && report.text@
                == idle_line() && report.notification is None,
            !old(self)@.never_started() ==> exists|now: Reading|
                {
                    &&& final(self)@ == old(self)@.after_status(#[trigger] now.nanos())
                    &&& report.text@ == old(self)@.status_text(now.nanos())
                    &&& report.notification == old(self)@.status_event(now.nanos())
                },
            final(self)@.wf(),
    {
        let now = self.clock.now();
        self.startup_status_at(now)
    }

    /// The record that stands for the timer at `now`.
    pub fn snapshot_at(&self, now: Reading) -> (record: PersistedRecord)
        ensures
            record == self@.snapshot(now.nanos()),
            record.coherent(),
    {
        proof {
            use_type_invariant(&self.counters);
        }
        let now_nanos = now.as_nanos();
        PersistedRecord {
            start_time: match self.counters.start_time {
                Some(start) => Some(capped_secs(start, now_nanos)),
                None => None,
            },
            end_time: match self.counters.end_time {
                Some(end) => Some(capped_secs(now_nanos, end)),
                None => None,
            },
            total_time: Some(self.counters.total_time),
            is_running: Some(self.counters.is_running),
            elapsed_time: Some(self.counters.elapsed_time),
            cycles_completed: Some(self.counters.cycles_completed),
        }
    }

    /// Replaces the state of the timer by the one that `record` stands for
    /// at `now`. The sound file stays.
    pub fn restore_at(&mut self, record: &PersistedRecord, now: Reading)
        ensures
            final(self)@ == TimerState::restored(*record, now.nanos(), old(self)@.sound),
            final(self)@.wf(),
    {
        let now_nanos = now.as_nanos();
        if record.is_coherent() {
            self.counters = Counters {
                start_time: match record.start_time {
                    Some(ago) => Some(now_nanos - (ago as i128) * 1_000_000_000),
                    None => None,
                },
                end_time: match record.end_time {
                    Some(ahead) => Some(now_nanos + (ahead as i128) * 1_000_000_000),
                    None => None,
                },
                total_time: match record.total_time {
                    Some(total) => total,
                    None => POMODORO_DURATION,
                },
                is_running: match record.is_running {
                    Some(running) => running,
                    None => false,
                },
                elapsed_time: match record.elapsed_time {
                    Some(elapsed) => elapsed,
                    None => 0,
                },
                cycles_completed: match record.cycles_completed {
                    Some(cycles) => cycles,
                    None => 0,
                },
            };
        } else {
            self.counters = Counters {
                start_time: None,
                end_time: None,
                total_time: POMODORO_DURATION,
                is_running: false,
                elapsed_time: 0,
                cycles_completed: 0,
            };
        }
    }

    /// The persisted form of the timer at `now`, as JSON text.
    pub fn save_state_at(&self, now: Reading) -> (text: String)
        ensures
            text@ == record_text(self@.snapshot(now.nanos())),
    {
        self.snapshot_at(now).to_json()
    }

    /// The persisted form of the timer at the time that its clock shows.
    pub fn save_state(&self) -> (text: String)
        ensures
            exists|now: Reading| text@ == record_text(self@.snapshot(#[trigger] now.nanos())),
    {
        let now = self.clock.now();
        self.save_state_at(now)
    }

    /// Replaces the state of the timer by the one that the JSON text
    /// `contents` holds, anchored at `now`.
    pub fn load_pomodoro_state_at(&mut self, contents: &[u8], now: Reading)
        ensures
            final(self)@ == TimerState::restored(
                record_of_text(contents@),
                now.nanos(),
                old(self)@.sound,
            ),
            final(self)@.wf(),
    {
        let record = PersistedRecord::from_json(contents);
        self.restore_at(&record, now);
    }

    /// Replaces the state of the timer by the one that the JSON text
    /// `contents` holds, anchored at the time that the timer's clock shows.
    pub fn load_pomodoro_state(&mut self, contents: &[u8])
        ensures
            exists|now: Reading|
                final(self)@ == TimerState::restored(
                    record_of_text(contents@),
                    #[trigger] now.nanos(),
                    old(self)@.sound,
                ),
            final(self)@.wf(),
    {
        let now = self.clock.now();
        self.load_pomodoro_state_at(contents, now);
    }
}

/// The whole seconds from one instant to a later one, as far as 64 bits
/// hold them.
fn capped_secs(from: i128, to: i128) -> (secs: u64)
    requires
        -4 * reading_limit() <= from <= 4 * reading_limit(),
        -4 * reading_limit() <= to <= 4 * reading_limit(),
    ensures
        secs == cap64(whole_secs(from as int, to as int)),
{
    if to > from {
        let secs: u128 = ((to - from) as u128) / 1_000_000_000;
        if secs > u64::MAX as u128 {
            u64::MAX
        } else {
            secs as u64
        }
    } else {
        0
    }
}

} // verus!
