use pomodoro::clock::Reading;
use pomodoro::event::PomodoroEvent;
use pomodoro::state::{
    BreakType, PersistedRecord, Phase, LONG_BREAK_DURATION, POMODOROS_PER_LONG_BREAK,
    POMODORO_DURATION, SHORT_BREAK_DURATION,
};
use pomodoro::timer::{status_json, Pomodoro};

fn at(secs: u64) -> Reading {
    Reading::from_secs(secs)
}

fn at_nanos(secs: u64, nanos: u32) -> Reading {
    Reading::new(secs, nanos)
}

/// A paused timer with the given counters, made by restoring a record.
fn timer_with(total: u64, elapsed: u64, cycles: u64) -> Pomodoro {
    let mut timer = Pomodoro::new(None);
    let record = PersistedRecord {
        start_time: None,
        end_time: None,
        total_time: Some(total),
        is_running: Some(false),
        elapsed_time: Some(elapsed),
        cycles_completed: Some(cycles),
    };
    timer.restore_at(&record, at(0));
    timer
}

#[test]
fn constants_have_their_values() {
    assert_eq!(POMODORO_DURATION, 1500);
    assert_eq!(SHORT_BREAK_DURATION, 300);
    assert_eq!(LONG_BREAK_DURATION, 1800);
    assert_eq!(POMODOROS_PER_LONG_BREAK, 4);
}

#[test]
fn new_timer_is_a_fresh_focus_session() {
    let timer = Pomodoro::new(Some(String::from("bell.wav")));
    assert!(!timer.is_running());
    assert!(timer.never_started());
    assert_eq!(timer.total_time(), 1500);
    assert_eq!(timer.elapsed_time(), 0);
    assert_eq!(timer.cycles_completed(), 0);
    assert_eq!(timer.phase(), Phase::Focus);
    assert_eq!(timer.sound_path(), Some(&String::from("bell.wav")));
    assert_eq!(Pomodoro::new(None).sound_path(), None);
}

#[test]
fn status_right_after_start_shows_the_whole_session() {
    let mut timer = Pomodoro::new(None);
    timer.start_at(at(10));
    let report = timer.current_pomodoro_at(at(10));
    assert_eq!(report.text, "{\"elapsed_time\":\"00:00\",\"text\":\"25:00\"}");
    assert_eq!(report.notification, None);
    assert!(timer.is_running());
}

#[test]
fn status_after_1501_seconds_enters_the_short_break() {
    let mut timer = Pomodoro::new(None);
    timer.start_at(at(10));
    let report = timer.current_pomodoro_at(at(1511));
    assert_eq!(report.text, "{\"elapsed_time\":\"00:00\",\"text\":\"05:00\"}");
    assert_eq!(report.notification, Some(PomodoroEvent::ShortBreak));
    assert_eq!(timer.phase(), Phase::ShortBreak);
    assert_eq!(timer.total_time(), 300);
    assert_eq!(timer.elapsed_time(), 0);
    assert_eq!(timer.cycles_completed(), 1);
    assert!(!timer.is_running());
    assert!(timer.never_started());
}

#[test]
fn status_at_exactly_the_length_is_no_crossing() {
    let mut timer = Pomodoro::new(None);
    timer.start_at(at(0));
    let report = timer.current_pomodoro_at(at(1500));
    assert_eq!(report.text, "{\"elapsed_time\":\"25:00\",\"text\":\"00:00\"}");
    assert_eq!(report.notification, None);
    assert_eq!(timer.phase(), Phase::Focus);
    assert!(timer.is_running());
}

#[test]
fn status_with_the_real_clock_right_after_start() {
    let mut timer = Pomodoro::new(None);
    timer.start();
    let report = timer.current_pomodoro();
    assert_eq!(report.text, "{\"elapsed_time\":\"00:00\",\"text\":\"25:00\"}");
    assert_eq!(report.notification, None);
    assert_eq!(timer.get_elapsed_time(), 0);
    timer.pause();
    assert!(!timer.is_running());
    timer.toggle();
    assert!(timer.is_running());
}

#[test]
fn status_counts_whole_seconds_of_the_run() {
    let mut timer = Pomodoro::new(None);
    timer.start_at(at_nanos(5, 900_000_000));
    assert_eq!(timer.get_elapsed_time_at(at_nanos(6, 899_999_999)), 0);
    assert_eq!(timer.get_elapsed_time_at(at_nanos(6, 900_000_000)), 1);
    assert_eq!(timer.get_elapsed_time_at(at(66)), 60);
    let report = timer.current_pomodoro_at(at_nanos(71, 0));
    assert_eq!(report.text, "{\"elapsed_time\":\"01:05\",\"text\":\"23:55\"}");
}

#[test]
fn elapsed_time_never_decreases_while_running() {
    let mut timer = Pomodoro::new(None);
    timer.start_at(at(100));
    let mut last = 0;
    for secs in [100, 100, 101, 150, 150, 900, 1600] {
        let live = timer.get_elapsed_time_at(at(secs));
        assert!(live >= last);
        last = live;
    }
    assert_eq!(last, 1500);
}

#[test]
fn elapsed_time_stands_still_while_paused() {
    let mut timer = Pomodoro::new(None);
    timer.start_at(at(100));
    timer.pause_at(at(160));
    assert_eq!(timer.elapsed_time(), 60);
    assert_eq!(timer.get_elapsed_time_at(at(160)), 60);
    assert_eq!(timer.get_elapsed_time_at(at(5000)), 60);
    let report = timer.current_pomodoro_at(at(9000));
    assert_eq!(report.text, "{\"elapsed_time\":\"01:00\",\"text\":\"24:00\"}");
}

#[test]
fn elapsed_time_before_the_start_is_zero() {
    let mut timer = Pomodoro::new(None);
    timer.start_at(at(100));
    assert_eq!(timer.get_elapsed_time_at(at(50)), 0);
    timer.pause_at(at(50));
    assert_eq!(timer.elapsed_time(), 0);
}

#[test]
fn start_does_nothing_while_running() {
    let mut timer = Pomodoro::new(None);
    timer.start_at(at(100));
    timer.start_at(at(200));
    assert_eq!(timer.get_elapsed_time_at(at(300)), 200);
    assert_eq!(timer.snapshot_at(at(300)).end_time, Some(1300));
}

#[test]
fn pause_does_nothing_while_paused() {
    let mut timer = Pomodoro::new(None);
    timer.pause_at(at(100));
    assert!(!timer.is_running());
    assert!(timer.never_started());
    assert_eq!(timer.elapsed_time(), 0);
    timer.start_at(at(100));
    timer.pause_at(at(130));
    timer.pause_at(at(190));
    assert_eq!(timer.elapsed_time(), 30);
}

#[test]
fn pause_then_start_keeps_the_display() {
    let mut timer = Pomodoro::new(None);
    timer.start_at(at(0));
    let before = timer.current_pomodoro_at(at_nanos(432, 700_000_000));
    timer.pause_at(at_nanos(432, 700_000_000));
    timer.start_at(at_nanos(432, 700_000_000));
    let after = timer.current_pomodoro_at(at_nanos(432, 700_000_000));
    assert_eq!(before.text, "{\"elapsed_time\":\"07:12\",\"text\":\"17:48\"}");
    assert_eq!(after.text, before.text);
    assert!(timer.is_running());
}

#[test]
fn resume_keeps_the_span_between_start_and_deadline() {
    let mut timer = Pomodoro::new(None);
    timer.start_at(at(0));
    assert_eq!(timer.snapshot_at(at(0)).end_time, Some(1500));
    timer.pause_at(at(600));
    timer.start_at(at(1000));
    let record = timer.snapshot_at(at(1000));
    assert_eq!(record.start_time, Some(0));
    assert_eq!(record.end_time, Some(1500));
    assert_eq!(timer.get_elapsed_time_at(at(1100)), 700);
}

#[test]
fn toggle_starts_and_pauses_in_turn() {
    let mut timer = Pomodoro::new(None);
    timer.toggle_at(at(0));
    assert!(timer.is_running());
    timer.toggle_at(at(90));
    assert!(!timer.is_running());
    assert_eq!(timer.elapsed_time(), 90);
    timer.toggle_at(at(200));
    assert!(timer.is_running());
    assert_eq!(timer.get_elapsed_time_at(at(210)), 100);
}

#[test]
fn setup_timer_resets_for_a_new_phase() {
    let mut timer = Pomodoro::new(None);
    timer.start_at(at(0));
    timer.pause_at(at(40));
    timer.start_at(at(50));
    timer.setup_timer(600);
    assert_eq!(timer.total_time(), 600);
    assert_eq!(timer.elapsed_time(), 0);
    assert!(!timer.is_running());
    assert!(timer.never_started());
    assert_eq!(timer.phase(), Phase::Focus);
    let record = timer.snapshot_at(at(60));
    assert_eq!(record.start_time, None);
    assert_eq!(record.end_time, None);
    timer.setup_timer(1800);
    assert_eq!(timer.phase(), Phase::LongBreak);
    timer.setup_timer(300);
    assert_eq!(timer.phase(), Phase::ShortBreak);
}

#[test]
fn status_after_a_crossing_shows_the_new_phase_in_full() {
    let mut timer = Pomodoro::new(None);
    timer.start_at(at(0));
    let first = timer.current_pomodoro_at(at(2000));
    assert_eq!(first.notification, Some(PomodoroEvent::ShortBreak));
    let second = timer.current_pomodoro_at(at(2000));
    assert_eq!(second.text, "{\"elapsed_time\":\"00:00\",\"text\":\"05:00\"}");
    assert_eq!(second.notification, None);
    let third = timer.current_pomodoro_at(at(90000));
    assert_eq!(third.text, second.text);
    assert_eq!(third.notification, None);
    assert_eq!(timer.cycles_completed(), 1);
}

#[test]
fn a_paused_timer_past_its_length_crosses_too() {
    let mut timer = timer_with(1500, 1501, 0);
    let report = timer.current_pomodoro_at(at(7));
    assert_eq!(report.notification, Some(PomodoroEvent::ShortBreak));
    assert_eq!(timer.phase(), Phase::ShortBreak);
}

/// Runs the phase in progress to its end and returns the report.
fn finish_phase(timer: &mut Pomodoro, clock: &mut u64) -> Option<PomodoroEvent> {
    timer.start_at(at(*clock));
    *clock += timer.total_time() + 1;
    timer.current_pomodoro_at(at(*clock)).notification
}

#[test]
fn fourth_focus_session_is_followed_by_a_long_break() {
    let mut timer = Pomodoro::new(None);
    let mut clock = 0;
    for session in 1..=3 {
        assert_eq!(finish_phase(&mut timer, &mut clock), Some(PomodoroEvent::ShortBreak));
        assert_eq!(timer.phase(), Phase::ShortBreak);
        assert_eq!(timer.cycles_completed(), session);
        assert_eq!(finish_phase(&mut timer, &mut clock), Some(PomodoroEvent::Pomodoro));
        assert_eq!(timer.phase(), Phase::Focus);
        assert_eq!(timer.total_time(), 1500);
        assert_eq!(timer.cycles_completed(), session);
    }
    assert_eq!(timer.get_total_time_and_break_type(), (1800, BreakType::Long));
    timer.start_at(at(clock));
    clock += 1501;
    let report = timer.current_pomodoro_at(at(clock));
    assert_eq!(report.text, "{\"elapsed_time\":\"00:00\",\"text\":\"30:00\"}");
    assert_eq!(report.notification, Some(PomodoroEvent::LongBreak));
    assert_eq!(timer.phase(), Phase::LongBreak);
    assert_eq!(timer.cycles_completed(), 0);
    assert_eq!(finish_phase(&mut timer, &mut clock), Some(PomodoroEvent::Pomodoro));
    assert_eq!(timer.phase(), Phase::Focus);
    assert_eq!(timer.cycles_completed(), 0);
    assert_eq!(timer.get_total_time_and_break_type(), (300, BreakType::Short));
}

#[test]
fn a_count_past_the_round_never_brings_a_long_break() {
    let mut timer = timer_with(1500, 1501, 4);
    assert_eq!(timer.get_total_time_and_break_type(), (300, BreakType::Short));
    let report = timer.current_pomodoro_at(at(0));
    assert_eq!(report.notification, Some(PomodoroEvent::ShortBreak));
    assert_eq!(timer.cycles_completed(), 5);
    let mut timer = timer_with(1500, 1501, u64::MAX);
    timer.current_pomodoro_at(at(0));
    assert_eq!(timer.phase(), Phase::ShortBreak);
    assert_eq!(timer.cycles_completed(), u64::MAX);
}

#[test]
fn pause_commits_at_most_what_64_bits_hold() {
    let mut timer = Pomodoro::new(None);
    let record = PersistedRecord {
        start_time: Some(10),
        end_time: Some(0),
        total_time: Some(1500),
        is_running: Some(true),
        elapsed_time: Some(u64::MAX - 3),
        cycles_completed: Some(0),
    };
    timer.restore_at(&record, at(100));
    assert_eq!(timer.get_elapsed_time_at(at(100)), u64::MAX as u128 + 7);
    timer.pause_at(at(100));
    assert_eq!(timer.elapsed_time(), u64::MAX);
}

#[test]
fn handle_remaining_time_formats_both_faces() {
    assert_eq!(
        Pomodoro::handle_remaining_time(1500, 0),
        "{\"elapsed_time\":\"00:00\",\"text\":\"25:00\"}"
    );
    assert_eq!(
        Pomodoro::handle_remaining_time(1500, 1499),
        "{\"elapsed_time\":\"24:59\",\"text\":\"00:01\"}"
    );
    assert_eq!(
        Pomodoro::handle_remaining_time(7200, 600),
        "{\"elapsed_time\":\"10:00\",\"text\":\"110:00\"}"
    );
}

#[test]
fn handle_elapsed_time_over_total_time_enters_the_next_phase() {
    let mut timer = timer_with(300, 0, 2);
    let report = timer.handle_elapsed_time_over_total_time();
    assert_eq!(report.text, "{\"elapsed_time\":\"00:00\",\"text\":\"25:00\"}");
    assert_eq!(report.notification, Some(PomodoroEvent::Pomodoro));
    assert_eq!(timer.phase(), Phase::Focus);
    assert_eq!(timer.cycles_completed(), 2);
    let report = timer.handle_elapsed_time_over_total_time();
    assert_eq!(report.notification, Some(PomodoroEvent::ShortBreak));
    assert_eq!(timer.cycles_completed(), 3);
}

#[test]
fn status_json_is_compact_json() {
    assert_eq!(status_json(0, 0), "{\"elapsed_time\":\"00:00\",\"text\":\"00:00\"}");
    assert_eq!(status_json(61, 3599), "{\"elapsed_time\":\"01:01\",\"text\":\"59:59\"}");
}

#[test]
fn startup_status_of_a_timer_never_started_is_an_empty_text() {
    let mut timer = Pomodoro::new(None);
    let report = timer.startup_status_at(at(3));
    assert_eq!(report.text, "{\"text\":\"\"}");
    assert_eq!(report.notification, None);
    assert_eq!(Pomodoro::new(None).startup_status().text, "{\"text\":\"\"}");
    timer.start_at(at(3));
    timer.pause_at(at(63));
    let report = timer.startup_status_at(at(500));
    assert_eq!(report.text, "{\"elapsed_time\":\"01:00\",\"text\":\"24:00\"}");
}
