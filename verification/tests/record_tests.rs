use pomodoro::clock::{Clock, Reading};
use pomodoro::state::{PersistedRecord, Phase};
use pomodoro::timer::Pomodoro;

fn at(secs: u64) -> Reading {
    Reading::from_secs(secs)
}

fn full_record() -> PersistedRecord {
    PersistedRecord {
        start_time: Some(90),
        end_time: Some(1410),
        total_time: Some(1500),
        is_running: Some(true),
        elapsed_time: Some(30),
        cycles_completed: Some(2),
    }
}

#[test]
fn reading_counts_nanoseconds() {
    assert_eq!(Reading::from_secs(3).as_nanos(), 3_000_000_000);
    assert_eq!(Reading::new(3, 5).as_nanos(), 3_000_000_005);
    assert_eq!(Reading::new(0, u32::MAX).as_nanos(), 4_294_967_295);
    assert_eq!(
        Reading::new(u64::MAX, 999_999_999).as_nanos(),
        18_446_744_073_709_551_615_999_999_999
    );
    assert_eq!(Reading::new(7, 9), Reading { secs: 7, subsec_nanos: 9 });
}

#[test]
fn clock_readings_do_not_go_back() {
    let clock = Clock::new();
    let first = clock.now();
    let second = clock.now();
    assert!(second.as_nanos() >= first.as_nanos());
    assert!(first.subsec_nanos < 1_000_000_000);
    assert!(second.subsec_nanos < 1_000_000_000);
    let timer = pomodoro::timer::Pomodoro::new(None);
    assert!(timer.now().subsec_nanos < 1_000_000_000);
}

#[test]
fn record_to_json_is_pretty_printed_in_key_order() {
    assert_eq!(
        full_record().to_json(),
        "{\n  \"cycles_completed\": 2,\n  \"elapsed_time\": 30,\n  \"end_time\": 1410,\n  \"is_running\": true,\n  \"start_time\": 90,\n  \"total_time\": 1500\n}"
    );
}

#[test]
fn record_to_json_writes_null_for_what_is_missing() {
    assert_eq!(
        PersistedRecord::empty().to_json(),
        "{\n  \"cycles_completed\": null,\n  \"elapsed_time\": null,\n  \"end_time\": null,\n  \"is_running\": null,\n  \"start_time\": null,\n  \"total_time\": null\n}"
    );
    let record = PersistedRecord {
        is_running: Some(false),
        total_time: Some(u64::MAX),
        ..PersistedRecord::empty()
    };
    assert_eq!(
        record.to_json(),
        "{\n  \"cycles_completed\": null,\n  \"elapsed_time\": null,\n  \"end_time\": null,\n  \"is_running\": false,\n  \"start_time\": null,\n  \"total_time\": 18446744073709551615\n}"
    );
}

#[test]
fn record_from_json_reads_every_member() {
    let text = b"{\"start_time\": 90, \"end_time\": 1410, \"total_time\": 1500,
        \"is_running\": true, \"elapsed_time\": 30, \"cycles_completed\": 2}";
    assert_eq!(PersistedRecord::from_json(text), full_record());
}

#[test]
fn record_from_json_leaves_out_what_is_missing_or_of_another_type() {
    let text = b"{\"start_time\": null, \"end_time\": -4, \"total_time\": \"1500\",
        \"is_running\": 1, \"elapsed_time\": 2.5, \"pomodoros\": 2}";
    assert_eq!(PersistedRecord::from_json(text), PersistedRecord::empty());
    let text = b"{\"total_time\": 300, \"is_running\": false}";
    assert_eq!(
        PersistedRecord::from_json(text),
        PersistedRecord {
            total_time: Some(300),
            is_running: Some(false),
            ..PersistedRecord::empty()
        }
    );
}

#[test]
fn record_from_json_of_malformed_text_is_empty() {
    assert_eq!(PersistedRecord::from_json(b""), PersistedRecord::empty());
    assert_eq!(PersistedRecord::from_json(b"{\"total_time\": 300"), PersistedRecord::empty());
    assert_eq!(PersistedRecord::from_json(b"[1, 2]"), PersistedRecord::empty());
    assert_eq!(PersistedRecord::from_json(b"42"), PersistedRecord::empty());
    assert_eq!(PersistedRecord::from_json(b"{\"total_time\": 300} x"), PersistedRecord::empty());
    assert_eq!(PersistedRecord::from_json(&[0xff, 0xfe]), PersistedRecord::empty());
}

#[test]
fn record_from_json_reads_back_what_to_json_wrote() {
    let text = full_record().to_json();
    assert_eq!(PersistedRecord::from_json(text.as_bytes()), full_record());
}

#[test]
fn coherent_records_have_a_start_when_running_and_a_deadline_with_a_start() {
    assert!(PersistedRecord::empty().is_coherent());
    assert!(full_record().is_coherent());
    assert!(!PersistedRecord { is_running: Some(true), ..PersistedRecord::empty() }.is_coherent());
    assert!(!PersistedRecord { start_time: Some(1), ..PersistedRecord::empty() }.is_coherent());
    assert!(PersistedRecord { end_time: Some(1), ..PersistedRecord::empty() }.is_coherent());
    assert!(PersistedRecord { is_running: Some(false), ..PersistedRecord::empty() }.is_coherent());
}

#[test]
fn snapshot_holds_instants_relative_to_now() {
    let mut timer = Pomodoro::new(None);
    timer.start_at(at(100));
    let record = timer.snapshot_at(Reading::new(160, 999_999_999));
    assert_eq!(
        record,
        PersistedRecord {
            start_time: Some(60),
            end_time: Some(1439),
            total_time: Some(1500),
            is_running: Some(true),
            elapsed_time: Some(0),
            cycles_completed: Some(0),
        }
    );
    assert_eq!(timer.snapshot_at(at(5000)).end_time, Some(0));
    assert_eq!(timer.snapshot_at(at(50)).start_time, Some(0));
}

#[test]
fn snapshot_of_a_fresh_timer_has_no_instants() {
    let record = Pomodoro::new(None).snapshot_at(at(5));
    assert_eq!(
        record,
        PersistedRecord {
            start_time: None,
            end_time: None,
            total_time: Some(1500),
            is_running: Some(false),
            elapsed_time: Some(0),
            cycles_completed: Some(0),
        }
    );
}

#[test]
fn restore_anchors_instants_at_now() {
    let mut timer = Pomodoro::new(Some(String::from("bell.wav")));
    timer.restore_at(&full_record(), at(1000));
    assert!(timer.is_running());
    assert_eq!(timer.total_time(), 1500);
    assert_eq!(timer.elapsed_time(), 30);
    assert_eq!(timer.cycles_completed(), 2);
    assert_eq!(timer.sound_path(), Some(&String::from("bell.wav")));
    assert_eq!(timer.get_elapsed_time_at(at(1000)), 120);
    assert_eq!(timer.get_elapsed_time_at(at(1010)), 130);
    assert_eq!(timer.snapshot_at(at(1000)), full_record());
}

#[test]
fn restore_before_the_clock_origin_works() {
    let mut timer = Pomodoro::new(None);
    let record = PersistedRecord { start_time: Some(u64::MAX), end_time: Some(u64::MAX), ..full_record() };
    timer.restore_at(&record, at(0));
    assert_eq!(timer.get_elapsed_time_at(at(0)), u64::MAX as u128 + 30);
    assert_eq!(timer.get_elapsed_time_at(at(u64::MAX)), 2 * (u64::MAX as u128) + 30);
    assert_eq!(timer.snapshot_at(at(u64::MAX)).start_time, Some(u64::MAX));
}

#[test]
fn restore_fills_what_is_missing_from_a_fresh_timer() {
    let mut timer = Pomodoro::new(None);
    timer.restore_at(&full_record(), at(0));
    timer.restore_at(&PersistedRecord::empty(), at(10));
    assert!(!timer.is_running());
    assert!(timer.never_started());
    assert_eq!(timer.total_time(), 1500);
    assert_eq!(timer.elapsed_time(), 0);
    assert_eq!(timer.cycles_completed(), 0);
    timer.restore_at(
        &PersistedRecord { total_time: Some(300), elapsed_time: Some(12), ..PersistedRecord::empty() },
        at(10),
    );
    assert_eq!(timer.phase(), Phase::ShortBreak);
    assert_eq!(timer.elapsed_time(), 12);
}

#[test]
fn restore_of_a_record_that_does_not_fit_together_gives_a_fresh_timer() {
    let mut timer = Pomodoro::new(None);
    let running_without_start = PersistedRecord {
        is_running: Some(true),
        total_time: Some(300),
        elapsed_time: Some(12),
        cycles_completed: Some(3),
        ..PersistedRecord::empty()
    };
    timer.restore_at(&running_without_start, at(10));
    assert!(!timer.is_running());
    assert_eq!(timer.total_time(), 1500);
    assert_eq!(timer.elapsed_time(), 0);
    assert_eq!(timer.cycles_completed(), 0);
    let start_without_deadline = PersistedRecord {
        start_time: Some(5),
        total_time: Some(300),
        ..PersistedRecord::empty()
    };
    timer.restore_at(&start_without_deadline, at(10));
    assert!(timer.never_started());
    assert_eq!(timer.total_time(), 1500);
    timer.start_at(at(20));
    assert_eq!(timer.current_pomodoro_at(at(20)).text, "{\"elapsed_time\":\"00:00\",\"text\":\"25:00\"}");
}

#[test]
fn round_trip_of_a_running_timer_keeps_the_status() {
    let mut timer = Pomodoro::new(None);
    timer.start_at(at(0));
    timer.pause_at(at(100));
    timer.start_at(Reading::new(150, 250_000_000));
    let saved_at = Reading::new(400, 750_000_000);
    let text = timer.save_state_at(saved_at);
    let before = timer.current_pomodoro_at(saved_at);
    let mut loaded = Pomodoro::new(None);
    let loaded_at = Reading::new(3, 141_592_653);
    loaded.load_pomodoro_state_at(text.as_bytes(), loaded_at);
    assert!(loaded.is_running());
    let after = loaded.current_pomodoro_at(loaded_at);
    assert_eq!(before.text, "{\"elapsed_time\":\"05:50\",\"text\":\"19:10\"}");
    assert_eq!(after.text, before.text);
    assert_eq!(after.notification, before.notification);
}

#[test]
fn round_trip_of_a_paused_timer_keeps_the_status() {
    let mut timer = Pomodoro::new(None);
    timer.start_at(at(0));
    timer.current_pomodoro_at(at(1501));
    timer.start_at(at(1600));
    timer.pause_at(at(1700));
    let text = timer.save_state_at(at(9999));
    let before = timer.current_pomodoro_at(at(9999));
    let mut loaded = Pomodoro::new(None);
    loaded.load_pomodoro_state_at(text.as_bytes(), at(1));
    assert!(!loaded.is_running());
    assert_eq!(loaded.phase(), Phase::ShortBreak);
    assert_eq!(loaded.cycles_completed(), 1);
    let after = loaded.current_pomodoro_at(at(500));
    assert_eq!(before.text, "{\"elapsed_time\":\"01:40\",\"text\":\"03:20\"}");
    assert_eq!(after.text, before.text);
}

#[test]
fn save_state_at_writes_the_snapshot() {
    let mut timer = Pomodoro::new(None);
    timer.start_at(at(10));
    assert_eq!(
        timer.save_state_at(at(70)),
        "{\n  \"cycles_completed\": 0,\n  \"elapsed_time\": 0,\n  \"end_time\": 1440,\n  \"is_running\": true,\n  \"start_time\": 60,\n  \"total_time\": 1500\n}"
    );
}

#[test]
fn save_and_load_with_the_real_clock() {
    let mut timer = Pomodoro::new(None);
    timer.setup_timer(300);
    let text = timer.save_state();
    assert_eq!(
        text,
        "{\n  \"cycles_completed\": 0,\n  \"elapsed_time\": 0,\n  \"end_time\": null,\n  \"is_running\": false,\n  \"start_time\": null,\n  \"total_time\": 300\n}"
    );
    let mut loaded = Pomodoro::new(None);
    loaded.load_pomodoro_state(text.as_bytes());
    assert_eq!(loaded.total_time(), 300);
    assert!(!loaded.is_running());
}

#[test]
fn load_of_malformed_text_gives_a_fresh_timer() {
    let mut timer = Pomodoro::new(None);
    timer.start_at(at(0));
    timer.pause_at(at(100));
    timer.load_pomodoro_state_at(b"not json", at(200));
    assert!(!timer.is_running());
    assert!(timer.never_started());
    assert_eq!(timer.total_time(), 1500);
    assert_eq!(timer.elapsed_time(), 0);
}
