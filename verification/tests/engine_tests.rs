use tomatl::countdown::Countdown;
use tomatl::effects::{Notifier, SoundPlayer};
use tomatl::engine::{complete_session, start_session, CompletionReport};
use tomatl::mode::Mode;
use tomatl::store::{SessionStore, StoreError};

struct RecordingNotifier {
    calls: Vec<(String, String)>,
    fail: bool,
}

impl RecordingNotifier {
    fn new(fail: bool) -> RecordingNotifier {
        RecordingNotifier { calls: Vec::new(), fail }
    }
}

impl Notifier for RecordingNotifier {
    fn notify(&mut self, summary: &str, body: &str) -> Result<(), String> {
        self.calls.push((summary.to_string(), body.to_string()));
        if self.fail {
            Err("notification service unavailable".to_string())
        } else {
            Ok(())
        }
    }
}

struct CountingPlayer {
    plays: usize,
    fail: bool,
}

impl CountingPlayer {
    fn new(fail: bool) -> CountingPlayer {
        CountingPlayer { plays: 0, fail }
    }
}

impl SoundPlayer for CountingPlayer {
    fn play(&mut self, _asset: &[u8]) -> Result<(), String> {
        self.plays += 1;
        if self.fail {
            Err("no audio output device".to_string())
        } else {
            Ok(())
        }
    }
}

fn count_rows(path: &str) -> i64 {
    let conn = rusqlite::Connection::open(path).unwrap();
    conn.query_row("SELECT COUNT(*) FROM sessions", [], |row| row.get(0)).unwrap()
}

#[test]
fn countdown_delivers_ticks_in_order() {
    let mut countdown = Countdown::new(5);
    let mut seen: Vec<u64> = Vec::new();
    while let Some(tick) = countdown.next_tick() {
        seen.push(tick);
    }
    assert_eq!(seen, vec![1, 2, 3, 4, 5]);
    assert!(countdown.is_complete());
    assert_eq!(countdown.next_tick(), None);
}

#[test]
fn zero_tick_countdown_still_runs_completion_actions() {
    let mut countdown = Countdown::new(0);
    assert!(countdown.is_complete());
    assert_eq!(countdown.next_tick(), None);

    let store = SessionStore::initialize("/tmp/tomatl_test_zero_ticks.db").unwrap();
    let before = count_rows("/tmp/tomatl_test_zero_ticks.db");
    let session = tomatl::session::Session {
        start_iso: "2025-05-30T14:23:00+00:00".to_string(),
        minutes_text: "0.001".to_string(),
        mode: Mode::Rest,
    };
    let mut notifier = RecordingNotifier::new(false);
    let mut player = CountingPlayer::new(false);
    let report = complete_session(&mut notifier, &mut player, &store, &session, &countdown, &[]);
    assert_eq!(notifier.calls.len(), 1);
    assert_eq!(player.plays, 1);
    assert!(report.persist.is_ok());
    assert_eq!(report.exit_code(), 0);
    assert_eq!(count_rows("/tmp/tomatl_test_zero_ticks.db"), before + 1);
}

#[test]
fn focus_one_minute_scenario() {
    let path = "/tmp/tomatl_test_focus_scenario.db";
    let store = SessionStore::initialize(path).unwrap();
    let before = count_rows(path);

    let window_start = chrono::Utc::now();
    let (session, mut countdown) = start_session(Mode::Focus, "1".to_string()).unwrap();
    let window_end = chrono::Utc::now();

    assert_eq!(countdown.total(), 60);
    let mut seen: Vec<u64> = Vec::new();
    while let Some(tick) = countdown.next_tick() {
        seen.push(tick);
    }
    let expected: Vec<u64> = (1..=60).collect();
    assert_eq!(seen, expected);
    assert!(countdown.is_complete());

    let mut notifier = RecordingNotifier::new(false);
    let mut player = CountingPlayer::new(false);
    let report = complete_session(&mut notifier, &mut player, &store, &session, &countdown, &[]);

    assert_eq!(
        notifier.calls,
        vec![("Timer up!".to_string(), "Your focus session is complete.".to_string())],
    );
    assert_eq!(player.plays, 1);
    assert_eq!(report.exit_code(), 0);
    assert!(report.failure_notice().is_none());

    assert_eq!(count_rows(path), before + 1);
    let conn = rusqlite::Connection::open(path).unwrap();
    let (start_iso, minutes): (String, f64) = conn
        .query_row(
            "SELECT start_iso, minutes FROM sessions ORDER BY id DESC LIMIT 1",
            [],
            |row| Ok((row.get(0)?, row.get(1)?)),
        )
        .unwrap();
    assert_eq!(minutes, 1.0);
    let recorded = chrono::DateTime::parse_from_rfc3339(&start_iso)
        .unwrap()
        .with_timezone(&chrono::Utc);
    assert!(window_start <= recorded && recorded <= window_end);
}

#[test]
fn best_effort_failures_never_block_persistence() {
    let path = "/tmp/tomatl_test_best_effort.db";
    let store = SessionStore::initialize(path).unwrap();
    let before = count_rows(path);

    let (session, mut countdown) = start_session(Mode::Rest, "0.05".to_string()).unwrap();
    while countdown.next_tick().is_some() {}

    let mut notifier = RecordingNotifier::new(true);
    let mut player = CountingPlayer::new(true);
    let report = complete_session(&mut notifier, &mut player, &store, &session, &countdown, &[]);

    assert!(report.notify.is_err());
    assert!(report.sound.is_err());
    assert!(report.persist.is_ok());
    assert!(report.is_success());
    assert_eq!(report.exit_code(), 0);
    assert_eq!(count_rows(path), before + 1);
}

#[test]
fn store_append_failure_is_fatal_and_names_persistence() {
    let path = "/tmp/tomatl_test_append_failure.db";
    let store = SessionStore::initialize(path).unwrap();
    // Simulate a broken backing store: drop the table behind the open handle.
    let saboteur = rusqlite::Connection::open(path).unwrap();
    saboteur.execute_batch("DROP TABLE sessions;").unwrap();

    let (session, mut countdown) = start_session(Mode::Focus, "0.05".to_string()).unwrap();
    while countdown.next_tick().is_some() {}

    let mut notifier = RecordingNotifier::new(false);
    let mut player = CountingPlayer::new(false);
    let report = complete_session(&mut notifier, &mut player, &store, &session, &countdown, &[]);

    assert!(matches!(&report.persist, Err(StoreError::Append(_))));
    assert!(!report.is_success());
    assert_ne!(report.exit_code(), 0);
    let notice = report.failure_notice().unwrap();
    assert!(notice.starts_with("the completed session could not be recorded: "));
}

#[test]
fn interrupted_run_appends_nothing() {
    let path = "/tmp/tomatl_test_interrupted.db";
    let store = SessionStore::initialize(path).unwrap();
    let before = count_rows(path);

    let (_session, mut countdown) = start_session(Mode::Focus, "1".to_string()).unwrap();
    // Consume some ticks but not all: the countdown never completes, so the
    // completion pipeline never runs and the store is never touched.
    for _ in 0..10 {
        countdown.next_tick();
    }
    assert!(!countdown.is_complete());
    drop(store);
    assert_eq!(count_rows(path), before);
}

#[test]
fn invalid_duration_fails_fast() {
    let result = start_session(Mode::Rest, "-5".to_string());
    assert!(result.is_err());
    let err = result.err().unwrap();
    assert_eq!(err.describe(), "invalid duration: expected a positive number of minutes");
}

#[test]
fn simulated_store_failure_report() {
    let report = CompletionReport {
        notify: Ok(()),
        sound: Ok(()),
        persist: Err(StoreError::Append("attempt to write a readonly database".to_string())),
    };
    assert!(!report.is_success());
    assert_eq!(report.exit_code(), 1);
    let notice = report.failure_notice().unwrap();
    assert_eq!(
        notice,
        "the completed session could not be recorded: attempt to write a readonly database",
    );
}

#[test]
fn mode_names() {
    assert_eq!(Mode::Focus.as_str(), "focus");
    assert_eq!(Mode::Rest.as_str(), "rest");
    assert_eq!(Mode::Focus.completion_body(), "Your focus session is complete.");
    assert_eq!(Mode::Rest.completion_body(), "Your rest session is complete.");
}
