use media_sync::state::WINDOW_CAP;
use media_sync::{
    accept_epoch, apply_event, mean_latency, process_event, Event, Notifier, SessionState,
};

#[test]
fn mean_latency_of_three_samples() {
    assert_eq!(mean_latency(&[100, 200, 300]), 200);
}

#[test]
fn mean_latency_truncates_toward_zero() {
    assert_eq!(mean_latency(&[1, 1, 0]), 0);
    assert_eq!(mean_latency(&[-100, -200, -301]), -200);
    assert_eq!(mean_latency(&[0, 0, 0]), 0);
}

#[test]
fn epoch_guard_rejects_nearby_older_id() {
    // 45 < 50 and the gap of 5 is within the skip tolerance.
    assert!(!accept_epoch(50, 45));
    // 100 < 150 and the gap of 50 is within the skip tolerance.
    assert!(!accept_epoch(150, 100));
}

#[test]
fn epoch_guard_accepts_wraparound_and_newer_ids() {
    // A gap of 140 exceeds the tolerance: read as a reset counter.
    assert!(accept_epoch(150, 10));
    assert!(accept_epoch(50, 50));
    assert!(accept_epoch(50, 51));
    assert!(accept_epoch(0, i32::MAX));
}

#[test]
fn new_state_is_empty() {
    let s = SessionState::new();
    assert_eq!(s.id, 0);
    assert_eq!(s.filename, None);
    assert_eq!(s.time, 0);
    assert!(s.start_times.is_empty());
}

#[test]
fn media_start_clears_window() {
    let mut s = SessionState::new();
    s.id = 3;
    s.start_times = vec![11, 22, 33];
    let accepted = apply_event(
        &mut s,
        &Event::MediaStart { id: 4, filename: String::from("b.mp4") },
        0,
    );
    assert!(accepted);
    assert_eq!(s.id, 4);
    assert_eq!(s.filename.as_deref(), Some("b.mp4"));
    assert!(s.start_times.is_empty());
}

#[test]
fn media_start_rejected_is_no_op() {
    let mut s = SessionState::new();
    s.id = 50;
    s.time = 7;
    let accepted = apply_event(
        &mut s,
        &Event::MediaStart { id: 45, filename: String::from("x.mp4") },
        0,
    );
    assert!(!accepted);
    assert_eq!(s.id, 50);
    assert_eq!(s.filename, None);
    assert_eq!(s.time, 7);
}

#[test]
fn foreign_sync_is_no_op() {
    let mut s = SessionState::new();
    s.id = 1;
    s.filename = Some(String::from("a.mp4"));
    s.time = 5_000;
    s.start_times = vec![42];
    let accepted = apply_event(
        &mut s,
        &Event::Sync { id: 2, time: 9_000, latencies: [10, 10, 10] },
        1_000,
    );
    assert!(!accepted);
    assert_eq!(s.id, 1);
    assert_eq!(s.filename.as_deref(), Some("a.mp4"));
    assert_eq!(s.time, 5_000);
    assert_eq!(s.start_times, vec![42]);
}

#[test]
fn sync_compensates_latency_and_records_start() {
    let mut s = SessionState::new();
    s.id = 9;
    let accepted = apply_event(
        &mut s,
        &Event::Sync { id: 9, time: 10_000, latencies: [100, 200, 300] },
        50_000,
    );
    assert!(accepted);
    // 10_000 reported + 200 mean latency.
    assert_eq!(s.time, 10_200);
    // The session must have started time-of-day minus position ago.
    assert_eq!(s.start_times, vec![50_000 - 10_200]);
}

#[test]
fn scenario_start_sync_stop() {
    let mut s = SessionState::new();
    assert!(apply_event(
        &mut s,
        &Event::MediaStart { id: 1, filename: String::from("a.mp4") },
        0,
    ));
    assert!(apply_event(
        &mut s,
        &Event::Sync { id: 1, time: 10_000, latencies: [0, 0, 0] },
        0,
    ));
    assert_eq!(s.time, 10_000);
    assert!(apply_event(&mut s, &Event::MediaStop { id: 2 }, 0));
    assert_eq!(s.id, 2);
    assert_eq!(s.filename, None);
    assert_eq!(s.time, 10_000);
}

#[test]
fn window_is_capped_and_fifo() {
    let mut s = SessionState::new();
    // Each accepted sync with time 0 and zero latencies records `now` itself.
    for now in 0..(WINDOW_CAP as i64 + 1) {
        assert!(apply_event(
            &mut s,
            &Event::Sync { id: 0, time: 0, latencies: [0, 0, 0] },
            now,
        ));
    }
    // The twenty-first push evicted the entry recorded at instant 0.
    assert_eq!(s.start_times.len(), WINDOW_CAP);
    assert_eq!(s.start_times[0], 1);
    assert_eq!(s.start_times[WINDOW_CAP - 1], WINDOW_CAP as i128);
}

#[test]
fn stale_sync_replay_has_no_effect() {
    let mut s = SessionState::new();
    let stale = Event::Sync { id: 1, time: 4_000, latencies: [0, 0, 0] };
    assert!(apply_event(
        &mut s,
        &Event::MediaStart { id: 1, filename: String::from("a.mp4") },
        0,
    ));
    assert!(apply_event(&mut s, &stale, 100));
    // The state moves on to a new session.
    assert!(apply_event(
        &mut s,
        &Event::MediaStart { id: 2, filename: String::from("b.mp4") },
        200,
    ));
    let before = (s.id, s.filename.clone(), s.time, s.start_times.clone());
    // Replaying the now-stale report changes nothing.
    assert!(!apply_event(&mut s, &stale, 300));
    assert_eq!((s.id, s.filename.clone(), s.time, s.start_times.clone()), before);
}

#[test]
fn matching_sync_replay_keeps_time() {
    let mut s = SessionState::new();
    let report = Event::Sync { id: 0, time: 8_000, latencies: [30, 30, 30] };
    assert!(apply_event(&mut s, &report, 100));
    let time_after_first = s.time;
    assert!(apply_event(&mut s, &report, 100));
    assert_eq!(s.time, time_after_first);
    assert_eq!(s.start_times.len(), 2);
}

#[test]
fn average_start_of_empty_window_is_now() {
    let s = SessionState::new();
    assert_eq!(s.average_start(12_345), 12_345);
}

#[test]
fn average_start_of_window_is_mean() {
    let mut s = SessionState::new();
    s.start_times = vec![10, 20, 31];
    // 61 / 3, rounded toward zero; `now` is ignored.
    assert_eq!(s.average_start(999), 20);
}

#[test]
fn snapshot_reports_fields_and_average() {
    let mut s = SessionState::new();
    s.id = 7;
    s.filename = Some(String::from("movie.mp4"));
    s.start_times = vec![100, 200, 300];
    let snap = s.snapshot(0);
    assert_eq!(snap.id, 7);
    assert_eq!(snap.filename.as_deref(), Some("movie.mp4"));
    assert_eq!(snap.start_time, 200);
}

#[test]
fn notifier_coalesces_burst_into_one_wake() {
    let mut n = Notifier::new();
    for _ in 0..5 {
        n.signal();
    }
    assert!(n.drain());
    // The burst produced exactly one wake.
    assert!(!n.drain());
}

#[test]
fn process_event_signals_only_accepted_mutations() {
    let mut s = SessionState::new();
    let mut n = Notifier::new();
    let accepted = process_event(
        &mut s,
        &Event::MediaStart { id: 1, filename: String::from("a.mp4") },
        &mut n,
    );
    assert!(accepted);
    assert!(n.drain());
    // A rejected event leaves the signal alone.
    let accepted = process_event(
        &mut s,
        &Event::Sync { id: 99, time: 0, latencies: [0, 0, 0] },
        &mut n,
    );
    assert!(!accepted);
    assert!(!n.drain());
}
