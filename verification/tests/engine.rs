use match_backfill::models::MatchStamp;
use match_backfill::pagination::batch_key;
use match_backfill::pagination::run_window_script;
use match_backfill::pagination::FetchError;
use match_backfill::pagination::LoopState;
use match_backfill::pagination::PersistKey;
use match_backfill::pagination::WindowFailure;
use match_backfill::scheduler::run_all_windows;
use match_backfill::windows::generate_windows;
use match_backfill::windows::generate_work_window;
use match_backfill::windows::generate_work_windows;
use match_backfill::windows::WorkWindow;
use match_backfill::FIRST_EPOCH;
use match_backfill::WINDOW_SIZE;

// Fixture epochs: "2022-12-01 08:21:34" UTC is 1669882894.
const T0: &str = "2022-12-01 08:21:34"; // 1669882894
const T0_EPOCH: u64 = 1669882894;
const T1: &str = "2022-12-01 08:30:00"; // 1669883400
const T1_EPOCH: u64 = 1669883400;
const T2: &str = "2022-12-01 09:21:34"; // 1669886494
const T2_EPOCH: u64 = 1669886494;
const T3: &str = "2022-12-01 10:21:34"; // 1669890094
const T3_EPOCH: u64 = 1669890094;

fn stamp(end_time: &str) -> MatchStamp {
    MatchStamp { end_time: String::from(end_time) }
}

fn batch(end_times: &[&str]) -> Result<Vec<MatchStamp>, FetchError> {
    Ok(end_times.iter().map(|t| stamp(t)).collect())
}

fn empty_page() -> Result<Vec<MatchStamp>, FetchError> {
    Ok(Vec::new())
}

#[test]
fn window_width_and_contiguity() {
    let ws = generate_windows(1000, 250, 2000);
    assert_eq!(ws.len(), 3);
    for w in &ws {
        assert_eq!(w.end_epoch, w.start_epoch + 250);
        assert!(w.end_epoch < 2000);
    }
    assert_eq!(ws[0].start_epoch, 1000);
    for i in 0..ws.len() - 1 {
        assert_eq!(ws[i + 1].start_epoch, ws[i].end_epoch);
    }
}

#[test]
fn window_sequence_empty_iff_reaching_now() {
    // start + size == now: empty.
    assert!(generate_windows(100, 50, 150).is_empty());
    // start + size > now: empty.
    assert!(generate_windows(100, 50, 120).is_empty());
    // start + size < now: one window.
    let ws = generate_windows(100, 50, 151);
    assert_eq!(ws.len(), 1);
    assert_eq!(ws[0], WorkWindow { start_epoch: 100, end_epoch: 150 });
}

#[test]
fn single_window_width() {
    let w = generate_work_window(FIRST_EPOCH);
    assert_eq!(w.start_epoch, FIRST_EPOCH);
    assert_eq!(w.end_epoch, FIRST_EPOCH + WINDOW_SIZE);
}

#[test]
fn work_windows_cover_start_to_clock() {
    let ws = generate_work_windows(FIRST_EPOCH);
    assert!(!ws.is_empty());
    assert_eq!(ws[0].start_epoch, FIRST_EPOCH);
    for i in 0..ws.len() {
        assert_eq!(ws[i].end_epoch, ws[i].start_epoch + WINDOW_SIZE);
        if i + 1 < ws.len() {
            assert_eq!(ws[i + 1].start_epoch, ws[i].end_epoch);
        }
    }
}

#[test]
fn exhaustion_counts_fetches_and_batches() {
    let window = WorkWindow { start_epoch: T0_EPOCH, end_epoch: T2_EPOCH };
    let script = vec![batch(&[T0, T1]), batch(&[T2]), empty_page()];
    let report = run_window_script(window, &script, None);
    assert_eq!(report.state, LoopState::Exhausted);
    assert_eq!(report.fetches, 3);
    assert_eq!(
        report.persisted,
        vec![
            PersistKey { first_end: T0_EPOCH, last_end: T1_EPOCH },
            PersistKey { first_end: T2_EPOCH, last_end: T2_EPOCH },
        ]
    );
    assert_eq!(report.cursor, T2_EPOCH);
    assert_eq!(report.failure, None);
}

#[test]
fn empty_first_page_exhausts_at_once() {
    let window = WorkWindow { start_epoch: T0_EPOCH, end_epoch: T2_EPOCH };
    let report = run_window_script(window, &vec![empty_page()], None);
    assert_eq!(report.state, LoopState::Exhausted);
    assert_eq!(report.fetches, 1);
    assert!(report.persisted.is_empty());
    assert_eq!(report.cursor, T0_EPOCH);
}

#[test]
fn remote_error_fails_window() {
    let window = WorkWindow { start_epoch: T0_EPOCH, end_epoch: T2_EPOCH };
    let script = vec![Err(FetchError::Remote { status: 500 })];
    let report = run_window_script(window, &script, None);
    assert_eq!(report.state, LoopState::Failed);
    assert_eq!(report.failure, Some(WindowFailure::Remote { epoch: T0_EPOCH, status: 500 }));
    assert_eq!(report.fetches, 1);
    assert!(report.persisted.is_empty());
    assert_eq!(report.cursor, T0_EPOCH);
}

#[test]
fn malformed_body_fails_window() {
    let window = WorkWindow { start_epoch: T0_EPOCH, end_epoch: T2_EPOCH };
    let script = vec![Err(FetchError::Malformed)];
    let report = run_window_script(window, &script, None);
    assert_eq!(report.state, LoopState::Failed);
    assert_eq!(report.failure, Some(WindowFailure::Malformed));
}

#[test]
fn unparseable_end_time_fails_window() {
    let window = WorkWindow { start_epoch: T0_EPOCH, end_epoch: T2_EPOCH };
    let script = vec![batch(&["yesterday, late"]), empty_page()];
    let report = run_window_script(window, &script, None);
    assert_eq!(report.state, LoopState::Failed);
    assert_eq!(report.failure, Some(WindowFailure::TimestampParse));
    assert_eq!(report.fetches, 1);
    assert!(report.persisted.is_empty());
    assert_eq!(report.cursor, T0_EPOCH);
}

#[test]
fn flag_before_first_check_stops_without_fetching() {
    let window = WorkWindow { start_epoch: T0_EPOCH, end_epoch: T2_EPOCH };
    let script = vec![batch(&[T0, T1]), empty_page()];
    let report = run_window_script(window, &script, Some(0));
    assert_eq!(report.state, LoopState::Cancelled);
    assert_eq!(report.fetches, 0);
    assert!(report.persisted.is_empty());
    assert_eq!(report.cursor, T0_EPOCH);
}

#[test]
fn flag_mid_run_stops_at_next_loop_top() {
    let window = WorkWindow { start_epoch: T0_EPOCH, end_epoch: T2_EPOCH };
    let script = vec![batch(&[T0]), batch(&[T1]), batch(&[T2]), empty_page()];
    let report = run_window_script(window, &script, Some(2));
    // Two fetches went out before the flag was observed; none after.
    assert_eq!(report.state, LoopState::Cancelled);
    assert_eq!(report.fetches, 2);
    assert_eq!(
        report.persisted,
        vec![
            PersistKey { first_end: T0_EPOCH, last_end: T0_EPOCH },
            PersistKey { first_end: T1_EPOCH, last_end: T1_EPOCH },
        ]
    );
    // Work already persisted stays persisted; the cursor shows real progress.
    assert_eq!(report.cursor, T1_EPOCH);
}

#[test]
fn flag_before_dispatch_starts_no_worker() {
    let windows = vec![
        WorkWindow { start_epoch: T0_EPOCH, end_epoch: T2_EPOCH },
        WorkWindow { start_epoch: T2_EPOCH, end_epoch: T3_EPOCH },
    ];
    let scripts = vec![vec![batch(&[T0]), empty_page()], vec![batch(&[T2]), empty_page()]];
    let reports = run_all_windows(&windows, &scripts, Some(0));
    assert_eq!(reports.len(), 2);
    assert!(reports.iter().all(|r| r.is_none()));
}

#[test]
fn failing_window_leaves_siblings_untouched() {
    let windows = vec![
        WorkWindow { start_epoch: T0_EPOCH, end_epoch: T2_EPOCH },
        WorkWindow { start_epoch: T2_EPOCH, end_epoch: T3_EPOCH },
        WorkWindow { start_epoch: T3_EPOCH, end_epoch: T3_EPOCH + 3600 },
    ];
    let scripts = vec![
        vec![batch(&[T0, T1]), empty_page()],
        vec![Err(FetchError::Remote { status: 503 })],
        vec![batch(&[T3]), empty_page()],
    ];
    let reports = run_all_windows(&windows, &scripts, None);
    let before = reports[0].as_ref().unwrap();
    let failed = reports[1].as_ref().unwrap();
    let after = reports[2].as_ref().unwrap();
    assert_eq!(before.state, LoopState::Exhausted);
    assert_eq!(before.persisted.len(), 1);
    assert_eq!(failed.state, LoopState::Failed);
    assert_eq!(failed.failure, Some(WindowFailure::Remote { epoch: T2_EPOCH, status: 503 }));
    assert_eq!(after.state, LoopState::Exhausted);
    assert_eq!(after.persisted.len(), 1);
}

#[test]
fn end_to_end_two_windows() {
    // With `now` one second past the second window's end, the cover is the
    // two stated windows. (At `now` exactly equal to that end, generation
    // stops one window earlier: a window is emitted only while its end stays
    // strictly below `now`.)
    let now = 1669882894 + 7200 + 1;
    let windows = generate_windows(1669882894, 3600, now);
    assert_eq!(
        windows,
        vec![
            WorkWindow { start_epoch: 1669882894, end_epoch: 1669886494 },
            WorkWindow { start_epoch: 1669886494, end_epoch: 1669890094 },
        ]
    );
    let scripts = vec![
        vec![batch(&[T0, T1, T2]), empty_page()],
        vec![batch(&["2022-12-01 09:21:35", "2022-12-01 10:00:00", T3]), empty_page()],
    ];
    let reports = run_all_windows(&windows, &scripts, None);
    assert_eq!(reports.len(), 2);
    let mut archive: Vec<PersistKey> = Vec::new();
    for report in &reports {
        let report = report.as_ref().unwrap();
        assert_eq!(report.state, LoopState::Exhausted);
        archive.extend(report.persisted.iter().copied());
    }
    assert_eq!(
        archive,
        vec![
            PersistKey { first_end: T0_EPOCH, last_end: T2_EPOCH },
            PersistKey { first_end: T2_EPOCH + 1, last_end: T3_EPOCH },
        ]
    );
}

#[test]
fn boundary_record_at_cursor_is_persisted() {
    // A record whose end-time equals the cursor exactly is persisted and
    // re-anchors the cursor at the same epoch: the engine applies no
    // boundary filter of its own, and exhaustion still comes only from an
    // empty page.
    let window = WorkWindow { start_epoch: T0_EPOCH, end_epoch: T2_EPOCH };
    let script = vec![batch(&[T0]), empty_page()];
    let report = run_window_script(window, &script, None);
    assert_eq!(report.persisted, vec![PersistKey { first_end: T0_EPOCH, last_end: T0_EPOCH }]);
    assert_eq!(report.cursor, T0_EPOCH);
    assert_eq!(report.state, LoopState::Exhausted);
}

#[test]
fn cursor_may_pass_window_end() {
    // Windows bound dispatch, not data: a batch whose last end-time lies
    // past the window's nominal end still advances the cursor there.
    let window = WorkWindow { start_epoch: T0_EPOCH, end_epoch: T2_EPOCH };
    let late = "2022-12-01 12:00:00"; // 1669896000, past end_epoch
    let script = vec![batch(&[T0, late]), empty_page()];
    let report = run_window_script(window, &script, None);
    assert_eq!(report.state, LoopState::Exhausted);
    assert_eq!(report.cursor, 1669896000);
    assert!(report.cursor > window.end_epoch);
}

#[test]
fn batch_key_from_end_times() {
    let good = vec![stamp(T0), stamp(T1), stamp(T2)];
    assert_eq!(batch_key(&good), Some(PersistKey { first_end: T0_EPOCH, last_end: T2_EPOCH }));
    let single = vec![stamp(T1)];
    assert_eq!(batch_key(&single), Some(PersistKey { first_end: T1_EPOCH, last_end: T1_EPOCH }));
    let bad = vec![stamp(T0), stamp("01.12.2022 08:21:34")];
    assert_eq!(batch_key(&bad), None);
}
