use device_sync::ApiRetryClass;
use device_sync::Cursor;
use device_sync::DeviceSyncError;
use device_sync::PassAction;
use device_sync::SegmentFetch;
use device_sync::SnapshotFetch;
use device_sync::StepOutcome;
use device_sync::SyncOrchestrator;

fn established() -> SyncOrchestrator {
    SyncOrchestrator::resume(
        Some(Cursor { segment_index: 4, event_index: 99, staleness_token: 7 }),
        false,
    )
}

#[test]
fn fresh_install_bootstraps_from_snapshot() {
    let mut engine = SyncOrchestrator::new();
    assert_eq!(engine.current_cursor(), None);
    let action = engine.begin_pass();
    assert_eq!(action, PassAction::FetchSnapshot);
    let result = engine.on_snapshot(SnapshotFetch {
        as_of_segment: 12,
        as_of_event: 250,
        staleness_token: 33,
        declared_checksum: 0xfeed,
        computed_checksum: 0xfeed,
        event_count: 251,
    });
    assert!(result.committed);
    assert!(result.snapshot_applied);
    assert_eq!(result.events_applied, 251);
    assert!(result.error.is_none());
    assert_eq!(
        engine.current_cursor(),
        Some(Cursor { segment_index: 12, event_index: 250, staleness_token: 33 })
    );
    assert!(!engine.needs_bootstrap());
}

#[test]
fn corrupt_snapshot_is_rejected_and_bootstrap_retried() {
    let mut engine = SyncOrchestrator::new();
    assert_eq!(engine.begin_pass(), PassAction::FetchSnapshot);
    let result = engine.on_snapshot(SnapshotFetch {
        as_of_segment: 12,
        as_of_event: 250,
        staleness_token: 33,
        declared_checksum: 0xfeed,
        computed_checksum: 0xbad,
        event_count: 251,
    });
    assert!(!result.committed);
    assert!(!result.snapshot_applied);
    let err = result.error.expect("a rejected snapshot reports a failure");
    assert_eq!(err.retry_class(), ApiRetryClass::Retryable);
    assert_eq!(err.error_code(), Some("SYNC_SNAPSHOT_CHECKSUM_MISMATCH"));
    // The old cursor (none) is untouched, so the next pass bootstraps again.
    assert_eq!(engine.current_cursor(), None);
    assert_eq!(engine.begin_pass(), PassAction::FetchSnapshot);
}

#[test]
fn incremental_pass_applies_segments_in_order() {
    let mut engine = established();
    let action = engine.begin_pass();
    assert_eq!(action, PassAction::FetchSegment { segment_index: 5 });
    let out = engine.on_segment(SegmentFetch {
        segment_index: 5,
        first_event: 100,
        last_event: 149,
        declared_checksum: 0xa1,
        computed_checksum: 0xa1,
    });
    match out {
        StepOutcome::Continue { next_segment_index } => assert_eq!(next_segment_index, 6),
        StepOutcome::Finished { .. } => panic!("verified segment must continue the pass"),
    }
    let out = engine.on_segment(SegmentFetch {
        segment_index: 6,
        first_event: 150,
        last_event: 152,
        declared_checksum: 0xb2,
        computed_checksum: 0xb2,
    });
    match out {
        StepOutcome::Continue { next_segment_index } => assert_eq!(next_segment_index, 7),
        StepOutcome::Finished { .. } => panic!("verified segment must continue the pass"),
    }
    let result = engine.on_no_more_segments();
    assert!(result.committed);
    assert_eq!(result.events_applied, 53);
    assert_eq!(
        engine.current_cursor(),
        Some(Cursor { segment_index: 6, event_index: 152, staleness_token: 7 })
    );
}

#[test]
fn event_index_gap_forces_bootstrap_next_pass() {
    let mut engine = established();
    assert_eq!(engine.begin_pass(), PassAction::FetchSegment { segment_index: 5 });
    // Server answer carries the mismatch code for a gap it detected.
    let err = DeviceSyncError::api_structured(
        409,
        "SYNC_EVENT_INDEX_MISMATCH".to_string(),
        "Event index mismatch".to_string(),
        None,
    );
    let result = engine.on_failure(err);
    assert!(!result.committed);
    assert_eq!(
        engine.current_cursor(),
        Some(Cursor { segment_index: 4, event_index: 99, staleness_token: 7 })
    );
    assert!(engine.needs_bootstrap());
    assert_eq!(engine.begin_pass(), PassAction::FetchSnapshot);
}

#[test]
fn locally_detected_gap_forces_bootstrap_next_pass() {
    let mut engine = established();
    assert_eq!(engine.begin_pass(), PassAction::FetchSegment { segment_index: 5 });
    let out = engine.on_segment(SegmentFetch {
        segment_index: 5,
        first_event: 102, // skips events 100 and 101
        last_event: 149,
        declared_checksum: 0xa1,
        computed_checksum: 0xa1,
    });
    match out {
        StepOutcome::Continue { .. } => panic!("a gapped segment must fail the pass"),
        StepOutcome::Finished { result } => {
            assert!(!result.committed);
            let err = result.error.expect("a gapped segment reports a failure");
            assert_eq!(err.error_code(), Some("SYNC_EVENT_INDEX_MISMATCH"));
            assert!(err.is_integrity_error());
        }
    }
    assert_eq!(
        engine.current_cursor(),
        Some(Cursor { segment_index: 4, event_index: 99, staleness_token: 7 })
    );
    assert!(engine.needs_bootstrap());
    assert_eq!(engine.begin_pass(), PassAction::FetchSnapshot);
}

#[test]
fn corrupt_segment_leaves_cursor_and_forces_bootstrap() {
    let mut engine = established();
    assert_eq!(engine.begin_pass(), PassAction::FetchSegment { segment_index: 5 });
    let out = engine.on_segment(SegmentFetch {
        segment_index: 5,
        first_event: 100,
        last_event: 149,
        declared_checksum: 0xa1,
        computed_checksum: 0xdead,
    });
    match out {
        StepOutcome::Continue { .. } => panic!("a corrupt segment must fail the pass"),
        StepOutcome::Finished { result } => {
            let err = result.error.expect("a corrupt segment reports a failure");
            assert_eq!(err.error_code(), Some("SYNC_SEGMENT_CHECKSUM_MISMATCH"));
            assert_eq!(err.retry_class(), ApiRetryClass::Retryable);
        }
    }
    assert_eq!(
        engine.current_cursor(),
        Some(Cursor { segment_index: 4, event_index: 99, staleness_token: 7 })
    );
    assert!(engine.needs_bootstrap());
}

#[test]
fn rate_limited_pass_retries_same_segment() {
    let mut engine = established();
    assert_eq!(engine.begin_pass(), PassAction::FetchSegment { segment_index: 5 });
    let result = engine.on_failure(DeviceSyncError::api(429, "slow down".to_string()));
    assert!(!result.committed);
    let err = result.error.expect("the failed pass carries its error");
    assert_eq!(err.retry_class(), ApiRetryClass::Retryable);
    assert_eq!(
        engine.current_cursor(),
        Some(Cursor { segment_index: 4, event_index: 99, staleness_token: 7 })
    );
    assert!(!engine.needs_bootstrap());
    // The next scheduled pass asks for the very same segment and succeeds.
    assert_eq!(engine.begin_pass(), PassAction::FetchSegment { segment_index: 5 });
    let out = engine.on_segment(SegmentFetch {
        segment_index: 5,
        first_event: 100,
        last_event: 119,
        declared_checksum: 0xa1,
        computed_checksum: 0xa1,
    });
    assert!(matches!(out, StepOutcome::Continue { next_segment_index: 6 }));
    let result = engine.on_no_more_segments();
    assert!(result.committed);
    assert_eq!(result.events_applied, 20);
}

#[test]
fn interrupted_pass_refetches_the_same_segment() {
    let mut engine = established();
    assert_eq!(engine.begin_pass(), PassAction::FetchSegment { segment_index: 5 });
    // The process dies after the segment was verified but before the
    // orchestrator committed it: the persisted state still holds the old
    // cursor, and the rebuilt engine fetches the same segment again.
    engine.abandon_pass();
    let persisted = engine.current_cursor();
    let pending = engine.needs_bootstrap();
    assert_eq!(
        persisted,
        Some(Cursor { segment_index: 4, event_index: 99, staleness_token: 7 })
    );
    let mut rebuilt = SyncOrchestrator::resume(persisted, pending);
    assert_eq!(rebuilt.begin_pass(), PassAction::FetchSegment { segment_index: 5 });
}

#[test]
fn stale_cursor_forces_bootstrap_and_replaces_cursor_wholesale() {
    let mut engine = established();
    assert_eq!(engine.begin_pass(), PassAction::FetchSegment { segment_index: 5 });
    let err = DeviceSyncError::api_structured(
        409,
        "SYNC_CURSOR_TOO_OLD".to_string(),
        "Cursor too old".to_string(),
        None,
    );
    let result = engine.on_failure(err);
    assert!(!result.committed);
    assert_eq!(
        engine.current_cursor(),
        Some(Cursor { segment_index: 4, event_index: 99, staleness_token: 7 })
    );
    assert!(engine.needs_bootstrap());
    // The remedy is bootstrap via snapshot; the cursor is replaced wholesale,
    // and may legitimately move backwards by this one route.
    assert_eq!(engine.begin_pass(), PassAction::FetchSnapshot);
    let result = engine.on_snapshot(SnapshotFetch {
        as_of_segment: 2,
        as_of_event: 40,
        staleness_token: 90,
        declared_checksum: 5,
        computed_checksum: 5,
        event_count: 41,
    });
    assert!(result.committed);
    assert!(result.snapshot_applied);
    assert_eq!(
        engine.current_cursor(),
        Some(Cursor { segment_index: 2, event_index: 40, staleness_token: 90 })
    );
    assert!(!engine.needs_bootstrap());
    // The pass after a successful bootstrap is incremental from the as-of
    // position.
    assert_eq!(engine.begin_pass(), PassAction::FetchSegment { segment_index: 3 });
}

#[test]
fn concurrent_pass_requests_are_coalesced() {
    let mut engine = established();
    assert_eq!(engine.begin_pass(), PassAction::FetchSegment { segment_index: 5 });
    assert!(engine.pass_in_flight());
    assert_eq!(engine.begin_pass(), PassAction::AlreadyRunning);
    assert_eq!(
        engine.current_cursor(),
        Some(Cursor { segment_index: 4, event_index: 99, staleness_token: 7 })
    );
}

#[test]
fn cursor_event_index_never_decreases_without_bootstrap() {
    let mut engine = established();
    let mut history = vec![engine.current_cursor()];
    engine.begin_pass();
    history.push(engine.current_cursor());
    engine.on_segment(SegmentFetch {
        segment_index: 5,
        first_event: 100,
        last_event: 149,
        declared_checksum: 1,
        computed_checksum: 1,
    });
    history.push(engine.current_cursor());
    engine.on_failure(DeviceSyncError::api(500, "server fell over".to_string()));
    history.push(engine.current_cursor());
    engine.begin_pass();
    engine.on_no_more_segments();
    history.push(engine.current_cursor());
    engine.begin_pass();
    engine.abandon_pass();
    history.push(engine.current_cursor());
    let mut last = 0u64;
    for cursor in history {
        let c = cursor.expect("the established engine always has a cursor");
        assert!(c.event_index >= last);
        last = c.event_index;
    }
}
