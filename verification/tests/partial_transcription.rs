use vox_golem::partial_transcription::{
    new_partial_transcription_scheduler, PartialTranscriptionAction, PartialTranscriptionConfig,
    PartialTranscriptionScheduler,
};

fn scheduler() -> PartialTranscriptionScheduler<f32> {
    PartialTranscriptionScheduler::new(PartialTranscriptionConfig {
        minimum_samples: 3,
        throttle_ms: 100,
        maximum_copied_samples: 4,
    })
}

#[test]
fn threshold_throttle_and_bounded_copy() {
    let mut s = scheduler();
    s.start_session(7);
    assert_eq!(
        s.request_snapshot(0, &[1.0, 2.0]),
        PartialTranscriptionAction::Ignore
    );
    assert_eq!(
        s.request_snapshot(0, &[1., 2., 3., 4., 5.]),
        PartialTranscriptionAction::StartSnapshot {
            session_id: 7,
            revision: 1,
            samples: vec![2., 3., 4., 5.]
        }
    );
    assert_eq!(
        s.request_snapshot(50, &[9., 8., 7.]),
        PartialTranscriptionAction::Ignore
    );
}

#[test]
fn busy_requests_coalesce_to_latest() {
    let mut s = scheduler();
    s.start_session(1);
    let first = s.request_snapshot(0, &[1., 2., 3.]);
    assert_eq!(
        s.request_snapshot(1, &[4., 5., 6.]),
        PartialTranscriptionAction::Ignore
    );
    assert_eq!(
        s.complete(100, 1, 1, String::from("old")),
        PartialTranscriptionAction::StartSnapshot {
            session_id: 1,
            revision: 2,
            samples: vec![4., 5., 6.]
        }
    );
    assert!(matches!(
        first,
        PartialTranscriptionAction::StartSnapshot { .. }
    ));
}

#[test]
fn completion_before_throttle_retains_pending_snapshot() {
    let mut s = scheduler();
    s.start_session(1);
    let _ = s.request_snapshot(0, &[1., 2., 3.]);
    let _ = s.request_snapshot(10, &[4., 5., 6.]);

    assert_eq!(
        s.complete(50, 1, 1, String::from("old")),
        PartialTranscriptionAction::Ignore
    );
    assert_eq!(
        s.pending.as_ref().map(|snapshot| snapshot.revision),
        Some(2)
    );
}

#[test]
fn post_throttle_snapshot_supersedes_completed_pending_revision() {
    let mut s = scheduler();
    s.start_session(1);
    assert!(matches!(
        s.request_snapshot(0, &[1., 2., 3.]),
        PartialTranscriptionAction::StartSnapshot { revision: 1, .. }
    ));
    let _ = s.request_snapshot(10, &[4., 5., 6.]);
    assert_eq!(
        s.complete(50, 1, 1, "old".into()),
        PartialTranscriptionAction::Ignore
    );
    assert_eq!(
        s.request_snapshot(100, &[7., 8., 9.]),
        PartialTranscriptionAction::StartSnapshot {
            session_id: 1,
            revision: 3,
            samples: vec![7., 8., 9.]
        }
    );
    assert_eq!(
        s.complete(101, 1, 3, "new".into()),
        PartialTranscriptionAction::PublishText {
            session_id: 1,
            revision: 3,
            text: "new".into()
        }
    );
}

#[test]
fn reset_and_finalize_reject_stale_results() {
    let mut s = scheduler();
    s.start_session(1);
    let _ = s.request_snapshot(0, &[1., 2., 3.]);
    s.reset();
    assert_eq!(
        s.complete(1, 1, 1, "stale".into()),
        PartialTranscriptionAction::Ignore
    );
    s.start_session(2);
    let _ = s.request_snapshot(2, &[1., 2., 3.]);
    s.finalize();
    assert_eq!(
        s.complete(200, 2, 1, "stale".into()),
        PartialTranscriptionAction::Ignore
    );
}

#[test]
fn new_session_keeps_old_slot_and_stale_completion_starts_pending() {
    let mut s = scheduler();
    s.start_session(1);
    let _ = s.request_snapshot(0, &[1., 2., 3.]);
    s.reset();
    s.start_session(2);
    assert_eq!(
        s.request_snapshot(10, &[4., 5., 6.]),
        PartialTranscriptionAction::Ignore
    );
    assert_eq!(
        s.complete(100, 1, 1, "stale".into()),
        PartialTranscriptionAction::StartSnapshot {
            session_id: 2,
            revision: 2,
            samples: vec![4., 5., 6.]
        }
    );
    assert_eq!(s.in_flight.as_ref().map(|x| x.session_id), Some(2));
}

#[test]
fn busy_requests_inside_throttle_do_not_copy_or_advance_revision() {
    let mut s = scheduler();
    s.start_session(1);
    let _ = s.request_snapshot(0, &[1., 2., 3.]);
    let _ = s.request_snapshot(10, &[4., 5., 6.]);
    let _ = s.request_snapshot(20, &[7., 8., 9.]);
    assert_eq!(s.next_revision, 2);
    assert_eq!(s.pending.as_ref().unwrap().samples, vec![4., 5., 6.]);
    assert_eq!(
        s.request_snapshot(110, &[7., 8., 9.]),
        PartialTranscriptionAction::Ignore
    );
    assert_eq!(s.next_revision, 3);
    assert_eq!(s.pending.as_ref().unwrap().samples, vec![7., 8., 9.]);
}

#[test]
fn requests_outside_a_session_are_ignored() {
    let mut s = scheduler();
    assert_eq!(
        s.request_snapshot(0, &[1., 2., 3., 4.]),
        PartialTranscriptionAction::Ignore
    );
    assert_eq!(s.next_revision, 0);
}

#[test]
fn the_default_scheduler_waits_for_half_a_second_of_speech() {
    let mut s: PartialTranscriptionScheduler<u8> = new_partial_transcription_scheduler();
    s.start_session(1);
    assert_eq!(
        s.request_snapshot(0, &vec![0; 7999]),
        PartialTranscriptionAction::Ignore
    );
    assert!(matches!(
        s.request_snapshot(0, &vec![0; 8000]),
        PartialTranscriptionAction::StartSnapshot { revision: 1, .. }
    ));
}
