use steep_repl::health::{determine_health_status, pg_version_supported, steep_repl_min_pg_version, HealthStatus};
use steep_repl::progress::{OperationProgress, OperationType, ProgressPhase};
use steep_repl::quiesce::{QuiesceAction, QuiesceEvent, QuiesceStage, QuiesceState};
use steep_repl::types::{MergeStrategy, ReplError, SnapshotPhase, SnapshotStatus, WorkOperation, WorkStatus};
use steep_repl::work_queue::{queue_bidirectional_merge, queue_snapshot_generate, ClaimWorkResult, WorkQueue};
use steep_repl::worker::{execution_phase, finish_work, operation_type_for, process_work_queue, should_stop, ExecuteResult};

#[test]
fn quiesce_zero_timeout_with_writer_fails_and_releases() {
    let (s0, a0) = QuiesceState::begin(0);
    assert_eq!(a0, QuiesceAction::TryLock);
    let (s1, a1) = s0.step(QuiesceEvent::LockResult(true, 1_000));
    assert_eq!(a1, QuiesceAction::CountWriters);
    assert!(s1.lock_held);
    let (s2, a2) = s1.step(QuiesceEvent::ActiveWriters(1, 1_000));
    assert_eq!(a2, QuiesceAction::ReleaseLockAndFail);
    assert_eq!(s2.stage, QuiesceStage::Finished);
    assert_eq!(s2.outcome, Some(Err(ReplError::QuiesceTimeout)));
    assert!(!s2.lock_held);
}

#[test]
fn quiesce_lock_busy_fails_without_lock() {
    let (s0, _) = QuiesceState::begin(30_000);
    let (s1, a1) = s0.step(QuiesceEvent::LockResult(false, 5));
    assert_eq!(a1, QuiesceAction::Fail);
    assert_eq!(s1.outcome, Some(Err(ReplError::QuiesceTimeout)));
    assert!(!s1.lock_held);
}

#[test]
fn quiesce_waits_then_succeeds() {
    let (s0, _) = QuiesceState::begin(1_000);
    let (s1, _) = s0.step(QuiesceEvent::LockResult(true, 100));
    let (s2, a2) = s1.step(QuiesceEvent::ActiveWriters(2, 400));
    assert_eq!(a2, QuiesceAction::PauseThenCountWriters);
    assert!(s2.lock_held);
    let (s3, a3) = s2.step(QuiesceEvent::ActiveWriters(0, 900));
    assert_eq!(a3, QuiesceAction::Succeed);
    assert_eq!(s3.outcome, Some(Ok(())));
    assert!(s3.lock_held);
    let mut done = s3;
    assert!(done.release());
    assert!(!done.lock_held);
    assert!(!done.release());
}

#[test]
fn quiesce_times_out_at_the_limit() {
    let (s0, _) = QuiesceState::begin(1_000);
    let (s1, _) = s0.step(QuiesceEvent::LockResult(true, 100));
    let (s2, a2) = s1.step(QuiesceEvent::ActiveWriters(1, 1_099));
    assert_eq!(a2, QuiesceAction::PauseThenCountWriters);
    let (s3, a3) = s2.step(QuiesceEvent::ActiveWriters(1, 1_100));
    assert_eq!(a3, QuiesceAction::ReleaseLockAndFail);
    assert!(!s3.lock_held);
}

#[test]
fn quiesce_ignores_out_of_turn_events() {
    let (s0, _) = QuiesceState::begin(10);
    let (s1, a1) = s0.step(QuiesceEvent::ActiveWriters(0, 1));
    assert_eq!(a1, QuiesceAction::TryLock);
    assert_eq!(s1.stage, QuiesceStage::AwaitingLock);
}

#[test]
fn worker_claims_runs_and_finishes_job() {
    let mut q = WorkQueue::new();
    let mut p = OperationProgress::new();
    let tables = vec!["public.a".to_string()];
    queue_bidirectional_merge(&mut q, "merge-7", "host=peer", &tables, MergeStrategy::PreferLocal, true, 1).unwrap();
    let id = match process_work_queue(&mut q, &mut p, 321, 5) {
        ClaimWorkResult::Claimed(item) => item.id,
        _ => panic!("expected a claim"),
    };
    assert!(p.active);
    assert_eq!(p.get_operation_type(), OperationType::BidirectionalMerge);
    assert_eq!(p.get_operation_id(), "merge-7");
    assert_eq!(p.work_queue_id, id);
    assert_eq!(p.tables_total, 1);
    assert!(!should_stop(&q, id));
    assert_eq!(finish_work(&mut q, &mut p, id, ExecuteResult::Complete, 9), Ok(()));
    assert_eq!(q.status_of(id), Some(WorkStatus::Complete));
    assert!(!p.has_operation());
    assert!(should_stop(&q, id));
    assert!(matches!(process_work_queue(&mut q, &mut p, 321, 10), ClaimWorkResult::NoWork));
    assert!(!p.has_operation());
}

#[test]
fn worker_records_failure_and_cancellation() {
    let mut q = WorkQueue::new();
    let mut p = OperationProgress::new();
    queue_snapshot_generate(&mut q, "snap_a", "/a", "none", 1, 1).unwrap();
    queue_snapshot_generate(&mut q, "snap_b", "/b", "none", 1, 2).unwrap();
    process_work_queue(&mut q, &mut p, 1, 3);
    assert_eq!(finish_work(&mut q, &mut p, 1, ExecuteResult::Failed("copy failed".to_string()), 4), Ok(()));
    assert_eq!(q.status_of(1), Some(WorkStatus::Failed));
    process_work_queue(&mut q, &mut p, 1, 5);
    assert_eq!(finish_work(&mut q, &mut p, 2, ExecuteResult::Cancelled, 6), Ok(()));
    assert_eq!(q.status_of(2), Some(WorkStatus::Cancelled));
    assert_eq!(finish_work(&mut q, &mut p, 2, ExecuteResult::Complete, 7), Err(ReplError::InvalidTransition));
    assert_eq!(finish_work(&mut q, &mut p, 99, ExecuteResult::Complete, 7), Err(ReplError::NotFound));
}

#[test]
fn operation_kinds_and_phases() {
    assert_eq!(operation_type_for(WorkOperation::SnapshotApply), OperationType::SnapshotApply);
    assert_eq!(execution_phase(WorkOperation::SnapshotGenerate), ProgressPhase::Schema);
    assert_eq!(execution_phase(WorkOperation::BidirectionalMerge), ProgressPhase::Data);
}

#[test]
fn health_from_parts() {
    assert_eq!(determine_health_status(true, false, 0, &None), HealthStatus::Unhealthy);
    assert_eq!(determine_health_status(false, true, 0, &None), HealthStatus::Degraded);
    assert_eq!(determine_health_status(true, true, 3, &Some("x".to_string())), HealthStatus::Degraded);
    assert_eq!(determine_health_status(true, true, 3, &None), HealthStatus::Healthy);
    assert_eq!(HealthStatus::Degraded.as_str(), "degraded");
    assert_eq!(steep_repl_min_pg_version(), 180000);
    assert!(pg_version_supported(180001));
    assert!(!pg_version_supported(170005));
}

#[test]
fn names_round_trip() {
    for op in [WorkOperation::SnapshotGenerate, WorkOperation::SnapshotApply, WorkOperation::BidirectionalMerge] {
        assert_eq!(WorkOperation::from_str(op.as_str()), Some(op));
    }
    assert_eq!(WorkOperation::from_str("merge"), None);
    assert_eq!(WorkStatus::Cancelled.as_str(), "cancelled");
    for s in [MergeStrategy::PreferLocal, MergeStrategy::PreferRemote, MergeStrategy::LastModified] {
        assert_eq!(MergeStrategy::from_str(s.as_str()), Some(s));
    }
    assert_eq!(MergeStrategy::from_str("prefer-node-a"), None);
}

#[test]
fn snapshot_names() {
    assert_eq!(SnapshotStatus::Pending.as_str(), "pending");
    assert_eq!(SnapshotStatus::Generating.as_str(), "generating");
    assert_eq!(SnapshotStatus::Complete.as_str(), "complete");
    assert_eq!(SnapshotStatus::Failed.as_str(), "failed");
    assert_eq!(SnapshotPhase::Idle.as_str(), "idle");
    assert_eq!(SnapshotPhase::Schema.as_str(), "schema");
    assert_eq!(SnapshotPhase::Data.as_str(), "data");
    assert_eq!(WorkStatus::from_str("running"), Some(WorkStatus::Running));
    assert_eq!(WorkStatus::from_str("processing"), None);
}
