use steep_repl::types::{MergeStrategy, ReplError, WorkOperation, WorkStatus};
use steep_repl::work_queue::{
    cancel_work_entry, check_snapshot_options, claim_next_work, complete_work_entry,
    fail_work_entry, find_active_job_for, get_pending_work_count, get_running_work_count,
    queue_bidirectional_merge, queue_snapshot_apply, queue_snapshot_generate,
    recover_abandoned_work, ClaimWorkResult, JobError, MergeParams, SnapshotParams, WorkParams,
    WorkQueue,
};

fn snapshot_params() -> WorkParams {
    WorkParams {
        snapshot: Some(SnapshotParams {
            path: "/tmp/snap".to_string(),
            compression: Some("gzip".to_string()),
            parallel: 4,
            verify: false,
        }),
        merge: None,
        tables_total: 0,
        bytes_total: 0,
        rows_total: 0,
    }
}

fn merge_params() -> WorkParams {
    WorkParams {
        snapshot: None,
        merge: Some(MergeParams {
            peer_connstr: "host=peer".to_string(),
            tables: vec!["public.users".to_string()],
            strategy: MergeStrategy::PreferLocal,
            dry_run: true,
        }),
        tables_total: 1,
        bytes_total: 0,
        rows_total: 0,
    }
}

fn claimed_id(r: ClaimWorkResult) -> u64 {
    match r {
        ClaimWorkResult::Claimed(item) => item.id,
        ClaimWorkResult::NoWork => panic!("expected a claim, got no work"),
        ClaimWorkResult::Error(e) => panic!("expected a claim, got error {}", e),
    }
}

#[test]
fn enqueue_assigns_increasing_ids() {
    let mut q = WorkQueue::new();
    let a = q.enqueue(WorkOperation::SnapshotGenerate, "snap_a".to_string(), snapshot_params(), 10);
    let b = q.enqueue(WorkOperation::BidirectionalMerge, "m1".to_string(), merge_params(), 11);
    assert_eq!(a, Ok(1));
    assert_eq!(b, Ok(2));
    assert_eq!(q.len(), 2);
    assert_eq!(q.next_id(), 3);
    assert_eq!(get_pending_work_count(&q), 2);
}

#[test]
fn enqueue_rejects_mismatched_parameters() {
    let mut q = WorkQueue::new();
    let r = q.enqueue(WorkOperation::BidirectionalMerge, "m1".to_string(), snapshot_params(), 10);
    assert_eq!(r, Err(ReplError::InvalidOperation));
    let r = q.enqueue(WorkOperation::SnapshotApply, "s".to_string(), merge_params(), 10);
    assert_eq!(r, Err(ReplError::InvalidOperation));
    let both = WorkParams {
        snapshot: snapshot_params().snapshot,
        merge: merge_params().merge,
        tables_total: 0,
        bytes_total: 0,
        rows_total: 0,
    };
    let r = q.enqueue(WorkOperation::SnapshotGenerate, "s".to_string(), both, 10);
    assert_eq!(r, Err(ReplError::InvalidOperation));
    assert_eq!(q.len(), 0);
    assert_eq!(q.next_id(), 1);
}

#[test]
fn claim_takes_oldest_pending_first() {
    let mut q = WorkQueue::new();
    q.enqueue(WorkOperation::SnapshotGenerate, "late".to_string(), snapshot_params(), 50).unwrap();
    q.enqueue(WorkOperation::SnapshotGenerate, "early".to_string(), snapshot_params(), 20).unwrap();
    q.enqueue(WorkOperation::SnapshotGenerate, "tie".to_string(), snapshot_params(), 20).unwrap();
    match claim_next_work(&mut q, 700, 60) {
        ClaimWorkResult::Claimed(item) => {
            assert_eq!(item.id, 2);
            assert_eq!(item.subject_id, "early");
            assert_eq!(item.status, WorkStatus::Running);
            assert_eq!(item.claimant, Some(700));
            assert_eq!(item.started_at, Some(60));
        }
        _ => panic!("expected a claim"),
    }
    assert_eq!(claimed_id(claim_next_work(&mut q, 701, 61)), 3);
    assert_eq!(claimed_id(claim_next_work(&mut q, 702, 62)), 1);
    assert!(matches!(claim_next_work(&mut q, 703, 63), ClaimWorkResult::NoWork));
}

#[test]
fn claims_by_many_workers_never_share_a_job() {
    let mut q = WorkQueue::new();
    for i in 0..5 {
        q.enqueue(WorkOperation::SnapshotApply, format!("s{}", i), snapshot_params(), 100).unwrap();
    }
    let mut seen = Vec::new();
    for worker in 0..8u32 {
        match claim_next_work(&mut q, 1000 + worker, 200) {
            ClaimWorkResult::Claimed(item) => {
                assert!(!seen.contains(&item.id));
                seen.push(item.id);
            }
            ClaimWorkResult::NoWork => {}
            ClaimWorkResult::Error(e) => panic!("unexpected error {}", e),
        }
    }
    seen.sort();
    assert_eq!(seen, vec![1, 2, 3, 4, 5]);
    assert_eq!(get_running_work_count(&q), 5);
    assert_eq!(get_pending_work_count(&q), 0);
}

#[test]
fn claim_on_empty_queue_is_no_work() {
    let mut q = WorkQueue::new();
    assert!(matches!(claim_next_work(&mut q, 1, 1), ClaimWorkResult::NoWork));
}

#[test]
fn complete_requires_running() {
    let mut q = WorkQueue::new();
    let id = q.enqueue(WorkOperation::SnapshotGenerate, "s".to_string(), snapshot_params(), 1).unwrap();
    assert_eq!(complete_work_entry(&mut q, id, 2), Err(ReplError::InvalidTransition));
    assert_eq!(get_pending_work_count(&q), 1);
    claim_next_work(&mut q, 9, 3);
    assert_eq!(complete_work_entry(&mut q, id, 4), Ok(()));
    assert_eq!(q.status_of(id), Some(WorkStatus::Complete));
    assert_eq!(complete_work_entry(&mut q, id, 5), Err(ReplError::InvalidTransition));
    assert_eq!(cancel_work_entry(&mut q, id, 6), Err(ReplError::InvalidTransition));
    assert_eq!(q.status_of(id), Some(WorkStatus::Complete));
}

#[test]
fn unknown_job_is_not_found() {
    let mut q = WorkQueue::new();
    assert_eq!(complete_work_entry(&mut q, 42, 1), Err(ReplError::NotFound));
    assert_eq!(fail_work_entry(&mut q, 42, "x".to_string(), 1), Err(ReplError::NotFound));
    assert_eq!(cancel_work_entry(&mut q, 42, 1), Err(ReplError::NotFound));
    assert_eq!(q.status_of(42), None);
}

#[test]
fn fail_records_message_and_clears_claimant() {
    let mut q = WorkQueue::new();
    let id = q.enqueue(WorkOperation::SnapshotGenerate, "s".to_string(), snapshot_params(), 1).unwrap();
    assert_eq!(fail_work_entry(&mut q, id, "boom".to_string(), 2), Err(ReplError::InvalidTransition));
    claim_next_work(&mut q, 9, 3);
    assert_eq!(fail_work_entry(&mut q, id, "it's broken".to_string(), 4), Ok(()));
    assert_eq!(q.status_of(id), Some(WorkStatus::Failed));
    assert_eq!(get_running_work_count(&q), 0);
}

#[test]
fn cancel_from_pending_and_running() {
    let mut q = WorkQueue::new();
    let a = q.enqueue(WorkOperation::SnapshotGenerate, "a".to_string(), snapshot_params(), 1).unwrap();
    let b = q.enqueue(WorkOperation::SnapshotGenerate, "b".to_string(), snapshot_params(), 2).unwrap();
    assert_eq!(cancel_work_entry(&mut q, a, 3), Ok(()));
    assert_eq!(claimed_id(claim_next_work(&mut q, 5, 4)), b);
    assert_eq!(cancel_work_entry(&mut q, b, 5), Ok(()));
    assert_eq!(q.status_of(a), Some(WorkStatus::Cancelled));
    assert_eq!(q.status_of(b), Some(WorkStatus::Cancelled));
    assert_eq!(cancel_work_entry(&mut q, b, 6), Err(ReplError::InvalidTransition));
    assert!(matches!(claim_next_work(&mut q, 5, 7), ClaimWorkResult::NoWork));
}

#[test]
fn pending_job_cannot_complete_without_running() {
    let mut q = WorkQueue::new();
    let id = q.enqueue(WorkOperation::SnapshotApply, "s".to_string(), snapshot_params(), 1).unwrap();
    assert_eq!(complete_work_entry(&mut q, id, 2), Err(ReplError::InvalidTransition));
    assert_eq!(fail_work_entry(&mut q, id, "e".to_string(), 2), Err(ReplError::InvalidTransition));
    assert_eq!(q.status_of(id), Some(WorkStatus::Pending));
    claim_next_work(&mut q, 1, 3);
    assert_eq!(q.status_of(id), Some(WorkStatus::Running));
    assert_eq!(complete_work_entry(&mut q, id, 4), Ok(()));
}

#[test]
fn recover_fails_only_jobs_of_dead_claimants() {
    let mut q = WorkQueue::new();
    for i in 0..3 {
        q.enqueue(WorkOperation::SnapshotGenerate, format!("s{}", i), snapshot_params(), i).unwrap();
    }
    q.enqueue(WorkOperation::SnapshotGenerate, "waiting".to_string(), snapshot_params(), 9).unwrap();
    assert_eq!(claimed_id(claim_next_work(&mut q, 100, 10)), 1);
    assert_eq!(claimed_id(claim_next_work(&mut q, 200, 10)), 2);
    assert_eq!(claimed_id(claim_next_work(&mut q, 300, 10)), 3);
    let live = vec![100, 300, 999];
    assert_eq!(recover_abandoned_work(&mut q, &live, 20), 1);
    assert_eq!(q.status_of(1), Some(WorkStatus::Running));
    assert_eq!(q.status_of(2), Some(WorkStatus::Failed));
    assert_eq!(q.status_of(3), Some(WorkStatus::Running));
    assert_eq!(q.status_of(4), Some(WorkStatus::Pending));
    assert_eq!(recover_abandoned_work(&mut q, &live, 21), 0);
    assert_eq!(recover_abandoned_work(&mut q, &vec![], 22), 2);
    assert_eq!(get_running_work_count(&q), 0);
    assert_eq!(get_pending_work_count(&q), 1);
}

#[test]
fn recovered_job_records_dead_claimant() {
    let mut q = WorkQueue::new();
    let id = q.enqueue(WorkOperation::SnapshotGenerate, "s".to_string(), snapshot_params(), 1).unwrap();
    match claim_next_work(&mut q, 4242, 2) {
        ClaimWorkResult::Claimed(_) => {}
        _ => panic!("expected a claim"),
    }
    assert_eq!(recover_abandoned_work(&mut q, &vec![1, 2, 3], 3), 1);
    assert_eq!(q.status_of(id), Some(WorkStatus::Failed));
    assert_eq!(complete_work_entry(&mut q, id, 4), Err(ReplError::InvalidTransition));
    let e = JobError::ClaimantTerminated(4242);
    assert!(matches!(e, JobError::ClaimantTerminated(4242)));
}

#[test]
fn queue_helpers_fill_parameters() {
    let mut q = WorkQueue::new();
    let g = queue_snapshot_generate(&mut q, "snap_1", "/out", "zstd", 8, 1);
    let a = queue_snapshot_apply(&mut q, "snap_1", "/in", 2, true, 2);
    let tables = vec!["public.a".to_string(), "public.b".to_string()];
    let m = queue_bidirectional_merge(&mut q, "merge-1", "host=peer", &tables, MergeStrategy::LastModified, false, 3);
    assert_eq!((g, a, m), (Ok(1), Ok(2), Ok(3)));
    match claim_next_work(&mut q, 1, 4) {
        ClaimWorkResult::Claimed(item) => {
            assert_eq!(item.operation, WorkOperation::SnapshotGenerate);
            let p = item.params.snapshot.expect("snapshot parameters");
            assert_eq!(p.path, "/out");
            assert_eq!(p.compression, Some("zstd".to_string()));
            assert_eq!(p.parallel, 8);
            assert!(item.params.merge.is_none());
        }
        _ => panic!("expected a claim"),
    }
    claim_next_work(&mut q, 1, 5);
    match claim_next_work(&mut q, 1, 6) {
        ClaimWorkResult::Claimed(item) => {
            assert_eq!(item.operation, WorkOperation::BidirectionalMerge);
            assert_eq!(item.subject_id, "merge-1");
            assert_eq!(item.params.tables_total, 2);
            let m = item.params.merge.expect("merge parameters");
            assert_eq!(m.tables, tables);
            assert_eq!(m.strategy, MergeStrategy::LastModified);
            assert!(!m.dry_run);
        }
        _ => panic!("expected a claim"),
    }
}

#[test]
fn find_active_job_picks_newest() {
    let mut q = WorkQueue::new();
    queue_snapshot_generate(&mut q, "snap_x", "/a", "none", 1, 1).unwrap();
    queue_snapshot_generate(&mut q, "snap_x", "/b", "none", 1, 2).unwrap();
    queue_snapshot_generate(&mut q, "snap_y", "/c", "none", 1, 3).unwrap();
    assert_eq!(find_active_job_for(&q, "snap_x"), Some(2));
    cancel_work_entry(&mut q, 2, 4).unwrap();
    assert_eq!(find_active_job_for(&q, "snap_x"), Some(1));
    assert_eq!(find_active_job_for(&q, "snap_z"), None);
}

#[test]
fn snapshot_options_are_checked() {
    assert_eq!(check_snapshot_options("none", 4), Ok(()));
    assert_eq!(check_snapshot_options("zstd", 1), Ok(()));
    assert_eq!(check_snapshot_options("lz4", 32), Ok(()));
    assert_eq!(check_snapshot_options("brotli", 4), Err(ReplError::InvalidOperation));
    assert_eq!(check_snapshot_options("gzip", 0), Err(ReplError::InvalidOperation));
    assert_eq!(check_snapshot_options("gzip", 33), Err(ReplError::InvalidOperation));
}

#[test]
fn queue_rebuilt_from_stored_rows() {
    let mut q = WorkQueue::new();
    q.enqueue(WorkOperation::SnapshotGenerate, "a".to_string(), snapshot_params(), 1).unwrap();
    q.enqueue(WorkOperation::SnapshotGenerate, "b".to_string(), snapshot_params(), 2).unwrap();
    claim_next_work(&mut q, 5, 3);
    let copies: Vec<_> = q.items().iter().map(|w| w.copy()).collect();
    let rebuilt = WorkQueue::from_items(copies, 3).expect("consistent rows");
    assert_eq!(rebuilt.len(), 2);
    assert_eq!(rebuilt.status_of(1), Some(WorkStatus::Running));
    let copies: Vec<_> = q.items().iter().map(|w| w.copy()).collect();
    assert!(WorkQueue::from_items(copies, 2).is_none());
    let mut bad = q.items()[1].copy();
    bad.status = WorkStatus::Running;
    assert!(WorkQueue::from_items(vec![bad], 10).is_none());
    let mut swapped: Vec<_> = q.items().iter().map(|w| w.copy()).collect();
    swapped.reverse();
    assert!(WorkQueue::from_items(swapped, 10).is_none());
}

#[test]
fn cancel_target_is_latest_created() {
    let mut q = WorkQueue::new();
    queue_snapshot_generate(&mut q, "s", "/a", "none", 1, 50).unwrap();
    queue_snapshot_generate(&mut q, "s", "/b", "none", 1, 20).unwrap();
    queue_snapshot_generate(&mut q, "s", "/c", "none", 1, 50).unwrap();
    assert_eq!(find_active_job_for(&q, "s"), Some(3));
    cancel_work_entry(&mut q, 3, 60).unwrap();
    assert_eq!(find_active_job_for(&q, "s"), Some(1));
    cancel_work_entry(&mut q, 1, 61).unwrap();
    assert_eq!(find_active_job_for(&q, "s"), Some(2));
}

#[test]
fn queue_never_hands_out_id_zero() {
    assert!(WorkQueue::from_items(Vec::new(), 0).is_none());
    let mut q = WorkQueue::from_items(Vec::new(), 1).expect("empty queue");
    assert_eq!(queue_snapshot_generate(&mut q, "s", "/a", "zstd", 4, 1), Ok(1));
    assert_eq!(get_pending_work_count(&q), 1);
}
