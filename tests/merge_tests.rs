use steep_repl::merge::{
    compare_table_rows, compare_table_summary, decide_row, plan_action, resolve,
    rows_needing_payload, summarize_overlaps, MergeAction, MergeCounts, MergeOperation,
    OverlapCategory, OverlapResult, Resolution, RowHash,
};
use steep_repl::quiesce::{QuiesceEvent, QuiesceState};
use steep_repl::types::{MergeStrategy, ReplError};

/// Stand-in for the store's row hash: a fixed function of the row text.
fn text_hash(s: &str) -> i64 {
    let mut h: i64 = 1469598103934665603u64 as i64;
    for b in s.bytes() {
        h ^= b as i64;
        h = h.wrapping_mul(1099511628211);
    }
    h
}

fn rows(items: &[(i64, &str)]) -> Vec<RowHash> {
    items
        .iter()
        .map(|(k, v)| RowHash {
            pk_value: format!("{{\"id\": {}}}", k),
            row_hash: text_hash(&format!("({},{})", k, v)),
        })
        .collect()
}

fn categories(r: &[OverlapResult]) -> Vec<(String, OverlapCategory)> {
    r.iter().map(|o| (o.pk_value.clone(), o.category)).collect()
}

#[test]
fn classification_of_two_small_tables() {
    let local = rows(&[(1, "a"), (2, "b")]);
    let remote = rows(&[(2, "b"), (3, "c")]);
    let r = compare_table_rows(&local, &remote);
    assert_eq!(
        categories(&r),
        vec![
            ("{\"id\": 1}".to_string(), OverlapCategory::LocalOnly),
            ("{\"id\": 2}".to_string(), OverlapCategory::Match),
            ("{\"id\": 3}".to_string(), OverlapCategory::RemoteOnly),
        ]
    );
    let s = compare_table_summary("public", "t", &local, &remote);
    assert_eq!(s.total_rows, 3);
    assert_eq!(s.matches, 1);
    assert_eq!(s.local_only, 1);
    assert_eq!(s.remote_only, 1);
    assert_eq!(s.conflicts, 0);
    assert_eq!(s.table_schema, "public");
    assert_eq!(s.table_name, "t");
}

#[test]
fn differing_hash_is_conflict() {
    let local = rows(&[(1, "a"), (2, "b")]);
    let remote = rows(&[(1, "a"), (2, "B")]);
    let r = compare_table_rows(&local, &remote);
    assert_eq!(r.len(), 2);
    assert_eq!(r[0].category, OverlapCategory::Match);
    assert_eq!(r[1].category, OverlapCategory::Conflict);
    assert_eq!(r[1].local_hash, Some(local[1].row_hash));
    assert_eq!(r[1].remote_hash, Some(remote[1].row_hash));
}

#[test]
fn hashes_are_carried_per_side() {
    let local = rows(&[(1, "a")]);
    let remote = rows(&[(2, "b")]);
    let r = compare_table_rows(&local, &remote);
    assert_eq!(r[0].local_hash, Some(local[0].row_hash));
    assert_eq!(r[0].remote_hash, None);
    assert_eq!(r[1].local_hash, None);
    assert_eq!(r[1].remote_hash, Some(remote[0].row_hash));
}

#[test]
fn empty_tables_compare_empty() {
    let r = compare_table_rows(&vec![], &vec![]);
    assert!(r.is_empty());
    let s = summarize_overlaps("s", "t", &r);
    assert_eq!((s.total_rows, s.matches, s.conflicts, s.local_only, s.remote_only), (0, 0, 0, 0, 0));
    let only_remote = compare_table_rows(&vec![], &rows(&[(5, "x"), (6, "y")]));
    assert_eq!(only_remote.len(), 2);
    assert!(only_remote.iter().all(|o| o.category == OverlapCategory::RemoteOnly));
}

#[test]
fn strategies_settle_conflicts() {
    let c = OverlapCategory::Conflict;
    for (l, r) in [(0i64, 0i64), (5, 9), (9, 5), (i64::MIN, i64::MAX)] {
        assert_eq!(resolve(c, MergeStrategy::PreferLocal, l, r), Some(Resolution::KeptLocal));
        assert_eq!(resolve(c, MergeStrategy::PreferRemote, l, r), Some(Resolution::KeptRemote));
    }
    assert_eq!(resolve(c, MergeStrategy::LastModified, 5, 9), Some(Resolution::KeptRemote));
    assert_eq!(resolve(c, MergeStrategy::LastModified, 9, 5), Some(Resolution::KeptLocal));
    assert_eq!(resolve(c, MergeStrategy::LastModified, 7, 7), Some(Resolution::KeptLocal));
}

#[test]
fn one_sided_rows_are_kept_and_matches_need_nothing() {
    for s in [MergeStrategy::PreferLocal, MergeStrategy::PreferRemote, MergeStrategy::LastModified] {
        assert_eq!(resolve(OverlapCategory::Match, s, 1, 2), None);
        assert_eq!(resolve(OverlapCategory::LocalOnly, s, 1, 2), Some(Resolution::KeptLocal));
        assert_eq!(resolve(OverlapCategory::RemoteOnly, s, 2, 1), Some(Resolution::KeptRemote));
    }
}

#[test]
fn payload_only_for_rows_that_differ() {
    let local = rows(&[(1, "a"), (2, "b"), (4, "d")]);
    let remote = rows(&[(2, "b"), (3, "c"), (4, "D")]);
    let r = compare_table_rows(&local, &remote);
    assert_eq!(
        rows_needing_payload(&r),
        vec!["{\"id\": 1}".to_string(), "{\"id\": 4}".to_string(), "{\"id\": 3}".to_string()]
    );
}

#[test]
fn decisions_record_values_and_strategy() {
    let row = OverlapResult {
        pk_value: "{\"id\": 4}".to_string(),
        category: OverlapCategory::Conflict,
        local_hash: Some(1),
        remote_hash: Some(2),
    };
    let d = decide_row(
        "public",
        "users",
        &row,
        MergeStrategy::LastModified,
        Some("(4,d)".to_string()),
        Some("(4,D)".to_string()),
        100,
        200,
    );
    assert_eq!(d.resolution, Some(Resolution::KeptRemote));
    assert_eq!(d.resolved_by, "strategy:last-modified");
    assert_eq!(d.local_value, Some("(4,d)".to_string()));
    assert_eq!(d.remote_value, Some("(4,D)".to_string()));
    assert_eq!(d.table_name, "users");
    assert_eq!(plan_action(&d, false), MergeAction::WriteLocal);
    assert_eq!(plan_action(&d, true), MergeAction::NoChange);

    let only_local = OverlapResult { category: OverlapCategory::LocalOnly, remote_hash: None, ..row };
    let d = decide_row("public", "users", &only_local, MergeStrategy::PreferRemote, Some("(4,d)".to_string()), Some("stale".to_string()), 0, 0);
    assert_eq!(d.resolution, Some(Resolution::KeptLocal));
    assert_eq!(d.remote_value, None);
    assert_eq!(d.resolved_by, "strategy:prefer-remote");
    assert_eq!(plan_action(&d, false), MergeAction::WriteRemote);
}

#[test]
fn counts_accumulate_and_failures_are_listed() {
    let local = rows(&[(1, "a"), (2, "b")]);
    let remote = rows(&[(2, "x"), (3, "c")]);
    let s = compare_table_summary("public", "t", &local, &remote);
    let wet = MergeCounts::from_summary(&s, false);
    assert_eq!((wet.match_count, wet.conflict_count, wet.local_only_count, wet.remote_only_count), (0, 1, 1, 1));
    assert_eq!(wet.rows_merged, 3);
    let dry = MergeCounts::from_summary(&s, true);
    assert_eq!(dry.rows_merged, 0);

    let mut op = MergeOperation::new("m-1", MergeStrategy::PreferLocal, false);
    op.record_table("public.t", &Ok(wet));
    op.record_table("public.gone", &Err(ReplError::RemoteUnavailable));
    op.record_table("public.t2", &Ok(MergeCounts::from_summary(&s, false)));
    assert_eq!(op.tables_completed, 2);
    assert_eq!(op.counts.rows_merged, 6);
    assert_eq!(op.counts.conflict_count, 2);
    assert_eq!(op.failed_tables.len(), 1);
    assert_eq!(op.failed_tables[0].table, "public.gone");
    assert_eq!(op.failed_tables[0].error, ReplError::RemoteUnavailable);
}

#[test]
fn counts_saturate() {
    let mut a = MergeCounts::new();
    a.rows_merged = u64::MAX - 1;
    let mut b = MergeCounts::new();
    b.rows_merged = 5;
    b.match_count = 3;
    a.absorb(&b);
    assert_eq!(a.rows_merged, u64::MAX);
    assert_eq!(a.match_count, 3);
}

#[test]
fn category_and_resolution_names() {
    assert_eq!(OverlapCategory::LocalOnly.as_str(), "local_only");
    assert_eq!(OverlapCategory::RemoteOnly.as_str(), "remote_only");
    assert_eq!(Resolution::KeptLocal.as_str(), "kept_a");
    assert_eq!(Resolution::KeptRemote.as_str(), "kept_b");
    assert_eq!(Resolution::Skipped.as_str(), "skipped");
}

#[test]
fn table_merge_runs_only_inside_quiesce_window() {
    let local = rows(&[(1, "a"), (2, "b")]);
    let remote = rows(&[(2, "x"), (3, "c")]);
    let mut op = MergeOperation::new("m-2", MergeStrategy::PreferRemote, false);

    let (s0, _) = QuiesceState::begin(0);
    let (s1, _) = s0.step(QuiesceEvent::LockResult(true, 10));
    let (blocked, _) = s1.step(QuiesceEvent::ActiveWriters(2, 10));
    assert!(op.merge_table("public.busy", &blocked, &local, &remote).is_none());
    assert_eq!(op.failed_tables.len(), 1);
    assert_eq!(op.failed_tables[0].table, "public.busy");
    assert_eq!(op.failed_tables[0].error, ReplError::QuiesceTimeout);
    assert_eq!(op.counts.rows_merged, 0);
    assert_eq!(op.tables_completed, 0);

    let (q0, _) = QuiesceState::begin(1000);
    let (q1, _) = q0.step(QuiesceEvent::LockResult(true, 10));
    let (open, _) = q1.step(QuiesceEvent::ActiveWriters(0, 20));
    let r = op.merge_table("public.quiet", &open, &local, &remote).expect("compared");
    assert_eq!(r.len(), 3);
    assert_eq!(op.tables_completed, 1);
    assert_eq!(op.counts.conflict_count, 1);
    assert_eq!(op.counts.rows_merged, 3);
    assert_eq!(op.failed_tables.len(), 1);

    let mut dry = MergeOperation::new("m-3", MergeStrategy::PreferLocal, true);
    dry.merge_table("public.quiet", &open, &local, &remote).expect("compared");
    assert_eq!(dry.counts.rows_merged, 0);
    assert_eq!(dry.counts.local_only_count, 1);
}
