//! Row-level comparison of a local table with its copy on a peer, and the
//! settling of rows that differ.
//!
//! Only primary keys and 64-bit row hashes are compared; full row payloads
//! are fetched by the caller only for the rows that `rows_needing_payload`
//! names, then turned into audit records by `decide_row`.

use vstd::prelude::*;

use crate::quiesce::{begin_state, quiesce_next, QuiesceEvent, QuiesceStage, QuiesceState};
use crate::types::{merge_strategy_text, MergeStrategy, ReplError};

verus! {

/// Primary key (as canonical text) and row hash of one row.
pub struct RowHash {
    pub pk_value: String,
    pub row_hash: i64,
}

/// Where a compared row stands.
#[derive(Debug, Clone, Copy, PartialEq, Eq, Structural)]
pub enum OverlapCategory {
    /// Same key, same hash.
    Match,
    /// Same key, different hash.
    Conflict,
    /// Key present locally only.
    LocalOnly,
    /// Key present on the peer only.
    RemoteOnly,
}

/// Text form of a category.
pub open spec fn overlap_category_text(c: OverlapCategory) -> Seq<char> {
    match c {
        OverlapCategory::Match => "match"@,
        OverlapCategory::Conflict => "conflict"@,
        OverlapCategory::LocalOnly => "local_only"@,
        OverlapCategory::RemoteOnly => "remote_only"@,
    }
}

impl OverlapCategory {
    /// Text form of the category.
    pub fn as_str(&self) -> (r: &'static str)
        ensures
            r@ == overlap_category_text(*self),
    {
        match self {
            OverlapCategory::Match => "match",
            OverlapCategory::Conflict => "conflict",
            OverlapCategory::LocalOnly => "local_only",
            OverlapCategory::RemoteOnly => "remote_only",
        }
    }
}

/// One row of a comparison.
pub struct OverlapResult {
    pub pk_value: String,
    pub category: OverlapCategory,
    pub local_hash: Option<i64>,
    pub remote_hash: Option<i64>,
}

/// Counts of a table comparison.
pub struct OverlapSummary {
    pub table_schema: String,
    pub table_name: String,
    pub total_rows: u64,
    pub matches: u64,
    pub conflicts: u64,
    pub local_only: u64,
    pub remote_only: u64,
}

/// The hash of the row keyed `key` (the last such row), if any.
pub open spec fn hash_for(rows: Seq<RowHash>, key: Seq<char>) -> Option<i64>
    decreases rows.len(),
{
    if rows.len() == 0 {
        None
    } else if rows.last().pk_value@ == key {
        Some(rows.last().row_hash)
    } else {
        hash_for(rows.drop_last(), key)
    }
}

/// The comparison row for a local row.
pub open spec fn local_overlap(row: RowHash, remote: Seq<RowHash>) -> OverlapResult {
    let category = match hash_for(remote, row.pk_value@) {
        Option::None => OverlapCategory::LocalOnly,
        Option::Some(h) => if h == row.row_hash {
            OverlapCategory::Match
        } else {
            OverlapCategory::Conflict
        },
    };
    OverlapResult {
        pk_value: row.pk_value,
        category,
        local_hash: Some(row.row_hash),
        remote_hash: hash_for(remote, row.pk_value@),
    }
}

/// The comparison rows for the peer's rows whose key is absent locally, in
/// the peer's order.
pub open spec fn remote_only_overlaps(local: Seq<RowHash>, remote: Seq<RowHash>) -> Seq<OverlapResult>
    decreases remote.len(),
{
    if remote.len() == 0 {
        Seq::empty()
    } else {
        let before = remote_only_overlaps(local, remote.drop_last());
        let row = remote.last();
        if hash_for(local, row.pk_value@) is None {
            before.push(
                OverlapResult {
                    pk_value: row.pk_value,
                    category: OverlapCategory::RemoteOnly,
                    local_hash: None,
                    remote_hash: Some(row.row_hash),
                },
            )
        } else {
            before
        }
    }
}

/// Full outer join of the two row sets on the key: every local row in
/// local order, then every peer row missing locally in peer order.
pub open spec fn overlaps(local: Seq<RowHash>, remote: Seq<RowHash>) -> Seq<OverlapResult> {
    Seq::new(local.len(), |i: int| local_overlap(local[i], remote)) + remote_only_overlaps(
        local,
        remote,
    )
}

/// Number of comparison rows in a category.
pub open spec fn count_category(s: Seq<OverlapResult>, c: OverlapCategory) -> nat
    decreases s.len(),
{
    if s.len() == 0 {
        0
    } else {
        count_category(s.drop_last(), c) + if s.last().category == c {
            1nat
        } else {
            0nat
        }
    }
}

/// The hash of the row keyed `key`, looked up the way `hash_for` reads.
fn lookup_hash(rows: &Vec<RowHash>, key: &String) -> (r: Option<i64>)
    ensures
        r == hash_for(rows@, key@),
{
    let n = rows.len();
    let mut found: Option<i64> = None;
    let mut j: usize = 0;
    while j < n
        invariant
            n == rows@.len(),
            0 <= j <= n,
            found == hash_for(rows@.subrange(0, j as int), key@),
        decreases n - j,
    {
        assert(rows@.subrange(0, j + 1).drop_last() =~= rows@.subrange(0, j as int));
        if rows[j].pk_value == *key {
            found = Some(rows[j].row_hash);
        }
        j = j + 1;
    }
    assert(rows@.subrange(0, n as int) =~= rows@);
    found
}

/// Compares local rows with the peer's rows by key and hash.
pub fn compare_table_rows(local: &Vec<RowHash>, remote: &Vec<RowHash>) -> (r: Vec<OverlapResult>)
    ensures
        r@ == overlaps(local@, remote@),
{
    let mut out: Vec<OverlapResult> = Vec::new();
    let n = local.len();
    let mut i: usize = 0;
    while i < n
        invariant
            n == local@.len(),
            0 <= i <= n,
            out@ == Seq::new(i as nat, |k: int| local_overlap(local@[k], remote@)),
        decreases n - i,
    {
        let row = &local[i];
        let remote_hash = lookup_hash(remote, &row.pk_value);
        let category = match remote_hash {
            None => OverlapCategory::LocalOnly,
            Some(h) => if h == row.row_hash {
                OverlapCategory::Match
            } else {
                OverlapCategory::Conflict
            },
        };
        out.push(
            OverlapResult {
                pk_value: row.pk_value.clone(),
                category,
                local_hash: Some(row.row_hash),
                remote_hash,
            },
        );
        assert(out@ =~= Seq::new((i + 1) as nat, |k: int| local_overlap(local@[k], remote@)));
        i = i + 1;
    }
    let ghost head = out@;
    let m = remote.len();
    let mut j: usize = 0;
    while j < m
        invariant
            m == remote@.len(),
            0 <= j <= m,
            head == Seq::new(n as nat, |k: int| local_overlap(local@[k], remote@)),
            out@ == head + remote_only_overlaps(local@, remote@.subrange(0, j as int)),
        decreases m - j,
    {
        assert(remote@.subrange(0, j + 1).drop_last() =~= remote@.subrange(0, j as int));
        let row = &remote[j];
        let local_hash = lookup_hash(local, &row.pk_value);
        if local_hash.is_none() {
            out.push(
                OverlapResult {
                    pk_value: row.pk_value.clone(),
                    category: OverlapCategory::RemoteOnly,
                    local_hash: None,
                    remote_hash: Some(row.row_hash),
                },
            );
        }
        assert(out@ =~= head + remote_only_overlaps(local@, remote@.subrange(0, j + 1)));
        j = j + 1;
    }
    assert(remote@.subrange(0, m as int) =~= remote@);
    out
}

/// Counts the comparison rows of each category.
pub fn summarize_overlaps(table_schema: &str, table_name: &str, rows: &Vec<OverlapResult>) -> (r:
    OverlapSummary)
    ensures
        r.table_schema@ == table_schema@,
        r.table_name@ == table_name@,
        r.total_rows == rows@.len(),
        r.matches == count_category(rows@, OverlapCategory::Match),
        r.conflicts == count_category(rows@, OverlapCategory::Conflict),
        r.local_only == count_category(rows@, OverlapCategory::LocalOnly),
        r.remote_only == count_category(rows@, OverlapCategory::RemoteOnly),
{
    let n = rows.len();
    let mut matches: u64 = 0;
    let mut conflicts: u64 = 0;
    let mut local_only: u64 = 0;
    let mut remote_only: u64 = 0;
    let mut i: usize = 0;
    while i < n
        invariant
            n == rows@.len(),
            0 <= i <= n,
            matches == count_category(rows@.subrange(0, i as int), OverlapCategory::Match),
            conflicts == count_category(rows@.subrange(0, i as int), OverlapCategory::Conflict),
            local_only == count_category(rows@.subrange(0, i as int), OverlapCategory::LocalOnly),
            remote_only == count_category(rows@.subrange(0, i as int), OverlapCategory::RemoteOnly),
            matches + conflicts + local_only + remote_only == i,
        decreases n - i,
    {
        assert(rows@.subrange(0, i + 1).drop_last() =~= rows@.subrange(0, i as int));
        match rows[i].category {
            OverlapCategory::Match => {
                matches = matches + 1;
            },
            OverlapCategory::Conflict => {
                conflicts = conflicts + 1;
            },
            OverlapCategory::LocalOnly => {
                local_only = local_only + 1;
            },
            OverlapCategory::RemoteOnly => {
                remote_only = remote_only + 1;
            },
        }
        i = i + 1;
    }
    assert(rows@.subrange(0, n as int) =~= rows@);
    OverlapSummary {
        table_schema: table_schema.to_owned(),
        table_name: table_name.to_owned(),
        total_rows: n as u64,
        matches,
        conflicts,
        local_only,
        remote_only,
    }
}

/// Compares a table with the peer's copy and counts each category.
pub fn compare_table_summary(
    table_schema: &str,
    table_name: &str,
    local: &Vec<RowHash>,
    remote: &Vec<RowHash>,
) -> (r: OverlapSummary)
    ensures
        r.table_schema@ == table_schema@,
        r.table_name@ == table_name@,
        r.total_rows == overlaps(local@, remote@).len(),
        r.matches == count_category(overlaps(local@, remote@), OverlapCategory::Match),
        r.conflicts == count_category(overlaps(local@, remote@), OverlapCategory::Conflict),
        r.local_only == count_category(overlaps(local@, remote@), OverlapCategory::LocalOnly),
        r.remote_only == count_category(overlaps(local@, remote@), OverlapCategory::RemoteOnly),
{
    let rows = compare_table_rows(local, remote);
    summarize_overlaps(table_schema, table_name, &rows)
}

/// How a row that is not a match was settled.
#[derive(Debug, Clone, Copy, PartialEq, Eq, Structural)]
pub enum Resolution {
    /// The local row stands (and is sent to the peer where it differs).
    KeptLocal,
    /// The peer's row stands (and is written locally where it differs).
    KeptRemote,
    /// Left alone by an operator.
    Skipped,
}

/// Text form of a resolution.
pub open spec fn resolution_text(r: Resolution) -> Seq<char> {
    match r {
        Resolution::KeptLocal => "kept_a"@,
        Resolution::KeptRemote => "kept_b"@,
        Resolution::Skipped => "skipped"@,
    }
}

impl Resolution {
    /// Text form used in the audit log.
    pub fn as_str(&self) -> (r: &'static str)
        ensures
            r@ == resolution_text(*self),
    {
        match self {
            Resolution::KeptLocal => "kept_a",
            Resolution::KeptRemote => "kept_b",
            Resolution::Skipped => "skipped",
        }
    }
}

/// The resolution a strategy gives a row of the category. Matches need
/// none; rows on one side only are kept from that side; conflicts go by the
/// strategy, with ties of modification time kept local.
pub open spec fn resolution_for(
    category: OverlapCategory,
    strategy: MergeStrategy,
    local_modified: i64,
    remote_modified: i64,
) -> Option<Resolution> {
    match category {
        OverlapCategory::Match => None,
        OverlapCategory::LocalOnly => Some(Resolution::KeptLocal),
        OverlapCategory::RemoteOnly => Some(Resolution::KeptRemote),
        OverlapCategory::Conflict => match strategy {
            MergeStrategy::PreferLocal => Some(Resolution::KeptLocal),
            MergeStrategy::PreferRemote => Some(Resolution::KeptRemote),
            MergeStrategy::LastModified => if remote_modified > local_modified {
                Some(Resolution::KeptRemote)
            } else {
                Some(Resolution::KeptLocal)
            },
        },
    }
}

/// Settles one row under a strategy, given each side's modification time
/// (consulted by `LastModified` only).
pub fn resolve(
    category: OverlapCategory,
    strategy: MergeStrategy,
    local_modified: i64,
    remote_modified: i64,
) -> (r: Option<Resolution>)
    ensures
        r == resolution_for(category, strategy, local_modified, remote_modified),
        category == OverlapCategory::Match <==> r is None,
        category == OverlapCategory::Conflict && strategy == MergeStrategy::PreferLocal ==> r
            == Some(Resolution::KeptLocal),
        category == OverlapCategory::Conflict && strategy == MergeStrategy::PreferRemote ==> r
            == Some(Resolution::KeptRemote),
        category == OverlapCategory::Conflict && strategy == MergeStrategy::LastModified ==> r
            == if remote_modified > local_modified {
            Some(Resolution::KeptRemote)
        } else {
            Some(Resolution::KeptLocal)
        },
{
    match category {
        OverlapCategory::Match => None,
        OverlapCategory::LocalOnly => Some(Resolution::KeptLocal),
        OverlapCategory::RemoteOnly => Some(Resolution::KeptRemote),
        OverlapCategory::Conflict => match strategy {
            MergeStrategy::PreferLocal => Some(Resolution::KeptLocal),
            MergeStrategy::PreferRemote => Some(Resolution::KeptRemote),
            MergeStrategy::LastModified => if remote_modified > local_modified {
                Some(Resolution::KeptRemote)
            } else {
                Some(Resolution::KeptLocal)
            },
        },
    }
}

/// The keys whose full rows the audit trail needs: every row that is not a
/// match, in comparison order.
pub open spec fn payload_keys(rows: Seq<OverlapResult>) -> Seq<String>
    decreases rows.len(),
{
    if rows.len() == 0 {
        Seq::empty()
    } else {
        let before = payload_keys(rows.drop_last());
        if rows.last().category == OverlapCategory::Match {
            before
        } else {
            before.push(rows.last().pk_value)
        }
    }
}

/// Lists the keys whose full rows must be fetched.
pub fn rows_needing_payload(rows: &Vec<OverlapResult>) -> (r: Vec<String>)
    ensures
        r@ == payload_keys(rows@),
{
    let mut out: Vec<String> = Vec::new();
    let n = rows.len();
    let mut i: usize = 0;
    while i < n
        invariant
            n == rows@.len(),
            0 <= i <= n,
            out@ == payload_keys(rows@.subrange(0, i as int)),
        decreases n - i,
    {
        assert(rows@.subrange(0, i + 1).drop_last() =~= rows@.subrange(0, i as int));
        if rows[i].category != OverlapCategory::Match {
            out.push(rows[i].pk_value.clone());
        }
        i = i + 1;
    }
    assert(rows@.subrange(0, n as int) =~= rows@);
    out
}

/// One audit record of a merge.
pub struct MergeDecision {
    pub table_schema: String,
    pub table_name: String,
    pub pk_value: String,
    pub category: OverlapCategory,
    pub resolution: Option<Resolution>,
    /// Full local row; absent when the row exists on the peer only.
    pub local_value: Option<String>,
    /// Full peer row; absent when the row exists locally only.
    pub remote_value: Option<String>,
    /// What settled the row, e.g. `strategy:prefer-local`.
    pub resolved_by: String,
}

/// The `resolved_by` text of a strategy.
pub open spec fn resolved_by_text(strategy: MergeStrategy) -> Seq<char> {
    "strategy:"@ + merge_strategy_text(strategy)
}

/// Builds the audit record of a compared row from the payloads the caller
/// fetched and each side's modification time.
pub fn decide_row(
    table_schema: &str,
    table_name: &str,
    row: &OverlapResult,
    strategy: MergeStrategy,
    local_value: Option<String>,
    remote_value: Option<String>,
    local_modified: i64,
    remote_modified: i64,
) -> (r: MergeDecision)
    ensures
        r.table_schema@ == table_schema@,
        r.table_name@ == table_name@,
        r.pk_value == row.pk_value,
        r.category == row.category,
        r.resolution == resolution_for(row.category, strategy, local_modified, remote_modified),
        r.local_value == if row.category == OverlapCategory::RemoteOnly {
            None
        } else {
            local_value
        },
        r.remote_value == if row.category == OverlapCategory::LocalOnly {
            None
        } else {
            remote_value
        },
        r.resolved_by@ == resolved_by_text(strategy),
{
    let resolution = resolve(row.category, strategy, local_modified, remote_modified);
    let local_value = if row.category == OverlapCategory::RemoteOnly {
        None
    } else {
        local_value
    };
    let remote_value = if row.category == OverlapCategory::LocalOnly {
        None
    } else {
        remote_value
    };
    let resolved_by = String::from_str("strategy:").concat(strategy.as_str());
    MergeDecision {
        table_schema: table_schema.to_owned(),
        table_name: table_name.to_owned(),
        pk_value: row.pk_value.clone(),
        category: row.category,
        resolution,
        local_value,
        remote_value,
        resolved_by,
    }
}

/// What applying a decision writes.
#[derive(Debug, Clone, Copy, PartialEq, Eq, Structural)]
pub enum MergeAction {
    /// Nothing to write.
    NoChange,
    /// Write the local row to the peer.
    WriteRemote,
    /// Write the peer's row locally.
    WriteLocal,
}

/// The write a decision calls for; a dry run writes nothing.
pub open spec fn action_for(category: OverlapCategory, resolution: Option<Resolution>, dry_run: bool) -> MergeAction {
    if dry_run || category == OverlapCategory::Match {
        MergeAction::NoChange
    } else {
        match resolution {
            Option::Some(Resolution::KeptLocal) => if category == OverlapCategory::RemoteOnly {
                MergeAction::NoChange
            } else {
                MergeAction::WriteRemote
            },
            Option::Some(Resolution::KeptRemote) => if category == OverlapCategory::LocalOnly {
                MergeAction::NoChange
            } else {
                MergeAction::WriteLocal
            },
            _ => MergeAction::NoChange,
        }
    }
}

/// The write that applying `decision` calls for.
pub fn plan_action(decision: &MergeDecision, dry_run: bool) -> (r: MergeAction)
    ensures
        r == action_for(decision.category, decision.resolution, dry_run),
{
    if dry_run || decision.category == OverlapCategory::Match {
        return MergeAction::NoChange;
    }
    match decision.resolution {
        Some(Resolution::KeptLocal) => if decision.category == OverlapCategory::RemoteOnly {
            MergeAction::NoChange
        } else {
            MergeAction::WriteRemote
        },
        Some(Resolution::KeptRemote) => if decision.category == OverlapCategory::LocalOnly {
            MergeAction::NoChange
        } else {
            MergeAction::WriteLocal
        },
        _ => MergeAction::NoChange,
    }
}

/// Counts that a merge operation accumulates over its tables.
pub struct MergeCounts {
    pub match_count: u64,
    pub conflict_count: u64,
    pub local_only_count: u64,
    pub remote_only_count: u64,
    pub rows_merged: u64,
}

/// `a + b`, held at `u64::MAX`.
pub open spec fn sat_add(a: u64, b: u64) -> u64 {
    if a as nat + b as nat > u64::MAX as nat {
        u64::MAX
    } else {
        (a + b) as u64
    }
}

impl MergeCounts {
    /// All counts zero.
    pub fn new() -> (r: MergeCounts)
        ensures
            r.match_count == 0,
            r.conflict_count == 0,
            r.local_only_count == 0,
            r.remote_only_count == 0,
            r.rows_merged == 0,
    {
        MergeCounts {
            match_count: 0,
            conflict_count: 0,
            local_only_count: 0,
            remote_only_count: 0,
            rows_merged: 0,
        }
    }

    /// The counts of one compared table; every row that is not a match is
    /// merged unless the run is dry.
    pub fn from_summary(summary: &OverlapSummary, dry_run: bool) -> (r: MergeCounts)
        ensures
            r.match_count == summary.matches,
            r.conflict_count == summary.conflicts,
            r.local_only_count == summary.local_only,
            r.remote_only_count == summary.remote_only,
            r.rows_merged == if dry_run {
                0
            } else {
                sat_add(sat_add(summary.conflicts, summary.local_only), summary.remote_only)
            },
    {
        let merged = if dry_run {
            0
        } else {
            summary.conflicts.saturating_add(summary.local_only).saturating_add(summary.remote_only)
        };
        MergeCounts {
            match_count: summary.matches,
            conflict_count: summary.conflicts,
            local_only_count: summary.local_only,
            remote_only_count: summary.remote_only,
            rows_merged: merged,
        }
    }

    /// Adds another table's counts, each held at `u64::MAX`.
    pub fn absorb(&mut self, other: &MergeCounts)
        ensures
            final(self).match_count == sat_add(old(self).match_count, other.match_count),
            final(self).conflict_count == sat_add(old(self).conflict_count, other.conflict_count),
            final(self).local_only_count == sat_add(old(self).local_only_count, other.local_only_count),
            final(self).remote_only_count == sat_add(
                old(self).remote_only_count,
                other.remote_only_count,
            ),
            final(self).rows_merged == sat_add(old(self).rows_merged, other.rows_merged),
    {
        self.match_count = self.match_count.saturating_add(other.match_count);
        self.conflict_count = self.conflict_count.saturating_add(other.conflict_count);
        self.local_only_count = self.local_only_count.saturating_add(other.local_only_count);
        self.remote_only_count = self.remote_only_count.saturating_add(other.remote_only_count);
        self.rows_merged = self.rows_merged.saturating_add(other.rows_merged);
    }
}

/// A table of a merge that failed, and why.
pub struct TableFailure {
    pub table: String,
    pub error: ReplError,
}

/// A merge over several tables: each table is compared and settled on its
/// own, so a failed table is recorded and the others go on.
pub struct MergeOperation {
    pub merge_id: String,
    pub strategy: MergeStrategy,
    pub dry_run: bool,
    pub counts: MergeCounts,
    pub tables_completed: u32,
    /// Tables whose quiesce, comparison or settling failed, in order of
    /// failure.
    pub failed_tables: Vec<TableFailure>,
}

impl MergeOperation {
    /// A merge with nothing recorded yet.
    pub fn new(merge_id: &str, strategy: MergeStrategy, dry_run: bool) -> (r: MergeOperation)
        ensures
            r.merge_id@ == merge_id@,
            r.strategy == strategy,
            r.dry_run == dry_run,
            r.counts.match_count == 0,
            r.counts.conflict_count == 0,
            r.counts.local_only_count == 0,
            r.counts.remote_only_count == 0,
            r.counts.rows_merged == 0,
            r.tables_completed == 0,
            r.failed_tables@.len() == 0,
    {
        MergeOperation {
            merge_id: merge_id.to_owned(),
            strategy,
            dry_run,
            counts: MergeCounts::new(),
            tables_completed: 0,
            failed_tables: Vec::new(),
        }
    }

    /// Records one table's outcome: its counts are added on success; on
    /// failure the table is listed and the counts stay as they were.
    pub fn record_table(&mut self, table: &str, outcome: &Result<MergeCounts, crate::types::ReplError>)
        ensures
            final(self).merge_id == old(self).merge_id,
            final(self).strategy == old(self).strategy,
            final(self).dry_run == old(self).dry_run,
            match outcome {
                Ok(c) => {
                    &&& final(self).counts.match_count == sat_add(old(self).counts.match_count, c.match_count)
                    &&& final(self).counts.conflict_count == sat_add(
                        old(self).counts.conflict_count,
                        c.conflict_count,
                    )
                    &&& final(self).counts.local_only_count == sat_add(
                        old(self).counts.local_only_count,
                        c.local_only_count,
                    )
                    &&& final(self).counts.remote_only_count == sat_add(
                        old(self).counts.remote_only_count,
                        c.remote_only_count,
                    )
                    &&& final(self).counts.rows_merged == sat_add(old(self).counts.rows_merged, c.rows_merged)
                    &&& final(self).tables_completed as nat == if old(self).tables_completed
                        == u32::MAX {
                        u32::MAX as nat
                    } else {
                        (old(self).tables_completed + 1) as nat
                    }
                    &&& final(self).failed_tables@ == old(self).failed_tables@
                },
                Err(e) => {
                    &&& final(self).counts == old(self).counts
                    &&& final(self).tables_completed == old(self).tables_completed
                    &&& final(self).failed_tables@.len() == old(self).failed_tables@.len() + 1
                    &&& final(self).failed_tables@.drop_last() == old(self).failed_tables@
                    &&& final(self).failed_tables@.last().table@ == table@
                    &&& final(self).failed_tables@.last().error == *e
                },
            },
    {
        match outcome {
            Ok(c) => {
                self.counts.absorb(c);
                self.tables_completed = self.tables_completed.saturating_add(1);
            },
            Err(e) => {
                let ghost before = self.failed_tables@;
                self.failed_tables.push(TableFailure { table: table.to_owned(), error: *e });
                assert(self.failed_tables@.drop_last() =~= before);
            },
        }
    }
}

/// Whether a quiesce attempt ended with the table's writers shut out.
pub open spec fn quiesce_admits(q: QuiesceState) -> bool {
    q.stage == QuiesceStage::Finished && q.outcome matches Option::Some(Result::Ok(_))
}

impl MergeOperation {
    /// Merges one table inside its quiesce window: only when the quiesce
    /// attempt succeeded are the rows compared and the counts added (rows
    /// merged stay zero in a dry run); otherwise nothing is compared and the
    /// table is recorded as failed with `QuiesceTimeout`, while the merge
    /// goes on with its other tables.
    pub fn merge_table(
        &mut self,
        table_name: &str,
        quiesce: &QuiesceState,
        local: &Vec<RowHash>,
        remote: &Vec<RowHash>,
    ) -> (r: Option<Vec<OverlapResult>>)
        ensures
            final(self).merge_id == old(self).merge_id,
            final(self).strategy == old(self).strategy,
            final(self).dry_run == old(self).dry_run,
            quiesce_admits(*quiesce) ==> {
                let rows = overlaps(local@, remote@);
                let conflicts = count_category(rows, OverlapCategory::Conflict) as u64;
                let local_only = count_category(rows, OverlapCategory::LocalOnly) as u64;
                let remote_only = count_category(rows, OverlapCategory::RemoteOnly) as u64;
                &&& r matches Some(v) && v@ == rows
                &&& final(self).counts.match_count == sat_add(
                    old(self).counts.match_count,
                    count_category(rows, OverlapCategory::Match) as u64,
                )
                &&& final(self).counts.conflict_count == sat_add(old(self).counts.conflict_count, conflicts)
                &&& final(self).counts.local_only_count == sat_add(
                    old(self).counts.local_only_count,
                    local_only,
                )
                &&& final(self).counts.remote_only_count == sat_add(
                    old(self).counts.remote_only_count,
                    remote_only,
                )
                &&& final(self).counts.rows_merged == sat_add(
                    old(self).counts.rows_merged,
                    if old(self).dry_run {
                        0
                    } else {
                        sat_add(sat_add(conflicts, local_only), remote_only)
                    },
                )
                &&& final(self).failed_tables@ == old(self).failed_tables@
            },
            !quiesce_admits(*quiesce) ==> {
                &&& r is None
                &&& final(self).counts == old(self).counts
                &&& final(self).tables_completed == old(self).tables_completed
                &&& final(self).failed_tables@.len() == old(self).failed_tables@.len() + 1
                &&& final(self).failed_tables@.drop_last() == old(self).failed_tables@
                &&& final(self).failed_tables@.last().table@ == table_name@
                &&& final(self).failed_tables@.last().error == ReplError::QuiesceTimeout
            },
    {
        let admitted = quiesce.stage == QuiesceStage::Finished && match quiesce.outcome {
            Some(Ok(())) => true,
            _ => false,
        };
        if !admitted {
            self.record_table(table_name, &Err(ReplError::QuiesceTimeout));
            return None;
        }
        let rows = compare_table_rows(local, remote);
        let summary = summarize_overlaps("", table_name, &rows);
        let counts = MergeCounts::from_summary(&summary, self.dry_run);
        self.record_table(table_name, &Ok(counts));
        Some(rows)
    }
}

/// With a zero timeout and an active writer on a table, the table's merge
/// step never runs its comparison: whether or not the advisory lock was
/// obtained, the quiesce attempt does not admit it, so `merge_table`
/// records the table as failed with `QuiesceTimeout` and compares nothing.
pub proof fn lemma_zero_timeout_blocks_table(
    acquired: bool,
    lock_now: i64,
    writers: u32,
    count_now: i64,
)
    requires
        writers > 0,
    ensures
        ({
            let (s1, a1) = quiesce_next(begin_state(0), QuiesceEvent::LockResult(acquired, lock_now));
            let (s2, a2) = quiesce_next(s1, QuiesceEvent::ActiveWriters(writers, count_now));
            if acquired {
                !quiesce_admits(s2) && !s2.lock_held
            } else {
                !quiesce_admits(s1) && !s1.lock_held
            }
        }),
{
}

} // verus!
