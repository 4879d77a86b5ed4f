//! Status and operation enumerations shared by the engines.

use vstd::prelude::*;

use crate::text::same_text;

verus! {

/// Status of a job in the work queue.
#[derive(Debug, Clone, Copy, PartialEq, Eq, Structural)]
pub enum WorkStatus {
    /// Queued, not yet claimed.
    Pending,
    /// Claimed by a worker.
    Running,
    /// Finished successfully.
    Complete,
    /// Finished with an error.
    Failed,
    /// Cancelled by a caller.
    Cancelled,
}

/// Text form of a work status.
pub open spec fn work_status_text(s: WorkStatus) -> Seq<char> {
    match s {
        WorkStatus::Pending => "pending"@,
        WorkStatus::Running => "running"@,
        WorkStatus::Complete => "complete"@,
        WorkStatus::Failed => "failed"@,
        WorkStatus::Cancelled => "cancelled"@,
    }
}

impl WorkStatus {
    /// No transition leaves a terminal status.
    pub open spec fn is_terminal(self) -> bool {
        self is Complete || self is Failed || self is Cancelled
    }

    /// Text form used in the catalog.
    pub fn as_str(&self) -> (r: &'static str)
        ensures
            r@ == work_status_text(*self),
    {
        match self {
            WorkStatus::Pending => "pending",
            WorkStatus::Running => "running",
            WorkStatus::Complete => "complete",
            WorkStatus::Failed => "failed",
            WorkStatus::Cancelled => "cancelled",
        }
    }
}

impl WorkStatus {
    /// Parses the text form; any other text gives `None`.
    pub fn from_str(s: &str) -> (r: Option<WorkStatus>)
        ensures
            r matches Some(st) ==> work_status_text(st) == s@,
            r is None ==> forall|st: WorkStatus| work_status_text(st) != s@,
    {
        if same_text(s, "pending") {
            Some(WorkStatus::Pending)
        } else if same_text(s, "running") {
            Some(WorkStatus::Running)
        } else if same_text(s, "complete") {
            Some(WorkStatus::Complete)
        } else if same_text(s, "failed") {
            Some(WorkStatus::Failed)
        } else if same_text(s, "cancelled") {
            Some(WorkStatus::Cancelled)
        } else {
            None
        }
    }
}

/// Kind of operation a job performs.
#[derive(Debug, Clone, Copy, PartialEq, Eq, Structural)]
pub enum WorkOperation {
    /// Generate a snapshot on the source node.
    SnapshotGenerate,
    /// Apply a snapshot on the target node.
    SnapshotApply,
    /// Merge a table set with a peer node.
    BidirectionalMerge,
}

/// Text form of an operation.
pub open spec fn work_operation_text(op: WorkOperation) -> Seq<char> {
    match op {
        WorkOperation::SnapshotGenerate => "snapshot_generate"@,
        WorkOperation::SnapshotApply => "snapshot_apply"@,
        WorkOperation::BidirectionalMerge => "bidirectional_merge"@,
    }
}

impl WorkOperation {
    /// Text form used in the catalog.
    pub fn as_str(&self) -> (r: &'static str)
        ensures
            r@ == work_operation_text(*self),
    {
        match self {
            WorkOperation::SnapshotGenerate => "snapshot_generate",
            WorkOperation::SnapshotApply => "snapshot_apply",
            WorkOperation::BidirectionalMerge => "bidirectional_merge",
        }
    }

    /// Parses the text form; any other text gives `None`.
    pub fn from_str(s: &str) -> (r: Option<WorkOperation>)
        ensures
            r matches Some(op) ==> work_operation_text(op) == s@,
            r is None ==> forall|op: WorkOperation| work_operation_text(op) != s@,
    {
        if same_text(s, "snapshot_generate") {
            Some(WorkOperation::SnapshotGenerate)
        } else if same_text(s, "snapshot_apply") {
            Some(WorkOperation::SnapshotApply)
        } else if same_text(s, "bidirectional_merge") {
            Some(WorkOperation::BidirectionalMerge)
        } else {
            None
        }
    }
}

/// Errors returned by the engines.
#[derive(Debug, Clone, Copy, PartialEq, Eq, Structural)]
pub enum ReplError {
    /// The job is not in a status from which the call may move it.
    InvalidTransition,
    /// No job, fingerprint or merge with the given id.
    NotFound,
    /// The operation and its parameters do not go together.
    InvalidOperation,
    /// The peer's data could not be had.
    RemoteUnavailable,
    /// Writers could not be shut out of a table in time.
    QuiesceTimeout,
    /// The worker that held a job is gone.
    ClaimantTerminated,
}

/// How a merge settles rows that differ or exist on one side only.
#[derive(Debug, Clone, Copy, PartialEq, Eq, Structural)]
pub enum MergeStrategy {
    /// Conflicts keep the local row.
    PreferLocal,
    /// Conflicts keep the remote row.
    PreferRemote,
    /// Conflicts keep the row modified last; ties keep the local row.
    LastModified,
}

/// Text form of a strategy.
pub open spec fn merge_strategy_text(s: MergeStrategy) -> Seq<char> {
    match s {
        MergeStrategy::PreferLocal => "prefer-local"@,
        MergeStrategy::PreferRemote => "prefer-remote"@,
        MergeStrategy::LastModified => "last-modified"@,
    }
}

impl MergeStrategy {
    /// Text form of the strategy.
    pub fn as_str(&self) -> (r: &'static str)
        ensures
            r@ == merge_strategy_text(*self),
    {
        match self {
            MergeStrategy::PreferLocal => "prefer-local",
            MergeStrategy::PreferRemote => "prefer-remote",
            MergeStrategy::LastModified => "last-modified",
        }
    }

    /// Parses the text form; any other text gives `None`.
    pub fn from_str(s: &str) -> (r: Option<MergeStrategy>)
        ensures
            r matches Some(m) ==> merge_strategy_text(m) == s@,
            r is None ==> forall|m: MergeStrategy| merge_strategy_text(m) != s@,
    {
        if same_text(s, "prefer-local") {
            Some(MergeStrategy::PreferLocal)
        } else if same_text(s, "prefer-remote") {
            Some(MergeStrategy::PreferRemote)
        } else if same_text(s, "last-modified") {
            Some(MergeStrategy::LastModified)
        } else {
            None
        }
    }
}

/// Status of a snapshot.
#[derive(Debug, Clone, Copy, PartialEq, Eq, Structural)]
pub enum SnapshotStatus {
    Pending,
    Generating,
    Complete,
    Applying,
    Applied,
    Failed,
    Cancelled,
    Expired,
}

/// Text form of a snapshot status.
pub open spec fn snapshot_status_text(s: SnapshotStatus) -> Seq<char> {
    match s {
        SnapshotStatus::Pending => "pending"@,
        SnapshotStatus::Generating => "generating"@,
        SnapshotStatus::Complete => "complete"@,
        SnapshotStatus::Applying => "applying"@,
        SnapshotStatus::Applied => "applied"@,
        SnapshotStatus::Failed => "failed"@,
        SnapshotStatus::Cancelled => "cancelled"@,
        SnapshotStatus::Expired => "expired"@,
    }
}

impl SnapshotStatus {
    /// Text form used in the catalog.
    pub fn as_str(&self) -> (r: &'static str)
        ensures
            r@ == snapshot_status_text(*self),
    {
        match self {
            SnapshotStatus::Pending => "pending",
            SnapshotStatus::Generating => "generating",
            SnapshotStatus::Complete => "complete",
            SnapshotStatus::Applying => "applying",
            SnapshotStatus::Applied => "applied",
            SnapshotStatus::Failed => "failed",
            SnapshotStatus::Cancelled => "cancelled",
            SnapshotStatus::Expired => "expired",
        }
    }
}

/// Phase of a snapshot operation.
#[derive(Debug, Clone, Copy, PartialEq, Eq, Structural)]
pub enum SnapshotPhase {
    Idle,
    Schema,
    Data,
    Indexes,
    Constraints,
    Sequences,
    Verify,
    Finalizing,
    Complete,
}

/// Text form of a snapshot phase.
pub open spec fn snapshot_phase_text(p: SnapshotPhase) -> Seq<char> {
    match p {
        SnapshotPhase::Idle => "idle"@,
        SnapshotPhase::Schema => "schema"@,
        SnapshotPhase::Data => "data"@,
        SnapshotPhase::Indexes => "indexes"@,
        SnapshotPhase::Constraints => "constraints"@,
        SnapshotPhase::Sequences => "sequences"@,
        SnapshotPhase::Verify => "verify"@,
        SnapshotPhase::Finalizing => "finalizing"@,
        SnapshotPhase::Complete => "complete"@,
    }
}

impl SnapshotPhase {
    /// Text form used in the catalog.
    pub fn as_str(&self) -> (r: &'static str)
        ensures
            r@ == snapshot_phase_text(*self),
    {
        match self {
            SnapshotPhase::Idle => "idle",
            SnapshotPhase::Schema => "schema",
            SnapshotPhase::Data => "data",
            SnapshotPhase::Indexes => "indexes",
            SnapshotPhase::Constraints => "constraints",
            SnapshotPhase::Sequences => "sequences",
            SnapshotPhase::Verify => "verify",
            SnapshotPhase::Finalizing => "finalizing",
            SnapshotPhase::Complete => "complete",
        }
    }
}

} // verus!
