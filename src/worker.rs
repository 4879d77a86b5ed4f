//! The worker's decisions around one job: claim it and open the progress
//! slot for it, then record how its execution ended and clear the slot.
//!
//! Executing the job itself (snapshot generation or application, or a
//! merge) and waiting between polls happen outside; the worker hands back
//! an `ExecuteResult`.

use vstd::prelude::*;

use crate::progress::{
    OperationProgress, OperationType, ProgressPhase, OPERATION_ID_MAX_CHARS,
};
use crate::text::truncated;
use crate::types::{ReplError, WorkOperation, WorkStatus};
use crate::work_queue::{
    cancel_work_entry, claim_next_work, complete_work_entry, ended_as, fail_work_entry,
    oldest_pending, any_pending, claim_step, same_item, queue_step, ClaimWorkResult, JobError,
    WorkItem, WorkQueue,
};

verus! {

/// How the execution of a job ended.
pub enum ExecuteResult {
    Complete,
    Failed(String),
    /// The job was found cancelled at a checkpoint.
    Cancelled,
}

/// The progress kind of a queued operation.
pub open spec fn operation_type_of(op: WorkOperation) -> OperationType {
    match op {
        WorkOperation::SnapshotGenerate => OperationType::SnapshotGenerate,
        WorkOperation::SnapshotApply => OperationType::SnapshotApply,
        WorkOperation::BidirectionalMerge => OperationType::BidirectionalMerge,
    }
}

/// The progress kind of a queued operation.
pub fn operation_type_for(op: WorkOperation) -> (r: OperationType)
    ensures
        r == operation_type_of(op),
{
    match op {
        WorkOperation::SnapshotGenerate => OperationType::SnapshotGenerate,
        WorkOperation::SnapshotApply => OperationType::SnapshotApply,
        WorkOperation::BidirectionalMerge => OperationType::BidirectionalMerge,
    }
}

/// The phase in which execution of an operation begins: snapshots with the
/// schema, merges with the data.
pub fn execution_phase(op: WorkOperation) -> (r: ProgressPhase)
    ensures
        r == (if op == WorkOperation::BidirectionalMerge {
            ProgressPhase::Data
        } else {
            ProgressPhase::Schema
        }),
{
    match op {
        WorkOperation::BidirectionalMerge => ProgressPhase::Data,
        _ => ProgressPhase::Schema,
    }
}

/// Whether the slot was started at `now` for job `item`.
pub open spec fn started_for(p: OperationProgress, item: WorkItem, now: i64) -> bool {
    &&& p.wf()
    &&& p.active
    &&& p.operation_type == operation_type_of(item.operation)
    &&& p.operation_id@ == truncated(item.subject_id@, OPERATION_ID_MAX_CHARS as nat)
    &&& p.work_queue_id == item.id
    &&& p.phase == ProgressPhase::Schema
    &&& p.percent_hundredths == 0
    &&& p.tables_completed == 0
    &&& p.tables_total == item.params.tables_total
    &&& p.bytes_processed == 0
    &&& p.bytes_total == item.params.bytes_total
    &&& p.rows_processed == 0
    &&& p.rows_total == item.params.rows_total
    &&& p.throughput_bytes_sec == 0
    &&& p.eta_seconds == 0
    &&& p.current_table@.len() == 0
    &&& p.error_message@.len() == 0
    &&& p.started_at == now
}

/// Opens the progress slot for a claimed job, with the size estimates its
/// parameters carry.
pub fn init_progress(progress: &mut OperationProgress, item: &WorkItem, now: i64)
    ensures
        started_for(*final(progress), *item, now),
{
    let kind = operation_type_for(item.operation);
    progress.start(
        kind,
        item.subject_id.as_str(),
        item.id,
        item.params.tables_total,
        item.params.bytes_total,
        item.params.rows_total,
        now,
    );
}

/// Claims the oldest pending job for `worker` and opens the progress slot
/// for it; with nothing pending, neither queue nor slot changes.
pub fn process_work_queue(
    queue: &mut WorkQueue,
    progress: &mut OperationProgress,
    worker: u32,
    now: i64,
) -> (r: ClaimWorkResult)
    requires
        old(queue).wf(),
    ensures
        final(queue).wf(),
        final(queue).next_job_id() == old(queue).next_job_id(),
        queue_step(old(queue).jobs(), final(queue).jobs()),
        match r {
            ClaimWorkResult::Claimed(item) => {
                &&& exists|i: int|
                    {
                        &&& oldest_pending(old(queue).jobs(), i)
                        &&& final(queue).jobs() == claim_step(old(queue).jobs(), i, worker, now)
                        &&& same_item(item, final(queue).jobs()[i])
                    }
                &&& started_for(*final(progress), item, now)
            },
            ClaimWorkResult::NoWork => {
                &&& !any_pending(old(queue).jobs())
                &&& final(queue).jobs() == old(queue).jobs()
                &&& *final(progress) == *old(progress)
            },
            ClaimWorkResult::Error(_) => false,
        },
{
    let claimed = claim_next_work(queue, worker, now);
    match claimed {
        ClaimWorkResult::Claimed(item) => {
            init_progress(progress, &item, now);
            ClaimWorkResult::Claimed(item)
        },
        ClaimWorkResult::NoWork => ClaimWorkResult::NoWork,
        ClaimWorkResult::Error(e) => ClaimWorkResult::Error(e),
    }
}

/// Records how job `id` ended: complete, failed with the worker's message,
/// or cancelled; then clears the progress slot for the next job.
pub fn finish_work(
    queue: &mut WorkQueue,
    progress: &mut OperationProgress,
    id: u64,
    result: ExecuteResult,
    now: i64,
) -> (r: Result<(), ReplError>)
    requires
        old(queue).wf(),
    ensures
        final(queue).wf(),
        final(queue).next_job_id() == old(queue).next_job_id(),
        queue_step(old(queue).jobs(), final(queue).jobs()),
        final(progress).is_idle(),
        final(progress).wf(),
        match result {
            ExecuteResult::Complete => ended_as(
                old(queue).jobs(),
                final(queue).jobs(),
                r,
                id,
                false,
                WorkStatus::Complete,
                None,
                now,
            ),
            ExecuteResult::Failed(message) => ended_as(
                old(queue).jobs(),
                final(queue).jobs(),
                r,
                id,
                false,
                WorkStatus::Failed,
                Some(JobError::Reported(message)),
                now,
            ),
            ExecuteResult::Cancelled => ended_as(
                old(queue).jobs(),
                final(queue).jobs(),
                r,
                id,
                true,
                WorkStatus::Cancelled,
                None,
                now,
            ),
        },
{
    let r = match result {
        ExecuteResult::Complete => complete_work_entry(queue, id, now),
        ExecuteResult::Failed(message) => fail_work_entry(queue, id, message, now),
        ExecuteResult::Cancelled => cancel_work_entry(queue, id, now),
    };
    progress.reset();
    r
}

/// Whether the worker running job `id` should stop at this checkpoint:
/// the job was cancelled (or is no longer known).
pub fn should_stop(queue: &WorkQueue, id: u64) -> (r: bool)
    requires
        queue.wf(),
    ensures
        r == !(exists|i: int|
            0 <= i < queue.jobs().len() && (#[trigger] queue.jobs()[i]).id == id
                && queue.jobs()[i].status == WorkStatus::Running),
{
    match queue.status_of(id) {
        Some(WorkStatus::Running) => false,
        _ => true,
    }
}

} // verus!
