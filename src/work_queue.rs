//! The work queue: a durable-style FIFO of jobs with at most one claimant
//! per job and recovery of jobs whose claimant died.
//!
//! The queue is held by value; exclusive access (`&mut`) stands for the row
//! lock that a shared store takes while a job is claimed, so a claim sees
//! and changes the queue in one step.

use vstd::prelude::*;

use crate::text::{copy_texts, same_text};
use crate::types::{MergeStrategy, ReplError, WorkOperation, WorkStatus};

verus! {

/// Parameters of a snapshot job (generate or apply).
pub struct SnapshotParams {
    /// Where the snapshot is written or read.
    pub path: String,
    /// Compression of generated snapshot files.
    pub compression: Option<String>,
    /// Number of parallel copy workers.
    pub parallel: i32,
    /// Whether an applied snapshot is verified.
    pub verify: bool,
}

/// Parameters of a merge job.
pub struct MergeParams {
    /// How to reach the peer node.
    pub peer_connstr: String,
    /// Tables to merge, schema-qualified.
    pub tables: Vec<String>,
    pub strategy: MergeStrategy,
    /// Produce audit records and counts only.
    pub dry_run: bool,
}

/// Parameters of a job: exactly one of the two kinds is set for a job in
/// the queue, along with size estimates for progress reporting.
pub struct WorkParams {
    pub snapshot: Option<SnapshotParams>,
    pub merge: Option<MergeParams>,
    pub tables_total: u32,
    pub bytes_total: u64,
    pub rows_total: u64,
}

/// Why a job failed.
pub enum JobError {
    /// Message given by the worker.
    Reported(String),
    /// The claimant with this process id was found dead.
    ClaimantTerminated(u32),
}

/// One job of the queue.
pub struct WorkItem {
    pub id: u64,
    pub operation: WorkOperation,
    /// Snapshot id or merge id.
    pub subject_id: String,
    pub params: WorkParams,
    pub status: WorkStatus,
    /// Process id of the worker that claimed the job.
    pub claimant: Option<u32>,
    pub created_at: i64,
    pub started_at: Option<i64>,
    pub completed_at: Option<i64>,
    pub error: Option<JobError>,
}

/// A job as handed to the worker that claimed it.
pub type WorkQueueEntry = WorkItem;

/// Outcome of a claim.
pub enum ClaimWorkResult {
    /// The job now held by the caller.
    Claimed(WorkItem),
    /// No job is pending.
    NoWork,
    /// The store could not be read.
    Error(String),
}

/// Whether an operation and its parameters go together.
pub open spec fn params_consistent(op: WorkOperation, p: WorkParams) -> bool {
    match op {
        WorkOperation::BidirectionalMerge => p.merge is Some && p.snapshot is None,
        _ => p.snapshot is Some && p.merge is None,
    }
}

/// Invariant of one job: consistent parameters, a claimant exactly while
/// running, an end time exactly once terminal, an error exactly once failed.
pub open spec fn item_consistent(w: WorkItem) -> bool {
    &&& params_consistent(w.operation, w.params)
    &&& (w.claimant is Some <==> w.status == WorkStatus::Running)
    &&& (w.completed_at is Some <==> w.status.is_terminal())
    &&& (w.error is Some <==> w.status == WorkStatus::Failed)
}

/// Ids grow strictly along the queue and stay below `next`.
pub open spec fn ids_increasing(s: Seq<WorkItem>, next: u64) -> bool {
    &&& forall|i: int, j: int| 0 <= i < j < s.len() ==> s[i].id < s[j].id
    &&& forall|i: int| 0 <= i < s.len() ==> s[i].id < next
}

/// Parameter sets that agree, lists compared by content.
pub open spec fn same_params(a: WorkParams, b: WorkParams) -> bool {
    &&& a.snapshot == b.snapshot
    &&& a.tables_total == b.tables_total
    &&& a.bytes_total == b.bytes_total
    &&& a.rows_total == b.rows_total
    &&& match (a.merge, b.merge) {
        (Option::None, Option::None) => true,
        (Option::Some(x), Option::Some(y)) => {
            &&& x.peer_connstr == y.peer_connstr
            &&& x.tables@ == y.tables@
            &&& x.strategy == y.strategy
            &&& x.dry_run == y.dry_run
        },
        _ => false,
    }
}

/// Jobs that agree in every field, lists compared by content.
pub open spec fn same_item(a: WorkItem, b: WorkItem) -> bool {
    &&& a.id == b.id
    &&& a.operation == b.operation
    &&& a.subject_id == b.subject_id
    &&& same_params(a.params, b.params)
    &&& a.status == b.status
    &&& a.claimant == b.claimant
    &&& a.created_at == b.created_at
    &&& a.started_at == b.started_at
    &&& a.completed_at == b.completed_at
    &&& a.error == b.error
}

/// A new pending job.
pub open spec fn pending_item(
    id: u64,
    op: WorkOperation,
    subject_id: String,
    params: WorkParams,
    now: i64,
) -> WorkItem {
    WorkItem {
        id,
        operation: op,
        subject_id,
        params,
        status: WorkStatus::Pending,
        claimant: None,
        created_at: now,
        started_at: None,
        completed_at: None,
        error: None,
    }
}

/// The job once claimed by `worker` at `now`.
pub open spec fn claimed_item(w: WorkItem, worker: u32, now: i64) -> WorkItem {
    WorkItem { status: WorkStatus::Running, claimant: Some(worker), started_at: Some(now), ..w }
}

/// The job once it ended with `status` at `now`.
pub open spec fn ended_item(w: WorkItem, status: WorkStatus, error: Option<JobError>, now: i64) -> WorkItem {
    WorkItem { status, claimant: None, completed_at: Some(now), error, ..w }
}

/// The transitions of a job's status: staying put, or one edge of
/// pending -> running -> {complete, failed}, pending -> cancelled,
/// running -> cancelled.
pub open spec fn allowed_transition(from: WorkStatus, to: WorkStatus) -> bool {
    ||| from == to
    ||| (from == WorkStatus::Pending && (to == WorkStatus::Running || to == WorkStatus::Cancelled))
    ||| (from == WorkStatus::Running && (to == WorkStatus::Complete || to == WorkStatus::Failed
        || to == WorkStatus::Cancelled))
}

/// One call's effect on the queue: jobs keep their place and id and move
/// along allowed edges only; new jobs are appended pending.
pub open spec fn queue_step(before: Seq<WorkItem>, after: Seq<WorkItem>) -> bool {
    &&& before.len() <= after.len()
    &&& forall|i: int|
        0 <= i < before.len() ==> after[i].id == before[i].id && allowed_transition(
            before[i].status,
            after[i].status,
        )
    &&& forall|i: int| before.len() <= i < after.len() ==> after[i].status == WorkStatus::Pending
}

/// Whether job `i` is pending and no other pending job is older (ties go
/// to the earlier position).
pub open spec fn oldest_pending(s: Seq<WorkItem>, i: int) -> bool {
    &&& 0 <= i < s.len()
    &&& s[i].status == WorkStatus::Pending
    &&& forall|j: int|
        0 <= j < s.len() && s[j].status == WorkStatus::Pending ==> s[i].created_at < s[j].created_at
            || (s[i].created_at == s[j].created_at && i <= j)
}

/// Whether any job is pending.
pub open spec fn any_pending(s: Seq<WorkItem>) -> bool {
    exists|i: int| 0 <= i < s.len() && s[i].status == WorkStatus::Pending
}

/// The queue after job `i` was claimed.
pub open spec fn claim_step(s: Seq<WorkItem>, i: int, worker: u32, now: i64) -> Seq<WorkItem> {
    s.update(i, claimed_item(s[i], worker, now))
}

/// Whether some job carries this id.
pub open spec fn has_job(s: Seq<WorkItem>, id: u64) -> bool {
    exists|i: int| 0 <= i < s.len() && s[i].id == id
}

/// Number of jobs with the given status.
pub open spec fn count_status(s: Seq<WorkItem>, st: WorkStatus) -> nat
    decreases s.len(),
{
    if s.len() == 0 {
        0
    } else {
        count_status(s.drop_last(), st) + if s.last().status == st {
            1nat
        } else {
            0nat
        }
    }
}

/// Whether the job runs under a claimant that is not among `live`.
pub open spec fn is_abandoned(w: WorkItem, live: Seq<u32>) -> bool {
    w.status == WorkStatus::Running && w.claimant is Some && !live.contains(w.claimant->0)
}

/// The job after recovery against the live process ids.
pub open spec fn recovered_item(w: WorkItem, live: Seq<u32>, now: i64) -> WorkItem {
    if is_abandoned(w, live) {
        ended_item(
            w,
            WorkStatus::Failed,
            Some(JobError::ClaimantTerminated(w.claimant->0)),
            now,
        )
    } else {
        w
    }
}

/// Number of abandoned jobs.
pub open spec fn abandoned_count(s: Seq<WorkItem>, live: Seq<u32>) -> nat
    decreases s.len(),
{
    if s.len() == 0 {
        0
    } else {
        abandoned_count(s.drop_last(), live) + if is_abandoned(s.last(), live) {
            1nat
        } else {
            0nat
        }
    }
}

/// The queue of jobs.
pub struct WorkQueue {
    items: Vec<WorkItem>,
    next_id: u64,
}

impl WorkQueue {
    /// The jobs, oldest first.
    pub closed spec fn jobs(&self) -> Seq<WorkItem> {
        self.items@
    }

    /// The id the next job gets.
    pub closed spec fn next_job_id(&self) -> u64 {
        self.next_id
    }

    /// Invariant of the queue.
    pub open spec fn wf(&self) -> bool {
        &&& self.next_job_id() >= 1
        &&& ids_increasing(self.jobs(), self.next_job_id())
        &&& forall|i: int| 0 <= i < self.jobs().len() ==> item_consistent(#[trigger] self.jobs()[i])
    }

    /// An empty queue whose first job gets id 1.
    pub fn new() -> (r: WorkQueue)
        ensures
            r.wf(),
            r.jobs().len() == 0,
            r.next_job_id() == 1,
    {
        WorkQueue { items: Vec::new(), next_id: 1 }
    }

    /// The id the next job gets.
    pub fn next_id(&self) -> (r: u64)
        ensures
            r == self.next_job_id(),
    {
        self.next_id
    }

    /// Number of jobs held.
    pub fn len(&self) -> (r: usize)
        ensures
            r == self.jobs().len(),
    {
        self.items.len()
    }

    /// The jobs held, oldest first.
    pub fn items(&self) -> (r: &Vec<WorkItem>)
        ensures
            r@ == self.jobs(),
    {
        &self.items
    }

    /// Rebuilds a queue from jobs read back from a store, oldest first,
    /// with the id the next job gets; `None` when they break the queue's
    /// invariant.
    pub fn from_items(items: Vec<WorkItem>, next_id: u64) -> (r: Option<WorkQueue>)
        ensures
            r is Some <==> next_id >= 1 && ids_increasing(items@, next_id) && forall|i: int|
                0 <= i < items@.len() ==> item_consistent(#[trigger] items@[i]),
            r matches Some(q) ==> q.wf() && q.jobs() == items@ && q.next_job_id() == next_id,
    {
        if next_id == 0 {
            return None;
        }
        let n = items.len();
        let mut i: usize = 0;
        while i < n
            invariant
                n == items@.len(),
                0 <= i <= n,
                next_id >= 1,
                forall|a: int, b: int| 0 <= a < b < i ==> items@[a].id < items@[b].id,
                forall|a: int| 0 <= a < i ==> items@[a].id < next_id,
                forall|a: int| 0 <= a < i ==> item_consistent(#[trigger] items@[a]),
            decreases n - i,
        {
            let w = &items[i];
            if w.id >= next_id || !is_consistent(w) {
                return None;
            }
            if i > 0 && items[i - 1].id >= w.id {
                return None;
            }
            i = i + 1;
        }
        Some(WorkQueue { items, next_id })
    }

    /// Status of the job with this id.
    pub fn status_of(&self, id: u64) -> (r: Option<WorkStatus>)
        ensures
            r is None <==> !has_job(self.jobs(), id),
            r matches Some(st) ==> exists|i: int|
                0 <= i < self.jobs().len() && (#[trigger] self.jobs()[i]).id == id
                    && self.jobs()[i].status == st,
    {
        match self.find(id) {
            Some(i) => Some(self.items[i].status),
            None => None,
        }
    }

    /// Position of the job with this id.
    fn find(&self, id: u64) -> (r: Option<usize>)
        ensures
            r matches Some(i) ==> i < self.jobs().len() && self.jobs()[i as int].id == id,
            r is None ==> !has_job(self.jobs(), id),
    {
        let n = self.items.len();
        let mut i: usize = 0;
        while i < n
            invariant
                n == self.items@.len(),
                0 <= i <= n,
                forall|j: int| 0 <= j < i ==> self.items@[j].id != id,
            decreases n - i,
        {
            if self.items[i].id == id {
                return Some(i);
            }
            i = i + 1;
        }
        None
    }

    /// Adds a pending job; fails with `InvalidOperation` when the parameters
    /// do not fit the operation.
    pub fn enqueue(
        &mut self,
        operation: WorkOperation,
        subject_id: String,
        params: WorkParams,
        now: i64,
    ) -> (r: Result<u64, ReplError>)
        requires
            old(self).wf(),
            old(self).next_job_id() < u64::MAX,
        ensures
            final(self).wf(),
            queue_step(old(self).jobs(), final(self).jobs()),
            params_consistent(operation, params) ==> {
                &&& r == Ok::<u64, ReplError>(old(self).next_job_id())
                &&& final(self).jobs() == old(self).jobs().push(
                    pending_item(old(self).next_job_id(), operation, subject_id, params, now),
                )
                &&& final(self).next_job_id() == old(self).next_job_id() + 1
            },
            !params_consistent(operation, params) ==> {
                &&& r == Err::<u64, ReplError>(ReplError::InvalidOperation)
                &&& final(self).jobs() == old(self).jobs()
                &&& final(self).next_job_id() == old(self).next_job_id()
            },
    {
        let consistent = match operation {
            WorkOperation::BidirectionalMerge => params.merge.is_some() && params.snapshot.is_none(),
            _ => params.snapshot.is_some() && params.merge.is_none(),
        };
        if !consistent {
            return Err(ReplError::InvalidOperation);
        }
        let id = self.next_id;
        let item = WorkItem {
            id,
            operation,
            subject_id,
            params,
            status: WorkStatus::Pending,
            claimant: None,
            created_at: now,
            started_at: None,
            completed_at: None,
            error: None,
        };
        self.items.push(item);
        self.next_id = id + 1;
        proof {
            assert forall|i: int| 0 <= i < self.jobs().len() implies item_consistent(
                #[trigger] self.jobs()[i],
            ) by {
                if i < old(self).jobs().len() {
                    assert(self.jobs()[i] == old(self).jobs()[i]);
                }
            }
        }
        Ok(id)
    }

}


/// Whether a job read back from a store meets the job invariant.
fn is_consistent(w: &WorkItem) -> (r: bool)
    ensures
        r == item_consistent(*w),
{
    let params_ok = match w.operation {
        WorkOperation::BidirectionalMerge => w.params.merge.is_some() && w.params.snapshot.is_none(),
        _ => w.params.snapshot.is_some() && w.params.merge.is_none(),
    };
    let running = w.status == WorkStatus::Running;
    let terminal = w.status == WorkStatus::Complete || w.status == WorkStatus::Failed || w.status
        == WorkStatus::Cancelled;
    let failed = w.status == WorkStatus::Failed;
    params_ok && (w.claimant.is_some() == running) && (w.completed_at.is_some() == terminal) && (
    w.error.is_some() == failed)
}

/// Claims the oldest pending job for `worker` at `now`: it becomes
/// running under that claimant. Each call moves at most one job, and only
/// a pending one, so no job is handed out twice.
pub fn claim_next_work(queue: &mut WorkQueue, worker: u32, now: i64) -> (r: ClaimWorkResult)
    requires
        old(queue).wf(),
    ensures
        final(queue).wf(),
        final(queue).next_job_id() == old(queue).next_job_id(),
        queue_step(old(queue).jobs(), final(queue).jobs()),
        match r {
            ClaimWorkResult::Claimed(item) => exists|i: int|
                {
                    &&& oldest_pending(old(queue).jobs(), i)
                    &&& final(queue).jobs() == claim_step(old(queue).jobs(), i, worker, now)
                    &&& same_item(item, final(queue).jobs()[i])
                },
            ClaimWorkResult::NoWork => !any_pending(old(queue).jobs()) && final(queue).jobs()
                == old(queue).jobs(),
            ClaimWorkResult::Error(_) => false,
        },
{
    let n = queue.items.len();
    let mut best: Option<usize> = None;
    let mut k: usize = 0;
    while k < n
        invariant
            n == queue.items@.len(),
            0 <= k <= n,
            best matches Some(b) ==> {
                &&& b < k
                &&& queue.items@[b as int].status == WorkStatus::Pending
                &&& forall|j: int|
                    0 <= j < k && queue.items@[j].status == WorkStatus::Pending
                        ==> queue.items@[b as int].created_at < queue.items@[j].created_at
                        || (queue.items@[b as int].created_at == queue.items@[j].created_at
                        && b <= j)
            },
            best is None ==> forall|j: int|
                0 <= j < k ==> queue.items@[j].status != WorkStatus::Pending,
        decreases n - k,
    {
        if queue.items[k].status == WorkStatus::Pending {
            match best {
                None => {
                    best = Some(k);
                },
                Some(b) => {
                    if queue.items[k].created_at < queue.items[b].created_at {
                        best = Some(k);
                    }
                },
            }
        }
        k = k + 1;
    }
    match best {
        None => ClaimWorkResult::NoWork,
        Some(b) => {
            let ghost before = queue.items@;
            queue.items[b].status = WorkStatus::Running;
            queue.items[b].claimant = Some(worker);
            queue.items[b].started_at = Some(now);
            assert(queue.items@ =~= claim_step(before, b as int, worker, now));
            proof {
                assert forall|i: int| 0 <= i < queue.jobs().len() implies item_consistent(
                    #[trigger] queue.jobs()[i],
                ) by {
                    assert(item_consistent(before[i]));
                }
            }
            let copy = queue.items[b].copy();
            assert(oldest_pending(before, b as int));
            assert(queue.jobs() == claim_step(before, b as int, worker, now));
            assert(same_item(copy, queue.jobs()[b as int]));
            ClaimWorkResult::Claimed(copy)
        },
    }
}

/// The effect of ending job `id` with a terminal `status` (from running, or
/// also from pending when `from_pending`): unknown ids give `NotFound`, a
/// job in another status gives `InvalidTransition`, and in both cases the
/// queue is unchanged; otherwise the job alone ends at `now`.
pub open spec fn ended_as(
    before: Seq<WorkItem>,
    after: Seq<WorkItem>,
    r: Result<(), ReplError>,
    id: u64,
    from_pending: bool,
    status: WorkStatus,
    error: Option<JobError>,
    now: i64,
) -> bool {
    &&& !has_job(before, id) ==> r == Err::<(), ReplError>(ReplError::NotFound) && after == before
    &&& forall|i: int|
        0 <= i < before.len() && (#[trigger] before[i]).id == id ==> if before[i].status
            == WorkStatus::Running || (from_pending && before[i].status == WorkStatus::Pending) {
            &&& r == Ok::<(), ReplError>(())
            &&& after == before.update(i, ended_item(before[i], status, error, now))
        } else {
            &&& r == Err::<(), ReplError>(ReplError::InvalidTransition)
            &&& after == before
        }
}

/// Ends job `id` with a terminal `status`, from running, or also from
/// pending when `from_pending` holds.
fn end_job(
    queue: &mut WorkQueue,
    id: u64,
    from_pending: bool,
    status: WorkStatus,
    error: Option<JobError>,
    now: i64,
) -> (r: Result<(), ReplError>)
    requires
        old(queue).wf(),
        status.is_terminal(),
        error is Some <==> status == WorkStatus::Failed,
        status == WorkStatus::Cancelled || !from_pending,
    ensures
        final(queue).wf(),
        final(queue).next_job_id() == old(queue).next_job_id(),
        queue_step(old(queue).jobs(), final(queue).jobs()),
        ended_as(old(queue).jobs(), final(queue).jobs(), r, id, from_pending, status, error, now),
{
    match queue.find(id) {
        None => Err(ReplError::NotFound),
        Some(i) => {
            let current = queue.items[i].status;
            let movable = current == WorkStatus::Running || (from_pending && current
                == WorkStatus::Pending);
            if !movable {
                return Err(ReplError::InvalidTransition);
            }
            let ghost before = queue.items@;
            queue.items[i].status = status;
            queue.items[i].claimant = None;
            queue.items[i].completed_at = Some(now);
            queue.items[i].error = error;
            assert(queue.items@ =~= before.update(i as int, ended_item(before[i as int], status, error, now)));
            proof {
                assert forall|j: int| 0 <= j < queue.jobs().len() implies item_consistent(
                    #[trigger] queue.jobs()[j],
                ) by {
                    assert(item_consistent(before[j]));
                }
            }
            Ok(())
        },
    }
}

/// Marks running job `id` complete at `now`. Unknown ids give `NotFound`;
/// a job that is not running gives `InvalidTransition` and is left as is.
pub fn complete_work_entry(queue: &mut WorkQueue, id: u64, now: i64) -> (r: Result<(), ReplError>)
    requires
        old(queue).wf(),
    ensures
        final(queue).wf(),
        final(queue).next_job_id() == old(queue).next_job_id(),
        queue_step(old(queue).jobs(), final(queue).jobs()),
        ended_as(
            old(queue).jobs(),
            final(queue).jobs(),
            r,
            id,
            false,
            WorkStatus::Complete,
            None,
            now,
        ),
{
    end_job(queue, id, false, WorkStatus::Complete, None, now)
}

/// Marks running job `id` failed at `now` with the worker's message.
/// Unknown ids give `NotFound`; a job that is not running gives
/// `InvalidTransition` and is left as is.
pub fn fail_work_entry(
    queue: &mut WorkQueue,
    id: u64,
    error_message: String,
    now: i64,
) -> (r: Result<(), ReplError>)
    requires
        old(queue).wf(),
    ensures
        final(queue).wf(),
        final(queue).next_job_id() == old(queue).next_job_id(),
        queue_step(old(queue).jobs(), final(queue).jobs()),
        ended_as(
            old(queue).jobs(),
            final(queue).jobs(),
            r,
            id,
            false,
            WorkStatus::Failed,
            Some(JobError::Reported(error_message)),
            now,
        ),
{
    end_job(queue, id, false, WorkStatus::Failed, Some(JobError::Reported(error_message)), now)
}

/// Cancels pending or running job `id` at `now`. Unknown ids give
/// `NotFound`; a job that already ended gives `InvalidTransition` and is
/// left as is. A worker running the job notices at its next checkpoint.
pub fn cancel_work_entry(queue: &mut WorkQueue, id: u64, now: i64) -> (r: Result<(), ReplError>)
    requires
        old(queue).wf(),
    ensures
        final(queue).wf(),
        final(queue).next_job_id() == old(queue).next_job_id(),
        queue_step(old(queue).jobs(), final(queue).jobs()),
        ended_as(
            old(queue).jobs(),
            final(queue).jobs(),
            r,
            id,
            true,
            WorkStatus::Cancelled,
            None,
            now,
        ),
{
    end_job(queue, id, true, WorkStatus::Cancelled, None, now)
}

/// Whether `pid` is among `live`.
fn contains_pid(live: &Vec<u32>, pid: u32) -> (r: bool)
    ensures
        r == live@.contains(pid),
{
    let n = live.len();
    let mut i: usize = 0;
    while i < n
        invariant
            n == live@.len(),
            0 <= i <= n,
            forall|j: int| 0 <= j < i ==> live@[j] != pid,
        decreases n - i,
    {
        if live[i] == pid {
            assert(live@[i as int] == pid);
            return true;
        }
        i = i + 1;
    }
    false
}

/// Fails every running job whose claimant is not among the `live` process
/// ids, recording the dead claimant, and returns how many it failed. Jobs in
/// any other situation are left exactly as they were.
pub fn recover_abandoned_work(queue: &mut WorkQueue, live: &Vec<u32>, now: i64) -> (r: u64)
    requires
        old(queue).wf(),
    ensures
        final(queue).wf(),
        final(queue).next_job_id() == old(queue).next_job_id(),
        queue_step(old(queue).jobs(), final(queue).jobs()),
        final(queue).jobs().len() == old(queue).jobs().len(),
        forall|i: int|
            0 <= i < old(queue).jobs().len() ==> #[trigger] final(queue).jobs()[i] == recovered_item(
                old(queue).jobs()[i],
                live@,
                now,
            ),
        r as nat == abandoned_count(old(queue).jobs(), live@),
{
    let ghost before = queue.items@;
    let n = queue.items.len();
    let mut count: u64 = 0;
    let mut i: usize = 0;
    while i < n
        invariant
            n == before.len(),
            queue.items@.len() == n,
            0 <= i <= n,
            queue.next_id == old(queue).next_id,
            before == old(queue).items@,
            ids_increasing(before, queue.next_id),
            forall|j: int| 0 <= j < n ==> item_consistent(#[trigger] before[j]),
            forall|j: int| 0 <= j < i ==> #[trigger] queue.items@[j] == recovered_item(before[j], live@, now),
            forall|j: int| i <= j < n ==> #[trigger] queue.items@[j] == before[j],
            count as nat == abandoned_count(before.subrange(0, i as int), live@),
            count <= i,
        decreases n - i,
    {
        assert(before.subrange(0, i + 1).drop_last() =~= before.subrange(0, i as int));
        let running = queue.items[i].status == WorkStatus::Running;
        if running {
            match queue.items[i].claimant {
                Some(pid) => {
                    if !contains_pid(live, pid) {
                        queue.items[i].status = WorkStatus::Failed;
                        queue.items[i].claimant = None;
                        queue.items[i].completed_at = Some(now);
                        queue.items[i].error = Some(JobError::ClaimantTerminated(pid));
                        count = count + 1;
                    }
                },
                None => {},
            }
        }
        i = i + 1;
    }
    assert(before.subrange(0, n as int) =~= before);
    proof {
        assert forall|j: int| 0 <= j < queue.jobs().len() implies item_consistent(
            #[trigger] queue.jobs()[j],
        ) by {
            assert(item_consistent(before[j]));
            assert(queue.jobs()[j] == recovered_item(before[j], live@, now));
        }
        assert forall|j: int| 0 <= j < before.len() implies queue.jobs()[j].id == before[j].id
            && allowed_transition(before[j].status, queue.jobs()[j].status) by {
            assert(queue.jobs()[j] == recovered_item(before[j], live@, now));
        }
    }
    count
}

/// Number of jobs with status `status`.
fn count_with_status(queue: &WorkQueue, status: WorkStatus) -> (r: u64)
    ensures
        r as nat == count_status(queue.jobs(), status),
{
    let n = queue.items.len();
    let mut count: u64 = 0;
    let mut i: usize = 0;
    while i < n
        invariant
            n == queue.items@.len(),
            0 <= i <= n,
            count as nat == count_status(queue.items@.subrange(0, i as int), status),
            count <= i,
        decreases n - i,
    {
        assert(queue.items@.subrange(0, i + 1).drop_last() =~= queue.items@.subrange(0, i as int));
        if queue.items[i].status == status {
            count = count + 1;
        }
        i = i + 1;
    }
    assert(queue.items@.subrange(0, n as int) =~= queue.items@);
    count
}

/// Number of pending jobs.
pub fn get_pending_work_count(queue: &WorkQueue) -> (r: u64)
    ensures
        r as nat == count_status(queue.jobs(), WorkStatus::Pending),
{
    count_with_status(queue, WorkStatus::Pending)
}

/// Number of running jobs.
pub fn get_running_work_count(queue: &WorkQueue) -> (r: u64)
    ensures
        r as nat == count_status(queue.jobs(), WorkStatus::Running),
{
    count_with_status(queue, WorkStatus::Running)
}

/// Whether `w` is the fresh pending snapshot job with these values.
pub open spec fn is_new_snapshot_job(
    w: WorkItem,
    id: u64,
    op: WorkOperation,
    snapshot_id: Seq<char>,
    path: Seq<char>,
    compression: Option<Seq<char>>,
    parallel: i32,
    verify: bool,
    now: i64,
) -> bool {
    &&& w.id == id
    &&& w.operation == op
    &&& w.subject_id@ == snapshot_id
    &&& w.status == WorkStatus::Pending
    &&& w.claimant is None
    &&& w.created_at == now
    &&& w.started_at is None
    &&& w.completed_at is None
    &&& w.error is None
    &&& w.params.merge is None
    &&& w.params.tables_total == 0
    &&& w.params.bytes_total == 0
    &&& w.params.rows_total == 0
    &&& w.params.snapshot matches Some(p) && {
        &&& p.path@ == path
        &&& p.parallel == parallel
        &&& p.verify == verify
        &&& match (p.compression, compression) {
            (Option::Some(c), Option::Some(d)) => c@ == d,
            (Option::None, Option::None) => true,
            _ => false,
        }
    }
}

/// Compressions a snapshot may use.
pub open spec fn is_known_compression(c: Seq<char>) -> bool {
    c == "none"@ || c == "gzip"@ || c == "lz4"@ || c == "zstd"@
}

/// Checks the options of a snapshot request: a known compression and one
/// to 32 parallel workers, else `InvalidOperation`.
pub fn check_snapshot_options(compression: &str, parallel: i32) -> (r: Result<(), ReplError>)
    ensures
        r is Ok <==> is_known_compression(compression@) && 1 <= parallel <= 32,
        r is Err ==> r == Err::<(), ReplError>(ReplError::InvalidOperation),
{
    let known = same_text(compression, "none") || same_text(compression, "gzip") || same_text(
        compression,
        "lz4",
    ) || same_text(compression, "zstd");
    if !known || parallel < 1 || parallel > 32 {
        return Err(ReplError::InvalidOperation);
    }
    Ok(())
}

/// Queues a snapshot generation and returns the job id.
pub fn queue_snapshot_generate(
    queue: &mut WorkQueue,
    snapshot_id: &str,
    output_path: &str,
    compression: &str,
    parallel: i32,
    now: i64,
) -> (r: Result<u64, ReplError>)
    requires
        old(queue).wf(),
        old(queue).next_job_id() < u64::MAX,
    ensures
        final(queue).wf(),
        queue_step(old(queue).jobs(), final(queue).jobs()),
        r == Ok::<u64, ReplError>(old(queue).next_job_id()),
        final(queue).next_job_id() == old(queue).next_job_id() + 1,
        final(queue).jobs().len() == old(queue).jobs().len() + 1,
        final(queue).jobs().drop_last() == old(queue).jobs(),
        is_new_snapshot_job(
            final(queue).jobs().last(),
            old(queue).next_job_id(),
            WorkOperation::SnapshotGenerate,
            snapshot_id@,
            output_path@,
            Some(compression@),
            parallel,
            false,
            now,
        ),
{
    let params = WorkParams {
        snapshot: Some(
            SnapshotParams {
                path: output_path.to_owned(),
                compression: Some(compression.to_owned()),
                parallel,
                verify: false,
            },
        ),
        merge: None,
        tables_total: 0,
        bytes_total: 0,
        rows_total: 0,
    };
    let r = queue.enqueue(WorkOperation::SnapshotGenerate, snapshot_id.to_owned(), params, now);
    assert(final(queue).jobs().drop_last() =~= old(queue).jobs());
    r
}

/// Queues a snapshot application and returns the job id.
pub fn queue_snapshot_apply(
    queue: &mut WorkQueue,
    snapshot_id: &str,
    input_path: &str,
    parallel: i32,
    verify: bool,
    now: i64,
) -> (r: Result<u64, ReplError>)
    requires
        old(queue).wf(),
        old(queue).next_job_id() < u64::MAX,
    ensures
        final(queue).wf(),
        queue_step(old(queue).jobs(), final(queue).jobs()),
        r == Ok::<u64, ReplError>(old(queue).next_job_id()),
        final(queue).next_job_id() == old(queue).next_job_id() + 1,
        final(queue).jobs().len() == old(queue).jobs().len() + 1,
        final(queue).jobs().drop_last() == old(queue).jobs(),
        is_new_snapshot_job(
            final(queue).jobs().last(),
            old(queue).next_job_id(),
            WorkOperation::SnapshotApply,
            snapshot_id@,
            input_path@,
            None,
            parallel,
            verify,
            now,
        ),
{
    let params = WorkParams {
        snapshot: Some(
            SnapshotParams { path: input_path.to_owned(), compression: None, parallel, verify },
        ),
        merge: None,
        tables_total: 0,
        bytes_total: 0,
        rows_total: 0,
    };
    let r = queue.enqueue(WorkOperation::SnapshotApply, snapshot_id.to_owned(), params, now);
    assert(final(queue).jobs().drop_last() =~= old(queue).jobs());
    r
}

/// Queues a merge with a peer over the given tables and returns the job id.
pub fn queue_bidirectional_merge(
    queue: &mut WorkQueue,
    merge_id: &str,
    peer_connstr: &str,
    tables: &Vec<String>,
    strategy: MergeStrategy,
    dry_run: bool,
    now: i64,
) -> (r: Result<u64, ReplError>)
    requires
        old(queue).wf(),
        old(queue).next_job_id() < u64::MAX,
    ensures
        final(queue).wf(),
        queue_step(old(queue).jobs(), final(queue).jobs()),
        r == Ok::<u64, ReplError>(old(queue).next_job_id()),
        final(queue).next_job_id() == old(queue).next_job_id() + 1,
        final(queue).jobs().len() == old(queue).jobs().len() + 1,
        final(queue).jobs().drop_last() == old(queue).jobs(),
        ({
            let w = final(queue).jobs().last();
            &&& w.id == old(queue).next_job_id()
            &&& w.operation == WorkOperation::BidirectionalMerge
            &&& w.subject_id@ == merge_id@
            &&& w.status == WorkStatus::Pending
            &&& w.claimant is None
            &&& w.created_at == now
            &&& w.started_at is None
            &&& w.completed_at is None
            &&& w.error is None
            &&& w.params.snapshot is None
            &&& w.params.tables_total as nat == if tables@.len() <= u32::MAX as nat {
                tables@.len()
            } else {
                u32::MAX as nat
            }
            &&& w.params.bytes_total == 0
            &&& w.params.rows_total == 0
            &&& w.params.merge matches Some(m) && {
                &&& m.peer_connstr@ == peer_connstr@
                &&& m.tables@ == tables@
                &&& m.strategy == strategy
                &&& m.dry_run == dry_run
            }
        }),
{
    let count = tables.len();
    let tables_total: u32 = if count <= u32::MAX as usize {
        count as u32
    } else {
        u32::MAX
    };
    let params = WorkParams {
        snapshot: None,
        merge: Some(
            MergeParams {
                peer_connstr: peer_connstr.to_owned(),
                tables: copy_texts(tables),
                strategy,
                dry_run,
            },
        ),
        tables_total,
        bytes_total: 0,
        rows_total: 0,
    };
    let r = queue.enqueue(WorkOperation::BidirectionalMerge, merge_id.to_owned(), params, now);
    assert(final(queue).jobs().drop_last() =~= old(queue).jobs());
    r
}

/// Whether the job is pending or running.
pub open spec fn is_active(w: WorkItem) -> bool {
    w.status == WorkStatus::Pending || w.status == WorkStatus::Running
}

/// Whether the job is pending or running for `subject`.
pub open spec fn is_active_for(w: WorkItem, subject: Seq<char>) -> bool {
    is_active(w) && w.subject_id@ == subject
}

/// Position of the newest pending or running job for `subject`: the one
/// created last, ties going to the later position.
pub open spec fn newest_active_index(s: Seq<WorkItem>, subject: Seq<char>) -> Option<int>
    decreases s.len(),
{
    if s.len() == 0 {
        None
    } else {
        let before = newest_active_index(s.drop_last(), subject);
        if is_active_for(s.last(), subject) && match before {
            Option::Some(k) => s[k].created_at <= s.last().created_at,
            Option::None => true,
        } {
            Some(s.len() - 1)
        } else {
            before
        }
    }
}

/// The id of the newest pending or running job for `subject`, if any.
pub open spec fn newest_active_for(s: Seq<WorkItem>, subject: Seq<char>) -> Option<u64> {
    match newest_active_index(s, subject) {
        Option::Some(k) => Some(s[k].id),
        Option::None => None,
    }
}

proof fn lemma_newest_active_index(s: Seq<WorkItem>, subject: Seq<char>)
    ensures
        match newest_active_index(s, subject) {
            Option::Some(k) => {
                &&& 0 <= k < s.len()
                &&& is_active_for(s[k], subject)
                &&& forall|j: int|
                    0 <= j < s.len() && is_active_for(#[trigger] s[j], subject) ==> s[j].created_at
                        < s[k].created_at || (s[j].created_at == s[k].created_at && j <= k)
            },
            Option::None => forall|j: int| 0 <= j < s.len() ==> !is_active_for(#[trigger] s[j], subject),
        },
    decreases s.len(),
{
    if s.len() > 0 {
        lemma_newest_active_index(s.drop_last(), subject);
        assert forall|j: int| 0 <= j < s.len() - 1 implies #[trigger] s[j] == s.drop_last()[j] by {}
    }
}

/// Finds the newest pending or running job for a snapshot or merge id (the
/// one created last, ties going to the later position), the job that a
/// cancellation of that snapshot or merge applies to.
pub fn find_active_job_for(queue: &WorkQueue, subject_id: &str) -> (r: Option<u64>)
    ensures
        r == newest_active_for(queue.jobs(), subject_id@),
        r is None <==> forall|j: int|
            0 <= j < queue.jobs().len() ==> !is_active_for(#[trigger] queue.jobs()[j], subject_id@),
        r matches Some(id) ==> exists|k: int|
            0 <= k < queue.jobs().len() && is_active_for(#[trigger] queue.jobs()[k], subject_id@)
                && queue.jobs()[k].id == id && forall|j: int|
                0 <= j < queue.jobs().len() && is_active_for(#[trigger] queue.jobs()[j], subject_id@)
                    ==> queue.jobs()[j].created_at <= queue.jobs()[k].created_at,
{
    let n = queue.items.len();
    let mut best: Option<usize> = None;
    let mut i: usize = 0;
    while i < n
        invariant
            n == queue.items@.len(),
            0 <= i <= n,
            match best {
                Some(b) => newest_active_index(queue.items@.subrange(0, i as int), subject_id@) == Some(
                    b as int,
                ) && b < i,
                None => newest_active_index(queue.items@.subrange(0, i as int), subject_id@) is None,
            },
        decreases n - i,
    {
        let ghost pre = queue.items@.subrange(0, i as int);
        assert(queue.items@.subrange(0, i + 1).drop_last() =~= pre);
        let w = &queue.items[i];
        let active = w.status == WorkStatus::Pending || w.status == WorkStatus::Running;
        if active && same_text(w.subject_id.as_str(), subject_id) {
            match best {
                None => {
                    best = Some(i);
                },
                Some(b) => {
                    assert(pre[b as int] == queue.items@[b as int]);
                    if queue.items[b].created_at <= w.created_at {
                        best = Some(i);
                    }
                },
            }
        }
        i = i + 1;
    }
    assert(queue.items@.subrange(0, n as int) =~= queue.items@);
    proof {
        lemma_newest_active_index(queue.items@, subject_id@);
    }
    match best {
        Some(b) => Some(queue.items[b].id),
        None => None,
    }
}

/// Whether each call of a run took the queue one allowed step.
pub open spec fn is_run(states: Seq<Seq<WorkItem>>) -> bool {
    forall|u: int| 0 <= u < states.len() - 1 ==> queue_step(#[trigger] states[u], states[u + 1])
}

/// A claim takes the oldest pending job, and the next claim, by any worker,
/// takes a different job: the first one is running by then.
pub proof fn lemma_no_double_claim(
    s: Seq<WorkItem>,
    next: u64,
    i: int,
    first_worker: u32,
    first_now: i64,
    j: int,
)
    requires
        ids_increasing(s, next),
        oldest_pending(s, i),
        oldest_pending(claim_step(s, i, first_worker, first_now), j),
    ensures
        j != i,
        s[i].id != claim_step(s, i, first_worker, first_now)[j].id,
{
    let after = claim_step(s, i, first_worker, first_now);
    assert(after[i].status == WorkStatus::Running);
    assert(after[j] == s[j]);
}

/// Whether `states` is a run of claims by several workers: each state
/// comes from the one before by claiming its oldest pending job, at
/// position `picks[k]`, for `workers[k]` at `times[k]`. Exclusive access to
/// the queue orders concurrent claimants into such a run.
pub open spec fn is_claim_run(
    states: Seq<Seq<WorkItem>>,
    picks: Seq<int>,
    workers: Seq<u32>,
    times: Seq<i64>,
) -> bool {
    &&& states.len() == picks.len() + 1
    &&& workers.len() == picks.len()
    &&& times.len() == picks.len()
    &&& forall|k: int|
        0 <= k < picks.len() ==> oldest_pending(#[trigger] states[k], picks[k]) && states[k + 1]
            == claim_step(states[k], picks[k], workers[k], times[k])
}

proof fn lemma_claim_prefix(
    states: Seq<Seq<WorkItem>>,
    picks: Seq<int>,
    workers: Seq<u32>,
    times: Seq<i64>,
    n: int,
)
    requires
        is_claim_run(states, picks, workers, times),
        0 <= n <= picks.len(),
    ensures
        states[n].len() == states[0].len(),
        forall|a: int, b: int| 0 <= a < b < n ==> picks[a] != picks[b],
        forall|a: int|
            0 <= a < n ==> 0 <= #[trigger] picks[a] < states[0].len() && states[0][picks[a]].status
                == WorkStatus::Pending && states[n][picks[a]] == claimed_item(
                states[0][picks[a]],
                workers[a],
                times[a],
            ),
        forall|k: int|
            0 <= k < states[0].len() && (forall|a: int| 0 <= a < n ==> picks[a] != k)
                ==> #[trigger] states[n][k] == states[0][k],
    decreases n,
{
    if n > 0 {
        let m = n - 1;
        lemma_claim_prefix(states, picks, workers, times, m);
        assert(oldest_pending(states[m], picks[m]));
        let p = picks[m];
        assert forall|a: int| 0 <= a < m implies picks[a] != p by {
            assert(states[m][picks[a]].status == WorkStatus::Running);
        }
        assert(states[m][p] == states[0][p]);
        assert forall|a: int|
            0 <= a < n implies 0 <= #[trigger] picks[a] < states[0].len() && states[0][picks[a]].status
                == WorkStatus::Pending && states[n][picks[a]] == claimed_item(
                states[0][picks[a]],
                workers[a],
                times[a],
            ) by {
            if a < m {
                assert(picks[a] != p);
            }
        }
        assert forall|k: int|
            0 <= k < states[0].len() && (forall|a: int| 0 <= a < n ==> picks[a] != k) implies #[trigger] states[n][k]
                == states[0][k] by {
            assert(picks[m] != k);
        }
    }
}

/// However many workers claim, one after another through the queue's
/// exclusive access: no two of them get the same job, every job handed out
/// was pending before, and at the end each runs under the worker that got
/// it, started at that worker's time.
pub proof fn lemma_claims_never_shared(
    states: Seq<Seq<WorkItem>>,
    picks: Seq<int>,
    workers: Seq<u32>,
    times: Seq<i64>,
    next: u64,
)
    requires
        is_claim_run(states, picks, workers, times),
        ids_increasing(states[0], next),
    ensures
        forall|a: int, b: int|
            0 <= a < b < picks.len() ==> #[trigger] states[0][picks[a]].id != #[trigger] states[0][picks[b]].id,
        forall|a: int|
            0 <= a < picks.len() ==> states[0][#[trigger] picks[a]].status == WorkStatus::Pending
                && states.last()[picks[a]] == claimed_item(states[0][picks[a]], workers[a], times[a]),
{
    let n = picks.len() as int;
    lemma_claim_prefix(states, picks, workers, times, n);
    assert(states.last() == states[n]);
    assert forall|a: int, b: int| 0 <= a < b < picks.len() implies #[trigger] states[0][picks[a]].id
        != #[trigger] states[0][picks[b]].id by {
        assert(picks[a] != picks[b]);
        assert(0 <= picks[a] < states[0].len());
        assert(0 <= picks[b] < states[0].len());
    }
}

/// Along a run, a job keeps its place and id.
pub proof fn lemma_run_keeps_job(states: Seq<Seq<WorkItem>>, k: int, t: int)
    requires
        is_run(states),
        0 <= t < states.len(),
        0 <= k < states[0].len(),
    ensures
        k < states[t].len(),
        states[t][k].id == states[0][k].id,
    decreases t,
{
    if t > 0 {
        lemma_run_keeps_job(states, k, t - 1);
        assert(queue_step(states[t - 1], states[t]));
    }
}

/// Along a run, a job that was claimed (or has ended) is never pending
/// again, so no later claim can hand it out a second time.
pub proof fn lemma_claimed_never_pending_again(states: Seq<Seq<WorkItem>>, k: int, t: int)
    requires
        is_run(states),
        0 <= t < states.len(),
        0 <= k < states[0].len(),
        states[0][k].status != WorkStatus::Pending,
    ensures
        k < states[t].len(),
        states[t][k].status != WorkStatus::Pending,
    decreases t,
{
    lemma_run_keeps_job(states, k, t);
    if t > 0 {
        lemma_claimed_never_pending_again(states, k, t - 1);
        assert(queue_step(states[t - 1], states[t]));
    }
}

/// Along a run, a job that has ended keeps its final status.
pub proof fn lemma_terminal_is_final(states: Seq<Seq<WorkItem>>, k: int, t: int)
    requires
        is_run(states),
        0 <= t < states.len(),
        0 <= k < states[0].len(),
        states[0][k].status.is_terminal(),
    ensures
        k < states[t].len(),
        states[t][k].status == states[0][k].status,
    decreases t,
{
    lemma_run_keeps_job(states, k, t);
    if t > 0 {
        lemma_terminal_is_final(states, k, t - 1);
        assert(queue_step(states[t - 1], states[t]));
    }
}

/// Along a run, a job that starts pending and ends complete or failed was
/// running in some state in between.
pub proof fn lemma_finished_job_was_running(states: Seq<Seq<WorkItem>>, k: int)
    requires
        is_run(states),
        states.len() >= 1,
        0 <= k < states[0].len(),
        states[0][k].status == WorkStatus::Pending,
        k < states.last().len(),
        states.last()[k].status == WorkStatus::Complete || states.last()[k].status
            == WorkStatus::Failed,
    ensures
        exists|t: int| 0 < t < states.len() - 1 && (#[trigger] states[t])[k].status == WorkStatus::Running,
    decreases states.len(),
{
    let n = states.len();
    assert(n >= 2);
    lemma_run_keeps_job(states, k, n - 2);
    assert(queue_step(states[n - 2], states[n - 1]));
    let prev = states[n - 2][k].status;
    if prev == WorkStatus::Running {
        assert(n - 2 > 0);
        assert(0 < n - 2 < n - 1 && states[n - 2][k].status == WorkStatus::Running);
    } else {
        let shorter = states.take(n - 1);
        assert forall|u: int| 0 <= u < shorter.len() - 1 implies queue_step(
            #[trigger] shorter[u],
            shorter[u + 1],
        ) by {
            assert(shorter[u] == states[u]);
            assert(shorter[u + 1] == states[u + 1]);
        }
        assert(shorter[0] == states[0]);
        assert(shorter.last() == states[n - 2]);
        lemma_finished_job_was_running(shorter, k);
        let t = choose|t: int| 0 < t < shorter.len() - 1 && (#[trigger] shorter[t])[k].status
            == WorkStatus::Running;
        assert(shorter[t] == states[t]);
    }
}

proof fn lemma_no_abandoned_counts_zero(s: Seq<WorkItem>, live: Seq<u32>)
    requires
        forall|j: int| 0 <= j < s.len() ==> !is_abandoned(#[trigger] s[j], live),
    ensures
        abandoned_count(s, live) == 0,
    decreases s.len(),
{
    if s.len() > 0 {
        lemma_no_abandoned_counts_zero(s.drop_last(), live);
    }
}

/// Recovery over a queue where job `k` alone runs under a dead claimant
/// fails exactly that job and leaves every other job, running under a live
/// claimant or not, unchanged.
pub proof fn lemma_recover_single_abandoned(s: Seq<WorkItem>, live: Seq<u32>, now: i64, k: int)
    requires
        0 <= k < s.len(),
        is_abandoned(s[k], live),
        forall|j: int| 0 <= j < s.len() && j != k ==> !is_abandoned(#[trigger] s[j], live),
    ensures
        abandoned_count(s, live) == 1,
        recovered_item(s[k], live, now).status == WorkStatus::Failed,
        recovered_item(s[k], live, now).error == Some(JobError::ClaimantTerminated(s[k].claimant->0)),
        forall|j: int| 0 <= j < s.len() && j != k ==> recovered_item(#[trigger] s[j], live, now) == s[j],
    decreases s.len(),
{
    if k == s.len() - 1 {
        lemma_no_abandoned_counts_zero(s.drop_last(), live);
    } else {
        lemma_recover_single_abandoned(s.drop_last(), live, now, k);
    }
}

impl MergeParams {
    /// A copy with the same content.
    pub fn copy(&self) -> (r: MergeParams)
        ensures
            r.peer_connstr == self.peer_connstr,
            r.tables@ == self.tables@,
            r.strategy == self.strategy,
            r.dry_run == self.dry_run,
    {
        MergeParams {
            peer_connstr: self.peer_connstr.clone(),
            tables: copy_texts(&self.tables),
            strategy: self.strategy,
            dry_run: self.dry_run,
        }
    }
}

impl SnapshotParams {
    /// A copy with the same content.
    pub fn copy(&self) -> (r: SnapshotParams)
        ensures
            r == *self,
    {
        SnapshotParams {
            path: self.path.clone(),
            compression: self.compression.clone(),
            parallel: self.parallel,
            verify: self.verify,
        }
    }
}

impl WorkParams {
    /// A copy with the same content.
    pub fn copy(&self) -> (r: WorkParams)
        ensures
            same_params(r, *self),
    {
        let snapshot = match &self.snapshot {
            Some(p) => Some(p.copy()),
            None => None,
        };
        let merge = match &self.merge {
            Some(p) => Some(p.copy()),
            None => None,
        };
        WorkParams {
            snapshot,
            merge,
            tables_total: self.tables_total,
            bytes_total: self.bytes_total,
            rows_total: self.rows_total,
        }
    }
}

impl JobError {
    /// A copy with the same content.
    pub fn copy(&self) -> (r: JobError)
        ensures
            r == *self,
    {
        match self {
            JobError::Reported(m) => JobError::Reported(m.clone()),
            JobError::ClaimantTerminated(pid) => JobError::ClaimantTerminated(*pid),
        }
    }
}

impl WorkItem {
    /// A copy with the same content.
    pub fn copy(&self) -> (r: WorkItem)
        ensures
            same_item(r, *self),
    {
        let error = match &self.error {
            Some(e) => Some(e.copy()),
            None => None,
        };
        WorkItem {
            id: self.id,
            operation: self.operation,
            subject_id: self.subject_id.clone(),
            params: self.params.copy(),
            status: self.status,
            claimant: self.claimant,
            created_at: self.created_at,
            started_at: self.started_at,
            completed_at: self.completed_at,
            error,
        }
    }
}

} // verus!
