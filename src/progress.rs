//! The progress monitor: one slot that describes the operation in flight.
//!
//! A single writer (the worker holding the current job) updates the slot
//! while any number of readers take copies of it. Locking is the caller's
//! business; every method here is a plain state change with an exact
//! contract. Percentages are kept in hundredths of a percent, so that a
//! finished operation reads exactly 100.00.

use vstd::prelude::*;
use vstd::arithmetic::div_mod::{lemma_div_by_multiple, lemma_div_is_ordered};
use vstd::arithmetic::mul::lemma_mul_inequality;

use crate::text::{truncate_chars, truncated};

verus! {

/// Longest operation id kept, in characters.
pub const OPERATION_ID_MAX_CHARS: usize = 63;

/// Longest table name kept, in characters.
pub const TABLE_NAME_MAX_CHARS: usize = 127;

/// Longest error message kept, in characters.
pub const ERROR_MESSAGE_MAX_CHARS: usize = 255;

/// A whole operation, in hundredths of a percent.
pub const FULL_PERCENT: u32 = 10000;

/// Phase of the operation in flight.
#[derive(Debug, Clone, Copy, PartialEq, Eq, Structural)]
pub enum ProgressPhase {
    Idle,
    Schema,
    Data,
    Sequences,
    Indexes,
    Constraints,
    Verify,
    Finalizing,
    Complete,
    Failed,
}

/// The phase that a stored code stands for; unknown codes read as idle.
pub open spec fn phase_of_code(value: i32) -> ProgressPhase {
    if value == 1 {
        ProgressPhase::Schema
    } else if value == 2 {
        ProgressPhase::Data
    } else if value == 3 {
        ProgressPhase::Sequences
    } else if value == 4 {
        ProgressPhase::Indexes
    } else if value == 5 {
        ProgressPhase::Constraints
    } else if value == 6 {
        ProgressPhase::Verify
    } else if value == 7 {
        ProgressPhase::Finalizing
    } else if value == 8 {
        ProgressPhase::Complete
    } else if value == 9 {
        ProgressPhase::Failed
    } else {
        ProgressPhase::Idle
    }
}

/// Text form of a phase.
pub open spec fn phase_text(p: ProgressPhase) -> Seq<char> {
    match p {
        ProgressPhase::Idle => "idle"@,
        ProgressPhase::Schema => "schema"@,
        ProgressPhase::Data => "data"@,
        ProgressPhase::Sequences => "sequences"@,
        ProgressPhase::Indexes => "indexes"@,
        ProgressPhase::Constraints => "constraints"@,
        ProgressPhase::Verify => "verify"@,
        ProgressPhase::Finalizing => "finalizing"@,
        ProgressPhase::Complete => "complete"@,
        ProgressPhase::Failed => "failed"@,
    }
}

impl ProgressPhase {
    /// Decodes a stored phase code.
    pub fn from_i32(value: i32) -> (r: ProgressPhase)
        ensures
            r == phase_of_code(value),
    {
        if value == 1 {
            ProgressPhase::Schema
        } else if value == 2 {
            ProgressPhase::Data
        } else if value == 3 {
            ProgressPhase::Sequences
        } else if value == 4 {
            ProgressPhase::Indexes
        } else if value == 5 {
            ProgressPhase::Constraints
        } else if value == 6 {
            ProgressPhase::Verify
        } else if value == 7 {
            ProgressPhase::Finalizing
        } else if value == 8 {
            ProgressPhase::Complete
        } else if value == 9 {
            ProgressPhase::Failed
        } else {
            ProgressPhase::Idle
        }
    }

    /// Text form of the phase.
    pub fn as_str(&self) -> (r: &'static str)
        ensures
            r@ == phase_text(*self),
    {
        match self {
            ProgressPhase::Idle => "idle",
            ProgressPhase::Schema => "schema",
            ProgressPhase::Data => "data",
            ProgressPhase::Sequences => "sequences",
            ProgressPhase::Indexes => "indexes",
            ProgressPhase::Constraints => "constraints",
            ProgressPhase::Verify => "verify",
            ProgressPhase::Finalizing => "finalizing",
            ProgressPhase::Complete => "complete",
            ProgressPhase::Failed => "failed",
        }
    }
}

/// Kind of the operation in flight.
#[derive(Debug, Clone, Copy, PartialEq, Eq, Structural)]
pub enum OperationType {
    NoOperation,
    SnapshotGenerate,
    SnapshotApply,
    BidirectionalMerge,
}

/// Text form of an operation kind.
pub open spec fn operation_type_text(t: OperationType) -> Seq<char> {
    match t {
        OperationType::NoOperation => "none"@,
        OperationType::SnapshotGenerate => "snapshot_generate"@,
        OperationType::SnapshotApply => "snapshot_apply"@,
        OperationType::BidirectionalMerge => "bidirectional_merge"@,
    }
}

impl OperationType {
    /// Text form of the kind.
    pub fn as_str(&self) -> (r: &'static str)
        ensures
            r@ == operation_type_text(*self),
    {
        match self {
            OperationType::NoOperation => "none",
            OperationType::SnapshotGenerate => "snapshot_generate",
            OperationType::SnapshotApply => "snapshot_apply",
            OperationType::BidirectionalMerge => "bidirectional_merge",
        }
    }
}

/// `done` out of `total`, in hundredths of a percent, rounded down; work
/// beyond the total counts as the total.
pub open spec fn ratio_hundredths(done: nat, total: nat) -> nat {
    if total == 0 {
        0
    } else {
        (if done <= total { done } else { total }) * 10000 / total
    }
}

/// Overall completion: by bytes when a byte total is known, else by rows,
/// else by tables, else zero.
pub open spec fn overall_hundredths(
    bytes_done: nat,
    bytes_total: nat,
    rows_done: nat,
    rows_total: nat,
    tables_done: nat,
    tables_total: nat,
) -> nat {
    if bytes_total > 0 {
        ratio_hundredths(bytes_done, bytes_total)
    } else if rows_total > 0 {
        ratio_hundredths(rows_done, rows_total)
    } else if tables_total > 0 {
        ratio_hundredths(tables_done, tables_total)
    } else {
        0
    }
}

/// Seconds left at the observed rate: the bytes still to go times the
/// seconds spent, over the bytes done (which must be positive).
pub open spec fn eta_estimate(bytes_done: nat, bytes_total: nat, elapsed: nat) -> nat {
    (if bytes_total > bytes_done { (bytes_total - bytes_done) as nat } else { 0 }) * elapsed
        / bytes_done
}

/// The estimate, capped to what the slot can hold.
pub open spec fn eta_capped(bytes_done: nat, bytes_total: nat, elapsed: nat) -> i32 {
    let e = eta_estimate(bytes_done, bytes_total, elapsed);
    if e > i32::MAX as nat {
        i32::MAX
    } else {
        e as i32
    }
}

proof fn lemma_ratio_at_most_full(done: nat, total: nat)
    ensures
        ratio_hundredths(done, total) <= 10000,
{
    if total > 0 {
        let d: nat = if done <= total { done } else { total };
        lemma_mul_inequality(d as int, total as int, 10000);
        lemma_div_is_ordered((d * 10000) as int, (total * 10000) as int, total as int);
        lemma_div_by_multiple(10000, total as int);
    }
}

/// More work done never lowers the ratio for a fixed total.
pub proof fn lemma_ratio_monotone(d1: nat, d2: nat, total: nat)
    requires
        d1 <= d2,
    ensures
        ratio_hundredths(d1, total) <= ratio_hundredths(d2, total),
{
    if total > 0 {
        let a: nat = if d1 <= total { d1 } else { total };
        let b: nat = if d2 <= total { d2 } else { total };
        lemma_mul_inequality(a as int, b as int, 10000);
        lemma_div_is_ordered((a * 10000) as int, (b * 10000) as int, total as int);
    }
}

fn ratio_hundredths_of(done: u64, total: u64) -> (r: u32)
    requires
        total > 0,
    ensures
        r as nat == ratio_hundredths(done as nat, total as nat),
        r <= FULL_PERCENT,
{
    let d: u64 = if done <= total { done } else { total };
    let scaled: u128 = d as u128 * 10000u128;
    let q: u128 = scaled / (total as u128);
    proof {
        lemma_ratio_at_most_full(done as nat, total as nat);
    }
    q as u32
}

/// The single progress slot.
pub struct OperationProgress {
    /// Whether an operation is being tracked.
    pub active: bool,
    pub operation_type: OperationType,
    /// Snapshot id or merge id, at most `OPERATION_ID_MAX_CHARS` characters.
    pub operation_id: String,
    pub phase: ProgressPhase,
    /// Completion in hundredths of a percent, 0 to `FULL_PERCENT`.
    pub percent_hundredths: u32,
    pub tables_completed: u32,
    pub tables_total: u32,
    pub bytes_processed: u64,
    pub bytes_total: u64,
    pub rows_processed: u64,
    pub rows_total: u64,
    /// Observed rate in bytes per second, rounded down.
    pub throughput_bytes_sec: u64,
    /// Estimated seconds left; zero when unknown.
    pub eta_seconds: i32,
    /// At most `TABLE_NAME_MAX_CHARS` characters; empty when none.
    pub current_table: String,
    /// At most `ERROR_MESSAGE_MAX_CHARS` characters; empty when none.
    pub error_message: String,
    /// Start of the operation, in seconds since the epoch.
    pub started_at: i64,
    /// Job that owns the slot.
    pub work_queue_id: u64,
}

/// A copy of the slot as a reader reports it for one operation.
pub struct ProgressRow {
    pub operation_id: String,
    pub phase: ProgressPhase,
    pub percent_hundredths: u32,
    pub tables_completed: u32,
    pub tables_total: u32,
    pub current_table: Option<String>,
    pub bytes_processed: u64,
    pub eta_seconds: Option<i32>,
    pub error: Option<String>,
}

impl OperationProgress {
    /// Bounds that every method keeps.
    pub open spec fn wf(&self) -> bool {
        &&& self.percent_hundredths <= FULL_PERCENT
        &&& self.operation_id@.len() <= OPERATION_ID_MAX_CHARS
        &&& self.current_table@.len() <= TABLE_NAME_MAX_CHARS
        &&& self.error_message@.len() <= ERROR_MESSAGE_MAX_CHARS
    }

    /// The slot as it is before any operation.
    pub open spec fn is_idle(&self) -> bool {
        &&& !self.active
        &&& self.operation_type == OperationType::NoOperation
        &&& self.operation_id@.len() == 0
        &&& self.phase == ProgressPhase::Idle
        &&& self.percent_hundredths == 0
        &&& self.tables_completed == 0
        &&& self.tables_total == 0
        &&& self.bytes_processed == 0
        &&& self.bytes_total == 0
        &&& self.rows_processed == 0
        &&& self.rows_total == 0
        &&& self.throughput_bytes_sec == 0
        &&& self.eta_seconds == 0
        &&& self.current_table@.len() == 0
        &&& self.error_message@.len() == 0
        &&& self.started_at == 0
        &&& self.work_queue_id == 0
    }

    /// Whether a reader sees a finished or running operation in the slot.
    pub open spec fn is_reportable(&self) -> bool {
        self.active || self.phase == ProgressPhase::Complete || self.phase == ProgressPhase::Failed
    }

    /// An idle slot.
    pub fn new() -> (r: OperationProgress)
        ensures
            r.is_idle(),
            r.wf(),
    {
        OperationProgress {
            active: false,
            operation_type: OperationType::NoOperation,
            operation_id: String::new(),
            phase: ProgressPhase::Idle,
            percent_hundredths: 0,
            tables_completed: 0,
            tables_total: 0,
            bytes_processed: 0,
            bytes_total: 0,
            rows_processed: 0,
            rows_total: 0,
            throughput_bytes_sec: 0,
            eta_seconds: 0,
            current_table: String::new(),
            error_message: String::new(),
            started_at: 0,
            work_queue_id: 0,
        }
    }

    /// Returns the slot to idle.
    pub fn reset(&mut self)
        ensures
            final(self).is_idle(),
            final(self).wf(),
    {
        *self = OperationProgress::new();
    }

    /// Resets the slot and begins tracking one job at time `now`.
    pub fn start(
        &mut self,
        operation_type: OperationType,
        operation_id: &str,
        work_queue_id: u64,
        tables_total: u32,
        bytes_total: u64,
        rows_total: u64,
        now: i64,
    )
        ensures
            final(self).wf(),
            final(self).active,
            final(self).operation_type == operation_type,
            final(self).operation_id@ == truncated(operation_id@, OPERATION_ID_MAX_CHARS as nat),
            final(self).phase == ProgressPhase::Schema,
            final(self).percent_hundredths == 0,
            final(self).tables_completed == 0,
            final(self).tables_total == tables_total,
            final(self).bytes_processed == 0,
            final(self).bytes_total == bytes_total,
            final(self).rows_processed == 0,
            final(self).rows_total == rows_total,
            final(self).throughput_bytes_sec == 0,
            final(self).eta_seconds == 0,
            final(self).current_table@.len() == 0,
            final(self).error_message@.len() == 0,
            final(self).started_at == now,
            final(self).work_queue_id == work_queue_id,
    {
        self.reset();
        self.active = true;
        self.operation_type = operation_type;
        self.operation_id = truncate_chars(operation_id, OPERATION_ID_MAX_CHARS);
        self.work_queue_id = work_queue_id;
        self.tables_total = tables_total;
        self.bytes_total = bytes_total;
        self.rows_total = rows_total;
        self.phase = ProgressPhase::Schema;
        self.started_at = now;
    }

    /// Records new counters at time `now` and recomputes completion, rate
    /// and estimate. Rate and estimate are left as they were while no time
    /// has passed or no byte has been processed.
    pub fn update(
        &mut self,
        phase: ProgressPhase,
        tables_completed: u32,
        bytes_processed: u64,
        rows_processed: u64,
        current_table: &str,
        now: i64,
    )
        ensures
            old(self).wf() ==> final(self).wf(),
            final(self).phase == phase,
            final(self).tables_completed == tables_completed,
            final(self).bytes_processed == bytes_processed,
            final(self).rows_processed == rows_processed,
            final(self).current_table@ == truncated(current_table@, TABLE_NAME_MAX_CHARS as nat),
            final(self).percent_hundredths as nat == overall_hundredths(
                bytes_processed as nat,
                old(self).bytes_total as nat,
                rows_processed as nat,
                old(self).rows_total as nat,
                tables_completed as nat,
                old(self).tables_total as nat,
            ),
            ({
                let elapsed = now as int - old(self).started_at as int;
                if elapsed > 0 && bytes_processed > 0 {
                    &&& final(self).throughput_bytes_sec as int == bytes_processed as int / elapsed
                    &&& final(self).eta_seconds == eta_capped(
                        bytes_processed as nat,
                        old(self).bytes_total as nat,
                        elapsed as nat,
                    )
                } else {
                    &&& final(self).throughput_bytes_sec == old(self).throughput_bytes_sec
                    &&& final(self).eta_seconds == old(self).eta_seconds
                }
            }),
            final(self).active == old(self).active,
            final(self).operation_type == old(self).operation_type,
            final(self).operation_id == old(self).operation_id,
            final(self).tables_total == old(self).tables_total,
            final(self).bytes_total == old(self).bytes_total,
            final(self).rows_total == old(self).rows_total,
            final(self).error_message == old(self).error_message,
            final(self).started_at == old(self).started_at,
            final(self).work_queue_id == old(self).work_queue_id,
    {
        self.phase = phase;
        self.tables_completed = tables_completed;
        self.bytes_processed = bytes_processed;
        self.rows_processed = rows_processed;
        self.current_table = truncate_chars(current_table, TABLE_NAME_MAX_CHARS);

        let percent: u32 = if self.bytes_total > 0 {
            ratio_hundredths_of(bytes_processed, self.bytes_total)
        } else if self.rows_total > 0 {
            ratio_hundredths_of(rows_processed, self.rows_total)
        } else if self.tables_total > 0 {
            ratio_hundredths_of(tables_completed as u64, self.tables_total as u64)
        } else {
            0
        };
        self.percent_hundredths = percent;

        let elapsed: i128 = now as i128 - self.started_at as i128;
        if elapsed > 0 && bytes_processed > 0 {
            let secs: u128 = elapsed as u128;
            self.throughput_bytes_sec = (bytes_processed as u128 / secs) as u64;
            let remaining: u128 = if self.bytes_total > bytes_processed {
                (self.bytes_total - bytes_processed) as u128
            } else {
                0
            };
            assert(remaining * secs <= 0xffff_ffff_ffff_ffffu128 * 0xffff_ffff_ffff_ffffu128)
                by (nonlinear_arith)
                requires
                    remaining <= 0xffff_ffff_ffff_ffffu128,
                    secs <= 0xffff_ffff_ffff_ffffu128,
            ;
            let estimate: u128 = remaining * secs / (bytes_processed as u128);
            self.eta_seconds = if estimate > i32::MAX as u128 {
                i32::MAX
            } else {
                estimate as i32
            };
        }
    }

    /// Marks the tracked operation finished: completion reads exactly 100%.
    pub fn complete(&mut self)
        ensures
            old(self).wf() ==> final(self).wf(),
            final(self).phase == ProgressPhase::Complete,
            final(self).percent_hundredths == FULL_PERCENT,
            final(self).eta_seconds == 0,
            !final(self).active,
            final(self).operation_type == old(self).operation_type,
            final(self).operation_id == old(self).operation_id,
            final(self).tables_completed == old(self).tables_completed,
            final(self).tables_total == old(self).tables_total,
            final(self).bytes_processed == old(self).bytes_processed,
            final(self).bytes_total == old(self).bytes_total,
            final(self).rows_processed == old(self).rows_processed,
            final(self).rows_total == old(self).rows_total,
            final(self).throughput_bytes_sec == old(self).throughput_bytes_sec,
            final(self).current_table == old(self).current_table,
            final(self).error_message == old(self).error_message,
            final(self).started_at == old(self).started_at,
            final(self).work_queue_id == old(self).work_queue_id,
    {
        self.phase = ProgressPhase::Complete;
        self.percent_hundredths = FULL_PERCENT;
        self.eta_seconds = 0;
        self.active = false;
    }

    /// Marks the tracked operation failed with a message.
    pub fn fail(&mut self, error: &str)
        ensures
            old(self).wf() ==> final(self).wf(),
            final(self).phase == ProgressPhase::Failed,
            final(self).error_message@ == truncated(error@, ERROR_MESSAGE_MAX_CHARS as nat),
            !final(self).active,
            final(self).operation_type == old(self).operation_type,
            final(self).operation_id == old(self).operation_id,
            final(self).percent_hundredths == old(self).percent_hundredths,
            final(self).tables_completed == old(self).tables_completed,
            final(self).tables_total == old(self).tables_total,
            final(self).bytes_processed == old(self).bytes_processed,
            final(self).bytes_total == old(self).bytes_total,
            final(self).rows_processed == old(self).rows_processed,
            final(self).rows_total == old(self).rows_total,
            final(self).throughput_bytes_sec == old(self).throughput_bytes_sec,
            final(self).eta_seconds == old(self).eta_seconds,
            final(self).current_table == old(self).current_table,
            final(self).started_at == old(self).started_at,
            final(self).work_queue_id == old(self).work_queue_id,
    {
        self.phase = ProgressPhase::Failed;
        self.error_message = truncate_chars(error, ERROR_MESSAGE_MAX_CHARS);
        self.active = false;
    }
}


impl OperationProgress {
    /// Operation id as stored.
    pub fn get_operation_id(&self) -> (r: String)
        ensures
            r@ == self.operation_id@,
    {
        self.operation_id.clone()
    }

    /// Current table as stored.
    pub fn get_current_table(&self) -> (r: String)
        ensures
            r@ == self.current_table@,
    {
        self.current_table.clone()
    }

    /// Error message as stored.
    pub fn get_error_message(&self) -> (r: String)
        ensures
            r@ == self.error_message@,
    {
        self.error_message.clone()
    }

    /// Current phase.
    pub fn get_phase(&self) -> (r: ProgressPhase)
        ensures
            r == self.phase,
    {
        self.phase
    }

    /// Kind of the tracked operation.
    pub fn get_operation_type(&self) -> (r: OperationType)
        ensures
            r == self.operation_type,
    {
        self.operation_type
    }

    /// Whether the slot describes an operation at all (running or ended);
    /// the counters and ids are reported only then.
    pub fn has_operation(&self) -> (r: bool)
        ensures
            r == (self.active || self.phase != ProgressPhase::Idle),
    {
        self.active || self.phase != ProgressPhase::Idle
    }

    /// Completion, reported while running and after success.
    pub fn reported_percent(&self) -> (r: Option<u32>)
        ensures
            r == (if self.active || self.phase == ProgressPhase::Complete {
                Some(self.percent_hundredths)
            } else {
                None::<u32>
            }),
    {
        if self.active || self.phase == ProgressPhase::Complete {
            Some(self.percent_hundredths)
        } else {
            None
        }
    }

    /// Phase, reported while running and after the operation ended.
    pub fn reported_phase(&self) -> (r: Option<ProgressPhase>)
        ensures
            r == (if self.is_reportable() {
                Some(self.phase)
            } else {
                None::<ProgressPhase>
            }),
    {
        if self.active || self.phase == ProgressPhase::Complete || self.phase
            == ProgressPhase::Failed {
            Some(self.phase)
        } else {
            None
        }
    }

    /// Table being processed, while running and when one is set.
    pub fn reported_current_table(&self) -> (r: Option<String>)
        ensures
            r is Some <==> self.active && self.current_table@.len() > 0,
            r matches Some(t) ==> t@ == self.current_table@,
    {
        if self.active && self.current_table.as_str().unicode_len() > 0 {
            Some(self.current_table.clone())
        } else {
            None
        }
    }

    /// Estimated seconds left, while running and when known.
    pub fn reported_eta(&self) -> (r: Option<i32>)
        ensures
            r == (if self.active && self.eta_seconds > 0 {
                Some(self.eta_seconds)
            } else {
                None::<i32>
            }),
    {
        if self.active && self.eta_seconds > 0 {
            Some(self.eta_seconds)
        } else {
            None
        }
    }

    /// Rate in bytes per second, while running.
    pub fn reported_throughput(&self) -> (r: Option<u64>)
        ensures
            r == (if self.active {
                Some(self.throughput_bytes_sec)
            } else {
                None::<u64>
            }),
    {
        if self.active {
            Some(self.throughput_bytes_sec)
        } else {
            None
        }
    }

    /// Error message of a failed operation, when one was given.
    pub fn reported_error(&self) -> (r: Option<String>)
        ensures
            r is Some <==> self.phase == ProgressPhase::Failed && self.error_message@.len() > 0,
            r matches Some(e) ==> e@ == self.error_message@,
    {
        if self.phase == ProgressPhase::Failed && self.error_message.as_str().unicode_len() > 0 {
            Some(self.error_message.clone())
        } else {
            None
        }
    }

    /// The row a reader gets for operation `wanted` (or, with `None`, for
    /// whatever operation the slot names), when the slot reports on it.
    pub fn live_row(&self, wanted: Option<&str>) -> (r: Option<ProgressRow>)
        ensures
            r is Some <==> self.is_reportable() && match wanted {
                Some(w) => self.operation_id@ == w@,
                None => self.operation_id@.len() > 0,
            },
            r matches Some(row) ==> {
                &&& row.operation_id@ == self.operation_id@
                &&& row.phase == self.phase
                &&& row.percent_hundredths == self.percent_hundredths
                &&& row.tables_completed == self.tables_completed
                &&& row.tables_total == self.tables_total
                &&& row.bytes_processed == self.bytes_processed
                &&& (row.current_table is Some <==> self.current_table@.len() > 0)
                &&& (row.current_table matches Some(t) ==> t@ == self.current_table@)
                &&& row.eta_seconds == (if self.eta_seconds > 0 {
                    Some(self.eta_seconds)
                } else {
                    None::<i32>
                })
                &&& (row.error is Some <==> self.phase == ProgressPhase::Failed
                    && self.error_message@.len() > 0)
                &&& (row.error matches Some(e) ==> e@ == self.error_message@)
            },
    {
        let reportable = self.active || self.phase == ProgressPhase::Complete || self.phase
            == ProgressPhase::Failed;
        if !reportable {
            return None;
        }
        let named = match wanted {
            Some(w) => crate::text::same_text(self.operation_id.as_str(), w),
            None => self.operation_id.as_str().unicode_len() > 0,
        };
        if !named {
            return None;
        }
        let current_table = if self.current_table.as_str().unicode_len() > 0 {
            Some(self.current_table.clone())
        } else {
            None
        };
        let eta_seconds = if self.eta_seconds > 0 {
            Some(self.eta_seconds)
        } else {
            None
        };
        let error = if self.phase == ProgressPhase::Failed && self.error_message.as_str().unicode_len()
            > 0 {
            Some(self.error_message.clone())
        } else {
            None
        };
        Some(
            ProgressRow {
                operation_id: self.operation_id.clone(),
                phase: self.phase,
                percent_hundredths: self.percent_hundredths,
                tables_completed: self.tables_completed,
                tables_total: self.tables_total,
                current_table,
                bytes_processed: self.bytes_processed,
                eta_seconds,
                error,
            },
        )
    }
}

/// Completion never goes down across updates whose byte count does not go
/// down, for a fixed, positive byte total (the other counters are then not
/// consulted).
pub proof fn lemma_percent_monotone_in_bytes(
    bytes_total: nat,
    bytes_before: nat,
    bytes_after: nat,
    rows_total: nat,
    rows_before: nat,
    rows_after: nat,
    tables_total: nat,
    tables_before: nat,
    tables_after: nat,
)
    requires
        bytes_total > 0,
        bytes_before <= bytes_after,
    ensures
        overall_hundredths(bytes_before, bytes_total, rows_before, rows_total, tables_before, tables_total)
            <= overall_hundredths(bytes_after, bytes_total, rows_after, rows_total, tables_after, tables_total),
{
    lemma_ratio_monotone(bytes_before, bytes_after, bytes_total);
}

/// Completion never goes down across updates in which no counter goes
/// down, whatever totals the operation started with.
pub proof fn lemma_percent_monotone(
    bytes_total: nat,
    bytes_before: nat,
    bytes_after: nat,
    rows_total: nat,
    rows_before: nat,
    rows_after: nat,
    tables_total: nat,
    tables_before: nat,
    tables_after: nat,
)
    requires
        bytes_before <= bytes_after,
        rows_before <= rows_after,
        tables_before <= tables_after,
    ensures
        overall_hundredths(bytes_before, bytes_total, rows_before, rows_total, tables_before, tables_total)
            <= overall_hundredths(bytes_after, bytes_total, rows_after, rows_total, tables_after, tables_total),
{
    lemma_ratio_monotone(bytes_before, bytes_after, bytes_total);
    lemma_ratio_monotone(rows_before, rows_after, rows_total);
    lemma_ratio_monotone(tables_before, tables_after, tables_total);
}

} // verus!
