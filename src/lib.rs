//! Coordination engines for bidirectional replication between database nodes:
//! a crash-safe work queue, a single-slot progress monitor, schema
//! fingerprinting for drift detection, and a row-level merge engine.

pub mod text;
pub mod types;
pub mod progress;
pub mod work_queue;
pub mod merge;
pub mod fingerprint;
pub mod quiesce;
pub mod worker;
pub mod health;
pub mod payload;
