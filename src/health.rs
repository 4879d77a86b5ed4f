//! Health of the extension as a whole, from the state of its parts.

use vstd::prelude::*;

verus! {

/// Overall health.
#[derive(Debug, Clone, Copy, PartialEq, Eq, Structural)]
pub enum HealthStatus {
    /// All parts working.
    Healthy,
    /// Working, with a part missing or a recent error.
    Degraded,
    /// Not working: shared state is unavailable.
    Unhealthy,
}

/// Text form of a health status.
pub open spec fn health_text(h: HealthStatus) -> Seq<char> {
    match h {
        HealthStatus::Healthy => "healthy"@,
        HealthStatus::Degraded => "degraded"@,
        HealthStatus::Unhealthy => "unhealthy"@,
    }
}

impl HealthStatus {
    /// Text form of the status.
    pub fn as_str(&self) -> (r: &'static str)
        ensures
            r@ == health_text(*self),
    {
        match self {
            HealthStatus::Healthy => "healthy",
            HealthStatus::Degraded => "degraded",
            HealthStatus::Unhealthy => "unhealthy",
        }
    }
}

/// Unhealthy without shared state; degraded without a background worker
/// or after an error; healthy otherwise. The number of active operations
/// does not bear on health.
pub fn determine_health_status(
    bgworker_running: bool,
    shmem_available: bool,
    active_operations: i32,
    last_error: &Option<String>,
) -> (r: HealthStatus)
    ensures
        r == if !shmem_available {
            HealthStatus::Unhealthy
        } else if !bgworker_running || last_error is Some {
            HealthStatus::Degraded
        } else {
            HealthStatus::Healthy
        },
{
    if !shmem_available {
        return HealthStatus::Unhealthy;
    }
    if !bgworker_running {
        return HealthStatus::Degraded;
    }
    if last_error.is_some() {
        return HealthStatus::Degraded;
    }
    HealthStatus::Healthy
}

/// Lowest PostgreSQL version supported, as `PG_VERSION_NUM`.
pub const MIN_PG_VERSION_NUM: i32 = 180000;

/// Lowest PostgreSQL version supported.
pub fn steep_repl_min_pg_version() -> (r: i32)
    ensures
        r == MIN_PG_VERSION_NUM,
{
    MIN_PG_VERSION_NUM
}

/// Whether a server version number is supported.
pub fn pg_version_supported(version_num: i32) -> (r: bool)
    ensures
        r == (version_num >= MIN_PG_VERSION_NUM),
{
    version_num >= MIN_PG_VERSION_NUM
}

} // verus!
