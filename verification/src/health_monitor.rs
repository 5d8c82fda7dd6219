//! A point-in-time health snapshot of a supervised service and its database
//! dependency.
//!
//! Reading the clock, the environment and running the readiness probe are
//! I/O and live with the caller: it captures the wall-clock time, decides
//! through [`database_probe_needed`] whether the probe must run at all, runs
//! it, and hands the outcomes to [`check_health`], which aggregates them —
//! together with the system boot time — into one well-formed
//! [`HealthStatus`] record.

use vstd::prelude::*;

verus! {

/// Per-service health booleans of one report.
pub struct Services {
    /// Whether the database readiness probe succeeded.
    pub database: bool,
    /// Always reported healthy; no check is performed.
    pub api: bool,
    /// Mirrors the database value; storage is not probed independently.
    pub storage: bool,
}

/// One health report.
pub struct HealthStatus {
    /// "healthy" when the database probe succeeded, else "degraded".
    pub status: String,
    /// Seconds since the epoch at check time.
    pub timestamp: u64,
    /// The reporting service's version string.
    pub version: String,
    /// Per-service booleans.
    pub services: Services,
    /// Whole seconds since system boot; 0 when boot time is unavailable.
    pub uptime_secs: u64,
}

/// The database counts as healthy only when a connection string is
/// configured (non-empty) and the readiness probe on it succeeded.
pub open spec fn db_healthy_spec(db_url: Seq<char>, probe_ok: bool) -> bool {
    db_url.len() > 0 && probe_ok
}

/// The status text a report carries for a given database health.
pub open spec fn status_text(db_healthy: bool) -> Seq<char> {
    if db_healthy {
        "healthy"@
    } else {
        "degraded"@
    }
}

/// The version a report carries when the environment provides none.
pub open spec fn default_version() -> Seq<char> {
    "1.0.0"@
}

/// The uptime a report carries: current time minus boot time, and 0 whenever
/// boot time is unavailable or nonsensical (negative, or in the future).
pub open spec fn uptime_secs_spec(now_secs: u64, boot_secs: Option<i64>) -> int {
    match boot_secs {
        Some(b) => if 0 <= b && b <= now_secs {
            now_secs - b
        } else {
            0
        },
        None => 0,
    }
}

impl HealthStatus {
    /// The report invariant: `status` is "healthy" exactly when the database
    /// is, and never anything but "healthy" or "degraded"; the api flag is
    /// always true; storage mirrors the database.
    pub open spec fn wf(self) -> bool {
        &&& (self.status@ == "healthy"@ <==> self.services.database)
        &&& (self.status@ == "healthy"@ || self.status@ == "degraded"@)
        &&& self.services.api
        &&& self.services.storage == self.services.database
    }
}

/// Whether the readiness probe should run at all: only when a database
/// connection string is configured (non-empty). On an empty string the
/// database is reported unhealthy without running anything.
pub fn database_probe_needed(db_url: &str) -> (b: bool)
    ensures
        b == (db_url@.len() > 0),
{
    !db_url.is_empty()
}

/// Relies on sys_info::boottime for the seconds field of the timeval it
/// reports (read from the platform; on Linux, from /proc/uptime). Nothing is
/// promised of the value; `None` when the platform reports an error.
#[verifier::external_body]
fn system_boot_secs() -> (r: Option<i64>)
{
    match sys_info::boottime() {
        Ok(tv) => Some(tv.tv_sec),
        Err(_) => None,
    }
}

/// The uptime reported for a clock reading and a boot-time reading: their
/// difference in whole seconds, degraded to 0 when the boot time is
/// unavailable or does not lie between the epoch and the clock reading.
pub fn uptime_secs(now_secs: u64, boot_secs: Option<i64>) -> (u: u64)
    ensures
        u as int == uptime_secs_spec(now_secs, boot_secs),
{
    match boot_secs {
        Some(b) => {
            if 0 <= b && (b as u64) <= now_secs {
                now_secs - (b as u64)
            } else {
                0
            }
        },
        None => 0,
    }
}

/// Build the health record for one invocation.
///
/// `now_secs` is the caller's wall-clock reading, `db_url` the configured
/// database connection string, `db_probe_ok` the readiness probe's verdict
/// (false whenever the probe was skipped or could not run), and `version`
/// the environment's version string, if any. The record's uptime comes from
/// the system boot time and never exceeds `now_secs`.
pub fn check_health(now_secs: u64, db_url: &str, db_probe_ok: bool, version: Option<String>) -> (h:
    HealthStatus)
    ensures
        h.wf(),
        h.timestamp == now_secs,
        h.services.database == db_healthy_spec(db_url@, db_probe_ok),
        h.status@ == status_text(h.services.database),
        h.version@ == (match version {
            Some(v) => v@,
            None => default_version(),
        }),
        h.uptime_secs <= now_secs,
        db_url@.len() == 0 ==> !h.services.database && !h.services.storage && h.status@
            == "degraded"@,
{
    let db_healthy = database_probe_needed(db_url) && db_probe_ok;
    let boot_secs = system_boot_secs();
    let uptime = uptime_secs(now_secs, boot_secs);
    let status = if db_healthy {
        "healthy".to_owned()
    } else {
        "degraded".to_owned()
    };
    let version_text = match version {
        Some(v) => v,
        None => "1.0.0".to_owned(),
    };
    proof {
        reveal_strlit("healthy");
        reveal_strlit("degraded");
        assert("healthy"@.len() != "degraded"@.len());
    }
    HealthStatus {
        status,
        timestamp: now_secs,
        version: version_text,
        services: Services { database: db_healthy, api: true, storage: db_healthy },
        uptime_secs: uptime,
    }
}

/// Law: reports built from clock readings at least one second apart carry
/// strictly increasing timestamps — `check_health` pins each report's
/// timestamp to its clock reading, and the clock itself is the caller's.
pub proof fn lemma_timestamp_increases(h1: HealthStatus, h2: HealthStatus, now1: u64, now2: u64)
    requires
        h1.timestamp == now1,
        h2.timestamp == now2,
        now1 + 1 <= now2,
    ensures
        h2.timestamp > h1.timestamp,
{
}

} // verus!
