use vstd::prelude::*;

use crate::storage::policy::StoragePressureLevel;

verus! {

/// Point-in-time storage pressure for operators and health aggregation.
#[derive(Debug, Clone, PartialEq, Eq)]
pub struct StoragePressureSnapshot {
    pub level: StoragePressureLevel,
    /// On-disk size of the database file (best-effort).
    pub db_bytes: u64,
    /// Total disk capacity used for ratio thresholds, when configured.
    pub total_disk_bytes: Option<u64>,
    pub detail: Option<String>,
}

} // verus!
