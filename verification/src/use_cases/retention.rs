//! The retention sweeper: how often it runs and when a sweep is reported.

use std::sync::Arc;

use vstd::prelude::*;

use crate::storage::profile::StorageLimits;

verus! {

/// Seconds between two retention sweeps.
pub const RETENTION_SWEEP_INTERVAL_SECS: u64 = 3600;

/// The sweeper with its database handle and the limits it enforces.
pub struct RetentionService<D> {
    pub db: Arc<D>,
    pub limits: StorageLimits,
}

impl<D> RetentionService<D> {
    pub fn new(db: Arc<D>, limits: StorageLimits) -> (s: Self)
        ensures
            s.db == db,
            s.limits == limits,
    {
        RetentionService { db, limits }
    }
}

/// A sweep is reported when it purged at least one uplink or audit row.
pub fn sweep_purged_rows(uplinks_purged: u64, audit_log_purged: u64) -> (b: bool)
    ensures
        b == (uplinks_purged > 0 || audit_log_purged > 0),
{
    uplinks_purged > 0 || audit_log_purged > 0
}

} // verus!
