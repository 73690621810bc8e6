use vstd::prelude::*;

verus! {

/// Selected at install time; drives retention and circular behavior under pressure.
#[derive(Debug, Clone, Copy, PartialEq, Eq, Structural)]
pub enum InstallProfile {
    Constrained,
    Balanced,
    HighCapacity,
}

/// Data criticality tier for hybrid retention (oldest purged first within a tier under pressure).
#[derive(Debug, Clone, Copy, PartialEq, Eq, Structural)]
pub enum RetentionTier {
    /// Must survive longest under normal pressure; still subject to hard circular if configured.
    Critical,
    Operational,
    Telemetry,
}

/// Operator-visible storage pressure (drives health degradation).
#[derive(Debug, Clone, Copy, PartialEq, Eq, Structural)]
pub enum StoragePressureLevel {
    Normal,
    Elevated,
    Critical,
    HardLimit,
}

/// Named presets for install profiles.
#[derive(Debug, Clone, Copy, PartialEq, Eq, Structural)]
pub struct HybridRetentionDefaults;

impl HybridRetentionDefaults {
    pub fn constrained() -> (d: Self)
        ensures
            d == HybridRetentionDefaults,
    {
        Self
    }

    pub fn balanced() -> (d: Self)
        ensures
            d == HybridRetentionDefaults,
    {
        Self
    }

    pub fn high_capacity() -> (d: Self)
        ensures
            d == HybridRetentionDefaults,
    {
        Self
    }

    /// The record caps of the hybrid preset: 50k telemetry, 200k operational, 500k critical.
    pub fn into_caps(self, circular_at_hard_limit: bool) -> (c: RetentionCaps)
        ensures
            c == (RetentionCaps {
                circular_at_hard_limit,
                max_records_telemetry: 50_000,
                max_records_operational: 200_000,
                max_records_critical: 500_000,
            }),
    {
        RetentionCaps {
            circular_at_hard_limit,
            max_records_telemetry: 50_000,
            max_records_operational: 200_000,
            max_records_critical: 500_000,
        }
    }
}

/// The integer part of a storage policy: whether the oldest records are overwritten
/// at the hard limit, and the approximate record cap of each retention tier.
#[derive(Debug, Clone, Copy, PartialEq, Eq, Structural)]
pub struct RetentionCaps {
    pub circular_at_hard_limit: bool,
    pub max_records_telemetry: u64,
    pub max_records_operational: u64,
    pub max_records_critical: u64,
}

/// The caps of each install profile.
pub open spec fn spec_default_caps(p: InstallProfile) -> RetentionCaps {
    match p {
        InstallProfile::Constrained => RetentionCaps {
            circular_at_hard_limit: true,
            max_records_telemetry: 5_000,
            max_records_operational: 20_000,
            max_records_critical: 50_000,
        },
        InstallProfile::Balanced => RetentionCaps {
            circular_at_hard_limit: true,
            max_records_telemetry: 50_000,
            max_records_operational: 200_000,
            max_records_critical: 500_000,
        },
        InstallProfile::HighCapacity => RetentionCaps {
            circular_at_hard_limit: false,
            max_records_telemetry: 200_000,
            max_records_operational: 800_000,
            max_records_critical: 2_000_000,
        },
    }
}

impl InstallProfile {
    /// The caps of the profile's default storage policy (its use ratios are floats
    /// and stay with the adapter).
    pub fn default_caps(self) -> (c: RetentionCaps)
        ensures
            c == spec_default_caps(self),
    {
        match self {
            InstallProfile::Constrained => RetentionCaps {
                circular_at_hard_limit: true,
                max_records_telemetry: 5_000,
                max_records_operational: 20_000,
                max_records_critical: 50_000,
            },
            InstallProfile::Balanced => HybridRetentionDefaults::balanced().into_caps(true),
            InstallProfile::HighCapacity => RetentionCaps {
                circular_at_hard_limit: false,
                max_records_telemetry: 200_000,
                max_records_operational: 800_000,
                max_records_critical: 2_000_000,
            },
        }
    }
}


} // verus!
