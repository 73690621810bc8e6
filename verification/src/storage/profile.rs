use vstd::prelude::*;

use crate::text::{chars_ascii_lower, chars_eq_str, lower, trim, trimmed_chars};

verus! {

/// Storage profile requested by the operator; `Auto` is resolved from the hardware.
#[derive(Debug, Clone, Copy, PartialEq, Eq, Structural)]
pub enum StorageProfile {
    Auto,
    High,
    Mid,
    Extreme,
}

/// The lower-case name of a profile.
pub open spec fn profile_name(p: StorageProfile) -> Seq<char> {
    match p {
        StorageProfile::Auto => "auto"@,
        StorageProfile::High => "high"@,
        StorageProfile::Mid => "mid"@,
        StorageProfile::Extreme => "extreme"@,
    }
}

/// Case-insensitive parsing of a profile name, surrounding whitespace ignored.
pub open spec fn spec_parse_profile(s: Seq<char>) -> Option<StorageProfile> {
    let t = lower(trim(s));
    if t == "auto"@ {
        Some(StorageProfile::Auto)
    } else if t == "high"@ {
        Some(StorageProfile::High)
    } else if t == "mid"@ {
        Some(StorageProfile::Mid)
    } else if t == "extreme"@ {
        Some(StorageProfile::Extreme)
    } else {
        None
    }
}

impl StorageProfile {
    pub fn parse(value: &str) -> (r: Option<Self>)
        ensures
            r == spec_parse_profile(value@),
    {
        let t = chars_ascii_lower(&trimmed_chars(value));
        if chars_eq_str(&t, "auto") {
            Some(Self::Auto)
        } else if chars_eq_str(&t, "high") {
            Some(Self::High)
        } else if chars_eq_str(&t, "mid") {
            Some(Self::Mid)
        } else if chars_eq_str(&t, "extreme") {
            Some(Self::Extreme)
        } else {
            None
        }
    }

    pub fn as_str(&self) -> (s: &'static str)
        ensures
            s@ == profile_name(*self),
    {
        match self {
            Self::Auto => "auto",
            Self::High => "high",
            Self::Mid => "mid",
            Self::Extreme => "extreme",
        }
    }

    /// The profile name as a `String` (what `Display` prints).
    pub fn to_string(&self) -> (s: String)
        ensures
            s@ == profile_name(*self),
    {
        String::from_str(self.as_str())
    }
}

/// Every profile name parses back to its profile.
pub proof fn lemma_profile_name_roundtrip(p: StorageProfile)
    ensures
        spec_parse_profile(profile_name(p)) == Some(p),
{
    reveal_strlit("auto");
    reveal_strlit("high");
    reveal_strlit("mid");
    reveal_strlit("extreme");
    let c = profile_name(p);
    assert(crate::text::first_non_ws(c, 0) == 0);
    assert(crate::text::end_non_ws(c, 0, c.len() as int) == c.len());
    assert(trim(c) =~= c);
    assert(lower(c) =~= c);
    assert("auto"@[0] == 'a');
    assert("high"@[0] == 'h');
    assert("mid"@[0] == 'm');
    assert("extreme"@[0] == 'e');
}

/// Resource limits that a storage profile selects.
#[derive(Debug, Clone, PartialEq, Eq, Structural)]
pub struct StorageLimits {
    pub max_local_storage_mb: u64,
    pub retention_days: u32,
    pub batch_commit_size: usize,
    pub batch_commit_interval_ms: u64,
    pub circular_buffer_capacity: usize,
}

/// The limits of each profile; `Auto` uses those of `Mid`.
pub open spec fn spec_limits(profile: StorageProfile) -> StorageLimits {
    match profile {
        StorageProfile::High => StorageLimits {
            max_local_storage_mb: 4096,
            retention_days: 30,
            batch_commit_size: 512,
            batch_commit_interval_ms: 500,
            circular_buffer_capacity: 100_000,
        },
        StorageProfile::Mid | StorageProfile::Auto => StorageLimits {
            max_local_storage_mb: 512,
            retention_days: 14,
            batch_commit_size: 256,
            batch_commit_interval_ms: 1000,
            circular_buffer_capacity: 25_000,
        },
        StorageProfile::Extreme => StorageLimits {
            max_local_storage_mb: 64,
            retention_days: 3,
            batch_commit_size: 64,
            batch_commit_interval_ms: 2000,
            circular_buffer_capacity: 5_000,
        },
    }
}

impl StorageLimits {
    pub fn for_profile(profile: StorageProfile) -> (l: Self)
        ensures
            l == spec_limits(profile),
        decreases (if profile == StorageProfile::Auto { 1int } else { 0int }),
    {
        match profile {
            StorageProfile::High => Self {
                max_local_storage_mb: 4096,
                retention_days: 30,
                batch_commit_size: 512,
                batch_commit_interval_ms: 500,
                circular_buffer_capacity: 100_000,
            },
            StorageProfile::Mid => Self {
                max_local_storage_mb: 512,
                retention_days: 14,
                batch_commit_size: 256,
                batch_commit_interval_ms: 1000,
                circular_buffer_capacity: 25_000,
            },
            StorageProfile::Extreme => Self {
                max_local_storage_mb: 64,
                retention_days: 3,
                batch_commit_size: 64,
                batch_commit_interval_ms: 2000,
                circular_buffer_capacity: 5_000,
            },
            StorageProfile::Auto => Self::for_profile(StorageProfile::Mid),
        }
    }
}

impl Default for StorageLimits {
    fn default() -> (l: Self)
        ensures
            l == spec_limits(StorageProfile::Mid),
    {
        Self::for_profile(StorageProfile::Mid)
    }
}

/// Host facts that bound the usable storage profile.
#[derive(Debug, Clone, Copy, PartialEq, Eq, Structural)]
pub struct HardwareSnapshot {
    pub total_memory_mb: u64,
}

/// The snapshot for a total memory reported in KiB; zero means unknown.
pub fn hardware_snapshot_from_kib(total_memory_kib: u64) -> (r: Option<HardwareSnapshot>)
    ensures
        total_memory_kib == 0 ==> r is None,
        total_memory_kib != 0 ==> r == Some(HardwareSnapshot { total_memory_mb: total_memory_kib / 1024 }),
{
    if total_memory_kib == 0 {
        return None;
    }
    Some(HardwareSnapshot { total_memory_mb: total_memory_kib / 1024 })
}

/// The profile that the hardware supports: unknown hardware gives `Mid`.
pub open spec fn spec_auto_profile(snapshot: Option<HardwareSnapshot>) -> StorageProfile {
    match snapshot {
        None => StorageProfile::Mid,
        Some(s) => if s.total_memory_mb < 128 {
            StorageProfile::Extreme
        } else if s.total_memory_mb < 512 {
            StorageProfile::Mid
        } else {
            StorageProfile::High
        },
    }
}

/// Capacity order of the profiles (`Auto` ranks as `Mid`).
pub open spec fn spec_profile_rank(p: StorageProfile) -> u8 {
    match p {
        StorageProfile::Extreme => 0,
        StorageProfile::Mid => 1,
        StorageProfile::High => 2,
        StorageProfile::Auto => 1,
    }
}

/// An explicit request is honored unless it ranks above what known hardware supports.
pub open spec fn spec_guarded_profile(requested: StorageProfile, snapshot: Option<HardwareSnapshot>) -> StorageProfile {
    if requested == StorageProfile::Auto {
        spec_auto_profile(snapshot)
    } else {
        match snapshot {
            None => requested,
            Some(_) => {
                let max_supported = spec_auto_profile(snapshot);
                if spec_profile_rank(requested) <= spec_profile_rank(max_supported) {
                    requested
                } else {
                    max_supported
                }
            },
        }
    }
}

pub fn resolve_auto_profile(snapshot: Option<HardwareSnapshot>) -> (p: StorageProfile)
    ensures
        p == spec_auto_profile(snapshot),
{
    let snapshot = match snapshot {
        Some(s) => s,
        None => {
            return StorageProfile::Mid;
        },
    };
    if snapshot.total_memory_mb < 128 {
        StorageProfile::Extreme
    } else if snapshot.total_memory_mb < 512 {
        StorageProfile::Mid
    } else {
        StorageProfile::High
    }
}

pub fn resolve_profile_with_hardware_guard(
    requested: StorageProfile,
    snapshot: Option<HardwareSnapshot>,
) -> (p: StorageProfile)
    ensures
        p == spec_guarded_profile(requested, snapshot),
{
    if requested == StorageProfile::Auto {
        return resolve_auto_profile(snapshot);
    }
    let snapshot = match snapshot {
        Some(s) => s,
        None => {
            return requested;
        },
    };
    let max_supported = resolve_auto_profile(Some(snapshot));
    if profile_rank(requested) <= profile_rank(max_supported) {
        requested
    } else {
        max_supported
    }
}

fn profile_rank(profile: StorageProfile) -> (r: u8)
    ensures
        r == spec_profile_rank(profile),
{
    match profile {
        StorageProfile::Extreme => 0,
        StorageProfile::Mid => 1,
        StorageProfile::High => 2,
        StorageProfile::Auto => 1,
    }
}

/// Resolution never yields `Auto`, never exceeds what known hardware supports,
/// honors any request that known hardware supports, and is idempotent.
pub proof fn lemma_guarded_profile_laws(requested: StorageProfile, snapshot: Option<HardwareSnapshot>)
    ensures
        spec_guarded_profile(requested, snapshot) != StorageProfile::Auto,
        snapshot is Some ==> spec_profile_rank(spec_guarded_profile(requested, snapshot))
            <= spec_profile_rank(spec_auto_profile(snapshot)),
        requested != StorageProfile::Auto && (snapshot is None || spec_profile_rank(requested)
            <= spec_profile_rank(spec_auto_profile(snapshot))) ==> spec_guarded_profile(
            requested,
            snapshot,
        ) == requested,
        spec_guarded_profile(spec_guarded_profile(requested, snapshot), snapshot)
            == spec_guarded_profile(requested, snapshot),
{
}

/// More memory never selects a smaller profile.
pub proof fn lemma_auto_profile_monotonic(a: HardwareSnapshot, b: HardwareSnapshot)
    requires
        a.total_memory_mb <= b.total_memory_mb,
    ensures
        spec_profile_rank(spec_auto_profile(Some(a))) <= spec_profile_rank(spec_auto_profile(Some(b))),
{
}

} // verus!
