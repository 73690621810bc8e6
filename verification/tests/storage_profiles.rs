use maverick::storage::policy::{HybridRetentionDefaults, InstallProfile};
use maverick::storage::profile::{
    resolve_auto_profile, resolve_profile_with_hardware_guard, HardwareSnapshot, StorageProfile,
};

#[test]
fn parse_all_variants() {
    assert_eq!(StorageProfile::parse("auto"), Some(StorageProfile::Auto));
    assert_eq!(StorageProfile::parse("high"), Some(StorageProfile::High));
    assert_eq!(StorageProfile::parse("mid"), Some(StorageProfile::Mid));
    assert_eq!(StorageProfile::parse("extreme"), Some(StorageProfile::Extreme));
    assert_eq!(StorageProfile::parse("HIGH"), Some(StorageProfile::High));
    assert_eq!(StorageProfile::parse("unknown"), None);
}

#[test]
fn resolve_none_returns_mid() {
    assert_eq!(resolve_auto_profile(None), StorageProfile::Mid);
}

#[test]
fn resolve_64mb_returns_extreme() {
    let snap = HardwareSnapshot { total_memory_mb: 64 };
    assert_eq!(resolve_auto_profile(Some(snap)), StorageProfile::Extreme);
}

#[test]
fn resolve_256mb_returns_mid() {
    let snap = HardwareSnapshot { total_memory_mb: 256 };
    assert_eq!(resolve_auto_profile(Some(snap)), StorageProfile::Mid);
}

#[test]
fn resolve_1024mb_returns_high() {
    let snap = HardwareSnapshot { total_memory_mb: 1024 };
    assert_eq!(resolve_auto_profile(Some(snap)), StorageProfile::High);
}

#[test]
fn display_round_trips() {
    for profile in [
        StorageProfile::Auto,
        StorageProfile::High,
        StorageProfile::Mid,
        StorageProfile::Extreme,
    ] {
        let s = profile.to_string();
        assert_eq!(StorageProfile::parse(&s), Some(profile));
    }
}

#[test]
fn explicit_profile_is_clamped_when_hardware_is_too_small() {
    let snap = HardwareSnapshot { total_memory_mb: 64 };
    assert_eq!(
        resolve_profile_with_hardware_guard(StorageProfile::High, Some(snap)),
        StorageProfile::Extreme
    );
}

#[test]
fn explicit_lower_profile_is_honored_on_strong_hardware() {
    let snap = HardwareSnapshot { total_memory_mb: 2048 };
    assert_eq!(
        resolve_profile_with_hardware_guard(StorageProfile::Extreme, Some(snap)),
        StorageProfile::Extreme
    );
}

#[test]
fn explicit_profile_is_honored_when_hardware_unknown() {
    assert_eq!(
        resolve_profile_with_hardware_guard(StorageProfile::High, None),
        StorageProfile::High
    );
}

#[test]
fn install_profile_policies_differ_by_circular_default() {
    let p = InstallProfile::HighCapacity.default_caps();
    assert!(!p.circular_at_hard_limit);
    let q = InstallProfile::Constrained.default_caps();
    assert!(q.circular_at_hard_limit);
}

#[test]
fn constrained_has_tighter_telemetry_cap_than_balanced() {
    let c = InstallProfile::Constrained.default_caps();
    let b = InstallProfile::Balanced.default_caps();
    assert!(c.max_records_telemetry < b.max_records_telemetry);
}

#[test]
fn balanced_caps_are_the_hybrid_preset() {
    assert_eq!(InstallProfile::Balanced.default_caps(), HybridRetentionDefaults::balanced().into_caps(true));
    assert_eq!(InstallProfile::HighCapacity.default_caps().max_records_critical, 2_000_000);
}
