use maverick::console::config::{
    TuiConfig, DEFAULT_BIND, DEFAULT_MAX_MESSAGES, DEFAULT_READ_TIMEOUT_MS,
};
use maverick::console::lns::{
    device_indices_with_application_id, ActivationMode, ApplicationEntry, AutoprovisionPolicy,
    DeviceEntry, LnsConfigDocument, OtaaKeys,
};
use maverick::console::profiles::{apply_profile_defaults, suggested_profile_from_memory};
use maverick::console::setup::{render_systemd_unit, upsert_extension};

#[test]
fn default_config_has_expected_values() {
    let cfg = TuiConfig::default();
    assert_eq!(cfg.gwmp_bind, DEFAULT_BIND);
    assert_eq!(cfg.loop_read_timeout_ms, DEFAULT_READ_TIMEOUT_MS);
    assert_eq!(cfg.loop_max_messages, DEFAULT_MAX_MESSAGES);
    assert_eq!(cfg.enabled_extensions, vec!["console".to_string()]);
}

#[test]
fn suggested_profile_buckets_match_thresholds() {
    assert_eq!(suggested_profile_from_memory(0), "constrained");
    assert_eq!(suggested_profile_from_memory(700 * 1024 * 1024), "balanced");
    assert_eq!(suggested_profile_from_memory(4 * 1024 * 1024 * 1024), "high-capacity");
}

#[test]
fn apply_profile_defaults_sets_expected_values() {
    let mut cfg = TuiConfig::default();

    apply_profile_defaults(&mut cfg, "constrained");
    assert_eq!(cfg.loop_read_timeout_ms, 1_500);
    assert_eq!(cfg.loop_max_messages, 0);

    apply_profile_defaults(&mut cfg, "balanced");
    assert_eq!(cfg.loop_read_timeout_ms, 1_000);
    assert_eq!(cfg.loop_max_messages, 0);

    apply_profile_defaults(&mut cfg, "high-capacity");
    assert_eq!(cfg.loop_read_timeout_ms, 700);
    assert_eq!(cfg.loop_max_messages, 0);
}

#[test]
fn upsert_extension_adds_and_removes_expected_item() {
    let mut extensions = Vec::new();
    upsert_extension(&mut extensions, "console", true);
    assert_eq!(extensions, vec!["console".to_string()]);

    upsert_extension(&mut extensions, "console", true);
    assert_eq!(extensions, vec!["console".to_string()]);

    upsert_extension(&mut extensions, "console", false);
    assert!(extensions.is_empty());
}

#[test]
fn render_systemd_unit_contains_runtime_envs() {
    let cfg = TuiConfig::default();
    let unit = render_systemd_unit(&cfg);
    assert!(unit.contains("MAVERICK_DATA_DIR=/var/lib/maverick"));
    assert!(unit.contains("MAVERICK_GWMP_BIND=0.0.0.0:17000"));
    assert!(unit.contains("ExecStart=/usr/local/bin/maverick-edge radio ingest-loop"));
}

fn sample_doc() -> LnsConfigDocument {
    LnsConfigDocument {
        schema_version: LnsConfigDocument::CURRENT_SCHEMA_VERSION,
        autoprovision: AutoprovisionPolicy::default(),
        radio: None,
        applications: vec![ApplicationEntry {
            id: "app1".to_string(),
            name: "A".to_string(),
            default_region: "EU868".to_string(),
        }],
        devices: vec![
            DeviceEntry {
                activation_mode: ActivationMode::Otaa,
                dev_eui: "0102030405060708".to_string(),
                dev_addr: None,
                application_id: "app1".to_string(),
                region: "EU868".to_string(),
                enabled: true,
                otaa: Some(OtaaKeys {
                    join_eui: "0000000000000000".to_string(),
                    app_key: "00000000000000000000000000000000".to_string(),
                    nwk_key: None,
                }),
                abp: None,
            },
            DeviceEntry {
                activation_mode: ActivationMode::Otaa,
                dev_eui: "AABBCCDDEEFF0011".to_string(),
                dev_addr: None,
                application_id: "other".to_string(),
                region: "EU868".to_string(),
                enabled: true,
                otaa: Some(OtaaKeys {
                    join_eui: "0000000000000000".to_string(),
                    app_key: "00000000000000000000000000000000".to_string(),
                    nwk_key: None,
                }),
                abp: None,
            },
        ],
    }
}

#[test]
fn device_indices_with_application_id_finds_matches() {
    let doc = sample_doc();
    let ix = device_indices_with_application_id(&doc, "app1");
    assert_eq!(ix, vec![0]);
    let ix_other = device_indices_with_application_id(&doc, "other");
    assert_eq!(ix_other, vec![1]);
    assert!(device_indices_with_application_id(&doc, "missing").is_empty());
}
