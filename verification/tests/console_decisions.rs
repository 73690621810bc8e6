use maverick::console::config::{
    apply_setup_runtime, merge_user_config, normalize_extension_ids, upsert_extension_id,
    ConsolePrefs, SetupRuntimeBlock, TuiConfig,
};
use maverick::console::doctor::recommendations;
use maverick::console::edge::{heartbeat_due, ingest_loop_args, is_deprecated_invocation, maverick_env_vars};
use maverick::console::lns::{
    dev_addr_display, optional_text, parse_application_selection, parse_activation_mode_choice,
    parse_activation_mode_name, parse_enabled_flag, parse_one_based_index, parse_wizard_choice,
    preview_overflow, remove_application_if_unreferenced, rename_application, restore_application,
    ActivationMode, ApplicationEntry, ApplicationSelection, AutoprovisionPolicy, DeviceEntry,
    IndexError, LnsConfigDocument, WizardChoice,
};
use maverick::console::menu::{
    confirm_default_no, lns_edge_args, menu_event, parse_lns_menu_choice, parse_menu_action,
    unknown_action_event, LnsMenuChoice, MenuAction,
};
use maverick::console::profiles::{apply_profile_by_name, apply_suggested_profile, normalize_profile};
use maverick::console::runtime_env::apply_runtime_env_text;
use maverick::console::setup::{
    apply_config_set, parse_loop_max_messages, parse_positive_u64, parse_profile_choice,
    parse_setup_mode, parse_systemd_action, profile_choice_default,
};
use maverick::console::ui::{
    color_enabled, console_clock_text, parse_yes_no, prompt_answer, yes_no_hint, SetupMode,
    SystemdAction, UiStyle,
};

#[test]
fn runtime_env_text_sets_the_four_keys() {
    let mut cfg = TuiConfig::default();
    apply_runtime_env_text(
        &mut cfg,
        "MAVERICK_DATA_DIR=/data\nMAVERICK_GWMP_BIND=127.0.0.1:17000\nMAVERICK_GWMP_LOOP_READ_TIMEOUT_MS=2000\nMAVERICK_GWMP_LOOP_MAX_MESSAGES=0\n",
    );
    assert_eq!(cfg.data_dir, "/data");
    assert_eq!(cfg.gwmp_bind, "127.0.0.1:17000");
    assert_eq!(cfg.loop_read_timeout_ms, 2000);
    assert_eq!(cfg.loop_max_messages, 0);
}

#[test]
fn runtime_env_text_skips_comments_quotes_and_bad_numbers() {
    let mut cfg = TuiConfig::default();
    apply_runtime_env_text(
        &mut cfg,
        "# comment\r\n  MAVERICK_DATA_DIR = \"/srv/mav\" \r\n\nNOEQUALS\nMAVERICK_GWMP_LOOP_READ_TIMEOUT_MS=abc\nMAVERICK_GWMP_LOOP_MAX_MESSAGES=4294967296\nOTHER=1",
    );
    assert_eq!(cfg.data_dir, "/srv/mav");
    assert_eq!(cfg.gwmp_bind, "0.0.0.0:17000");
    assert_eq!(cfg.loop_read_timeout_ms, 1000);
    assert_eq!(cfg.loop_max_messages, 0);
    apply_runtime_env_text(&mut cfg, "MAVERICK_GWMP_LOOP_READ_TIMEOUT_MS=0\nMAVERICK_GWMP_LOOP_MAX_MESSAGES=+7");
    assert_eq!(cfg.loop_read_timeout_ms, 1);
    assert_eq!(cfg.loop_max_messages, 7);
}

#[test]
fn legacy_extension_id_is_normalized_on_merge() {
    let base = TuiConfig::default();
    let user = TuiConfig {
        data_dir: "/d".to_string(),
        gwmp_bind: "1.2.3.4:5".to_string(),
        loop_read_timeout_ms: 9,
        loop_max_messages: 3,
        enabled_extensions: vec!["maverick-edge-tui".to_string(), "other".to_string()],
    };
    let merged = merge_user_config(base, user);
    assert_eq!(merged.enabled_extensions, vec!["console".to_string(), "other".to_string()]);
    assert_eq!(merged.data_dir, "/d");
    assert_eq!(merged.loop_max_messages, 3);
    assert_eq!(normalize_extension_ids(&["x".to_string()]), vec!["x".to_string()]);
}

#[test]
fn disabling_removes_every_occurrence() {
    let mut v = vec!["console".to_string(), "a".to_string(), "console".to_string()];
    upsert_extension_id(&mut v, "console", false);
    assert_eq!(v, vec!["a".to_string()]);
    upsert_extension_id(&mut v, "console", true);
    assert_eq!(v, vec!["a".to_string(), "console".to_string()]);
}

#[test]
fn setup_runtime_block_overrides_and_syncs_console() {
    let mut cfg = TuiConfig::default();
    let block = SetupRuntimeBlock {
        data_dir: "/x".to_string(),
        gwmp_bind: "0.0.0.0:1".to_string(),
        loop_read_timeout_ms: 0,
        loop_max_messages: 4,
    };
    apply_setup_runtime(&mut cfg, block.clone(), Some("disabled"));
    assert!(cfg.enabled_extensions.is_empty());
    assert_eq!(cfg.loop_read_timeout_ms, 1);
    apply_setup_runtime(&mut cfg, block, Some("installed"));
    assert_eq!(cfg.enabled_extensions, vec!["console".to_string()]);
    assert_eq!(cfg.data_dir, "/x");
    assert_eq!(ConsolePrefs::default().theme, "auto");
}

#[test]
fn profile_names_and_auto() {
    assert_eq!(normalize_profile("High_Capacity"), Some("high-capacity"));
    assert_eq!(normalize_profile("BALANCED"), Some("balanced"));
    assert_eq!(normalize_profile("fast"), None);
    let mut cfg = TuiConfig::default();
    apply_profile_by_name(&mut cfg, "AUTO", Some(100)).unwrap();
    assert_eq!(cfg.loop_read_timeout_ms, 1500);
    apply_suggested_profile(&mut cfg, None);
    assert_eq!(cfg.loop_read_timeout_ms, 1000);
    let err = apply_profile_by_name(&mut cfg, "fast", None).unwrap_err();
    assert_eq!(err, "invalid profile 'fast'; expected auto|constrained|balanced|high-capacity");
    assert_eq!(cfg.loop_read_timeout_ms, 1000);
}

#[test]
fn prompts_parse_as_the_wizard_expects() {
    assert_eq!(parse_setup_mode(" 2 "), Ok(SetupMode::Advanced));
    assert_eq!(parse_setup_mode("Q"), Err("setup cancelled by user".to_string()));
    assert_eq!(parse_setup_mode("3"), Err("invalid mode selection (use 1 or 2)".to_string()));
    assert_eq!(profile_choice_default("high-capacity"), "3");
    assert_eq!(profile_choice_default("weird"), "2");
    assert_eq!(parse_profile_choice("1"), Ok("constrained".to_string()));
    assert_eq!(parse_systemd_action("3"), Ok(SystemdAction::CreateAndEnable));
    assert_eq!(parse_systemd_action("1"), Ok(SystemdAction::NoUnit));
    assert!(parse_systemd_action("x").is_err());
    assert_eq!(parse_positive_u64("0"), Some(1));
    assert_eq!(parse_positive_u64("25"), Some(25));
    assert_eq!(parse_positive_u64("-1"), None);
    assert_eq!(parse_loop_max_messages("4294967296"), None);
    assert_eq!(parse_loop_max_messages("12"), Some(12));
}

#[test]
fn yes_no_answers() {
    assert_eq!(parse_yes_no("  \n", true, "Go"), Ok(true));
    assert_eq!(parse_yes_no("YES", false, "Go"), Ok(true));
    assert_eq!(parse_yes_no("n", true, "Go"), Ok(false));
    assert_eq!(parse_yes_no("q", true, "Go"), Err("setup cancelled by user".to_string()));
    assert_eq!(parse_yes_no("Maybe", true, "Go"), Err("invalid answer for Go: maybe".to_string()));
    assert_eq!(yes_no_hint(true), "Y/n");
    assert_eq!(prompt_answer("  value \n", "d"), "value");
    assert_eq!(prompt_answer("   ", "d"), "d");
}

#[test]
fn styling_and_clock() {
    assert!(color_enabled(false, None));
    assert!(!color_enabled(true, None));
    assert!(!color_enabled(false, Some("DUMB")));
    assert_eq!(UiStyle::new(true).heading("X"), "\x1b[1;36mX\x1b[0m");
    assert_eq!(
        UiStyle::new(false).phase_heading(2, "Hardware Profile", SetupMode::Basic),
        "Phase 2/6 [Basic] - Hardware Profile"
    );
    assert_eq!(console_clock_text(3600 * 25 + 61), "01:01:01");
    assert_eq!(console_clock_text(86399), "23:59:59");
    assert_eq!(SystemdAction::CreateUnit.label(), "Create or update unit");
}

#[test]
fn config_set_and_edge_arguments() {
    let mut cfg = TuiConfig::default();
    apply_config_set(&mut cfg, None, Some("0.0.0.0:1700".to_string()), Some(0), Some(5));
    assert_eq!(cfg.gwmp_bind, "0.0.0.0:1700");
    assert_eq!(cfg.loop_read_timeout_ms, 1);
    assert_eq!(cfg.loop_max_messages, 5);
    assert_eq!(cfg.data_dir, "/var/lib/maverick");
    assert_eq!(
        ingest_loop_args(&cfg),
        vec!["radio", "ingest-loop", "--bind", "0.0.0.0:1700", "--read-timeout-ms", "1", "--max-messages", "5"]
    );
    let env = maverick_env_vars(&cfg);
    assert_eq!(env[2], ("MAVERICK_GWMP_LOOP_READ_TIMEOUT_MS".to_string(), "1".to_string()));
    assert_eq!(env.len(), 4);
    assert!(is_deprecated_invocation("maverick-edge-tui"));
    assert!(!is_deprecated_invocation("maverick"));
    assert!(heartbeat_due(3000));
    assert!(!heartbeat_due(2999));
}

#[test]
fn menus_map_keys_and_events() {
    assert_eq!(parse_menu_action(" O\n"), MenuAction::Overview);
    assert_eq!(parse_menu_action("9"), MenuAction::Quit);
    assert_eq!(parse_menu_action("l"), MenuAction::LorawanMenu);
    assert_eq!(parse_menu_action("zz"), MenuAction::Unknown);
    assert_eq!(menu_event(MenuAction::Status, Ok(())), "ok: status fetched");
    assert_eq!(menu_event(MenuAction::Doctor, Err("boom".to_string())), "error: doctor failed (boom)");
    assert_eq!(unknown_action_event(" ZZ "), "error: unknown action 'zz'");
    assert_eq!(parse_lns_menu_choice("6"), LnsMenuChoice::Load);
    assert_eq!(parse_lns_menu_choice(""), LnsMenuChoice::Redraw);
    assert_eq!(lns_edge_args(LnsMenuChoice::Validate), vec!["config", "validate", "--config-path", "/etc/maverick/lns-config.toml"]);
    assert!(lns_edge_args(LnsMenuChoice::Back).is_empty());
    assert!(confirm_default_no("Yes"));
    assert!(!confirm_default_no(""));
}

#[test]
fn doctor_recommendations_follow_status() {
    assert_eq!(
        recommendations("healthy", true, "HighCapacity", 1500),
        vec![
            "- Health looks good.",
            "- Storage is present.",
            "- Host can handle higher throughput; consider 'apply-profile --profile high-capacity'."
        ]
    );
    let r = recommendations("degraded", false, "Balanced", 1500);
    assert_eq!(r.len(), 2);
    assert!(r[0].starts_with("- Health is not healthy"));
    assert!(r[1].starts_with("- Storage is not initialized yet"));
}

fn device(app: &str, eui: &str) -> DeviceEntry {
    DeviceEntry {
        activation_mode: ActivationMode::Abp,
        dev_eui: eui.to_string(),
        dev_addr: Some("01ABCDEF".to_string()),
        application_id: app.to_string(),
        region: "EU868".to_string(),
        enabled: true,
        otaa: None,
        abp: None,
    }
}

fn doc() -> LnsConfigDocument {
    let mut d = LnsConfigDocument::empty(AutoprovisionPolicy::default());
    d.applications.push(ApplicationEntry { id: "a1".to_string(), name: "A".to_string(), default_region: "EU868".to_string() });
    d.applications.push(ApplicationEntry { id: "a2".to_string(), name: "B".to_string(), default_region: "EU868".to_string() });
    d.devices.push(device("a1", "01"));
    d.devices.push(device("a2", "02"));
    d.devices.push(device("a1", "03"));
    d
}

#[test]
fn rename_moves_devices_and_restore_undoes_it() {
    let mut d = doc();
    let orig = d.applications[0].clone();
    let draft = ApplicationEntry { id: "renamed".to_string(), ..orig.clone() };
    let moved = rename_application(&mut d, 0, draft);
    assert_eq!(moved, vec![0, 2]);
    assert_eq!(d.devices[0].application_id, "renamed");
    assert_eq!(d.devices[1].application_id, "a2");
    assert_eq!(d.devices[2].application_id, "renamed");
    restore_application(&mut d, 0, orig, &moved);
    assert_eq!(d, doc());
}

#[test]
fn referenced_application_cannot_be_removed() {
    let mut d = doc();
    assert_eq!(remove_application_if_unreferenced(&mut d, 0), Err(vec![0, 2]));
    assert_eq!(d, doc());
    d.devices.remove(1);
    assert_eq!(remove_application_if_unreferenced(&mut d, 1), Ok(()));
    assert_eq!(d.applications.len(), 1);
    assert_eq!(d.applications[0].id, "a1");
}

#[test]
fn wizard_inputs() {
    assert_eq!(parse_wizard_choice(" Q "), WizardChoice::Back);
    assert_eq!(parse_wizard_choice("s"), WizardChoice::Save);
    assert_eq!(parse_wizard_choice(""), WizardChoice::Redraw);
    assert_eq!(parse_wizard_choice("x"), WizardChoice::Unknown);
    assert_eq!(parse_one_based_index("2", 3), Ok(1));
    assert_eq!(parse_one_based_index("0", 3), Err(IndexError::OutOfRange));
    assert_eq!(parse_one_based_index("4", 3), Err(IndexError::OutOfRange));
    assert_eq!(parse_one_based_index("two", 3), Err(IndexError::Invalid));
    assert_eq!(parse_application_selection("M", 2), Ok(ApplicationSelection::Manual));
    assert_eq!(parse_application_selection(" 2 ", 2), Ok(ApplicationSelection::Listed(1)));
    assert_eq!(parse_application_selection("3", 2), Err("application index out of range".to_string()));
    assert_eq!(parse_application_selection("x", 2), Err("invalid number".to_string()));
    assert_eq!(parse_activation_mode_choice("2"), Ok(ActivationMode::Abp));
    assert_eq!(parse_activation_mode_choice("9"), Err("invalid choice (use 1 or 2)".to_string()));
    assert_eq!(parse_activation_mode_name(" OTAA "), Some(ActivationMode::Otaa));
    assert_eq!(parse_activation_mode_name("x"), None);
    assert!(parse_enabled_flag("YES"));
    assert!(!parse_enabled_flag("no"));
    assert_eq!(optional_text("  ".to_string()), None);
    assert_eq!(optional_text("ab".to_string()), Some("ab".to_string()));
    assert_eq!(dev_addr_display(&Some(" ".to_string())), "(none)");
    assert_eq!(dev_addr_display(&None), "(none)");
    assert_eq!(dev_addr_display(&Some("01ABCDEF".to_string())), "01ABCDEF");
    assert_eq!(preview_overflow(10, 8), Some(2));
    assert_eq!(preview_overflow(8, 8), None);
    assert_eq!(LnsConfigDocument::CURRENT_SCHEMA_VERSION, 1);
}

#[test]
fn out_of_range_device_indices_are_skipped() {
    let mut d = doc();
    let orig = d.applications[1].clone();
    restore_application(&mut d, 1, orig, &vec![7, 1]);
    assert_eq!(d.devices[1].application_id, "a2");
    assert_eq!(d.devices.len(), 3);
}
