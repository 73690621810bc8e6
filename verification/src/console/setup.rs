//! The setup wizard's choices, the systemd unit it writes, and the command-line
//! settings applied to the configuration.

use vstd::prelude::*;
use vstd::string::StringExecFns;

use crate::console::config::{upsert_extension_id, upserted, strings_view, TuiConfig, CONSOLE_EXTENSION_ID};
use crate::console::ui::{SetupMode, SystemdAction};
use crate::text::{
    chars_eq_str, decimal, parse_u32, parse_u64, parse_unsigned, push_decimal, push_str, str_eq,
    trim, trimmed_chars,
};

verus! {

pub const SYSTEMD_UNIT_PATH: &'static str = "/etc/systemd/system/maverick-edge.service";

pub const SYSTEMD_SERVICE_NAME: &'static str = "maverick-edge.service";

/// Enables or disables an extension in the configured list.
pub fn upsert_extension(extensions: &mut Vec<String>, extension: &str, enabled: bool)
    ensures
        strings_view(final(extensions)@) == upserted(strings_view(old(extensions)@), extension@, enabled),
{
    upsert_extension_id(extensions, extension, enabled);
}

/// What the non-interactive setup changes: the console extension is enabled.
pub fn apply_non_interactive_defaults(cfg: &mut TuiConfig)
    ensures
        strings_view(final(cfg).enabled_extensions@) == upserted(
            strings_view(old(cfg).enabled_extensions@),
            CONSOLE_EXTENSION_ID@,
            true,
        ),
        final(cfg).data_dir == old(cfg).data_dir,
        final(cfg).gwmp_bind == old(cfg).gwmp_bind,
        final(cfg).loop_read_timeout_ms == old(cfg).loop_read_timeout_ms,
        final(cfg).loop_max_messages == old(cfg).loop_max_messages,
{
    upsert_extension(&mut cfg.enabled_extensions, CONSOLE_EXTENSION_ID, true);
}

/// The systemd unit that runs the ingest loop with the configured environment.
pub open spec fn systemd_unit_text(data_dir: Seq<char>, bind: Seq<char>, timeout_ms: nat, max_messages: nat) -> Seq<char> {
    "[Unit]\nDescription=Maverick Edge Runtime\nAfter=network.target\n\n[Service]\nType=simple\nEnvironment=\"MAVERICK_DATA_DIR="@
        + data_dir + "\"\nEnvironment=\"MAVERICK_GWMP_BIND="@ + bind
        + "\"\nEnvironment=\"MAVERICK_GWMP_LOOP_READ_TIMEOUT_MS="@ + decimal(timeout_ms)
        + "\"\nEnvironment=\"MAVERICK_GWMP_LOOP_MAX_MESSAGES="@ + decimal(max_messages)
        + "\"\nExecStart=/usr/local/bin/maverick-edge radio ingest-loop\nRestart=on-failure\nRestartSec=5\n\n[Install]\nWantedBy=multi-user.target\n"@
}

pub fn render_systemd_unit(cfg: &TuiConfig) -> (s: String)
    ensures
        s@ == systemd_unit_text(
            cfg.data_dir@,
            cfg.gwmp_bind@,
            cfg.loop_read_timeout_ms as nat,
            cfg.loop_max_messages as nat,
        ),
{
    let mut s = String::from_str(
        "[Unit]\nDescription=Maverick Edge Runtime\nAfter=network.target\n\n[Service]\nType=simple\nEnvironment=\"MAVERICK_DATA_DIR=",
    );
    push_str(&mut s, cfg.data_dir.as_str());
    push_str(&mut s, "\"\nEnvironment=\"MAVERICK_GWMP_BIND=");
    push_str(&mut s, cfg.gwmp_bind.as_str());
    push_str(&mut s, "\"\nEnvironment=\"MAVERICK_GWMP_LOOP_READ_TIMEOUT_MS=");
    push_decimal(&mut s, cfg.loop_read_timeout_ms);
    push_str(&mut s, "\"\nEnvironment=\"MAVERICK_GWMP_LOOP_MAX_MESSAGES=");
    push_decimal(&mut s, cfg.loop_max_messages as u64);
    push_str(
        &mut s,
        "\"\nExecStart=/usr/local/bin/maverick-edge radio ingest-loop\nRestart=on-failure\nRestartSec=5\n\n[Install]\nWantedBy=multi-user.target\n",
    );
    assert(s@ =~= systemd_unit_text(
        cfg.data_dir@,
        cfg.gwmp_bind@,
        cfg.loop_read_timeout_ms as nat,
        cfg.loop_max_messages as nat,
    ));
    s
}

/// The setup mode picked at the first prompt: `1` basic, `2` advanced, `q` cancels.
pub open spec fn spec_setup_mode(raw: Seq<char>) -> Result<SetupMode, Seq<char>> {
    let t = trim(raw);
    if t == "1"@ {
        Ok(SetupMode::Basic)
    } else if t == "2"@ {
        Ok(SetupMode::Advanced)
    } else if t == "q"@ || t == "Q"@ {
        Err("setup cancelled by user"@)
    } else {
        Err("invalid mode selection (use 1 or 2)"@)
    }
}

pub fn parse_setup_mode(raw: &str) -> (r: Result<SetupMode, String>)
    ensures
        match (r, spec_setup_mode(raw@)) {
            (Ok(m), Ok(n)) => m == n,
            (Err(e), Err(m)) => e@ == m,
            _ => false,
        },
{
    let t = trimmed_chars(raw);
    if chars_eq_str(&t, "1") {
        Ok(SetupMode::Basic)
    } else if chars_eq_str(&t, "2") {
        Ok(SetupMode::Advanced)
    } else if chars_eq_str(&t, "q") || chars_eq_str(&t, "Q") {
        Err(String::from_str("setup cancelled by user"))
    } else {
        Err(String::from_str("invalid mode selection (use 1 or 2)"))
    }
}

/// The menu number preselected for a profile (balanced for anything unknown).
pub fn profile_choice_default(profile: &str) -> (s: &'static str)
    ensures
        s@ == (if profile@ == "constrained"@ {
            "1"@
        } else if profile@ == "high-capacity"@ {
            "3"@
        } else {
            "2"@
        }),
{
    if str_eq(profile, "constrained") {
        "1"
    } else if str_eq(profile, "high-capacity") {
        "3"
    } else {
        "2"
    }
}

/// The profile picked by number.
pub open spec fn spec_profile_choice(raw: Seq<char>) -> Result<Seq<char>, Seq<char>> {
    let t = trim(raw);
    if t == "1"@ {
        Ok("constrained"@)
    } else if t == "2"@ {
        Ok("balanced"@)
    } else if t == "3"@ {
        Ok("high-capacity"@)
    } else {
        Err("invalid profile selection (use 1/2/3)"@)
    }
}

pub fn parse_profile_choice(raw: &str) -> (r: Result<String, String>)
    ensures
        match (r, spec_profile_choice(raw@)) {
            (Ok(p), Ok(q)) => p@ == q,
            (Err(e), Err(m)) => e@ == m,
            _ => false,
        },
{
    let t = trimmed_chars(raw);
    if chars_eq_str(&t, "1") {
        Ok(String::from_str("constrained"))
    } else if chars_eq_str(&t, "2") {
        Ok(String::from_str("balanced"))
    } else if chars_eq_str(&t, "3") {
        Ok(String::from_str("high-capacity"))
    } else {
        Err(String::from_str("invalid profile selection (use 1/2/3)"))
    }
}

/// The systemd step picked by number.
pub open spec fn spec_systemd_action(raw: Seq<char>) -> Result<SystemdAction, Seq<char>> {
    let t = trim(raw);
    if t == "1"@ {
        Ok(SystemdAction::NoUnit)
    } else if t == "2"@ {
        Ok(SystemdAction::CreateUnit)
    } else if t == "3"@ {
        Ok(SystemdAction::CreateAndEnable)
    } else {
        Err("invalid systemd action (use 1/2/3)"@)
    }
}

pub fn parse_systemd_action(raw: &str) -> (r: Result<SystemdAction, String>)
    ensures
        match (r, spec_systemd_action(raw@)) {
            (Ok(a), Ok(b)) => a == b,
            (Err(e), Err(m)) => e@ == m,
            _ => false,
        },
{
    let t = trimmed_chars(raw);
    if chars_eq_str(&t, "1") {
        Ok(SystemdAction::NoUnit)
    } else if chars_eq_str(&t, "2") {
        Ok(SystemdAction::CreateUnit)
    } else if chars_eq_str(&t, "3") {
        Ok(SystemdAction::CreateAndEnable)
    } else {
        Err(String::from_str("invalid systemd action (use 1/2/3)"))
    }
}

/// A timeout entered at a prompt: a `u64`, raised to at least 1; `None` when it
/// does not parse.
pub fn parse_positive_u64(raw: &str) -> (r: Option<u64>)
    ensures
        match parse_unsigned(raw@, u64::MAX as nat) {
            Some(n) => r == Some(if n == 0 {
                1u64
            } else {
                n as u64
            }),
            None => r is None,
        },
{
    match parse_u64(raw) {
        Some(n) => Some(if n == 0 {
            1
        } else {
            n
        }),
        None => None,
    }
}

/// A message count entered at a prompt; `None` when it does not parse as a `u32`.
pub fn parse_loop_max_messages(raw: &str) -> (r: Option<u32>)
    ensures
        match parse_unsigned(raw@, u32::MAX as nat) {
            Some(n) => r == Some(n as u32),
            None => r is None,
        },
{
    parse_u32(raw)
}

/// The settings of `config-set`: each given value replaces the configured one;
/// a zero timeout becomes 1.
pub fn apply_config_set(
    cfg: &mut TuiConfig,
    data_dir: Option<String>,
    gwmp_bind: Option<String>,
    loop_read_timeout_ms: Option<u64>,
    loop_max_messages: Option<u32>,
)
    ensures
        final(cfg).data_dir == (match data_dir {
            Some(v) => v,
            None => old(cfg).data_dir,
        }),
        final(cfg).gwmp_bind == (match gwmp_bind {
            Some(v) => v,
            None => old(cfg).gwmp_bind,
        }),
        final(cfg).loop_read_timeout_ms == (match loop_read_timeout_ms {
            Some(v) => if v == 0 {
                1
            } else {
                v
            },
            None => old(cfg).loop_read_timeout_ms,
        }),
        final(cfg).loop_max_messages == (match loop_max_messages {
            Some(v) => v,
            None => old(cfg).loop_max_messages,
        }),
        final(cfg).enabled_extensions == old(cfg).enabled_extensions,
{
    if let Some(v) = data_dir {
        cfg.data_dir = v;
    }
    if let Some(v) = gwmp_bind {
        cfg.gwmp_bind = v;
    }
    if let Some(v) = loop_read_timeout_ms {
        cfg.loop_read_timeout_ms = if v == 0 {
            1
        } else {
            v
        };
    }
    if let Some(v) = loop_max_messages {
        cfg.loop_max_messages = v;
    }
}

} // verus!
