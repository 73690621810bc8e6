//! What the console hands to the `maverick-edge` subprocess: its environment
//! and its arguments.

use vstd::prelude::*;
use vstd::string::StringExecFns;

use crate::console::config::TuiConfig;
use crate::text::{decimal, push_decimal, str_eq};

verus! {

/// The binary the console drives.
pub const EDGE_BINARY: &'static str = "maverick-edge";

/// The environment given to every `maverick-edge` run, as (name, value) pairs.
pub open spec fn edge_env(cfg: TuiConfig) -> Seq<(Seq<char>, Seq<char>)> {
    seq![
        ("MAVERICK_DATA_DIR"@, cfg.data_dir@),
        ("MAVERICK_GWMP_BIND"@, cfg.gwmp_bind@),
        ("MAVERICK_GWMP_LOOP_READ_TIMEOUT_MS"@, decimal(cfg.loop_read_timeout_ms as nat)),
        ("MAVERICK_GWMP_LOOP_MAX_MESSAGES"@, decimal(cfg.loop_max_messages as nat)),
    ]
}

/// The pairs of strings, taken as characters.
pub open spec fn pairs_view(v: Seq<(String, String)>) -> Seq<(Seq<char>, Seq<char>)> {
    v.map_values(|p: (String, String)| (p.0@, p.1@))
}

fn decimal_string(n: u64) -> (s: String)
    ensures
        s@ == decimal(n as nat),
{
    let mut s = String::new();
    push_decimal(&mut s, n);
    assert(s@ =~= decimal(n as nat));
    s
}

pub fn maverick_env_vars(cfg: &TuiConfig) -> (v: Vec<(String, String)>)
    ensures
        pairs_view(v@) == edge_env(*cfg),
{
    let v = vec![
        (String::from_str("MAVERICK_DATA_DIR"), cfg.data_dir.clone()),
        (String::from_str("MAVERICK_GWMP_BIND"), cfg.gwmp_bind.clone()),
        (String::from_str("MAVERICK_GWMP_LOOP_READ_TIMEOUT_MS"), decimal_string(cfg.loop_read_timeout_ms)),
        (String::from_str("MAVERICK_GWMP_LOOP_MAX_MESSAGES"), decimal_string(cfg.loop_max_messages as u64)),
    ];
    assert(pairs_view(v@) =~= edge_env(*cfg));
    v
}

/// The arguments that start the GWMP ingest loop with the configured settings.
pub open spec fn ingest_loop_arg_text(cfg: TuiConfig) -> Seq<Seq<char>> {
    seq![
        "radio"@,
        "ingest-loop"@,
        "--bind"@,
        cfg.gwmp_bind@,
        "--read-timeout-ms"@,
        decimal(cfg.loop_read_timeout_ms as nat),
        "--max-messages"@,
        decimal(cfg.loop_max_messages as nat),
    ]
}

pub fn ingest_loop_args(cfg: &TuiConfig) -> (v: Vec<String>)
    ensures
        v@.map_values(|s: String| s@) == ingest_loop_arg_text(*cfg),
{
    let v = vec![
        String::from_str("radio"),
        String::from_str("ingest-loop"),
        String::from_str("--bind"),
        cfg.gwmp_bind.clone(),
        String::from_str("--read-timeout-ms"),
        decimal_string(cfg.loop_read_timeout_ms),
        String::from_str("--max-messages"),
        decimal_string(cfg.loop_max_messages as u64),
    ];
    assert(v@.map_values(|s: String| s@) =~= ingest_loop_arg_text(*cfg));
    v
}

/// Whether the program was started under its deprecated name.
pub fn is_deprecated_invocation(program_name: &str) -> (b: bool)
    ensures
        b == (program_name@ == "maverick-edge-tui"@),
{
    str_eq(program_name, "maverick-edge-tui")
}

/// Milliseconds between two heartbeat lines of the monitored ingest loop.
pub const HEARTBEAT_INTERVAL_MS: u64 = 3000;

/// Milliseconds between two polls of the monitored ingest loop.
pub const POLL_INTERVAL_MS: u64 = 400;

/// A heartbeat is printed once the interval has passed since the last one.
pub fn heartbeat_due(elapsed_since_last_ms: u64) -> (b: bool)
    ensures
        b == (elapsed_since_last_ms >= HEARTBEAT_INTERVAL_MS),
{
    elapsed_since_last_ms >= HEARTBEAT_INTERVAL_MS
}

} // verus!
