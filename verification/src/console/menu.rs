//! The console menus: which action a key selects, what each action reports as
//! the last event, and the `maverick-edge` arguments behind the LNS shortcuts.

use vstd::prelude::*;
use vstd::string::StringExecFns;

use crate::text::{chars_ascii_lower, chars_eq_str, lower, push_str, string_from_chars, trim, trimmed_chars};

verus! {

/// The canonical path of the declarative LNS configuration.
pub const LNS_CONFIG_DEFAULT_PATH: &'static str = "/etc/maverick/lns-config.toml";

/// An entry of the main menu.
#[derive(Debug, Clone, Copy, PartialEq, Eq, Structural)]
pub enum MenuAction {
    Overview,
    Essentials,
    Doctor,
    Status,
    Health,
    ApplyProfile,
    IngestLoop,
    LorawanMenu,
    SetupWizard,
    ShowConfig,
    Quit,
    Unknown,
}

/// The main-menu entry for a key (read without case and surrounding whitespace);
/// each entry has a number and a letter, but for the LNS menu and the raw config.
pub open spec fn spec_menu_action(line: Seq<char>) -> MenuAction {
    let a = lower(trim(line));
    if a == "1"@ || a == "o"@ {
        MenuAction::Overview
    } else if a == "2"@ || a == "e"@ {
        MenuAction::Essentials
    } else if a == "3"@ || a == "d"@ {
        MenuAction::Doctor
    } else if a == "4"@ || a == "s"@ {
        MenuAction::Status
    } else if a == "5"@ || a == "h"@ {
        MenuAction::Health
    } else if a == "6"@ || a == "p"@ {
        MenuAction::ApplyProfile
    } else if a == "7"@ || a == "i"@ {
        MenuAction::IngestLoop
    } else if a == "l"@ {
        MenuAction::LorawanMenu
    } else if a == "8"@ || a == "w"@ {
        MenuAction::SetupWizard
    } else if a == "c"@ {
        MenuAction::ShowConfig
    } else if a == "9"@ || a == "q"@ {
        MenuAction::Quit
    } else {
        MenuAction::Unknown
    }
}

pub fn parse_menu_action(line: &str) -> (m: MenuAction)
    ensures
        m == spec_menu_action(line@),
{
    let a = chars_ascii_lower(&trimmed_chars(line));
    if chars_eq_str(&a, "1") || chars_eq_str(&a, "o") {
        MenuAction::Overview
    } else if chars_eq_str(&a, "2") || chars_eq_str(&a, "e") {
        MenuAction::Essentials
    } else if chars_eq_str(&a, "3") || chars_eq_str(&a, "d") {
        MenuAction::Doctor
    } else if chars_eq_str(&a, "4") || chars_eq_str(&a, "s") {
        MenuAction::Status
    } else if chars_eq_str(&a, "5") || chars_eq_str(&a, "h") {
        MenuAction::Health
    } else if chars_eq_str(&a, "6") || chars_eq_str(&a, "p") {
        MenuAction::ApplyProfile
    } else if chars_eq_str(&a, "7") || chars_eq_str(&a, "i") {
        MenuAction::IngestLoop
    } else if chars_eq_str(&a, "l") {
        MenuAction::LorawanMenu
    } else if chars_eq_str(&a, "8") || chars_eq_str(&a, "w") {
        MenuAction::SetupWizard
    } else if chars_eq_str(&a, "c") {
        MenuAction::ShowConfig
    } else if chars_eq_str(&a, "9") || chars_eq_str(&a, "q") {
        MenuAction::Quit
    } else {
        MenuAction::Unknown
    }
}

/// The last-event line after a successful action.
pub open spec fn menu_ok_text(a: MenuAction) -> Seq<char> {
    match a {
        MenuAction::Overview => "ok: overview refreshed"@,
        MenuAction::Essentials => "ok: essentials updated"@,
        MenuAction::Doctor => "ok: doctor completed"@,
        MenuAction::Status => "ok: status fetched"@,
        MenuAction::Health => "ok: health fetched"@,
        MenuAction::ApplyProfile => "ok: suggested profile applied"@,
        MenuAction::IngestLoop => "ok: ingest-loop completed"@,
        MenuAction::LorawanMenu => "ok: LoRaWAN / LNS menu closed"@,
        MenuAction::SetupWizard => "ok: setup wizard completed"@,
        MenuAction::ShowConfig => "ok: raw config shown"@,
        _ => ""@,
    }
}

/// The last-event line before the error of a failed action.
pub open spec fn menu_err_prefix(a: MenuAction) -> Seq<char> {
    match a {
        MenuAction::Overview => "error: overview failed ("@,
        MenuAction::Essentials => "error: configure failed ("@,
        MenuAction::Doctor => "error: doctor failed ("@,
        MenuAction::Status => "error: status failed ("@,
        MenuAction::Health => "error: health failed ("@,
        MenuAction::ApplyProfile => "error: profile apply failed ("@,
        MenuAction::IngestLoop => "error: ingest-loop failed ("@,
        MenuAction::LorawanMenu => "error: LoRaWAN / LNS menu ("@,
        MenuAction::SetupWizard => "error: setup wizard failed ("@,
        _ => "error: ("@,
    }
}

fn ok_text(a: MenuAction) -> (s: &'static str)
    ensures
        s@ == menu_ok_text(a),
{
    match a {
        MenuAction::Overview => "ok: overview refreshed",
        MenuAction::Essentials => "ok: essentials updated",
        MenuAction::Doctor => "ok: doctor completed",
        MenuAction::Status => "ok: status fetched",
        MenuAction::Health => "ok: health fetched",
        MenuAction::ApplyProfile => "ok: suggested profile applied",
        MenuAction::IngestLoop => "ok: ingest-loop completed",
        MenuAction::LorawanMenu => "ok: LoRaWAN / LNS menu closed",
        MenuAction::SetupWizard => "ok: setup wizard completed",
        MenuAction::ShowConfig => "ok: raw config shown",
        _ => "",
    }
}

fn err_prefix(a: MenuAction) -> (s: &'static str)
    ensures
        s@ == menu_err_prefix(a),
{
    match a {
        MenuAction::Overview => "error: overview failed (",
        MenuAction::Essentials => "error: configure failed (",
        MenuAction::Doctor => "error: doctor failed (",
        MenuAction::Status => "error: status failed (",
        MenuAction::Health => "error: health failed (",
        MenuAction::ApplyProfile => "error: profile apply failed (",
        MenuAction::IngestLoop => "error: ingest-loop failed (",
        MenuAction::LorawanMenu => "error: LoRaWAN / LNS menu (",
        MenuAction::SetupWizard => "error: setup wizard failed (",
        _ => "error: (",
    }
}

/// The last-event line after an action ran with `outcome`.
pub fn menu_event(action: MenuAction, outcome: Result<(), String>) -> (s: String)
    ensures
        s@ == (match outcome {
            Ok(()) => menu_ok_text(action),
            Err(e) => menu_err_prefix(action) + e@ + ")"@,
        }),
{
    match outcome {
        Ok(()) => String::from_str(ok_text(action)),
        Err(e) => {
            let mut s = String::from_str(err_prefix(action));
            push_str(&mut s, e.as_str());
            push_str(&mut s, ")");
            s
        },
    }
}

/// The last-event line for a key that selects nothing.
pub fn unknown_action_event(line: &str) -> (s: String)
    ensures
        s@ == "error: unknown action '"@ + lower(trim(line@)) + "'"@,
{
    let a = chars_ascii_lower(&trimmed_chars(line));
    let mut s = String::from_str("error: unknown action '");
    let t = string_from_chars(&a);
    push_str(&mut s, t.as_str());
    push_str(&mut s, "'");
    s
}

/// An entry of the LoRaWAN / LNS menu.
#[derive(Debug, Clone, Copy, PartialEq, Eq, Structural)]
pub enum LnsMenuChoice {
    Show,
    Validate,
    ListApps,
    ListDevices,
    ListPending,
    Load,
    ApplicationsWizard,
    DevicesWizard,
    AutoprovisionWizard,
    Back,
    Redraw,
    Unknown,
}

pub open spec fn spec_lns_menu_choice(line: Seq<char>) -> LnsMenuChoice {
    let a = lower(trim(line));
    if a == "1"@ {
        LnsMenuChoice::Show
    } else if a == "2"@ {
        LnsMenuChoice::Validate
    } else if a == "3"@ {
        LnsMenuChoice::ListApps
    } else if a == "4"@ {
        LnsMenuChoice::ListDevices
    } else if a == "5"@ {
        LnsMenuChoice::ListPending
    } else if a == "6"@ {
        LnsMenuChoice::Load
    } else if a == "7"@ {
        LnsMenuChoice::ApplicationsWizard
    } else if a == "8"@ {
        LnsMenuChoice::DevicesWizard
    } else if a == "9"@ {
        LnsMenuChoice::AutoprovisionWizard
    } else if a == "b"@ || a == "q"@ {
        LnsMenuChoice::Back
    } else if a.len() == 0 {
        LnsMenuChoice::Redraw
    } else {
        LnsMenuChoice::Unknown
    }
}

pub fn parse_lns_menu_choice(line: &str) -> (c: LnsMenuChoice)
    ensures
        c == spec_lns_menu_choice(line@),
{
    let a = chars_ascii_lower(&trimmed_chars(line));
    if chars_eq_str(&a, "1") {
        LnsMenuChoice::Show
    } else if chars_eq_str(&a, "2") {
        LnsMenuChoice::Validate
    } else if chars_eq_str(&a, "3") {
        LnsMenuChoice::ListApps
    } else if chars_eq_str(&a, "4") {
        LnsMenuChoice::ListDevices
    } else if chars_eq_str(&a, "5") {
        LnsMenuChoice::ListPending
    } else if chars_eq_str(&a, "6") {
        LnsMenuChoice::Load
    } else if chars_eq_str(&a, "7") {
        LnsMenuChoice::ApplicationsWizard
    } else if chars_eq_str(&a, "8") {
        LnsMenuChoice::DevicesWizard
    } else if chars_eq_str(&a, "9") {
        LnsMenuChoice::AutoprovisionWizard
    } else if chars_eq_str(&a, "b") || chars_eq_str(&a, "q") {
        LnsMenuChoice::Back
    } else if a.len() == 0 {
        LnsMenuChoice::Redraw
    } else {
        LnsMenuChoice::Unknown
    }
}

/// The `maverick-edge` arguments of a shortcut; empty for the entries that are not one.
pub open spec fn lns_edge_arg_text(c: LnsMenuChoice) -> Seq<Seq<char>> {
    match c {
        LnsMenuChoice::Show => seq!["config"@, "show"@],
        LnsMenuChoice::Validate => seq!["config"@, "validate"@, "--config-path"@, LNS_CONFIG_DEFAULT_PATH@],
        LnsMenuChoice::ListApps => seq!["config"@, "list-apps"@],
        LnsMenuChoice::ListDevices => seq!["config"@, "list-devices"@],
        LnsMenuChoice::ListPending => seq!["config"@, "list-pending"@],
        LnsMenuChoice::Load => seq!["config"@, "load"@, "--config-path"@, LNS_CONFIG_DEFAULT_PATH@],
        _ => seq![],
    }
}

pub fn lns_edge_args(c: LnsMenuChoice) -> (v: Vec<&'static str>)
    ensures
        v@.map_values(|s: &'static str| s@) == lns_edge_arg_text(c),
{
    let v = match c {
        LnsMenuChoice::Show => vec!["config", "show"],
        LnsMenuChoice::Validate => vec!["config", "validate", "--config-path", LNS_CONFIG_DEFAULT_PATH],
        LnsMenuChoice::ListApps => vec!["config", "list-apps"],
        LnsMenuChoice::ListDevices => vec!["config", "list-devices"],
        LnsMenuChoice::ListPending => vec!["config", "list-pending"],
        LnsMenuChoice::Load => vec!["config", "load", "--config-path", LNS_CONFIG_DEFAULT_PATH],
        _ => Vec::new(),
    };
    assert(v@.map_values(|s: &'static str| s@) =~= lns_edge_arg_text(c));
    v
}

/// A confirmation that defaults to no: only `y` or `yes` (any case) confirm.
pub fn confirm_default_no(line: &str) -> (b: bool)
    ensures
        b == (lower(trim(line@)) == "y"@ || lower(trim(line@)) == "yes"@),
{
    let a = chars_ascii_lower(&trimmed_chars(line));
    chars_eq_str(&a, "y") || chars_eq_str(&a, "yes")
}

} // verus!
