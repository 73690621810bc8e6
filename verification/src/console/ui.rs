//! Terminal styling, labels and the small parsers behind the console prompts.

use vstd::prelude::*;
use vstd::string::StringExecFns;

use crate::text::{
    chars_ascii_lower, chars_eq_str, decimal, lower, push_decimal, push_str, str_chars, string_from_chars,
    trim, trimmed_chars,
};

verus! {

pub const TOTAL_SETUP_PHASES: usize = 6;

#[derive(Debug, Clone, Copy, PartialEq, Eq, Structural)]
pub enum SetupMode {
    Basic,
    Advanced,
}

/// The name of a setup mode.
pub open spec fn mode_label(m: SetupMode) -> Seq<char> {
    match m {
        SetupMode::Basic => "Basic"@,
        SetupMode::Advanced => "Advanced"@,
    }
}

impl SetupMode {
    pub fn label(self) -> (s: &'static str)
        ensures
            s@ == mode_label(self),
    {
        match self {
            SetupMode::Basic => "Basic",
            SetupMode::Advanced => "Advanced",
        }
    }
}

#[derive(Debug, Clone, Copy, PartialEq, Eq, Structural)]
pub enum SystemdAction {
    NoUnit,
    CreateUnit,
    CreateAndEnable,
}

impl SystemdAction {
    pub fn label(self) -> (s: &'static str)
        ensures
            s@ == (match self {
                SystemdAction::NoUnit => "Do not create systemd unit"@,
                SystemdAction::CreateUnit => "Create or update unit"@,
                SystemdAction::CreateAndEnable => "Create or update unit and enable"@,
            }),
    {
        match self {
            SystemdAction::NoUnit => "Do not create systemd unit",
            SystemdAction::CreateUnit => "Create or update unit",
            SystemdAction::CreateAndEnable => "Create or update unit and enable",
        }
    }
}

/// Whether headings are colored.
#[derive(Debug, Clone, Copy, PartialEq, Eq, Structural)]
pub struct UiStyle {
    pub color: bool,
}

/// Colors are used unless `NO_COLOR` is set or `TERM` is `dumb` (any ASCII case).
pub fn color_enabled(no_color_set: bool, term: Option<&str>) -> (b: bool)
    ensures
        b == (!no_color_set && !(match term {
            Some(t) => lower(t@) == "dumb"@,
            None => false,
        })),
{
    let term_dumb = match term {
        Some(t) => chars_eq_str(&chars_ascii_lower(&str_chars(t)), "dumb"),
        None => false,
    };
    !no_color_set && !term_dumb
}

/// The heading text: bold cyan when colored.
pub open spec fn heading_text(color: bool, text: Seq<char>) -> Seq<char> {
    if color {
        "\x1b[1;36m"@ + text + "\x1b[0m"@
    } else {
        text
    }
}

/// `Phase <idx>/<total> [<mode>] - <title>`.
pub open spec fn phase_title(idx: nat, title: Seq<char>, mode: Seq<char>) -> Seq<char> {
    "Phase "@ + decimal(idx) + "/"@ + decimal(TOTAL_SETUP_PHASES as nat) + " ["@ + mode + "] - "@
        + title
}

impl UiStyle {
    pub fn new(color: bool) -> (s: Self)
        ensures
            s.color == color,
    {
        UiStyle { color }
    }

    pub fn heading(self, text: &str) -> (s: String)
        ensures
            s@ == heading_text(self.color, text@),
    {
        if self.color {
            let mut s = String::from_str("\x1b[1;36m");
            push_str(&mut s, text);
            push_str(&mut s, "\x1b[0m");
            s
        } else {
            String::from_str(text)
        }
    }

    /// The heading of a setup phase.
    pub fn phase_heading(self, idx: usize, title: &str, mode: SetupMode) -> (s: String)
        ensures
            s@ == heading_text(self.color, phase_title(idx as nat, title@, mode_label(mode))),
    {
        let mut t = String::from_str("Phase ");
        push_decimal(&mut t, idx as u64);
        push_str(&mut t, "/");
        push_decimal(&mut t, TOTAL_SETUP_PHASES as u64);
        push_str(&mut t, " [");
        push_str(&mut t, mode.label());
        push_str(&mut t, "] - ");
        push_str(&mut t, title);
        self.heading(t.as_str())
    }
}

/// `n` with at least two digits, zero-padded (`{n:02}`).
pub open spec fn two_digits(n: nat) -> Seq<char> {
    if n < 10 {
        "0"@ + decimal(n)
    } else {
        decimal(n)
    }
}

/// The wall clock `HH:MM:SS` (UTC) of a Unix time in seconds.
pub open spec fn clock_text(now_secs: nat) -> Seq<char> {
    two_digits((now_secs / 3600) % 24) + ":"@ + two_digits((now_secs / 60) % 60) + ":"@ + two_digits(
        now_secs % 60,
    )
}

fn push_two_digits(s: &mut String, n: u64)
    ensures
        final(s)@ == old(s)@ + two_digits(n as nat),
{
    if n < 10 {
        push_str(s, "0");
    }
    push_decimal(s, n);
    proof {
        reveal_strlit("0");
    }
}

pub fn console_clock_text(now_secs: u64) -> (s: String)
    ensures
        s@ == clock_text(now_secs as nat),
{
    let sec = now_secs % 60;
    let min = (now_secs / 60) % 60;
    let hour = (now_secs / 3600) % 24;
    let mut s = String::new();
    push_two_digits(&mut s, hour);
    push_str(&mut s, ":");
    push_two_digits(&mut s, min);
    push_str(&mut s, ":");
    push_two_digits(&mut s, sec);
    assert(s@ =~= clock_text(now_secs as nat));
    s
}

/// The answer to a prompt: the trimmed line, or the default when it is empty.
pub open spec fn answer_or_default(line: Seq<char>, default: Seq<char>) -> Seq<char> {
    if trim(line).len() == 0 {
        default
    } else {
        trim(line)
    }
}

pub fn prompt_answer(line: &str, default: &str) -> (s: String)
    ensures
        s@ == answer_or_default(line@, default@),
{
    let t = trimmed_chars(line);
    if t.len() == 0 {
        String::from_str(default)
    } else {
        string_from_chars(&t)
    }
}

/// The hint shown after a yes/no question.
pub fn yes_no_hint(default_yes: bool) -> (s: &'static str)
    ensures
        s@ == (if default_yes {
            "Y/n"@
        } else {
            "y/N"@
        }),
{
    if default_yes {
        "Y/n"
    } else {
        "y/N"
    }
}

/// The reply to a yes/no question, read without case and surrounding whitespace:
/// empty takes the default, `q` cancels, `y`/`yes` and `n`/`no` answer, anything
/// else is refused with its text.
pub open spec fn spec_yes_no(line: Seq<char>, default_yes: bool, label: Seq<char>) -> Result<bool, Seq<char>> {
    let a = lower(trim(line));
    if a.len() == 0 {
        Ok(default_yes)
    } else if a == "q"@ {
        Err("setup cancelled by user"@)
    } else if a == "y"@ || a == "yes"@ {
        Ok(true)
    } else if a == "n"@ || a == "no"@ {
        Ok(false)
    } else {
        Err("invalid answer for "@ + label + ": "@ + a)
    }
}

pub fn parse_yes_no(line: &str, default_yes: bool, label: &str) -> (r: Result<bool, String>)
    ensures
        match (r, spec_yes_no(line@, default_yes, label@)) {
            (Ok(b), Ok(c)) => b == c,
            (Err(e), Err(m)) => e@ == m,
            _ => false,
        },
{
    let a = chars_ascii_lower(&trimmed_chars(line));
    if a.len() == 0 {
        return Ok(default_yes);
    }
    if chars_eq_str(&a, "q") {
        return Err(String::from_str("setup cancelled by user"));
    }
    if chars_eq_str(&a, "y") || chars_eq_str(&a, "yes") {
        return Ok(true);
    }
    if chars_eq_str(&a, "n") || chars_eq_str(&a, "no") {
        return Ok(false);
    }
    let mut e = String::from_str("invalid answer for ");
    push_str(&mut e, label);
    push_str(&mut e, ": ");
    let t = string_from_chars(&a);
    push_str(&mut e, t.as_str());
    Err(e)
}

} // verus!
