//! The installer's `runtime.env` file: `KEY=value` lines laid over the
//! console configuration.

use vstd::prelude::*;

use crate::console::config::TuiConfig;
use crate::text::{
    chars_eq_str, parse_u64_chars, parse_unsigned, slice_vec, str_chars, string_from_chars, trim,
    trim_vec,
};

verus! {

/// The runtime settings a `runtime.env` line can set: data dir, bind, read
/// timeout and message limit.
pub open spec fn runtime_view(cfg: TuiConfig) -> (Seq<char>, Seq<char>, u64, u32) {
    (cfg.data_dir@, cfg.gwmp_bind@, cfg.loop_read_timeout_ms, cfg.loop_max_messages)
}

/// The text split at each `\n` (the last piece may be empty).
pub open spec fn split_newlines(s: Seq<char>) -> Seq<Seq<char>>
    decreases s.len(),
{
    if s.len() == 0 {
        seq![seq![]]
    } else {
        let p = split_newlines(s.drop_last());
        if s.last() == '\n' {
            p.push(seq![])
        } else {
            p.update(p.len() - 1, p.last().push(s.last()))
        }
    }
}

/// Position of the first `c` in `s` at or after `i`.
pub open spec fn first_index_from(s: Seq<char>, c: char, i: int) -> Option<int>
    decreases s.len() - i,
{
    if i < 0 || i >= s.len() {
        None
    } else if s[i] == c {
        Some(i)
    } else {
        first_index_from(s, c, i + 1)
    }
}

/// Index of the first character of `s[i..]` that is not `c`.
pub open spec fn first_not(s: Seq<char>, c: char, i: int) -> int
    decreases s.len() - i,
{
    if 0 <= i < s.len() && s[i] == c {
        first_not(s, c, i + 1)
    } else {
        i
    }
}

/// End of `s[lo..j]` once trailing `c` are dropped.
pub open spec fn end_not(s: Seq<char>, c: char, lo: int, j: int) -> int
    decreases j - lo,
{
    if lo < j && j <= s.len() && s[j - 1] == c {
        end_not(s, c, lo, j - 1)
    } else {
        j
    }
}

/// `str::trim_matches('"')`: the text without leading and trailing double quotes.
pub open spec fn strip_quotes(s: Seq<char>) -> Seq<char> {
    let a = first_not(s, '"', 0);
    s.subrange(a, end_not(s, '"', a, s.len() as int))
}

/// What one line does to the settings. Blank lines, `#` comments and lines
/// without `=` do nothing; otherwise the key (trimmed) selects the setting and
/// the value (trimmed, then unquoted) sets it. A timeout that does not parse as
/// a `u64`, or a limit that does not parse as a `u32`, leaves its setting; a zero
/// timeout becomes 1. Other keys are ignored.
pub open spec fn env_line_effect(st: (Seq<char>, Seq<char>, u64, u32), raw: Seq<char>) -> (
    Seq<char>,
    Seq<char>,
    u64,
    u32,
) {
    let line = trim(raw);
    if line.len() == 0 || line[0] == '#' {
        st
    } else {
        match first_index_from(line, '=', 0) {
            None => st,
            Some(eq) => {
                let key = trim(line.subrange(0, eq));
                let val = strip_quotes(trim(line.subrange(eq + 1, line.len() as int)));
                if key == "MAVERICK_DATA_DIR"@ {
                    (val, st.1, st.2, st.3)
                } else if key == "MAVERICK_GWMP_BIND"@ {
                    (st.0, val, st.2, st.3)
                } else if key == "MAVERICK_GWMP_LOOP_READ_TIMEOUT_MS"@ {
                    match parse_unsigned(val, u64::MAX as nat) {
                        Some(n) => (st.0, st.1, if n == 0 {
                            1u64
                        } else {
                            n as u64
                        }, st.3),
                        None => st,
                    }
                } else if key == "MAVERICK_GWMP_LOOP_MAX_MESSAGES"@ {
                    match parse_unsigned(val, u32::MAX as nat) {
                        Some(n) => (st.0, st.1, st.2, n as u32),
                        None => st,
                    }
                } else {
                    st
                }
            },
        }
    }
}

/// The lines applied in order.
pub open spec fn env_lines_effect(st: (Seq<char>, Seq<char>, u64, u32), lines: Seq<Seq<char>>) -> (
    Seq<char>,
    Seq<char>,
    u64,
    u32,
)
    decreases lines.len(),
{
    if lines.len() == 0 {
        st
    } else {
        env_line_effect(env_lines_effect(st, lines.drop_last()), lines.last())
    }
}

fn first_index_of(v: &Vec<char>, c: char) -> (r: Option<usize>)
    ensures
        r is None <==> first_index_from(v@, c, 0) is None,
        r matches Some(i) ==> first_index_from(v@, c, 0) == Some(i as int) && i < v@.len(),
{
    let mut i: usize = 0;
    while i < v.len()
        invariant
            0 <= i <= v@.len(),
            first_index_from(v@, c, 0) == first_index_from(v@, c, i as int),
        decreases v@.len() - i,
    {
        if v[i] == c {
            return Some(i);
        }
        i = i + 1;
    }
    None
}

fn strip_quotes_vec(v: &Vec<char>) -> (t: Vec<char>)
    ensures
        t@ == strip_quotes(v@),
{
    let n = v.len();
    let mut a: usize = 0;
    while a < n && v[a] == '"'
        invariant
            n == v@.len(),
            0 <= a <= n,
            first_not(v@, '"', a as int) == first_not(v@, '"', 0),
        decreases n - a,
    {
        a = a + 1;
    }
    let mut e: usize = n;
    while e > a && v[e - 1] == '"'
        invariant
            n == v@.len(),
            a == first_not(v@, '"', 0),
            a <= e <= n,
            end_not(v@, '"', a as int, e as int) == end_not(v@, '"', a as int, n as int),
        decreases e - a,
    {
        e = e - 1;
    }
    slice_vec(v, a, e)
}

/// Applies one line of the file.
pub fn apply_env_line(cfg: &mut TuiConfig, raw: &Vec<char>)
    ensures
        runtime_view(*final(cfg)) == env_line_effect(runtime_view(*old(cfg)), raw@),
        final(cfg).enabled_extensions == old(cfg).enabled_extensions,
{
    let line = trim_vec(raw);
    if line.len() == 0 || line[0] == '#' {
        return;
    }
    let eq = match first_index_of(&line, '=') {
        Some(i) => i,
        None => {
                return;
        },
    };
    let key = trim_vec(&slice_vec(&line, 0, eq));
    let val = strip_quotes_vec(&trim_vec(&slice_vec(&line, eq + 1, line.len())));
    if chars_eq_str(&key, "MAVERICK_DATA_DIR") {
        cfg.data_dir = string_from_chars(&val);
    } else if chars_eq_str(&key, "MAVERICK_GWMP_BIND") {
        cfg.gwmp_bind = string_from_chars(&val);
    } else if chars_eq_str(&key, "MAVERICK_GWMP_LOOP_READ_TIMEOUT_MS") {
        if let Some(n) = parse_u64_chars(&val) {
            cfg.loop_read_timeout_ms = if n == 0 {
                1
            } else {
                n
            };
        }
    } else if chars_eq_str(&key, "MAVERICK_GWMP_LOOP_MAX_MESSAGES") {
        if let Some(n) = parse_u64_chars(&val) {
            if n <= u32::MAX as u64 {
                cfg.loop_max_messages = n as u32;
            }
        }
    }
}

/// Lays the text of a `runtime.env` file over the configuration, line by line.
pub fn apply_runtime_env_text(cfg: &mut TuiConfig, data: &str)
    ensures
        runtime_view(*final(cfg)) == env_lines_effect(runtime_view(*old(cfg)), split_newlines(data@)),
        final(cfg).enabled_extensions == old(cfg).enabled_extensions,
{
    let chars = str_chars(data);
    let mut current: Vec<char> = Vec::new();
    let mut i: usize = 0;
    while i < chars.len()
        invariant
            0 <= i <= chars@.len(),
            chars@ == data@,
            split_newlines(chars@.subrange(0, i as int)).len() >= 1,
            current@ == split_newlines(chars@.subrange(0, i as int)).last(),
            runtime_view(*cfg) == env_lines_effect(
                runtime_view(*old(cfg)),
                split_newlines(chars@.subrange(0, i as int)).drop_last(),
            ),
            cfg.enabled_extensions == old(cfg).enabled_extensions,
        decreases chars@.len() - i,
    {
        let ghost pre = chars@.subrange(0, i as int);
        let c = chars[i];
        assert(chars@.subrange(0, i + 1).drop_last() =~= pre);
        if c == '\n' {
            apply_env_line(cfg, &current);
            current = Vec::new();
            assert(split_newlines(pre).push(seq![]).drop_last() =~= split_newlines(pre));
            assert(split_newlines(pre) =~= split_newlines(pre).drop_last().push(split_newlines(pre).last()));
        } else {
            current.push(c);
            let ghost p = split_newlines(pre);
            assert(p.update(p.len() - 1, p.last().push(c)).drop_last() =~= p.drop_last());
        }
        i = i + 1;
    }
    assert(chars@.subrange(0, chars@.len() as int) =~= chars@);
    let ghost all = split_newlines(chars@);
    apply_env_line(cfg, &current);
    assert(all =~= all.drop_last().push(all.last()));
}

} // verus!
