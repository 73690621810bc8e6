//! The console's runtime configuration: defaults, the layers that override
//! them, and the list of enabled extensions.

use vstd::prelude::*;
use vstd::string::StringExecFns;

use crate::text::str_eq;

verus! {

/// Default GWMP UDP bind address.
pub const DEFAULT_BIND: &'static str = "0.0.0.0:17000";

/// Default read timeout of the ingest loop, in milliseconds.
pub const DEFAULT_READ_TIMEOUT_MS: u64 = 1000;

/// `0` means unlimited receive iterations, as `maverick-edge` takes it.
pub const DEFAULT_MAX_MESSAGES: u32 = 0;

/// Default data directory of the edge runtime.
pub const DEFAULT_DATA_DIR: &'static str = "/var/lib/maverick";

/// Where the installer writes the runtime environment.
pub const RUNTIME_ENV_PATH: &'static str = "/etc/maverick/runtime.env";

/// Where the installer records the setup state.
pub const SETUP_JSON_PATH: &'static str = "/etc/maverick/setup.json";

/// The id under which the console extension is listed.
pub const CONSOLE_EXTENSION_ID: &'static str = "console";

/// The id the console extension was once listed under.
pub const LEGACY_CONSOLE_EXTENSION_ID: &'static str = "maverick-edge-tui";

/// Non-critical console preferences.
#[derive(Debug, Clone, PartialEq, Eq)]
pub struct ConsolePrefs {
    pub schema_version: u32,
    pub theme: String,
}

impl Default for ConsolePrefs {
    fn default() -> (p: Self)
        ensures
            p.schema_version == 1,
            p.theme@ == "auto"@,
    {
        ConsolePrefs { schema_version: 1, theme: String::from_str("auto") }
    }
}

/// The `runtime` block of the installer's setup state.
#[derive(Debug, Clone, PartialEq, Eq)]
pub struct SetupRuntimeBlock {
    pub data_dir: String,
    pub gwmp_bind: String,
    pub loop_read_timeout_ms: u64,
    pub loop_max_messages: u32,
}

/// The runtime settings handed to `maverick-edge`, and the enabled extensions.
#[derive(Debug, Clone, PartialEq, Eq)]
pub struct TuiConfig {
    pub data_dir: String,
    pub gwmp_bind: String,
    pub loop_read_timeout_ms: u64,
    pub loop_max_messages: u32,
    pub enabled_extensions: Vec<String>,
}

/// The characters of each string.
pub open spec fn strings_view(v: Seq<String>) -> Seq<Seq<char>> {
    v.map_values(|s: String| s@)
}

impl Default for TuiConfig {
    fn default() -> (c: Self)
        ensures
            c.data_dir@ == DEFAULT_DATA_DIR@,
            c.gwmp_bind@ == DEFAULT_BIND@,
            c.loop_read_timeout_ms == DEFAULT_READ_TIMEOUT_MS,
            c.loop_max_messages == DEFAULT_MAX_MESSAGES,
            strings_view(c.enabled_extensions@) == seq![CONSOLE_EXTENSION_ID@],
    {
        let exts = vec![String::from_str(CONSOLE_EXTENSION_ID)];
        assert(strings_view(exts@) =~= seq![CONSOLE_EXTENSION_ID@]);
        TuiConfig {
            data_dir: String::from_str(DEFAULT_DATA_DIR),
            gwmp_bind: String::from_str(DEFAULT_BIND),
            loop_read_timeout_ms: DEFAULT_READ_TIMEOUT_MS,
            loop_max_messages: DEFAULT_MAX_MESSAGES,
            enabled_extensions: exts,
        }
    }
}

/// The current id of an extension: the legacy console id becomes `console`.
pub open spec fn normalized_extension_id(e: Seq<char>) -> Seq<char> {
    if e == LEGACY_CONSOLE_EXTENSION_ID@ {
        CONSOLE_EXTENSION_ID@
    } else {
        e
    }
}

pub fn normalize_extension_ids(ext: &[String]) -> (r: Vec<String>)
    ensures
        strings_view(r@) == strings_view(ext@).map_values(|e: Seq<char>| normalized_extension_id(e)),
{
    let mut r: Vec<String> = Vec::new();
    let mut i: usize = 0;
    while i < ext.len()
        invariant
            0 <= i <= ext@.len(),
            strings_view(r@) == strings_view(ext@.subrange(0, i as int)).map_values(
                |e: Seq<char>| normalized_extension_id(e),
            ),
        decreases ext@.len() - i,
    {
        let e = &ext[i];
        let item = if str_eq(e.as_str(), LEGACY_CONSOLE_EXTENSION_ID) {
            String::from_str(CONSOLE_EXTENSION_ID)
        } else {
            e.clone()
        };
        assert(item@ == normalized_extension_id(ext@[i as int]@));
        let ghost prev = r@;
        r.push(item);
        assert(strings_view(r@) =~= strings_view(prev).push(item@));
        assert(strings_view(ext@.subrange(0, i + 1)) =~= strings_view(ext@.subrange(0, i as int)).push(ext@[i as int]@));
        assert(strings_view(ext@.subrange(0, i + 1)).map_values(|e: Seq<char>| normalized_extension_id(e))
            =~= strings_view(ext@.subrange(0, i as int)).map_values(|e: Seq<char>| normalized_extension_id(e)).push(
            normalized_extension_id(ext@[i as int]@)));
        i = i + 1;
        assert(strings_view(r@) =~= strings_view(ext@.subrange(0, i as int)).map_values(
            |e: Seq<char>| normalized_extension_id(e),
        ));
    }
    assert(ext@.subrange(0, ext@.len() as int) =~= ext@);
    r
}

/// The user's file replaces every runtime field; its extension ids are normalized.
pub open spec fn merged_config_matches(base: TuiConfig, user: TuiConfig, r: TuiConfig) -> bool {
    &&& r.data_dir@ == user.data_dir@
    &&& r.gwmp_bind@ == user.gwmp_bind@
    &&& r.loop_read_timeout_ms == user.loop_read_timeout_ms
    &&& r.loop_max_messages == user.loop_max_messages
    &&& strings_view(r.enabled_extensions@) == strings_view(user.enabled_extensions@).map_values(
        |e: Seq<char>| normalized_extension_id(e),
    )
}

pub fn merge_user_config(base: TuiConfig, user: TuiConfig) -> (r: TuiConfig)
    ensures
        merged_config_matches(base, user, r),
{
    let mut base = base;
    base.enabled_extensions = normalize_extension_ids(user.enabled_extensions.as_slice());
    base.data_dir = user.data_dir;
    base.gwmp_bind = user.gwmp_bind;
    base.loop_read_timeout_ms = user.loop_read_timeout_ms;
    base.loop_max_messages = user.loop_max_messages;
    base
}

/// `v` without any element equal to `x`, the others in order.
pub open spec fn without(v: Seq<Seq<char>>, x: Seq<char>) -> Seq<Seq<char>>
    decreases v.len(),
{
    if v.len() == 0 {
        v
    } else if v.last() == x {
        without(v.drop_last(), x)
    } else {
        without(v.drop_last(), x).push(v.last())
    }
}

/// The list after enabling (added at the end unless already present) or
/// disabling (every occurrence removed) an extension.
pub open spec fn upserted(v: Seq<Seq<char>>, x: Seq<char>, enabled: bool) -> Seq<Seq<char>> {
    if enabled {
        if v.contains(x) {
            v
        } else {
            v.push(x)
        }
    } else {
        without(v, x)
    }
}

/// Whether `extension` is in the list.
pub fn contains_extension(extensions: &Vec<String>, extension: &str) -> (b: bool)
    ensures
        b == strings_view(extensions@).contains(extension@),
{
    let mut i: usize = 0;
    while i < extensions.len()
        invariant
            0 <= i <= extensions@.len(),
            forall|j: int| 0 <= j < i ==> extensions@[j]@ != extension@,
        decreases extensions@.len() - i,
    {
        if str_eq(extensions[i].as_str(), extension) {
            assert(strings_view(extensions@)[i as int] == extension@);
            return true;
        }
        i = i + 1;
    }
    assert forall|j: int| 0 <= j < strings_view(extensions@).len() implies strings_view(
        extensions@,
    )[j] != extension@ by {
        assert(strings_view(extensions@)[j] == extensions@[j]@);
    }
    false
}

/// Enables or disables `extension` in the list.
pub fn upsert_extension_id(extensions: &mut Vec<String>, extension: &str, enabled: bool)
    ensures
        strings_view(final(extensions)@) == upserted(strings_view(old(extensions)@), extension@, enabled),
{
    let existing = contains_extension(extensions, extension);
    if enabled {
        if !existing {
            extensions.push(String::from_str(extension));
            assert(strings_view(extensions@) =~= strings_view(old(extensions)@).push(extension@));
        }
    } else {
        let mut kept: Vec<String> = Vec::new();
        let mut i: usize = 0;
        while i < extensions.len()
            invariant
                0 <= i <= extensions@.len(),
                strings_view(kept@) == without(strings_view(extensions@.subrange(0, i as int)), extension@),
            decreases extensions@.len() - i,
        {
            let ghost pre = strings_view(extensions@.subrange(0, i as int));
            let ghost next = strings_view(extensions@.subrange(0, i + 1));
            assert(next.drop_last() =~= pre);
            assert(next.last() == extensions@[i as int]@);
            if !str_eq(extensions[i].as_str(), extension) {
                kept.push(extensions[i].clone());
                assert(strings_view(kept@) =~= without(next, extension@));
            }
            i = i + 1;
        }
        assert(extensions@.subrange(0, extensions@.len() as int) =~= extensions@);
        *extensions = kept;
    }
}

/// Whether the setup state marks the console extension as wanted.
pub open spec fn console_state_enables(state: Seq<char>) -> bool {
    state == "enabled"@ || state == "installed"@
}

/// The config after the installer's setup state is laid over it: the console
/// entry (when the state names one) enables or disables the console extension,
/// and the runtime block replaces the runtime fields; a zero timeout becomes 1.
pub fn apply_setup_runtime(cfg: &mut TuiConfig, runtime: SetupRuntimeBlock, console_state: Option<&str>)
    ensures
        final(cfg).data_dir@ == runtime.data_dir@,
        final(cfg).gwmp_bind@ == runtime.gwmp_bind@,
        final(cfg).loop_read_timeout_ms == (if runtime.loop_read_timeout_ms == 0 {
            1
        } else {
            runtime.loop_read_timeout_ms
        }),
        final(cfg).loop_max_messages == runtime.loop_max_messages,
        strings_view(final(cfg).enabled_extensions@) == match console_state {
            Some(state) => upserted(
                strings_view(old(cfg).enabled_extensions@),
                CONSOLE_EXTENSION_ID@,
                console_state_enables(state@),
            ),
            None => strings_view(old(cfg).enabled_extensions@),
        },
{
    if let Some(state) = console_state {
        let enable = str_eq(state, "enabled") || str_eq(state, "installed");
        upsert_extension_id(&mut cfg.enabled_extensions, CONSOLE_EXTENSION_ID, enable);
    }
    cfg.data_dir = runtime.data_dir;
    cfg.gwmp_bind = runtime.gwmp_bind;
    cfg.loop_read_timeout_ms = if runtime.loop_read_timeout_ms == 0 {
        1
    } else {
        runtime.loop_read_timeout_ms
    };
    cfg.loop_max_messages = runtime.loop_max_messages;
}

/// Enabling twice is enabling once, and disabling leaves no occurrence.
pub proof fn lemma_upsert_laws(v: Seq<Seq<char>>, x: Seq<char>)
    ensures
        upserted(upserted(v, x, true), x, true) == upserted(v, x, true),
        upserted(v, x, true).contains(x),
        !upserted(v, x, false).contains(x),
        upserted(upserted(v, x, false), x, false) == upserted(v, x, false),
    decreases v.len(),
{
    lemma_without_excludes(v, x);
    lemma_without_idempotent(v, x);
    if !v.contains(x) {
        assert(v.push(x)[v.len() as int] == x);
    }
}

proof fn lemma_without_excludes(v: Seq<Seq<char>>, x: Seq<char>)
    ensures
        !without(v, x).contains(x),
    decreases v.len(),
{
    if v.len() > 0 {
        lemma_without_excludes(v.drop_last(), x);
        if v.last() != x {
            let w = without(v.drop_last(), x);
            assert forall|i: int| 0 <= i < w.push(v.last()).len() implies w.push(v.last())[i] != x by {
                if i < w.len() {
                    assert(w.push(v.last())[i] == w[i]);
                }
            }
        }
    }
}

proof fn lemma_without_idempotent(v: Seq<Seq<char>>, x: Seq<char>)
    ensures
        without(without(v, x), x) == without(v, x),
    decreases v.len(),
{
    if v.len() > 0 {
        lemma_without_idempotent(v.drop_last(), x);
        if v.last() != x {
            let w = without(v.drop_last(), x);
            assert(w.push(v.last()).drop_last() =~= w);
        }
    }
}

} // verus!
