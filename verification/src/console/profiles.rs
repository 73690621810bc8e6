//! Loop timeout and throughput presets, chosen by name or from host memory.

use vstd::prelude::*;
use vstd::string::StringExecFns;

use crate::console::config::TuiConfig;
use crate::text::{chars_ascii_lower, chars_eq_str, lower, push_str, str_chars};

verus! {

pub const PROFILE_CONSTRAINED: &'static str = "constrained";

pub const PROFILE_BALANCED: &'static str = "balanced";

pub const PROFILE_HIGH_CAPACITY: &'static str = "high-capacity";

/// 512 MiB: below this a host is constrained.
pub const MEMORY_BYTES_512_MIB: u64 = 536870912;

/// 2 GiB: below this a host is balanced, else high-capacity.
pub const MEMORY_BYTES_2_GIB: u64 = 2147483648;

/// The canonical profile name for a spelling, compared without ASCII case.
pub open spec fn spec_normalize_profile(p: Seq<char>) -> Option<Seq<char>> {
    let l = lower(p);
    if l == "constrained"@ {
        Some(PROFILE_CONSTRAINED@)
    } else if l == "balanced"@ {
        Some(PROFILE_BALANCED@)
    } else if l == "high-capacity"@ || l == "high_capacity"@ || l == "highcapacity"@ {
        Some(PROFILE_HIGH_CAPACITY@)
    } else {
        None
    }
}

pub fn normalize_profile(profile: &str) -> (r: Option<&'static str>)
    ensures
        match r {
            Some(s) => spec_normalize_profile(profile@) == Some(s@),
            None => spec_normalize_profile(profile@) is None,
        },
{
    let l = chars_ascii_lower(&str_chars(profile));
    if chars_eq_str(&l, "constrained") {
        Some(PROFILE_CONSTRAINED)
    } else if chars_eq_str(&l, "balanced") {
        Some(PROFILE_BALANCED)
    } else if chars_eq_str(&l, "high-capacity") || chars_eq_str(&l, "high_capacity") || chars_eq_str(
        &l,
        "highcapacity",
    ) {
        Some(PROFILE_HIGH_CAPACITY)
    } else {
        None
    }
}

/// The profile suggested for a host with this much memory.
pub open spec fn spec_suggested_profile(total_memory_bytes: u64) -> Seq<char> {
    if total_memory_bytes < MEMORY_BYTES_512_MIB {
        PROFILE_CONSTRAINED@
    } else if total_memory_bytes < MEMORY_BYTES_2_GIB {
        PROFILE_BALANCED@
    } else {
        PROFILE_HIGH_CAPACITY@
    }
}

pub fn suggested_profile_from_memory(total_memory_bytes: u64) -> (s: &'static str)
    ensures
        s@ == spec_suggested_profile(total_memory_bytes),
{
    if total_memory_bytes < MEMORY_BYTES_512_MIB {
        PROFILE_CONSTRAINED
    } else if total_memory_bytes < MEMORY_BYTES_2_GIB {
        PROFILE_BALANCED
    } else {
        PROFILE_HIGH_CAPACITY
    }
}

/// The profile suggested for any host is a name that `apply-profile` accepts,
/// and canonical names normalize to themselves.
pub proof fn lemma_suggestion_is_a_profile(total_memory_bytes: u64)
    ensures
        spec_normalize_profile(spec_suggested_profile(total_memory_bytes)) == Some(
            spec_suggested_profile(total_memory_bytes),
        ),
        spec_normalize_profile(PROFILE_CONSTRAINED@) == Some(PROFILE_CONSTRAINED@),
        spec_normalize_profile(PROFILE_BALANCED@) == Some(PROFILE_BALANCED@),
        spec_normalize_profile(PROFILE_HIGH_CAPACITY@) == Some(PROFILE_HIGH_CAPACITY@),
{
    reveal_strlit("constrained");
    reveal_strlit("balanced");
    reveal_strlit("high-capacity");
    assert(lower(PROFILE_CONSTRAINED@) =~= PROFILE_CONSTRAINED@);
    assert(lower(PROFILE_BALANCED@) =~= PROFILE_BALANCED@);
    assert(lower(PROFILE_HIGH_CAPACITY@) =~= PROFILE_HIGH_CAPACITY@);
}

/// The loop read timeout of each canonical profile; an unknown name counts as balanced.
pub open spec fn profile_timeout_ms(p: Seq<char>) -> u64 {
    match spec_normalize_profile(p) {
        Some(n) => if n == PROFILE_CONSTRAINED@ {
            1500
        } else if n == PROFILE_HIGH_CAPACITY@ {
            700
        } else {
            1000
        },
        None => 1000,
    }
}

/// Every profile sets its read timeout and unlimited messages; the paths and bind stay.
pub open spec fn profile_applied(old_cfg: TuiConfig, new_cfg: TuiConfig, profile: Seq<char>) -> bool {
    &&& new_cfg.loop_read_timeout_ms == profile_timeout_ms(profile)
    &&& new_cfg.loop_max_messages == 0
    &&& new_cfg.data_dir == old_cfg.data_dir
    &&& new_cfg.gwmp_bind == old_cfg.gwmp_bind
    &&& new_cfg.enabled_extensions == old_cfg.enabled_extensions
}

pub fn apply_profile_defaults(cfg: &mut TuiConfig, profile: &str)
    ensures
        profile_applied(*old(cfg), *final(cfg), profile@),
{
    proof {
        reveal_strlit("constrained");
        reveal_strlit("balanced");
        reveal_strlit("high-capacity");
    }
    match normalize_profile(profile) {
        Some(n) => {
            let c = str_chars(n);
            if chars_eq_str(&c, PROFILE_CONSTRAINED) {
                cfg.loop_read_timeout_ms = 1500;
            } else if chars_eq_str(&c, PROFILE_HIGH_CAPACITY) {
                cfg.loop_read_timeout_ms = 700;
            } else {
                cfg.loop_read_timeout_ms = 1000;
            }
        },
        None => {
            cfg.loop_read_timeout_ms = 1000;
        },
    }
    cfg.loop_max_messages = 0;
}

/// The profile applied when the memory is known: the suggestion for it; else balanced.
pub open spec fn suggested_or_balanced(total_memory_bytes: Option<u64>) -> Seq<char> {
    match total_memory_bytes {
        Some(m) => spec_suggested_profile(m),
        None => PROFILE_BALANCED@,
    }
}

pub fn apply_suggested_profile(cfg: &mut TuiConfig, total_memory_bytes: Option<u64>)
    ensures
        profile_applied(*old(cfg), *final(cfg), suggested_or_balanced(total_memory_bytes)),
{
    let profile = match total_memory_bytes {
        Some(m) => suggested_profile_from_memory(m),
        None => PROFILE_BALANCED,
    };
    apply_profile_defaults(cfg, profile);
}

/// The error for a name that is neither `auto` nor a profile.
pub open spec fn invalid_profile_message(profile: Seq<char>) -> Seq<char> {
    "invalid profile '"@ + profile + "'; expected auto|constrained|balanced|high-capacity"@
}

/// `auto` (any ASCII case) applies the memory suggestion; a profile name applies
/// that profile; anything else is refused and leaves the config unchanged.
pub fn apply_profile_by_name(cfg: &mut TuiConfig, profile: &str, auto_memory_bytes: Option<u64>) -> (r:
    Result<(), String>)
    ensures
        lower(profile@) == "auto"@ ==> r is Ok && profile_applied(
            *old(cfg),
            *final(cfg),
            suggested_or_balanced(auto_memory_bytes),
        ),
        lower(profile@) != "auto"@ ==> match spec_normalize_profile(profile@) {
            Some(_) => r is Ok && profile_applied(*old(cfg), *final(cfg), profile@),
            None => r matches Err(e) && e@ == invalid_profile_message(profile@) && *final(cfg)
                == *old(cfg),
        },
{
    let l = chars_ascii_lower(&str_chars(profile));
    if chars_eq_str(&l, "auto") {
        apply_suggested_profile(cfg, auto_memory_bytes);
        return Ok(());
    }
    match normalize_profile(profile) {
        Some(_) => {
            apply_profile_defaults(cfg, profile);
            Ok(())
        },
        None => {
            let mut e = String::from_str("invalid profile '");
            push_str(&mut e, profile);
            push_str(&mut e, "'; expected auto|constrained|balanced|high-capacity");
            Err(e)
        },
    }
}

} // verus!
