//! The operator dashboard's recommendations, from the runtime's status and health.

use vstd::prelude::*;

use crate::text::{chars_ascii_lower, chars_eq_str, lower, str_chars, str_eq};

verus! {

pub const REC_HEALTH_DEGRADED: &'static str =
    "- Health is not healthy: run 'maverick-edge health' and inspect degraded components.";

pub const REC_HEALTH_OK: &'static str = "- Health looks good.";

pub const REC_STORAGE_MISSING: &'static str =
    "- Storage is not initialized yet: start ingest-loop or run runtime to create local db.";

pub const REC_STORAGE_OK: &'static str = "- Storage is present.";

pub const REC_RAISE_THROUGHPUT: &'static str =
    "- Host can handle higher throughput; consider 'apply-profile --profile high-capacity'.";

/// The recommendations, in order: health, storage, and a throughput hint when the
/// runtime suggests the high-capacity profile while the read timeout exceeds 1000 ms.
pub open spec fn spec_recommendations(
    overall: Seq<char>,
    storage_present: bool,
    suggested: Seq<char>,
    loop_read_timeout_ms: u64,
) -> Seq<Seq<char>> {
    let health = if overall != "healthy"@ {
        REC_HEALTH_DEGRADED@
    } else {
        REC_HEALTH_OK@
    };
    let storage = if !storage_present {
        REC_STORAGE_MISSING@
    } else {
        REC_STORAGE_OK@
    };
    if lower(suggested) == "highcapacity"@ && loop_read_timeout_ms > 1000 {
        seq![health, storage, REC_RAISE_THROUGHPUT@]
    } else {
        seq![health, storage]
    }
}

pub fn recommendations(overall: &str, storage_present: bool, suggested: &str, loop_read_timeout_ms: u64) -> (v:
    Vec<&'static str>)
    ensures
        v@.map_values(|s: &'static str| s@) == spec_recommendations(
            overall@,
            storage_present,
            suggested@,
            loop_read_timeout_ms,
        ),
{
    let mut v: Vec<&'static str> = Vec::new();
    if !str_eq(overall, "healthy") {
        v.push(REC_HEALTH_DEGRADED);
    } else {
        v.push(REC_HEALTH_OK);
    }
    if !storage_present {
        v.push(REC_STORAGE_MISSING);
    } else {
        v.push(REC_STORAGE_OK);
    }
    let s = chars_ascii_lower(&str_chars(suggested));
    if chars_eq_str(&s, "highcapacity") && loop_read_timeout_ms > 1000 {
        v.push(REC_RAISE_THROUGHPUT);
    }
    assert(v@.map_values(|s: &'static str| s@) =~= spec_recommendations(
        overall@,
        storage_present,
        suggested@,
        loop_read_timeout_ms,
    ));
    v
}

} // verus!
