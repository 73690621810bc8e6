use vstd::prelude::*;

use crate::text::{chars_ascii_upper, chars_eq_str, str_chars, string_from_chars, upper};

verus! {

/// Supported regional plans for v1 baseline.
#[derive(Debug, Clone, Copy, PartialEq, Eq, Hash, Structural)]
pub enum RegionId {
    Eu868,
    Us915,
    Au915,
    As923,
    Eu433,
}

/// A region code that names no supported region; holds the code in upper case.
#[derive(Debug, PartialEq, Eq)]
pub struct UnknownRegionError(pub String);

/// The canonical code of a region.
pub open spec fn region_code(r: RegionId) -> Seq<char> {
    match r {
        RegionId::Eu868 => "EU868"@,
        RegionId::Us915 => "US915"@,
        RegionId::Au915 => "AU915"@,
        RegionId::As923 => "AS923"@,
        RegionId::Eu433 => "EU433"@,
    }
}

/// Case-insensitive parsing of a region code.
pub open spec fn spec_parse_region(s: Seq<char>) -> Option<RegionId> {
    let u = upper(s);
    if u == "EU868"@ {
        Some(RegionId::Eu868)
    } else if u == "US915"@ {
        Some(RegionId::Us915)
    } else if u == "AU915"@ {
        Some(RegionId::Au915)
    } else if u == "AS923"@ {
        Some(RegionId::As923)
    } else if u == "EU433"@ {
        Some(RegionId::Eu433)
    } else {
        None
    }
}

impl RegionId {
    /// Parses a region code in any ASCII case; an unknown code is reported in upper case.
    pub fn parse_code(s: &str) -> (result: Result<Self, UnknownRegionError>)
        ensures
            spec_parse_region(s@) matches Some(r) ==> result == Ok::<Self, UnknownRegionError>(r),
            spec_parse_region(s@) is None ==> (result matches Err(e) && e.0@ == upper(s@)),
    {
        let u = chars_ascii_upper(&str_chars(s));
        if chars_eq_str(&u, "EU868") {
            Ok(Self::Eu868)
        } else if chars_eq_str(&u, "US915") {
            Ok(Self::Us915)
        } else if chars_eq_str(&u, "AU915") {
            Ok(Self::Au915)
        } else if chars_eq_str(&u, "AS923") {
            Ok(Self::As923)
        } else if chars_eq_str(&u, "EU433") {
            Ok(Self::Eu433)
        } else {
            Err(UnknownRegionError(string_from_chars(&u)))
        }
    }

    /// The canonical upper-case code.
    pub fn as_str(&self) -> (s: &'static str)
        ensures
            s@ == region_code(*self),
    {
        match self {
            Self::Eu868 => "EU868",
            Self::Us915 => "US915",
            Self::Au915 => "AU915",
            Self::As923 => "AS923",
            Self::Eu433 => "EU433",
        }
    }

    /// The canonical upper-case code as a `String`.
    pub fn to_string(&self) -> (s: String)
        ensures
            s@ == region_code(*self),
    {
        String::from_str(self.as_str())
    }
}

impl std::str::FromStr for RegionId {
    type Err = UnknownRegionError;

    fn from_str(s: &str) -> (result: Result<Self, Self::Err>)
        ensures
            spec_parse_region(s@) matches Some(r) ==> result == Ok::<Self, UnknownRegionError>(r),
            spec_parse_region(s@) is None ==> (result matches Err(e) && e.0@ == upper(s@)),
    {
        Self::parse_code(s)
    }
}

/// The canonical code of every region parses back to that region.
pub proof fn lemma_region_code_roundtrip(r: RegionId)
    ensures
        spec_parse_region(region_code(r)) == Some(r),
{
    reveal_strlit("EU868");
    reveal_strlit("US915");
    reveal_strlit("AU915");
    reveal_strlit("AS923");
    reveal_strlit("EU433");
    let c = region_code(r);
    assert(upper(c) =~= c);
    assert("EU868"@[0] == 'E' && "EU868"@[2] == '8');
    assert("US915"@[0] == 'U');
    assert("AU915"@[0] == 'A' && "AU915"@[1] == 'U');
    assert("AS923"@[0] == 'A' && "AS923"@[1] == 'S');
    assert("EU433"@[0] == 'E' && "EU433"@[2] == '4');
}

} // verus!
