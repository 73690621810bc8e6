use vstd::prelude::*;

use crate::text::{trim, trimmed_chars};

verus! {

/// 8-byte EUI as fixed array (network byte order as stored).
#[derive(Debug, Clone, Copy, PartialEq, Eq, Hash)]
pub struct Eui64(pub [u8; 8]);

#[derive(Debug, Clone, Copy, PartialEq, Eq, Hash)]
pub struct DevEui(pub Eui64);

#[derive(Debug, Clone, Copy, PartialEq, Eq, Hash)]
pub struct GatewayEui(pub Eui64);

/// 32-bit device address after join (LoRaWAN dev_addr).
#[derive(Debug, Clone, Copy, PartialEq, Eq, Hash, Structural)]
pub struct DevAddr(pub u32);

/// An EUI that is not 16 hexadecimal digits.
#[derive(Debug, PartialEq, Eq, Structural)]
pub struct InvalidEuiHex;

/// The value of a hexadecimal digit.
pub open spec fn hex_value(c: char) -> Option<u8> {
    if '0' <= c <= '9' {
        Some((c as u32 - '0' as u32) as u8)
    } else if 'a' <= c <= 'f' {
        Some((c as u32 - 'a' as u32 + 10) as u8)
    } else if 'A' <= c <= 'F' {
        Some((c as u32 - 'A' as u32 + 10) as u8)
    } else {
        None
    }
}

/// Whether `t` is exactly 16 hexadecimal digits.
pub open spec fn is_eui_hex(t: Seq<char>) -> bool {
    t.len() == 16 && forall|i: int| 0 <= i < 16 ==> #[trigger] hex_value(t[i]) is Some
}

/// The 8 bytes spelled by 16 hexadecimal digits, most significant digit first.
pub open spec fn eui_hex_bytes(t: Seq<char>) -> Seq<u8> {
    Seq::new(
        8,
        |i: int| (hex_value(t[2 * i])->0 * 16 + hex_value(t[2 * i + 1])->0) as u8,
    )
}

/// Parsing of an EUI written as 16 hex digits (surrounding whitespace ignored).
pub open spec fn spec_eui64_from_hex(s: Seq<char>) -> Option<Seq<u8>> {
    if is_eui_hex(trim(s)) {
        Some(eui_hex_bytes(trim(s)))
    } else {
        None
    }
}

impl DevEui {
    /// Parse 16 hex chars (big-endian byte order).
    pub fn from_hex(s: &str) -> (result: Result<Self, InvalidEuiHex>)
        ensures
            spec_eui64_from_hex(s@) matches Some(b) ==> (result matches Ok(d) && d.0.0@ == b),
            spec_eui64_from_hex(s@) is None ==> result == Err::<Self, InvalidEuiHex>(InvalidEuiHex),
    {
        match Eui64::from_hex(s) {
            Ok(e) => Ok(DevEui(e)),
            Err(e) => Err(e),
        }
    }
}

impl GatewayEui {
    pub fn from_hex(s: &str) -> (result: Result<Self, InvalidEuiHex>)
        ensures
            spec_eui64_from_hex(s@) matches Some(b) ==> (result matches Ok(g) && g.0.0@ == b),
            spec_eui64_from_hex(s@) is None ==> result == Err::<Self, InvalidEuiHex>(InvalidEuiHex),
    {
        match Eui64::from_hex(s) {
            Ok(e) => Ok(GatewayEui(e)),
            Err(e) => Err(e),
        }
    }
}

impl Eui64 {
    /// Parse 16 hex chars (big-endian byte order); surrounding whitespace is ignored.
    pub fn from_hex(s: &str) -> (result: Result<Self, InvalidEuiHex>)
        ensures
            spec_eui64_from_hex(s@) matches Some(b) ==> (result matches Ok(e) && e.0@ == b),
            spec_eui64_from_hex(s@) is None ==> result == Err::<Self, InvalidEuiHex>(InvalidEuiHex),
    {
        let t = trimmed_chars(s);
        if t.len() != 16 {
            return Err(InvalidEuiHex);
        }
        let mut out = [0u8; 8];
        let mut i: usize = 0;
        while i < 8
            invariant
                t@ == trim(s@),
                t@.len() == 16,
                0 <= i <= 8,
                forall|j: int| 0 <= j < 2 * i ==> #[trigger] hex_value(t@[j]) is Some,
                forall|j: int| 0 <= j < i ==> out@[j] == eui_hex_bytes(t@)[j],
            decreases 8 - i,
        {
            let hi = match char_hex_nibble(t[2 * i]) {
                Ok(v) => v,
                Err(e) => {
                    assert(!is_eui_hex(t@));
                    return Err(e);
                },
            };
            let lo = match char_hex_nibble(t[2 * i + 1]) {
                Ok(v) => v,
                Err(e) => {
                    assert(!is_eui_hex(t@));
                    return Err(e);
                },
            };
            let b = (hi << 4) | lo;
            assert(b == (hi as int * 16 + lo as int) as u8) by (bit_vector)
                requires
                    hi < 16,
                    lo < 16,
                    b == (hi << 4) | lo,
            ;
            out[i] = b;
            i = i + 1;
        }
        assert(is_eui_hex(t@));
        assert(out@ =~= eui_hex_bytes(t@));
        Ok(Eui64(out))
    }
}

/// The value of one hexadecimal digit byte.
fn hex_nibble(b: u8) -> (result: Result<u8, InvalidEuiHex>)
    ensures
        hex_value(b as char) matches Some(v) ==> result == Ok::<u8, InvalidEuiHex>(v),
        hex_value(b as char) is None ==> result == Err::<u8, InvalidEuiHex>(InvalidEuiHex),
{
    if 0x30 <= b && b <= 0x39 {
        Ok(b - 0x30)
    } else if 0x61 <= b && b <= 0x66 {
        Ok(b - 0x61 + 10)
    } else if 0x41 <= b && b <= 0x46 {
        Ok(b - 0x41 + 10)
    } else {
        Err(InvalidEuiHex)
    }
}

/// The value of one hexadecimal digit character; non-ASCII characters are no digits.
fn char_hex_nibble(c: char) -> (result: Result<u8, InvalidEuiHex>)
    ensures
        hex_value(c) matches Some(v) ==> (result == Ok::<u8, InvalidEuiHex>(v) && v < 16),
        hex_value(c) is None ==> result == Err::<u8, InvalidEuiHex>(InvalidEuiHex),
{
    let u = c as u32;
    if u < 128 {
        hex_nibble(u as u8)
    } else {
        Err(InvalidEuiHex)
    }
}

} // verus!
