use vstd::prelude::*;
use vstd::std_specs::convert::FromSpecImpl;

use crate::text::{hex_fixed, push_hex_fixed, string_push};

verus! {

/// 8-byte EUI used by the entities.
#[derive(Debug, Clone, Copy, PartialEq, Eq, Hash)]
pub struct Eui64([u8; 8]);

impl View for Eui64 {
    type V = Seq<u8>;

    closed spec fn view(&self) -> Seq<u8> {
        self.0@
    }
}

/// `AA:BB:...:HH`: each byte as two upper-case hex digits, separated by colons.
pub open spec fn eui_display(b: Seq<u8>) -> Seq<char>
    decreases b.len(),
{
    if b.len() == 0 {
        seq![]
    } else if b.len() == 1 {
        hex_fixed(b[0] as nat, 2, true)
    } else {
        eui_display(b.drop_last()) + seq![':'] + hex_fixed(b.last() as nat, 2, true)
    }
}

impl Eui64 {
    pub fn new(bytes: [u8; 8]) -> (e: Self)
        ensures
            e@ == bytes@,
    {
        Self(bytes)
    }

    /// `Some` exactly for an 8-byte slice.
    pub fn from_slice(slice: &[u8]) -> (r: Option<Self>)
        ensures
            slice@.len() == 8 <==> r is Some,
            r matches Some(e) ==> e@ == slice@,
    {
        if slice.len() == 8 {
            let bytes: [u8; 8] = [
                slice[0], slice[1], slice[2], slice[3], slice[4], slice[5], slice[6], slice[7],
            ];
            assert(bytes@ =~= slice@);
            Some(Self(bytes))
        } else {
            None
        }
    }

    pub fn as_bytes(&self) -> (b: [u8; 8])
        ensures
            b@ == self@,
    {
        self.0
    }

    pub fn as_bytes_slice(&self) -> (b: &[u8; 8])
        ensures
            b@ == self@,
    {
        &self.0
    }

    /// Byte-wise equality of two EUIs.
    pub fn equals(&self, other: &Eui64) -> (b: bool)
        ensures
            b == (self@ == other@),
    {
        let mut i: usize = 0;
        while i < 8
            invariant
                0 <= i <= 8,
                self@.len() == 8,
                other@.len() == 8,
                forall|j: int| 0 <= j < i ==> self@[j] == other@[j],
            decreases 8 - i,
        {
            if self.0[i] != other.0[i] {
                return false;
            }
            i = i + 1;
        }
        assert(self@ =~= other@);
        true
    }

    /// The display form `AA:BB:CC:DD:EE:FF:00:11`.
    pub fn to_string(&self) -> (s: String)
        ensures
            s@ == eui_display(self@),
    {
        let mut s = String::new();
        let mut i: usize = 0;
        while i < 8
            invariant
                0 <= i <= 8,
                self@.len() == 8,
                s@ == eui_display(self@.subrange(0, i as int)),
            decreases 8 - i,
        {
            if i > 0 {
                string_push(&mut s, ':');
            }
            push_hex_fixed(&mut s, self.0[i] as u64, 2, true);
            i = i + 1;
            assert(self@.subrange(0, i as int).drop_last() =~= self@.subrange(0, i - 1));
        }
        assert(self@.subrange(0, 8) =~= self@);
        s
    }
}

impl From<[u8; 8]> for Eui64 {
    fn from(bytes: [u8; 8]) -> (e: Self) {
        Self(bytes)
    }
}

impl FromSpecImpl<[u8; 8]> for Eui64 {
    open spec fn obeys_from_spec() -> bool {
        true
    }

    closed spec fn from_spec(v: [u8; 8]) -> Self {
        Eui64(v)
    }
}

#[derive(Debug, Clone, Copy, PartialEq, Eq, Structural)]
pub struct DevNonce(pub u16);

impl DevNonce {
    pub fn new(value: u16) -> (n: Self)
        ensures
            n.0 == value,
    {
        Self(value)
    }
}

impl From<u16> for DevNonce {
    fn from(value: u16) -> (n: Self) {
        Self(value)
    }
}

impl FromSpecImpl<u16> for DevNonce {
    open spec fn obeys_from_spec() -> bool {
        true
    }

    open spec fn from_spec(v: u16) -> Self {
        DevNonce(v)
    }
}

#[derive(Debug, Clone, Copy, PartialEq, Eq, Structural)]
pub struct FrameCounter(pub u32);

impl FrameCounter {
    pub fn new(value: u32) -> (c: Self)
        ensures
            c.0 == value,
    {
        Self(value)
    }

    /// Adds one; the counter must not be at its maximum.
    pub fn increment(&mut self)
        requires
            old(self).0 < u32::MAX,
        ensures
            final(self).0 == old(self).0 + 1,
    {
        self.0 = self.0 + 1;
    }
}

impl From<u32> for FrameCounter {
    fn from(value: u32) -> (c: Self) {
        Self(value)
    }
}

impl FromSpecImpl<u32> for FrameCounter {
    open spec fn obeys_from_spec() -> bool {
        true
    }

    open spec fn from_spec(v: u32) -> Self {
        FrameCounter(v)
    }
}

#[derive(Debug, Clone, Copy, PartialEq, Eq, Structural)]
pub struct Frequency(pub u32);

impl Frequency {
    pub fn new(hz: u32) -> (f: Self)
        ensures
            f.0 == hz,
    {
        Self(hz)
    }

    pub fn as_hz(&self) -> (hz: u32)
        ensures
            hz == self.0,
    {
        self.0
    }

    /// Whole kilohertz, rounded down.
    pub fn as_khz(&self) -> (khz: u32)
        ensures
            khz == self.0 / 1000,
    {
        self.0 / 1000
    }
}

impl From<u32> for Frequency {
    fn from(hz: u32) -> (f: Self) {
        Self(hz)
    }
}

impl FromSpecImpl<u32> for Frequency {
    open spec fn obeys_from_spec() -> bool {
        true
    }

    open spec fn from_spec(v: u32) -> Self {
        Frequency(v)
    }
}

#[derive(Debug, Clone, Copy, PartialEq, Structural)]
pub struct Rssi(pub i16);

impl Rssi {
    pub fn new(value: i16) -> (r: Self)
        ensures
            r.0 == value,
    {
        Self(value)
    }

    pub fn as_i16(&self) -> (v: i16)
        ensures
            v == self.0,
    {
        self.0
    }
}

impl From<i16> for Rssi {
    fn from(value: i16) -> (r: Self) {
        Self(value)
    }
}

impl FromSpecImpl<i16> for Rssi {
    open spec fn obeys_from_spec() -> bool {
        true
    }

    open spec fn from_spec(v: i16) -> Self {
        Rssi(v)
    }
}

/// A LoRa spreading factor between 7 and 12.
#[derive(Debug, Clone, Copy, PartialEq, Eq, Structural)]
pub struct SpreadingFactor(pub u8);

impl SpreadingFactor {
    /// `Some` exactly for 7 through 12.
    pub fn new(sf: u8) -> (r: Option<Self>)
        ensures
            (7 <= sf <= 12) <==> r is Some,
            r matches Some(s) ==> s.0 == sf,
    {
        if sf >= 7 && sf <= 12 {
            Some(Self(sf))
        } else {
            None
        }
    }
}

#[derive(Debug, Clone)]
pub struct AppKey(pub [u8; 16]);

impl AppKey {
    pub fn new(bytes: [u8; 16]) -> (k: Self)
        ensures
            k.0 == bytes,
    {
        Self(bytes)
    }

    pub fn as_bytes(&self) -> (b: [u8; 16])
        ensures
            b == self.0,
    {
        self.0
    }
}

impl From<[u8; 16]> for AppKey {
    fn from(bytes: [u8; 16]) -> (k: Self) {
        Self(bytes)
    }
}

impl FromSpecImpl<[u8; 16]> for AppKey {
    open spec fn obeys_from_spec() -> bool {
        true
    }

    open spec fn from_spec(v: [u8; 16]) -> Self {
        AppKey(v)
    }
}

#[derive(Debug, Clone)]
pub struct NwkKey(pub [u8; 16]);

impl NwkKey {
    pub fn new(bytes: [u8; 16]) -> (k: Self)
        ensures
            k.0 == bytes,
    {
        Self(bytes)
    }

    pub fn as_bytes(&self) -> (b: [u8; 16])
        ensures
            b == self.0,
    {
        self.0
    }
}

impl From<[u8; 16]> for NwkKey {
    fn from(bytes: [u8; 16]) -> (k: Self) {
        Self(bytes)
    }
}

impl FromSpecImpl<[u8; 16]> for NwkKey {
    open spec fn obeys_from_spec() -> bool {
        true
    }

    open spec fn from_spec(v: [u8; 16]) -> Self {
        NwkKey(v)
    }
}

/// Numeric region code.
#[derive(Debug, Clone, Copy, PartialEq, Eq, Structural)]
pub struct Region(pub u8);

impl Region {
    /// Region code 0 (EU868).
    pub fn eu868() -> (r: Self)
        ensures
            r.0 == 0,
    {
        Self(0)
    }

    /// Region code 1 (US915).
    pub fn us915() -> (r: Self)
        ensures
            r.0 == 1,
    {
        Self(1)
    }

    /// Region code 2 (AU915).
    pub fn au915() -> (r: Self)
        ensures
            r.0 == 2,
    {
        Self(2)
    }

    /// Region code 3 (AS923).
    pub fn as923() -> (r: Self)
        ensures
            r.0 == 3,
    {
        Self(3)
    }


    pub fn code(&self) -> (c: u8)
        ensures
            c == self.0,
    {
        self.0
    }
}

} // verus!
