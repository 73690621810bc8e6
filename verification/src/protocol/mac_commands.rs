//! LoRaWAN 1.0.x MAC command types and parsing (specification section 5).

use vstd::prelude::*;

use crate::domain::identifiers::DevEui;

verus! {

/// LoRaWAN MAC command identifiers. Req and Ans share the same CID byte.
#[derive(Debug, Clone, Copy, PartialEq, Eq, Structural)]
pub enum MacCid {
    /// LinkCheckReq (CID 0x02).
    LinkCheckReq,
    /// LinkADRReq (CID 0x03).
    LinkAdrReq,
    /// DutyCycleReq (CID 0x04).
    DutyCycleReq,
    /// RXParamSetupReq (CID 0x05).
    RxParamSetupReq,
    /// DevStatusReq (CID 0x06).
    DevStatusReq,
    /// NewChannelReq (CID 0x07).
    NewChannelReq,
    /// Any other CID (encoded as 0xFF).
    Unknown,
}

/// The command a CID byte names.
pub open spec fn spec_mac_cid(b: u8) -> MacCid {
    if b == 0x02 {
        MacCid::LinkCheckReq
    } else if b == 0x03 {
        MacCid::LinkAdrReq
    } else if b == 0x04 {
        MacCid::DutyCycleReq
    } else if b == 0x05 {
        MacCid::RxParamSetupReq
    } else if b == 0x06 {
        MacCid::DevStatusReq
    } else if b == 0x07 {
        MacCid::NewChannelReq
    } else {
        MacCid::Unknown
    }
}

/// The CID byte of a command (`0xFF` for `Unknown`).
pub open spec fn spec_cid_byte(c: MacCid) -> u8 {
    match c {
        MacCid::LinkCheckReq => 0x02,
        MacCid::LinkAdrReq => 0x03,
        MacCid::DutyCycleReq => 0x04,
        MacCid::RxParamSetupReq => 0x05,
        MacCid::DevStatusReq => 0x06,
        MacCid::NewChannelReq => 0x07,
        MacCid::Unknown => 0xFF,
    }
}

impl MacCid {
    /// The CID byte for LinkCheckAns (same as LinkCheckReq).
    pub const LINK_CHECK_ANS_CID: u8 = 0x02;

    /// Parses a CID byte.
    pub fn from_u8(b: u8) -> (c: Self)
        ensures
            c == spec_mac_cid(b),
    {
        match b {
            0x02 => Self::LinkCheckReq,
            0x03 => Self::LinkAdrReq,
            0x04 => Self::DutyCycleReq,
            0x05 => Self::RxParamSetupReq,
            0x06 => Self::DevStatusReq,
            0x07 => Self::NewChannelReq,
            _ => Self::Unknown,
        }
    }

    /// The CID byte.
    pub fn cid_byte(&self) -> (b: u8)
        ensures
            b == spec_cid_byte(*self),
    {
        match self {
            Self::LinkCheckReq => 0x02,
            Self::LinkAdrReq => 0x03,
            Self::DutyCycleReq => 0x04,
            Self::RxParamSetupReq => 0x05,
            Self::DevStatusReq => 0x06,
            Self::NewChannelReq => 0x07,
            Self::Unknown => 0xFF,
        }
    }
}

/// LinkCheckAns: demodulation margin (dB, 255 = invalid) and number of gateways.
#[derive(Debug, Clone, Copy, PartialEq, Eq, Structural)]
pub struct LinkCheckAns {
    pub margin: u8,
    pub gateway_count: u8,
}

impl LinkCheckAns {
    /// FOpts bytes: `[CID = 0x02, margin, gateway_count]`.
    pub fn encode_fopts(&self) -> (v: Vec<u8>)
        ensures
            v@ == seq![0x02u8, self.margin, self.gateway_count],
    {
        let mut v: Vec<u8> = Vec::new();
        v.push(MacCid::LINK_CHECK_ANS_CID);
        v.push(self.margin);
        v.push(self.gateway_count);
        assert(v@ =~= seq![0x02u8, self.margin, self.gateway_count]);
        v
    }
}

/// Payload length, in bytes after the CID, of each uplink MAC command this server knows
/// (LinkCheckReq, LinkADRAns, DutyCycleAns, RXParamSetupAns, DevStatusAns, NewChannelAns).
/// The length of any other command is unknown.
pub open spec fn uplink_payload_len(c: MacCid) -> Option<nat> {
    match c {
        MacCid::LinkCheckReq => Some(0),
        MacCid::LinkAdrReq => Some(1),
        MacCid::DutyCycleReq => Some(0),
        MacCid::RxParamSetupReq => Some(1),
        MacCid::DevStatusReq => Some(2),
        MacCid::NewChannelReq => Some(1),
        MacCid::Unknown => None,
    }
}

/// Whether a LinkCheckReq starts at a command boundary at or after index `i` of `f`,
/// walking command by command (CID, then its payload). Walking stops at the end of `f`
/// and at a command whose length is unknown, since the next boundary cannot be found.
pub open spec fn link_check_req_from(f: Seq<u8>, i: int) -> bool
    decreases f.len() - i,
{
    if i >= f.len() {
        false
    } else {
        let c = spec_mac_cid(f[i]);
        if c == MacCid::LinkCheckReq {
            true
        } else {
            match uplink_payload_len(c) {
                None => false,
                Some(n) => if i + 1 + n >= f.len() {
                    false
                } else {
                    link_check_req_from(f, i + 1 + n)
                },
            }
        }
    }
}

/// The FOpts walk by LoRaWAN 1.0.x §5: a LinkCheckReq (0x02) at a boundary is found;
/// DutyCycleAns (0x04) is one byte, so the next command starts right after it;
/// LinkADRAns (0x03), RXParamSetupAns (0x05) and NewChannelAns (0x07) are two bytes;
/// DevStatusAns (0x06) is three bytes; any other CID ends the walk, as does the end of FOpts.
pub proof fn lemma_fopts_walk_steps(f: Seq<u8>, i: int)
    requires
        0 <= i,
    ensures
        i >= f.len() ==> !link_check_req_from(f, i),
        i < f.len() && f[i] == 0x02u8 ==> link_check_req_from(f, i),
        i < f.len() && f[i] == 0x04u8 ==> link_check_req_from(f, i) == link_check_req_from(f, i + 1),
        i < f.len() && (f[i] == 0x03u8 || f[i] == 0x05u8 || f[i] == 0x07u8) ==> link_check_req_from(f, i)
            == link_check_req_from(f, i + 2),
        i < f.len() && f[i] == 0x06u8 ==> link_check_req_from(f, i) == link_check_req_from(f, i + 3),
        i < f.len() && !(0x02u8 <= f[i] <= 0x07u8) ==> !link_check_req_from(f, i),
{
    if i < f.len() {
        if f[i] == 0x04u8 && i + 1 >= f.len() {
            assert(!link_check_req_from(f, i + 1));
        }
        if (f[i] == 0x03u8 || f[i] == 0x05u8 || f[i] == 0x07u8) && i + 2 >= f.len() {
            assert(!link_check_req_from(f, i + 2));
        }
        if f[i] == 0x06u8 && i + 3 >= f.len() {
            assert(!link_check_req_from(f, i + 3));
        }
    }
}

/// MAC commands found in an uplink FOpts field.
#[derive(Debug, Clone, PartialEq, Eq)]
pub struct ParsedMacCommands {
    /// True if a LinkCheckReq command is present in FOpts.
    pub link_check_req: bool,
    /// The FOpts bytes as received.
    pub raw_commands: Vec<u8>,
}

impl ParsedMacCommands {
    /// Parses FOpts: each MAC command is its CID followed by its payload; records whether
    /// a LinkCheckReq command is present.
    pub fn from_fopts(f_opts: &[u8]) -> (p: Self)
        ensures
            p.link_check_req == link_check_req_from(f_opts@, 0),
            p.raw_commands@ == f_opts@,
    {
        let mut i: usize = 0;
        let mut link_check_req = false;
        while i < f_opts.len()
            invariant_except_break
                0 <= i <= f_opts@.len(),
                link_check_req_from(f_opts@, 0) == link_check_req_from(f_opts@, i as int),
                !link_check_req,
            ensures
                link_check_req == link_check_req_from(f_opts@, 0),
            decreases f_opts@.len() - i,
        {
            let cid = MacCid::from_u8(f_opts[i]);
            let step: usize = match cid {
                MacCid::LinkCheckReq => {
                    link_check_req = true;
                    break ;
                },
                MacCid::LinkAdrReq => 2,
                MacCid::DutyCycleReq => 1,
                MacCid::RxParamSetupReq => 2,
                MacCid::DevStatusReq => 3,
                MacCid::NewChannelReq => 2,
                MacCid::Unknown => {
                    break ;
                },
            };
            if step >= f_opts.len() - i {
                i = f_opts.len();
            } else {
                i = i + step;
            }
        }
        Self { link_check_req, raw_commands: vstd::slice::slice_to_vec(f_opts) }
    }
}

/// Downlink decision returned after processing an uplink.
#[derive(Debug, Clone, PartialEq, Eq, Default)]
pub struct DownlinkDecision {
    /// Set ACK flag on the next downlink if true.
    pub ack_flag: bool,
    /// MAC commands to include in the next downlink.
    pub mac_commands: Vec<u8>,
    /// DevEUI of the device (if known from session).
    pub dev_eui: Option<DevEui>,
}

impl DownlinkDecision {
    /// Appends the encoded LinkCheckAns to the MAC commands.
    pub fn with_link_check_ans(self, ans: LinkCheckAns) -> (d: Self)
        ensures
            d.ack_flag == self.ack_flag,
            d.dev_eui == self.dev_eui,
            d.mac_commands@ == self.mac_commands@ + seq![0x02u8, ans.margin, ans.gateway_count],
    {
        let mut mac_commands = self.mac_commands;
        let enc = ans.encode_fopts();
        crate::codec::extend_bytes(&mut mac_commands, enc.as_slice());
        Self { ack_flag: self.ack_flag, mac_commands, dev_eui: self.dev_eui }
    }
}

} // verus!
