use vstd::prelude::*;

verus! {

/// Radio metadata attached to a stored uplink.
#[derive(Debug, Clone, Default)]
pub struct UplinkMetadata {
    pub channel: u8,
    pub code_rate: Option<String>,
    pub crc_status: Option<u8>,
    pub modulation: Option<String>,
    pub bandwidth: Option<u32>,
    pub timestamp_ns: Option<u64>,
}

/// Signal quality classes derived from the SNR.
#[derive(Debug, Clone, Copy, PartialEq, Eq, Structural)]
pub enum SignalQuality {
    Excellent,
    Good,
    Fair,
    Poor,
}

} // verus!
