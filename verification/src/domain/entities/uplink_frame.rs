use vstd::prelude::*;

verus! {

/// Radio metadata attached to a received frame.
#[derive(Debug, Clone, Default)]
pub struct UplinkFrameMetadata {
    pub channel: u8,
    pub code_rate: Option<String>,
    pub crc_status: Option<u8>,
    pub modulation: Option<String>,
    pub bandwidth: Option<u32>,
    pub timestamp_ns: Option<u64>,
}

/// Signal quality hint derived from the SNR of a received frame.
#[derive(Debug, Clone, Copy, PartialEq, Eq, Structural)]
pub enum SignalQualityHint {
    Excellent,
    Good,
    Fair,
    Poor,
}

} // verus!
