//! Plain data exchanged with the persistence and radio adapters.

use vstd::prelude::*;

use crate::domain::entities::downlink::Downlink;
use crate::domain::identifiers::{DevAddr, DevEui, GatewayEui};
use crate::domain::region::RegionId;

verus! {

/// A downlink request to be queued for a device.
#[derive(Debug, Clone, PartialEq, Eq)]
pub struct DownlinkEnqueue {
    pub dev_eui: DevEui,
    pub f_port: u8,
    pub payload: Vec<u8>,
    pub confirmed: bool,
}

/// A queued downlink as stored by the downlink repository.
#[derive(Debug, Clone, PartialEq, Eq)]
pub struct DownlinkItem {
    pub id: u64,
    pub dev_eui: DevEui,
    pub dev_addr: DevAddr,
    pub f_port: u8,
    pub payload: Vec<u8>,
    pub confirmed: bool,
    pub ack_flag: bool,
    pub enqueued_at_ms: i64,
    pub frame_counter: u32,
}

/// Downlink command to be encoded and sent by a concrete transport adapter.
#[derive(Debug, Clone, PartialEq)]
pub struct DownlinkFrame {
    pub gateway_eui: GatewayEui,
    pub dev_addr: DevAddr,
    pub payload: Vec<u8>,
}

/// Persisted uplink record.
#[derive(Debug, Clone, PartialEq, Eq)]
pub struct UplinkRecord {
    pub dev_addr: DevAddr,
    /// Reconstructed 32-bit frame counter.
    pub f_cnt: u32,
    /// Wall-clock milliseconds since the Unix epoch.
    pub received_at_ms: i64,
    pub payload: Vec<u8>,
    pub application_id: Option<String>,
    /// Decrypted FRMPayload; `None` when the payload was empty.
    pub payload_decrypted: Option<Vec<u8>>,
}

/// Wire-format identifier for the active uplink path.
#[derive(Debug, Clone, Copy, PartialEq, Eq, Hash, Structural)]
pub enum UplinkBackendKind {
    /// Semtech GWMP `PUSH_DATA` over UDP.
    GwmpUdp,
    /// Direct SX1302/SX1303 SPI concentrator.
    ConcentratorSpi,
}

/// Normalized uplink entering the kernel from a radio adapter: everything the
/// validation reads (the SNR, a float, stays with the adapter).
#[derive(Debug, Clone, PartialEq)]
pub struct ObservedUplink {
    pub gateway_eui: GatewayEui,
    pub dev_addr: DevAddr,
    pub region: RegionId,
    /// Wire-level 16-bit frame counter.
    pub f_cnt: u16,
    pub f_port: u8,
    pub payload: Vec<u8>,
    pub rssi: Option<i16>,
    /// The last four bytes of the PHY payload.
    pub wire_mic: [u8; 4],
    /// The PHY payload without its trailing four MIC bytes.
    pub phy_without_mic: Vec<u8>,
    /// Frame control byte; its low four bits are the FOpts length.
    pub f_ctrl: u8,
    /// FOpts bytes (MAC commands).
    pub f_opts: Vec<u8>,
}

/// Lifecycle of a queued downlink.
#[derive(Debug, Clone, Copy, PartialEq, Eq, Structural)]
pub enum DownlinkState {
    Queued,
    Scheduled,
    Sent,
    Failed,
}

/// A downlink in the delivery queue with its state and attempt count.
#[derive(Debug, Clone)]
pub struct QueuedDownlink {
    pub id: i64,
    pub downlink: Downlink,
    pub state: DownlinkState,
    pub attempt_count: u32,
}

} // verus!
