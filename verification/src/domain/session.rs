use vstd::prelude::*;

use crate::domain::identifiers::{DevAddr, DevEui};
use crate::domain::region::RegionId;

verus! {

/// LoRaWAN device class (v1 ships Class A only; the enum preserves the evolution path).
#[derive(Debug, Clone, Copy, PartialEq, Eq, Structural)]
pub enum DeviceClass {
    ClassA,
    ClassB,
    ClassC,
}

/// Protocol generation for capability-module routing.
#[allow(non_camel_case_types)]
#[derive(Debug, Clone, Copy, PartialEq, Eq, Structural)]
pub enum LoRaWANVersion {
    V1_0_x,
}

/// Session view the core needs for uplink validation: addressing, counters and session keys.
#[derive(Debug, Clone, PartialEq, Eq)]
pub struct SessionSnapshot {
    pub dev_eui: DevEui,
    pub dev_addr: DevAddr,
    pub region: RegionId,
    pub class: DeviceClass,
    pub uplink_frame_counter: u32,
    pub downlink_frame_counter: u32,
    pub application_id: Option<String>,
    pub nwk_s_key: [u8; 16],
    pub app_s_key: [u8; 16],
}

} // verus!
