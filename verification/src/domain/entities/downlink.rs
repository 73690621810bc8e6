use vstd::prelude::*;

use crate::domain::types::{Eui64, Frequency, SpreadingFactor};

verus! {

/// A downlink frame waiting for transmission.
#[derive(Debug, Clone)]
pub struct Downlink {
    pub payload: Vec<u8>,
    pub f_port: u8,
    pub dev_eui: Eui64,
    pub gateway_eui: Eui64,
    pub frequency: Frequency,
    pub spreading_factor: SpreadingFactor,
    pub timestamp: i64,
    pub frame_counter: u32,
    pub priority: DownlinkPriority,
    pub scheduled_at: Option<i64>,
}

/// Priority classes, ordered from `Low` to `Critical`.
#[derive(Debug, Clone, Copy, PartialEq, Eq, PartialOrd, Ord, Structural)]
pub enum DownlinkPriority {
    Low,
    Normal,
    High,
    Critical,
}

impl Downlink {
    /// A downlink with `Normal` priority that is not scheduled yet.
    pub fn new(
        payload: Vec<u8>,
        f_port: u8,
        dev_eui: Eui64,
        gateway_eui: Eui64,
        frequency: Frequency,
        spreading_factor: SpreadingFactor,
        timestamp: i64,
        frame_counter: u32,
    ) -> (d: Self)
        ensures
            d == (Downlink {
                payload,
                f_port,
                dev_eui,
                gateway_eui,
                frequency,
                spreading_factor,
                timestamp,
                frame_counter,
                priority: DownlinkPriority::Normal,
                scheduled_at: None,
            }),
    {
        Self {
            payload,
            f_port,
            dev_eui,
            gateway_eui,
            frequency,
            spreading_factor,
            timestamp,
            frame_counter,
            priority: DownlinkPriority::Normal,
            scheduled_at: None,
        }
    }

    pub fn with_priority(self, priority: DownlinkPriority) -> (d: Self)
        ensures
            d == (Downlink { priority, ..self }),
    {
        let mut d = self;
        d.priority = priority;
        d
    }

    pub fn schedule(&mut self, scheduled_at: i64)
        ensures
            *final(self) == (Downlink { scheduled_at: Some(scheduled_at), ..*old(self) }),
    {
        self.scheduled_at = Some(scheduled_at);
    }

    pub fn is_scheduled(&self) -> (b: bool)
        ensures
            b == self.scheduled_at is Some,
    {
        self.scheduled_at.is_some()
    }
}

} // verus!
