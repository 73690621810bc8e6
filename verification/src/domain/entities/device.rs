use vstd::prelude::*;

use crate::domain::types::{AppKey, DevNonce, Eui64, FrameCounter, NwkKey};

verus! {

#[derive(Debug, Clone, Copy, PartialEq, Eq, Structural)]
pub enum DeviceClass {
    ClassA,
    ClassB,
    ClassC,
}

#[derive(Debug, Clone, Copy, PartialEq, Eq, Structural)]
pub enum DeviceState {
    Init,
    JoinPending,
    Active,
    Sleep,
    Dead,
}

#[derive(Debug, Clone)]
pub struct DeviceKeys {
    pub app_key: AppKey,
    pub nwk_key: NwkKey,
}

impl DeviceKeys {
    pub fn new(app_key: AppKey, nwk_key: NwkKey) -> (k: Self)
        ensures
            k == (DeviceKeys { app_key, nwk_key }),
    {
        Self { app_key, nwk_key }
    }
}

/// Session state after a join: address, session keys and the uplink counter.
#[derive(Debug, Clone)]
pub struct DeviceSession {
    pub dev_addr: u32,
    pub app_s_key: [u8; 16],
    pub nwk_s_key: [u8; 16],
    pub frame_counter: FrameCounter,
    pub last_join_time: Option<i64>,
}

impl DeviceSession {
    /// A fresh session: counter zero, no join time recorded.
    pub fn new(dev_addr: u32, app_s_key: [u8; 16], nwk_s_key: [u8; 16]) -> (s: Self)
        ensures
            s == (DeviceSession {
                dev_addr,
                app_s_key,
                nwk_s_key,
                frame_counter: FrameCounter(0),
                last_join_time: None,
            }),
    {
        Self {
            dev_addr,
            app_s_key,
            nwk_s_key,
            frame_counter: FrameCounter::new(0),
            last_join_time: None,
        }
    }

    pub fn increment_fcnt(&mut self)
        requires
            old(self).frame_counter.0 < u32::MAX,
        ensures
            *final(self) == (DeviceSession {
                frame_counter: FrameCounter((old(self).frame_counter.0 + 1) as u32),
                ..*old(self)
            }),
    {
        self.frame_counter.increment();
    }
}

#[derive(Debug, Clone)]
pub struct Device {
    pub dev_eui: Eui64,
    pub app_eui: Eui64,
    pub keys: DeviceKeys,
    pub session: Option<DeviceSession>,
    pub dev_nonce: Option<DevNonce>,
    pub class: DeviceClass,
    pub state: DeviceState,
    pub f_cnt_up: u32,
    pub f_cnt_down: u32,
}

/// Active means joined: the state is `Active` and a session is present.
pub open spec fn device_is_active(d: Device) -> bool {
    d.state == DeviceState::Active && d.session is Some
}

impl Device {
    /// A registered device that has not joined yet: Class A, state `Init`, counters at zero.
    pub fn new(dev_eui: Eui64, app_eui: Eui64, keys: DeviceKeys) -> (d: Self)
        ensures
            d == (Device {
                dev_eui,
                app_eui,
                keys,
                session: None,
                dev_nonce: None,
                class: DeviceClass::ClassA,
                state: DeviceState::Init,
                f_cnt_up: 0,
                f_cnt_down: 0,
            }),
    {
        Self {
            dev_eui,
            app_eui,
            keys,
            session: None,
            dev_nonce: None,
            class: DeviceClass::ClassA,
            state: DeviceState::Init,
            f_cnt_up: 0,
            f_cnt_down: 0,
        }
    }

    pub fn is_active(&self) -> (b: bool)
        ensures
            b == device_is_active(*self),
    {
        self.state == DeviceState::Active && self.session.is_some()
    }

    /// Installs the session and marks the device active.
    pub fn apply_session(&mut self, session: DeviceSession)
        ensures
            *final(self) == (Device {
                session: Some(session),
                state: DeviceState::Active,
                ..*old(self)
            }),
    {
        self.session = Some(session);
        self.state = DeviceState::Active;
    }
}

/// A device to which a session was applied is active, whatever its state before.
pub proof fn lemma_applied_session_activates(d: Device, session: DeviceSession)
    ensures
        device_is_active(Device { session: Some(session), state: DeviceState::Active, ..d }),
{
}

} // verus!
