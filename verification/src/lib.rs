//! Verified core of a LoRaWAN 1.0.x edge network server: frame parsing,
//! frame-counter reconstruction, MIC and payload cryptography, MAC commands,
//! storage profiles, and the decisions taken by the uplink/downlink services.

pub mod codec;
pub mod console;
pub mod crypto;
pub mod domain;
pub mod error;
pub mod ports;
pub mod protocol;
pub mod storage;
pub mod text;
pub mod use_cases;
