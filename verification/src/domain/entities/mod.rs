pub mod device;
pub mod downlink;
pub mod gateway;
pub mod uplink;
pub mod uplink_frame;
