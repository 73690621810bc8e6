pub mod ingest_uplink;
pub mod process_uplink_frame;
pub mod downlink_delivery_service;
pub mod process_downlink_frame;
pub mod device_management;
pub mod retention;
