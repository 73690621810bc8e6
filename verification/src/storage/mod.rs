pub mod policy;
pub mod pressure;
pub mod profile;
