//! Domain layer: entities and value objects only. No framework or I/O.

pub mod entities;
pub mod identifiers;
pub mod region;
pub mod session;
pub mod types;
