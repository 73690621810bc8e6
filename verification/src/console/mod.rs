//! Logic of the operator console: configuration layers, profiles, the setup
//! and LNS wizards' decisions, menus and rendered text.

pub mod config;
pub mod profiles;
pub mod ui;
pub mod setup;
pub mod edge;
pub mod menu;
pub mod doctor;
pub mod lns;
pub mod runtime_env;
