pub mod capability;
pub mod class_a;
pub mod mac_commands;
