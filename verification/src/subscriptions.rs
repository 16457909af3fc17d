//! The event sources the front end subscribes to.

pub mod launcher;
pub mod toggle_dbus;
