//! Control logic for a motorised standing desk: the telemetry codec and the
//! move-to-height controller, the command dispatcher that owns the device
//! session, the shared application state, and the expiring notifications.

pub mod actions;
pub mod config;
pub mod dispatcher;
pub mod idasen;
pub mod list;
pub mod notification;
pub mod poller;
pub mod state;
