//! Session state for a vault browser: per-tab navigation history, a shared cache of
//! loaded file buffers, and a queue of short-lived notifications.

pub mod editor;
pub mod ids;
pub mod buffer;
pub mod config;
pub mod tabs;
pub mod toast;
pub mod session;
