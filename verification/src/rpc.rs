//! The values that are announced to the daemon.

pub mod activity;
pub mod packet;
