//! The kernel channel: how it is acquired and how it is read and written.

pub mod acquisition;
pub mod command;
pub mod connection;
pub mod gate;
pub mod platform;
pub mod transfer;
