//! Runtime-independent core of a FUSE kernel connection.
//!
//! The crate decides; its driver performs. Every system call, every wait and
//! every lock acquisition is carried out by the caller, which reports the
//! outcome back as an event and receives the next action to perform.

pub mod error;
pub mod helper;
pub mod raw;
