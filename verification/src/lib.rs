//! The packet-handling core of a GDB Remote Serial Protocol stub.
//!
//! Each handler decides what a command does from the stub's state and from
//! what the target answered, and records the response it writes as a
//! sequence of writer operations (see [`response`]).  Sending those bytes,
//! and asking the target, is left to the caller.

pub mod arch;
pub mod common;
pub mod error;
pub mod stub;
pub mod protocol;
pub mod response;
pub mod target;
