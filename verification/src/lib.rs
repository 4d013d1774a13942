//! The decision core of an NFP (amiibo) user service: the service and
//! device state machine, the checks that every command makes before it does
//! any work, and the values that the commands hand back.
//!
//! The IPC plumbing, the events, the emulation thread and every read or
//! write of emulated amiibo data live outside this crate; they hand the
//! results of their queries to the functions here as plain values.

pub mod types;
pub mod user;
pub mod manager;
pub mod laws;
