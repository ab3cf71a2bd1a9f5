//! Firmware self-update agent for a network-attached device.
//!
//! The agent polls a remote manifest, compares the advertised version with the
//! one it saw first, and, once a newer one appears, streams the new image into
//! inactive storage and switches the boot target to it.
//!
//! This crate holds the decisions of that protocol, each with a contract that
//! Verus proves. Network and storage operations are performed by the program
//! around it: the two state machines here say which operation comes next and
//! take its outcome as an event.

pub mod buffer;
pub mod config;
pub mod json;
pub mod manifest;
pub mod orchestrator;
pub mod transfer;
pub mod version;
