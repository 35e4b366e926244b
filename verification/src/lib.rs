//! Core of a host-wide anonymizing-relay enforcement tool.
//!
//! The library models the three enforcement layers — packet-filter rules,
//! resolution-config takeover, and relay supervision — as verified state
//! machines over plain data. The binary around it performs the actual
//! system calls and feeds their outcomes back in as values.

pub mod engine;
pub mod iptables;
pub mod relay;
pub mod resolver;
