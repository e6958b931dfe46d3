//! A load generator for a control-plane "create scope" call, as verified logic.
//!
//! The crate holds what the harness decides and computes: how a reply is
//! classified, how a batch of completions is accounted for, and what the
//! aggregate report says. Sending calls and reading the clock is left to the
//! caller, who hands in replies and clock readings as plain values.

pub mod batch;
pub mod config;
pub mod endpoint;
pub mod harness;
pub mod outcome;
pub mod report;
