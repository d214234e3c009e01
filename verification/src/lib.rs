//! Core logic of a CAN bus capture engine for flexible-data-rate hardware.
//!
//! The engine resolves a logical application channel to a physical channel
//! mask, opens and activates a port against the vendor driver, polls for
//! frames under a time budget, and renders captured frames into durable
//! trace-log lines. The vendor driver itself is an unverified foreign
//! boundary: every decision the engine takes is a pure function from the
//! driver's replies to the next state and action, so the whole control
//! logic is verified here while a thin outer layer performs the calls.

pub mod alias;
pub mod ascparse;
pub mod capture;
pub mod diagnose;
pub mod dlc;
pub mod errors;
pub mod events;
pub mod fmtbytes;
pub mod listen;
pub mod orchestrate;
pub mod resolve;
pub mod session;
pub mod trace;
