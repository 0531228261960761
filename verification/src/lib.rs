//! A time-gated value-custody engine for ledger-account programs.
//!
//! The engine reads one host-supplied time signal per invocation, gates a
//! custody transition (unlock, accept-bid, settle) on it, and performs the
//! associated balance update with checked arithmetic, so that the gating
//! check and the transfer can never observe diverging time readings.

pub mod accounts;
pub mod codec;
pub mod engine;
pub mod errors;
pub mod executor;
pub mod gates;
pub mod laws;
pub mod policy;
pub mod record;
pub mod time;
