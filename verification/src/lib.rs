//! Verified core of the AquaChain agent gateway: measurement validation,
//! configuration rules, the measurement store, payment and relay decisions.

pub mod config;
pub mod digits;
pub mod float_text;
pub mod measurement;
pub mod relay;
pub mod routes;
pub mod store;
pub mod text;
pub mod x402;
