//! Decoding of the telemetry broadcast by a personal weather station into typed
//! messages, and the freshness wrapper that lets exported values expire.

pub mod flags;
pub mod error;
pub mod reading;
pub mod reader;
pub mod decoder;
pub mod perishable;
