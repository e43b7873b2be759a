//! Orchestration core of a LoRa radio driver: identifiers and configuration,
//! the driver state machine, the event dispatcher and the response interpreter.

pub mod api;
pub mod config;
pub mod driver;
pub mod error;
pub mod event;
pub mod frame;
pub mod hex;
pub mod interpret;
pub mod types;
