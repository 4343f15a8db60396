//! Decision logic for exposing a non-blocking serial device as an
//! asynchronously pollable byte stream: the lifecycle of one device handle
//! with its readiness registration, the resolution of each read and write
//! poll, the resubmission of partial writes, and the configuration record.
pub mod bridge;
pub mod error;
pub mod settings;
pub mod transfer;
