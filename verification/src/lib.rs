//! Pairing and lockdown session management for attached mobile devices.
//!
//! The crate is a protocol core without I/O. Every exchange with a device,
//! with the operator or with the file system is described as a value that a
//! driver carries out; what came back is handed in as a plain value. All
//! decisions are taken here and are stated in contracts.

pub mod device;
pub mod discovery;
pub mod driver;
pub mod error;
pub mod heartbeat;
pub mod orchestrator;
pub mod registry;
pub mod report;
pub mod session;
pub mod store;
pub mod views;
