//! Verified core of the `awr` command-line client for the awrust service
//! emulator: request paths, request bodies, printed lines, error messages and
//! the order in which the commands talk to the service.

pub mod text;
pub mod error;
pub mod client;
pub mod s3;
pub mod session;
pub mod status;
pub mod laws;
pub mod runner;
