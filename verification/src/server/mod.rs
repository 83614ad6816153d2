//! TLS server.

pub mod conn;
pub mod msgs;
