//! TLS client.

pub mod config;
pub mod conn;
pub mod msgs;

pub use config::ClientConfig;
pub use conn::Conn;
