//! Messages that a client sends.

pub mod tls13;
