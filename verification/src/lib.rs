//! TLS 1.3 per RFC 8446.


pub mod client;
pub mod crypto;
pub mod error;
pub mod server;
pub mod io;
pub mod tls;
pub mod tls13;
pub mod util;
pub mod wire;

pub use error::Error;
pub use tls::{ext::sni::HostName, CipherSuite, MaxFragmentLength, Time, Version};
