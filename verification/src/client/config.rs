//! Client configuration.

use vstd::prelude::*;

use crate::{tls::ext::sni::HostName, CipherSuite, MaxFragmentLength, Version};

verus! {

/// Configures a [`Conn`][crate::client::conn::Conn].
///
/// The random number generator and the clock that a connection also
/// needs are supplied by the program that runs the handshake, not by
/// this trait.
pub trait ClientConfig {
    /// Specifies supported ALPN protocols.
    ///
    /// By default, no ALPN protocols are supported.
    fn alpn(&self) -> &[&'static [u8]] {
        &[]
    }

    /// Specifies the supported cipher suites.
    fn cipher_suites(&self) -> &[CipherSuite];

    /// Reports whether early data is supported.
    ///
    /// By default, early data is not supported.
    fn early_data(&self) -> bool {
        false
    }

    /// Specifies the maximum size of a single fragment.
    ///
    /// By default, the maximum fragment size of RFC 8446 is used.
    fn max_fragment_length(&self) -> Option<MaxFragmentLength> {
        None
    }

    /// Specifies the name used to verify the hostname on the
    /// server's certificate.
    fn server_name(&self) -> HostName<'_>;

    /// Returns the supported TLS versions.
    ///
    /// By default, only TLS 1.3 is supported.
    fn supported_versions(&self) -> &[Version] {
        &[Version::Tls13]
    }
}

} // verus!
