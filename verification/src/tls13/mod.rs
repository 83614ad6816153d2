//! TLS 1.3.

use vstd::prelude::*;

use crate::crypto::{Aead, Hkdf};
pub use crate::wire::tls13::CipherSuiteId;

verus! {

/// A TLS 1.3 cipher suite.
#[derive(Clone)]
pub struct CipherSuite {
    /// The cipher suite ID.
    pub id: CipherSuiteId,
    /// An AEAD.
    pub aead: &'static dyn Aead,
    /// A HKDF instance.
    pub hkdf: &'static dyn Hkdf,
}

} // verus!
