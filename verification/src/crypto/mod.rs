//! TLS cryptography.

use vstd::prelude::*;

verus! {

/// An AEAD.
pub trait Aead {

}

/// HKDF per RFC 5869.
pub trait Hkdf {
    /// Extracts a fixed-length pseudorandom key (PRK) from the
    /// input keying material (IKM) and an optional salt.
    ///
    /// It handles IKMs and salts of arbitrary lengths.
    fn extract(&self, ikm: &[u8], salt: &[u8]) -> Prk;

    /// Expands the PRK with an optional info parameter into
    /// a key.
    ///
    /// It returns [`HkdfError`] if `out` is larger than the
    /// maximum number of bytes that can be expanded from a PRK.
    fn expand(&self, out: &mut [u8], prk: &Prk, info: &[u8]) -> Result<(), HkdfError>;
}

/// Overwrites every byte of a key with zero.
///
/// Calls `zeroize::Zeroize::zeroize` on the array, which writes the
/// default value of `u8`, zero, to each element with volatile writes
/// that the compiler does not remove.
#[verifier::external_body]
fn zeroize_key(key: &mut [u8; 32])
    ensures
        final(key)@ == Seq::new(32, |_i: int| 0u8),
{
    zeroize::Zeroize::zeroize(key)
}

/// A pseudorandom key.
#[derive(Clone)]
pub struct Prk([u8; 32]);

impl View for Prk {
    type V = Seq<u8>;

    closed spec fn view(&self) -> Seq<u8> {
        self.0@
    }
}

impl Prk {
    /// Wraps the bytes of a key.
    pub fn new(key: [u8; 32]) -> (r: Self)
        ensures
            r@ == key@,
    {
        Prk(key)
    }

    /// Returns the bytes of the key.
    pub fn as_bytes(&self) -> (r: &[u8; 32])
        ensures
            r@ == self@,
    {
        &self.0
    }

    /// Erases the key: every byte becomes zero.
    pub fn zeroize(&mut self)
        ensures
            final(self)@ == Seq::new(32, |_i: int| 0u8),
    {
        zeroize_key(&mut self.0);
    }
}

/// Returned when [`Hkdf::expand`] fails.
#[derive(Copy, Clone, Debug, PartialEq, Eq, Structural)]
pub struct HkdfError;

/// A cryptographically secure pseudo-random number generator.
pub trait Csprng {
    /// Fills `buf` with cryptographically secure pseudo-random
    /// bytes.
    fn fill_bytes(&self, buf: &mut [u8]);
}

} // verus!
