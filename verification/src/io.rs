//! Reading and writing bytes.

use vstd::prelude::*;

verus! {

/// A source of bytes.
pub trait Read {
    /// Reads up to `buf.len()` bytes into `buf` and returns the
    /// number of bytes read.
    fn try_read(&mut self, buf: &mut [u8]) -> Result<usize, IoError>;
}

/// A sink of bytes.
pub trait Write {
    /// Writes the entirety of `buf` to `self`.
    fn try_write_all(&mut self, buf: &[u8]) -> Result<(), IoError>;
}

/// An I/O error.
#[derive(Copy, Clone, Debug, PartialEq, Eq, Structural)]
pub struct IoError {}

impl IoError {
    /// Returns an unexpected EOF error.
    pub fn unexpected_eof() -> (r: Self)
        ensures
            r == (IoError {  }),
    {
        Self {  }
    }

    /// Describes the error.
    pub fn to_str(&self) -> (r: &'static str)
        ensures
            r@ == "I/O error"@,
    {
        "I/O error"
    }
}

} // verus!
