//! Errors returned by this crate.

use vstd::prelude::*;

use crate::{io::IoError, wire::Error as WireError};

verus! {

/// An error returned by this crate.
#[derive(Copy, Clone, Debug, PartialEq, Eq, Structural)]
pub struct Error {
    kind: ErrorKind,
}

/// What kind of error occurred.
#[derive(Copy, Clone, Debug, PartialEq, Eq, Structural)]
pub enum ErrorKind {
    /// Reading or writing failed.
    Io,
    /// The peer sent something malformed or not allowed, or a message
    /// could not be encoded.
    Wire,
    /// The handshake has not been completed.
    NeedHandshake,
    /// An internal invariant did not hold.
    Bug,
}

impl View for Error {
    type V = ErrorKind;

    closed spec fn view(&self) -> ErrorKind {
        self.kind
    }
}

impl ErrorKind {
    /// The description of the kind of error.
    pub open spec fn spec_name(self) -> Seq<char> {
        match self {
            Self::Io => "I/O error"@,
            Self::Wire => "wire error"@,
            Self::NeedHandshake => "need handshake"@,
            Self::Bug => "bug"@,
        }
    }

    /// Describes the kind of error.
    pub fn to_str(self) -> (r: &'static str)
        ensures
            r@ == self.spec_name(),
    {
        match self {
            Self::Io => "I/O error",
            Self::Wire => "wire error",
            Self::NeedHandshake => "need handshake",
            Self::Bug => "bug",
        }
    }
}

impl Error {
    pub(crate) fn new(kind: ErrorKind) -> (r: Self)
        ensures
            r@ == kind,
    {
        Self { kind }
    }

    pub(crate) fn io(_err: IoError) -> (r: Self)
        ensures
            r@ == ErrorKind::Io,
    {
        Self::new(ErrorKind::Io)
    }

    pub(crate) fn wire(_err: WireError) -> (r: Self)
        ensures
            r@ == ErrorKind::Wire,
    {
        Self::new(ErrorKind::Wire)
    }

    pub(crate) fn need_handshake() -> (r: Self)
        ensures
            r@ == ErrorKind::Wire,
    {
        Self::new(ErrorKind::Wire)
    }

    /// Returns the kind of error.
    pub fn kind(&self) -> (r: ErrorKind)
        ensures
            r == self@,
    {
        self.kind
    }

    /// Describes the error.
    pub fn to_str(&self) -> (r: &'static str)
        ensures
            r@ == self@.spec_name(),
    {
        self.kind.to_str()
    }
}

impl From<WireError> for Error {
    fn from(err: WireError) -> (r: Self) {
        Error::wire(err)
    }
}

impl vstd::std_specs::convert::FromSpecImpl<WireError> for Error {
    open spec fn obeys_from_spec() -> bool {
        true
    }

    closed spec fn from_spec(v: WireError) -> Self {
        Error { kind: ErrorKind::Wire }
    }
}

impl From<IoError> for Error {
    fn from(err: IoError) -> (r: Self) {
        Error::io(err)
    }
}

impl vstd::std_specs::convert::FromSpecImpl<IoError> for Error {
    open spec fn obeys_from_spec() -> bool {
        true
    }

    closed spec fn from_spec(v: IoError) -> Self {
        Error { kind: ErrorKind::Io }
    }
}

} // verus!
