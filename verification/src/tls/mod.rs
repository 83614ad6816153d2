//! TLS versions, cipher suites and limits shared by clients and
//! servers.

pub mod ext;
pub mod msgs;

use vstd::prelude::*;

use crate::{tls13, wire::{self, ProtocolVersion}};

verus! {

/// The largest handshake message that is read or written: 2^16 bytes.
pub const MAX_HANDSHAKE_SIZE: usize = 0x1_0000;

/// A TLS ciphersuite.
#[derive(Clone)]
#[non_exhaustive]
pub enum CipherSuite {
    /// A TLS 1.3 cipher suite.
    Tls13(tls13::CipherSuite),
}

/// TLS versions.
#[derive(Copy, Clone, Debug, PartialEq, Eq, Structural)]
#[non_exhaustive]
pub enum Version {
    /// TLS 1.3.
    Tls13,
}

/// The wire version of a version.
pub open spec fn spec_version_to_wire(v: Version) -> ProtocolVersion {
    match v {
        Version::Tls13 => ProtocolVersion::Tls13,
    }
}

/// The version that a wire version stands for, if it is supported.
pub open spec fn spec_version_from_wire(pv: ProtocolVersion) -> Option<Version> {
    match pv {
        ProtocolVersion::Tls13 => Some(Version::Tls13),
        _ => None,
    }
}

impl Version {
    /// Converts the version to its wire form.
    pub fn to_wire(self) -> (r: ProtocolVersion)
        ensures
            r == spec_version_to_wire(self),
    {
        match self {
            Self::Tls13 => ProtocolVersion::Tls13,
        }
    }

    /// Converts a wire version to a version, if it is supported.
    pub fn from_wire(pv: ProtocolVersion) -> (r: Option<Version>)
        ensures
            r == spec_version_from_wire(pv),
    {
        match pv {
            ProtocolVersion::Tls13 => Some(Self::Tls13),
            _ => None,
        }
    }

    /// A version survives the trip to its wire form and back.
    pub proof fn lemma_wire_roundtrip(v: Version, pv: ProtocolVersion)
        ensures
            spec_version_from_wire(spec_version_to_wire(v)) == Some(v),
            spec_version_from_wire(pv) matches Some(w) ==> spec_version_to_wire(w) == pv,
    {
    }
}

/// The system time.
pub trait Time {
    /// Returns the current number of non-leap seconds since the
    /// Unix epoch.
    fn now(&self) -> u64;
}

/// The maximum allowed fragment length.
#[derive(Copy, Clone, Debug, PartialEq, Eq, Structural)]
pub struct MaxFragmentLength(pub(crate) wire::MaxFragmentLength);

impl View for MaxFragmentLength {
    type V = wire::MaxFragmentLength;

    closed spec fn view(&self) -> wire::MaxFragmentLength {
        self.0
    }
}

impl MaxFragmentLength {
    /// Creates a `MaxFragmentLength`.
    ///
    /// It returns `None` if `size` is not one of:
    ///
    /// - 2^9
    /// - 2^10
    /// - 2^11
    /// - 2^12
    pub fn new(size: usize) -> (r: Option<Self>)
        ensures
            match r {
                Some(len) => len@.spec_length() == size,
                None => size != 512 && size != 1024 && size != 2048 && size != 4096,
            },
    {
        match size {
            512 => Some(Self(wire::MaxFragmentLength::_512)),
            1024 => Some(Self(wire::MaxFragmentLength::_1024)),
            2048 => Some(Self(wire::MaxFragmentLength::_2048)),
            4096 => Some(Self(wire::MaxFragmentLength::_4096)),
            _ => None,
        }
    }

    /// Each maximum fragment length has its own size, one of 2^9, 2^10,
    /// 2^11 and 2^12 bytes; so `new` gives back the length whose size
    /// it is given.
    pub proof fn lemma_size_identifies(a: wire::MaxFragmentLength, b: wire::MaxFragmentLength)
        ensures
            a.spec_length() == b.spec_length() ==> a == b,
            a.spec_length() == 512 || a.spec_length() == 1024 || a.spec_length() == 2048
                || a.spec_length() == 4096,
    {
    }

    /// Wraps a maximum fragment length read off the wire.
    pub(crate) fn from_wire(len: wire::MaxFragmentLength) -> (r: Self)
        ensures
            r@ == len,
    {
        Self(len)
    }

    /// Returns the wire form of the maximum fragment length.
    pub(crate) fn to_wire(self) -> (r: wire::MaxFragmentLength)
        ensures
            r == self@,
    {
        self.0
    }

    /// Returns the maximum fragment length in bytes.
    pub fn length(self) -> (r: usize)
        ensures
            r == self@.spec_length(),
    {
        self.0.length()
    }
}

} // verus!
