//! The `ClientHello` of TLS 1.3, read field by field.

use vstd::prelude::*;

use crate::wire::{
    alert::Alert,
    error::Error,
    ext::{Extension, ExtensionType},
    parse::{parsed_as, ParseOutcome, TryParse},
    tls13::{CipherSuiteId, ProtocolVersion},
    types::opaque,
    vec::Vector,
};

verus! {

/// The legacy session ID: `opaque legacy_session_id<0..32>`.
#[derive(Copy, Clone, Debug)]
pub struct LegacySessionId<'a>(Vector<'a, opaque, 0, 32>);

impl<'a> View for LegacySessionId<'a> {
    type V = Seq<u8>;

    closed spec fn view(&self) -> Seq<u8> {
        self.0@
    }
}

impl<'a> LegacySessionId<'a> {
    /// What reading a legacy session ID from `data` gives.
    pub open spec fn spec_parse(data: Seq<u8>) -> ParseOutcome<Seq<u8>> {
        <Vector<'a, opaque, 0, 32> as TryParse<'a>>::spec_parse(data)
    }

    /// Reads a legacy session ID from `data`.
    pub fn try_parse(data: &'a [u8]) -> (r: Result<(LegacySessionId<'a>, &'a [u8]), Error>)
        ensures
            parsed_as::<LegacySessionId<'a>>(Self::spec_parse(data@), data@, r),
    {
        match Vector::try_parse(data) {
            Ok((v, rest)) => Ok((LegacySessionId(v), rest)),
            Err(e) => Err(e),
        }
    }

    /// Returns the bytes of the session ID.
    pub fn as_slice(&self) -> (r: &'a [u8])
        ensures
            r@ == self@,
    {
        self.0.into_slice()
    }
}

/// The legacy compression methods:
/// `opaque legacy_compression_methods<1..2^8-1>`.
#[derive(Copy, Clone, Debug)]
pub struct LegacyCompressionMethods<'a>(Vector<'a, opaque, 1, 255>);

impl<'a> View for LegacyCompressionMethods<'a> {
    type V = Seq<u8>;

    closed spec fn view(&self) -> Seq<u8> {
        self.0@
    }
}

impl<'a> LegacyCompressionMethods<'a> {
    /// What reading the legacy compression methods from `data` gives.
    pub open spec fn spec_parse(data: Seq<u8>) -> ParseOutcome<Seq<u8>> {
        <Vector<'a, opaque, 1, 255> as TryParse<'a>>::spec_parse(data)
    }

    /// Reads the legacy compression methods from `data`.
    pub fn try_parse(data: &'a [u8]) -> (r: Result<(LegacyCompressionMethods<'a>, &'a [u8]), Error>)
        ensures
            parsed_as::<LegacyCompressionMethods<'a>>(Self::spec_parse(data@), data@, r),
    {
        match Vector::try_parse(data) {
            Ok((v, rest)) => Ok((LegacyCompressionMethods(v), rest)),
            Err(e) => Err(e),
        }
    }

    /// Returns the methods, one byte each.
    pub fn as_slice(&self) -> (r: &'a [u8])
        ensures
            r@ == self@,
    {
        self.0.into_slice()
    }
}

/// An iterator over the cipher suites of a `ClientHello`, two bytes each.
#[derive(Copy, Clone, Debug)]
pub struct CipherSuites<'a> {
    data: &'a [u8],
}

impl<'a> View for CipherSuites<'a> {
    type V = Seq<u8>;

    closed spec fn view(&self) -> Seq<u8> {
        self.data@
    }
}

impl<'a> CipherSuites<'a> {
    /// Returns the next cipher suite, or `None` once fewer than two bytes
    /// are left.
    pub fn next(&mut self) -> (r: Option<CipherSuiteId>)
        ensures
            old(self)@.len() >= 2 ==> r == Some(CipherSuiteId::spec_from_suite(old(self)@.take(2)))
                && final(self)@ == old(self)@.skip(2),
            old(self)@.len() < 2 ==> r is None && final(self)@ == old(self)@,
    {
        if self.data.len() < 2 {
            return None;
        }
        let suite = [self.data[0], self.data[1]];
        let (_, rest) = crate::wire::parse::split_prefix(self.data, 2);
        self.data = rest;
        proof {
            assert(suite@ =~= old(self)@.take(2));
        }
        Some(CipherSuiteId::from_suite(suite))
    }

    /// Returns the number of cipher suites left.
    pub fn len(&self) -> (r: usize)
        ensures
            r == self@.len() / 2,
    {
        self.data.len() / 2
    }

    /// Counts the cipher suites left.
    pub fn count(self) -> (r: usize)
        ensures
            r == self@.len() / 2,
    {
        self.len()
    }
}

/// An iterator over the extensions of a `ClientHello`.
#[derive(Copy, Clone, Debug)]
pub struct Extensions<'a> {
    data: &'a [u8],
}

impl<'a> View for Extensions<'a> {
    type V = Seq<u8>;

    closed spec fn view(&self) -> Seq<u8> {
        self.data@
    }
}

impl<'a> Extensions<'a> {
    /// Returns the next extension, or `None` at the end or at an
    /// extension that does not parse.
    pub fn next(&mut self) -> (r: Option<Extension<'a>>)
        ensures
            match <Extension<'a> as TryParse<'a>>::spec_parse(old(self)@) {
                Ok((v, n)) => r matches Some(e) && e@ == v && final(self)@ == old(self)@.skip(
                    n as int,
                ),
                Err(_) => r is None && final(self)@ == old(self)@,
            },
    {
        match Extension::try_parse(self.data) {
            Ok((ext, rest)) => {
                self.data = rest;
                Some(ext)
            },
            Err(_) => None,
        }
    }
}

/// The versions of a `supported_versions` extension:
/// `ProtocolVersion versions<2..254>`.
#[derive(Copy, Clone, Debug)]
pub struct SupportedVersions<'a> {
    data: &'a [u8],
}

impl<'a> View for SupportedVersions<'a> {
    type V = Seq<u8>;

    closed spec fn view(&self) -> Seq<u8> {
        self.data@
    }
}

impl<'a> SupportedVersions<'a> {
    /// What reading the versions from `data` gives: their bytes.
    pub open spec fn spec_parse(data: Seq<u8>) -> ParseOutcome<Seq<u8>> {
        <Vector<'a, opaque, 2, 254> as TryParse<'a>>::spec_parse(data)
    }

    /// Reads the versions from `data`.
    pub fn try_parse(data: &'a [u8]) -> (r: Result<(SupportedVersions<'a>, &'a [u8]), Error>)
        ensures
            parsed_as::<SupportedVersions<'a>>(Self::spec_parse(data@), data@, r),
    {
        match Vector::<'a, opaque, 2, 254>::try_parse(data) {
            Ok((v, rest)) => Ok((SupportedVersions { data: v.into_slice() }, rest)),
            Err(e) => Err(e),
        }
    }

    /// Returns the next version, or `None` once fewer than two bytes are
    /// left.
    pub fn next(&mut self) -> (r: Option<ProtocolVersion>)
        ensures
            match <u16 as TryParse<'a>>::spec_parse(old(self)@) {
                Ok((v, n)) => r == Some(v) && final(self)@ == old(self)@.skip(n as int),
                Err(_) => r is None && final(self)@ == old(self)@,
            },
    {
        match <u16 as TryParse<'a>>::try_parse(self.data) {
            Ok((v, rest)) => {
                self.data = rest;
                Some(v)
            },
            Err(_) => None,
        }
    }
}

/// Whether the extensions in `data`, from the start, each parse, with no
/// second `supported_versions` after one was `seen`.
pub open spec fn spec_check_extensions(data: Seq<u8>, seen: bool) -> Result<(), Alert>
    decreases data.len(),
{
    if data.len() == 0 {
        Ok(())
    } else {
        match <Extension<'static> as TryParse<'static>>::spec_parse(data) {
            Ok(((ty, _), n)) => if ty == ExtensionType::SupportedVersions && seen {
                Err(Alert::spec_illegal_parameter())
            } else if 0 < n <= data.len() {
                spec_check_extensions(
                    data.skip(n as int),
                    seen || ty == ExtensionType::SupportedVersions,
                )
            } else {
                Ok(())
            },
            Err(a) => Err(a),
        }
    }
}

/// The `ClientHello` message per RFC 8446, read field by field.
#[derive(Copy, Clone, Debug)]
pub struct ClientHello<'a> {
    version: ProtocolVersion,
    random: [u8; 32],
    legacy_session_id: LegacySessionId<'a>,
    suites: &'a [u8],
    legacy_compression_methods: LegacyCompressionMethods<'a>,
    extensions: &'a [u8],
}

/// What a [`ClientHello`] holds: the version, the random, the legacy
/// session ID, the cipher suites, the legacy compression methods and the
/// extensions, each as its bytes.
pub type ClientHelloView = (u16, Seq<u8>, Seq<u8>, Seq<u8>, Seq<u8>, Seq<u8>);

impl<'a> View for ClientHello<'a> {
    type V = ClientHelloView;

    closed spec fn view(&self) -> ClientHelloView {
        (
            self.version,
            self.random@,
            self.legacy_session_id@,
            self.suites@,
            self.legacy_compression_methods@,
            self.extensions@,
        )
    }
}

/// What reading the cipher suites from `data` gives: a vector of 2 to
/// (2^16)-2 bytes, two per suite.
pub open spec fn spec_suites_parse(data: Seq<u8>) -> ParseOutcome<Seq<u8>> {
    match <Vector<'static, opaque, 2, 65534> as TryParse<'static>>::spec_parse(data) {
        Ok((v, n)) => if v.len() % 2 != 0 {
            Err(Alert::spec_decode_error())
        } else {
            Ok((v, n))
        },
        Err(a) => Err(a),
    }
}

/// What reading the extensions from `data` gives: a vector of 8 to
/// (2^16)-1 bytes of extensions that each parse, with at most one
/// `supported_versions`.
pub open spec fn spec_extensions_parse(data: Seq<u8>) -> ParseOutcome<Seq<u8>> {
    match <Vector<'static, opaque, 8, 65535> as TryParse<'static>>::spec_parse(data) {
        Ok((v, n)) => match spec_check_extensions(v, false) {
            Ok(()) => Ok((v, n)),
            Err(a) => Err(a),
        },
        Err(a) => Err(a),
    }
}

/// What reading a `ClientHello` from `data` gives, field after field.
pub open spec fn spec_client_hello_parse(data: Seq<u8>) -> ParseOutcome<ClientHelloView> {
    match <u16 as TryParse<'static>>::spec_parse(data) {
        Err(a) => Err(a),
        Ok((version, n0)) => {
            let d1 = data.skip(n0 as int);
            match <[u8; 32] as TryParse<'static>>::spec_parse(d1) {
                Err(a) => Err(a),
                Ok((random, n1)) => {
                    let d2 = d1.skip(n1 as int);
                    match LegacySessionId::<'static>::spec_parse(d2) {
                        Err(a) => Err(a),
                        Ok((sid, n2)) => {
                            let d3 = d2.skip(n2 as int);
                            match spec_suites_parse(d3) {
                                Err(a) => Err(a),
                                Ok((suites, n3)) => {
                                    let d4 = d3.skip(n3 as int);
                                    match LegacyCompressionMethods::<'static>::spec_parse(d4) {
                                        Err(a) => Err(a),
                                        Ok((methods, n4)) => {
                                            let d5 = d4.skip(n4 as int);
                                            match spec_extensions_parse(d5) {
                                                Err(a) => Err(a),
                                                Ok((exts, n5)) => Ok(
                                                    (
                                                        (version, random, sid, suites, methods, exts),
                                                        n0 + n1 + n2 + n3 + n4 + n5,
                                                    ),
                                                ),
                                            }
                                        },
                                    }
                                },
                            }
                        },
                    }
                },
            }
        },
    }
}

/// Checks that each extension in `data` parses and that no second
/// `supported_versions` follows one.
fn check_extensions(data: &[u8]) -> (r: Result<(), Error>)
    ensures
        match spec_check_extensions(data@, false) {
            Ok(()) => r is Ok,
            Err(a) => r matches Err(e) && e@ == a,
        },
{
    let mut tmp = data;
    let mut seen = false;
    while tmp.len() > 0
        invariant
            spec_check_extensions(data@, false) == spec_check_extensions(tmp@, seen),
        decreases tmp@.len(),
    {
        let ghost before = tmp@;
        proof {
            <Extension<'static> as TryParse<'static>>::lemma_parse_bounds(before);
        }
        match Extension::try_parse(tmp) {
            Ok((ext, rest)) => {
                let is_sv = match ext.extension_type {
                    ExtensionType::SupportedVersions => true,
                    _ => false,
                };
                // RFC 8446: "There MUST NOT be more than one extension of
                // the same type in a given extension block."
                if is_sv && seen {
                    return Err(Error::illegal_parameter("duplicate supported_versions"));
                }
                seen = seen || is_sv;
                tmp = rest;
            },
            Err(e) => return Err(e),
        }
    }
    Ok(())
}

impl<'a> ClientHello<'a> {
    /// Returns the protocol version.
    pub fn version(&self) -> (r: ProtocolVersion)
        ensures
            r == self@.0,
    {
        self.version
    }

    /// Returns the client's 32-byte random nonce.
    pub fn random(&self) -> (r: &[u8; 32])
        ensures
            r@ == self@.1,
    {
        &self.random
    }

    /// Returns the legacy session ID.
    pub fn legacy_session_id(&self) -> (r: LegacySessionId<'a>)
        ensures
            r@ == self@.2,
    {
        self.legacy_session_id
    }

    /// Returns the supported cipher suites.
    pub fn suites(&self) -> (r: CipherSuites<'a>)
        ensures
            r@ == self@.3,
    {
        CipherSuites { data: self.suites }
    }

    /// Returns the legacy compression methods.
    pub fn legacy_compression_methods(&self) -> (r: LegacyCompressionMethods<'a>)
        ensures
            r@ == self@.4,
    {
        self.legacy_compression_methods
    }

    /// Returns the extensions.
    pub fn extensions(&self) -> (r: Extensions<'a>)
        ensures
            r@ == self@.5,
    {
        Extensions { data: self.extensions }
    }

    /// Reads a `ClientHello` from `data`, and returns it and the data
    /// after it.
    pub fn try_parse(msg: &'a [u8]) -> (r: Result<(ClientHello<'a>, &'a [u8]), Error>)
        ensures
            parsed_as::<ClientHello<'a>>(spec_client_hello_parse(msg@), msg@, r),
    {
        let (version, rest) = match <u16 as TryParse<'a>>::try_parse(msg) {
            Ok(x) => x,
            Err(e) => return Err(e),
        };
        let (random, rest) = match <[u8; 32] as TryParse<'a>>::try_parse(rest) {
            Ok(x) => x,
            Err(e) => return Err(e),
        };
        let (legacy_session_id, rest) = match LegacySessionId::try_parse(rest) {
            Ok(x) => x,
            Err(e) => return Err(e),
        };
        let (suites, rest) = match Vector::<'a, opaque, 2, 65534>::try_parse(rest) {
            Ok(x) => x,
            Err(e) => return Err(e),
        };
        let suites = suites.into_slice();
        // Each suite is 16 bits.
        if suites.len() % 2 != 0 {
            return Err(Error::decode_error("unexpected cipher suite length"));
        }
        let (legacy_compression_methods, rest) = match LegacyCompressionMethods::try_parse(rest) {
            Ok(x) => x,
            Err(e) => return Err(e),
        };
        let (extensions, rest) = match Vector::<'a, opaque, 8, 65535>::try_parse(rest) {
            Ok(x) => x,
            Err(e) => return Err(e),
        };
        let extensions = extensions.into_slice();
        match check_extensions(extensions) {
            Ok(()) => {},
            Err(e) => return Err(e),
        }
        proof {
            assert(rest@ =~= msg@.skip((msg@.len() - rest@.len()) as int));
        }
        let hello = ClientHello {
            version,
            random,
            legacy_session_id,
            suites,
            legacy_compression_methods,
            extensions,
        };
        Ok((hello, rest))
    }
}

} // verus!
