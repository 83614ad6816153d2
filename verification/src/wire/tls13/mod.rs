//! TLS 1.3 messages.

mod codes;
pub mod ext;
mod records;

use core::convert::Infallible;

use vstd::prelude::*;

use crate::{
    util::ct_eq_bytes,
    wire::{
        alert::{Alert, AlertDesc},
        encode::{EncBuf, EncState, TryEncode},
        error::Error,
        ext::Extension,
        parse::{spec_be16, ParseOutcome, TryParse},
        size::{Object, Size},
        types::{opaque, uint16, uint8},
        vec::{SmallVec, Vector},
    },
};

pub use codes::{spec_code_ext, Extension2, Extension2View};
pub use records::{
    spec_handshake_parse, spec_record_parse, Handshake, HandshakeView, Record,
};

verus! {

/// The legacy version field of TLS 1.3 messages.
pub type ProtocolVersion = uint16;

/// A cipher suite identifier on the wire.
pub type CipherSuite = [uint8; 2];

/// A 32-byte random nonce.
pub type Random = [opaque; 32];

/// The random value of a `HelloRetryRequest`: the SHA-256 of
/// "HelloRetryRequest".
pub open spec fn spec_hrr_random() -> Seq<u8> {
    seq![
        0xCFu8, 0x21, 0xAD, 0x74, 0xE5, 0x9A, 0x61, 0x11, 0xBE, 0x1D, 0x8C, 0x02, 0x1E, 0x65, 0xB8,
        0x91, 0xC2, 0xA2, 0x11, 0x16, 0x7A, 0xBB, 0x8C, 0x5E, 0x07, 0x9E, 0x09, 0xE2, 0xC8, 0xA8,
        0x33, 0x9C,
    ]
}

/// The `ClientHello` message per RFC 8446.
#[derive(Copy, Clone, Debug)]
pub struct ClientHello<'a> {
    pub legacy_version: ProtocolVersion,
    pub random: Random,
    pub legacy_session_id: SmallVec<opaque, 0, 32>,
    pub cipher_suites: Vector<'a, CipherSuite, 2, 65534>,
    pub legacy_compression_methods: Vector<'a, opaque, 1, 255>,
    pub extensions: Vector<'a, Extension<'a>, 8, 65535>,
}

impl<'a> View for ClientHello<'a> {
    type V = (u16, Seq<u8>, Seq<u8>, Seq<u8>, Seq<u8>, Seq<u8>);

    open spec fn view(&self) -> (u16, Seq<u8>, Seq<u8>, Seq<u8>, Seq<u8>, Seq<u8>) {
        (self.legacy_version@, self.random@, self.legacy_session_id@, self.cipher_suites@, self.legacy_compression_methods@, self.extensions@)
    }
}

impl<'a> Object for ClientHello<'a> {
    open spec fn spec_size() -> (nat, nat) {
        (<ProtocolVersion as Object>::spec_size().0 + <Random as Object>::spec_size().0 + <SmallVec<opaque, 0, 32> as Object>::spec_size().0 + <Vector<'a, CipherSuite, 2, 65534> as Object>::spec_size().0 + <Vector<'a, opaque, 1, 255> as Object>::spec_size().0 + <Vector<'a, Extension<'a>, 8, 65535> as Object>::spec_size().0, <ProtocolVersion as Object>::spec_size().1 + <Random as Object>::spec_size().1 + <SmallVec<opaque, 0, 32> as Object>::spec_size().1 + <Vector<'a, CipherSuite, 2, 65534> as Object>::spec_size().1 + <Vector<'a, opaque, 1, 255> as Object>::spec_size().1 + <Vector<'a, Extension<'a>, 8, 65535> as Object>::spec_size().1)
    }

    fn size() -> (r: Size) {
        Size::new(45, 131390)
    }
}

impl<'de: 'a, 'a> TryParse<'de> for ClientHello<'a> {
    open spec fn spec_parse(data: Seq<u8>) -> ParseOutcome<(u16, Seq<u8>, Seq<u8>, Seq<u8>, Seq<u8>, Seq<u8>)> {
        match <ProtocolVersion as TryParse<'de>>::spec_parse(data) {
            Ok((v0, n0)) => {
                if v0 != 0x0303 {
                    Err(Alert::spec_illegal_parameter())
                } else {
                    match <Random as TryParse<'de>>::spec_parse(data.skip((n0) as int)) {
                        Ok((v1, n1)) => {
                            match <SmallVec<opaque, 0, 32> as TryParse<'de>>::spec_parse(data.skip((n0 + n1) as int)) {
                                Ok((v2, n2)) => {
                                    match <Vector<'a, CipherSuite, 2, 65534> as TryParse<'de>>::spec_parse(data.skip((n0 + n1 + n2) as int)) {
                                        Ok((v3, n3)) => {
                                            match <Vector<'a, opaque, 1, 255> as TryParse<'de>>::spec_parse(data.skip((n0 + n1 + n2 + n3) as int)) {
                                                Ok((v4, n4)) => {
                                                    if v4 != seq![0u8] {
                                                        Err(Alert::spec_illegal_parameter())
                                                    } else {
                                                        match <Vector<'a, Extension<'a>, 8, 65535> as TryParse<'de>>::spec_parse(data.skip((n0 + n1 + n2 + n3 + n4) as int)) {
                                                            Ok((v5, n5)) => {
                                                                Ok(((v0, v1, v2, v3, v4, v5), (n0 + n1 + n2 + n3 + n4 + n5) as nat))
                                                            },
                                                            Err(a) => Err(a),
                                                        }
                                                    }
                                                },
                                                Err(a) => Err(a),
                                            }
                                        },
                                        Err(a) => Err(a),
                                    }
                                },
                                Err(a) => Err(a),
                            }
                        },
                        Err(a) => Err(a),
                    }
                }
            },
            Err(a) => Err(a),
        }
    }

    open spec fn spec_skip(data: Seq<u8>) -> Result<nat, Alert> {
        match <ProtocolVersion as TryParse<'de>>::spec_skip(data) {
            Ok(n0) => {
                match <Random as TryParse<'de>>::spec_skip(data.skip((n0) as int)) {
                    Ok(n1) => {
                        match <SmallVec<opaque, 0, 32> as TryParse<'de>>::spec_skip(data.skip((n0 + n1) as int)) {
                            Ok(n2) => {
                                match <Vector<'a, CipherSuite, 2, 65534> as TryParse<'de>>::spec_skip(data.skip((n0 + n1 + n2) as int)) {
                                    Ok(n3) => {
                                        match <Vector<'a, opaque, 1, 255> as TryParse<'de>>::spec_skip(data.skip((n0 + n1 + n2 + n3) as int)) {
                                            Ok(n4) => {
                                                match <Vector<'a, Extension<'a>, 8, 65535> as TryParse<'de>>::spec_skip(data.skip((n0 + n1 + n2 + n3 + n4) as int)) {
                                                    Ok(n5) => {
                                                        Ok((n0 + n1 + n2 + n3 + n4 + n5) as nat)
                                                    },
                                                    Err(a) => Err(a),
                                                }
                                            },
                                            Err(a) => Err(a),
                                        }
                                    },
                                    Err(a) => Err(a),
                                }
                            },
                            Err(a) => Err(a),
                        }
                    },
                    Err(a) => Err(a),
                }
            },
            Err(a) => Err(a),
        }
    }

    proof fn lemma_parse_bounds(data: Seq<u8>) {
        <ProtocolVersion as TryParse<'de>>::lemma_parse_bounds(data);
        if let Ok((_, n0)) = <ProtocolVersion as TryParse<'de>>::spec_parse(data) {
            <Random as TryParse<'de>>::lemma_parse_bounds(data.skip((n0) as int));
            if let Ok((_, n1)) = <Random as TryParse<'de>>::spec_parse(data.skip((n0) as int)) {
                <SmallVec<opaque, 0, 32> as TryParse<'de>>::lemma_parse_bounds(data.skip((n0 + n1) as int));
                if let Ok((_, n2)) = <SmallVec<opaque, 0, 32> as TryParse<'de>>::spec_parse(data.skip((n0 + n1) as int)) {
                    <Vector<'a, CipherSuite, 2, 65534> as TryParse<'de>>::lemma_parse_bounds(data.skip((n0 + n1 + n2) as int));
                    if let Ok((_, n3)) = <Vector<'a, CipherSuite, 2, 65534> as TryParse<'de>>::spec_parse(data.skip((n0 + n1 + n2) as int)) {
                        <Vector<'a, opaque, 1, 255> as TryParse<'de>>::lemma_parse_bounds(data.skip((n0 + n1 + n2 + n3) as int));
                        if let Ok((_, n4)) = <Vector<'a, opaque, 1, 255> as TryParse<'de>>::spec_parse(data.skip((n0 + n1 + n2 + n3) as int)) {
                            <Vector<'a, Extension<'a>, 8, 65535> as TryParse<'de>>::lemma_parse_bounds(data.skip((n0 + n1 + n2 + n3 + n4) as int));
                        }
                    }
                }
            }
        }
        <ProtocolVersion as TryParse<'de>>::lemma_parse_bounds(data);
        if let Ok(n0) = <ProtocolVersion as TryParse<'de>>::spec_skip(data) {
            <Random as TryParse<'de>>::lemma_parse_bounds(data.skip((n0) as int));
            if let Ok(n1) = <Random as TryParse<'de>>::spec_skip(data.skip((n0) as int)) {
                <SmallVec<opaque, 0, 32> as TryParse<'de>>::lemma_parse_bounds(data.skip((n0 + n1) as int));
                if let Ok(n2) = <SmallVec<opaque, 0, 32> as TryParse<'de>>::spec_skip(data.skip((n0 + n1) as int)) {
                    <Vector<'a, CipherSuite, 2, 65534> as TryParse<'de>>::lemma_parse_bounds(data.skip((n0 + n1 + n2) as int));
                    if let Ok(n3) = <Vector<'a, CipherSuite, 2, 65534> as TryParse<'de>>::spec_skip(data.skip((n0 + n1 + n2) as int)) {
                        <Vector<'a, opaque, 1, 255> as TryParse<'de>>::lemma_parse_bounds(data.skip((n0 + n1 + n2 + n3) as int));
                        if let Ok(n4) = <Vector<'a, opaque, 1, 255> as TryParse<'de>>::spec_skip(data.skip((n0 + n1 + n2 + n3) as int)) {
                            <Vector<'a, Extension<'a>, 8, 65535> as TryParse<'de>>::lemma_parse_bounds(data.skip((n0 + n1 + n2 + n3 + n4) as int));
                        }
                    }
                }
            }
        }
    }

    fn try_parse(data: &'de [u8]) -> (r: Result<(ClientHello<'a>, &'de [u8]), Error>) {
        let (legacy_version, rest0) = match <ProtocolVersion as TryParse<'de>>::try_parse(data) {
            Ok(x) => x,
            Err(e) => return Err(e),
        };
        proof {
            assert(rest0@ =~= data@.skip((data@.len() - rest0@.len()) as int));
        }
        if legacy_version != 0x0303 {
            return Err(Error::illegal_parameter("invalid constant"));
        }
        let (random, rest1) = match <Random as TryParse<'de>>::try_parse(rest0) {
            Ok(x) => x,
            Err(e) => return Err(e),
        };
        proof {
            assert(rest1@ =~= data@.skip((data@.len() - rest1@.len()) as int));
        }
        let (legacy_session_id, rest2) = match <SmallVec<opaque, 0, 32> as TryParse<'de>>::try_parse(rest1) {
            Ok(x) => x,
            Err(e) => return Err(e),
        };
        proof {
            assert(rest2@ =~= data@.skip((data@.len() - rest2@.len()) as int));
        }
        let (cipher_suites, rest3) = match <Vector<'a, CipherSuite, 2, 65534> as TryParse<'de>>::try_parse(rest2) {
            Ok(x) => x,
            Err(e) => return Err(e),
        };
        proof {
            assert(rest3@ =~= data@.skip((data@.len() - rest3@.len()) as int));
        }
        let (legacy_compression_methods, rest4) = match <Vector<'a, opaque, 1, 255> as TryParse<'de>>::try_parse(rest3) {
            Ok(x) => x,
            Err(e) => return Err(e),
        };
        proof {
            assert(rest4@ =~= data@.skip((data@.len() - rest4@.len()) as int));
        }
        let null_compression: [u8; 1] = [0u8];
        assert(null_compression@ =~= seq![0u8]);
        if !legacy_compression_methods.eq_bytes(&null_compression) {
            return Err(Error::illegal_parameter("invalid constant"));
        }
        let (extensions, rest5) = match <Vector<'a, Extension<'a>, 8, 65535> as TryParse<'de>>::try_parse(rest4) {
            Ok(x) => x,
            Err(e) => return Err(e),
        };
        proof {
            assert(rest5@ =~= data@.skip((data@.len() - rest5@.len()) as int));
        }
        Ok((ClientHello { legacy_version, random, legacy_session_id, cipher_suites, legacy_compression_methods, extensions }, rest5))
    }

    fn try_skip(data: &'de [u8]) -> (r: Result<&'de [u8], Error>) {
        let rest0 = match <ProtocolVersion as TryParse<'de>>::try_skip(data) {
            Ok(x) => x,
            Err(e) => return Err(e),
        };
        proof {
            assert(rest0@ =~= data@.skip((data@.len() - rest0@.len()) as int));
        }
        let rest1 = match <Random as TryParse<'de>>::try_skip(rest0) {
            Ok(x) => x,
            Err(e) => return Err(e),
        };
        proof {
            assert(rest1@ =~= data@.skip((data@.len() - rest1@.len()) as int));
        }
        let rest2 = match <SmallVec<opaque, 0, 32> as TryParse<'de>>::try_skip(rest1) {
            Ok(x) => x,
            Err(e) => return Err(e),
        };
        proof {
            assert(rest2@ =~= data@.skip((data@.len() - rest2@.len()) as int));
        }
        let rest3 = match <Vector<'a, CipherSuite, 2, 65534> as TryParse<'de>>::try_skip(rest2) {
            Ok(x) => x,
            Err(e) => return Err(e),
        };
        proof {
            assert(rest3@ =~= data@.skip((data@.len() - rest3@.len()) as int));
        }
        let rest4 = match <Vector<'a, opaque, 1, 255> as TryParse<'de>>::try_skip(rest3) {
            Ok(x) => x,
            Err(e) => return Err(e),
        };
        proof {
            assert(rest4@ =~= data@.skip((data@.len() - rest4@.len()) as int));
        }
        let rest5 = match <Vector<'a, Extension<'a>, 8, 65535> as TryParse<'de>>::try_skip(rest4) {
            Ok(x) => x,
            Err(e) => return Err(e),
        };
        proof {
            assert(rest5@ =~= data@.skip((data@.len() - rest5@.len()) as int));
        }
        Ok(rest5)
    }
}

impl<'a> TryEncode for ClientHello<'a> {
    open spec fn spec_encode(v: (u16, Seq<u8>, Seq<u8>, Seq<u8>, Seq<u8>, Seq<u8>), s: EncState) -> (EncState, Result<(), Alert>) {
        if v.0 != 0x0303 {
            (s, Err(Alert::spec_internal_error()))
        } else {
            let (s0, r0) = <ProtocolVersion as TryEncode>::spec_encode(v.0, s);
            match r0 {
                Ok(()) => {
                    let (s1, r1) = <Random as TryEncode>::spec_encode(v.1, s0);
                    match r1 {
                        Ok(()) => {
                            let (s2, r2) = <SmallVec<opaque, 0, 32> as TryEncode>::spec_encode(v.2, s1);
                            match r2 {
                                Ok(()) => {
                                    let (s3, r3) = <Vector<'a, CipherSuite, 2, 65534> as TryEncode>::spec_encode(v.3, s2);
                                    match r3 {
                                        Ok(()) => {
                                            if v.4 != seq![0u8] {
                                                (s3, Err(Alert::spec_internal_error()))
                                            } else {
                                                let (s4, r4) = <Vector<'a, opaque, 1, 255> as TryEncode>::spec_encode(v.4, s3);
                                                match r4 {
                                                    Ok(()) => {
                                                        <Vector<'a, Extension<'a>, 8, 65535> as TryEncode>::spec_encode(v.5, s4)
                                                    },
                                                    Err(a) => (s4, Err(a)),
                                                }
                                            }
                                        },
                                        Err(a) => (s3, Err(a)),
                                    }
                                },
                                Err(a) => (s2, Err(a)),
                            }
                        },
                        Err(a) => (s1, Err(a)),
                    }
                },
                Err(a) => (s0, Err(a)),
            }
        }
    }

    fn try_encode(&self, out: &mut EncBuf<'_>) -> (r: Result<(), Error>) {
        if self.legacy_version != 0x0303 {
            return Err(Error::internal_error("invalid constant"));
        }
        match self.legacy_version.try_encode(out) {
            Ok(()) => {},
            Err(e) => return Err(e),
        }
        match self.random.try_encode(out) {
            Ok(()) => {},
            Err(e) => return Err(e),
        }
        match self.legacy_session_id.try_encode(out) {
            Ok(()) => {},
            Err(e) => return Err(e),
        }
        match self.cipher_suites.try_encode(out) {
            Ok(()) => {},
            Err(e) => return Err(e),
        }
        let null_compression: [u8; 1] = [0u8];
        assert(null_compression@ =~= seq![0u8]);
        if !self.legacy_compression_methods.eq_bytes(&null_compression) {
            return Err(Error::internal_error("invalid constant"));
        }
        match self.legacy_compression_methods.try_encode(out) {
            Ok(()) => {},
            Err(e) => return Err(e),
        }
        self.extensions.try_encode(out)
    }
}
/// The `ServerHello` message per RFC 8446.
/// 
/// Its extensions are parsed separately.
#[derive(Copy, Clone, Debug)]
pub struct ServerHello {
    pub legacy_version: ProtocolVersion,
    pub random: Random,
    pub legacy_session_id_echo: SmallVec<opaque, 0, 32>,
    pub cipher_suite: CipherSuite,
    pub legacy_compression_method: uint8,
}

impl View for ServerHello {
    type V = (u16, Seq<u8>, Seq<u8>, Seq<u8>, u8);

    open spec fn view(&self) -> (u16, Seq<u8>, Seq<u8>, Seq<u8>, u8) {
        (self.legacy_version@, self.random@, self.legacy_session_id_echo@, self.cipher_suite@, self.legacy_compression_method@)
    }
}

impl Object for ServerHello {
    open spec fn spec_size() -> (nat, nat) {
        (<ProtocolVersion as Object>::spec_size().0 + <Random as Object>::spec_size().0 + <SmallVec<opaque, 0, 32> as Object>::spec_size().0 + <CipherSuite as Object>::spec_size().0 + <uint8 as Object>::spec_size().0, <ProtocolVersion as Object>::spec_size().1 + <Random as Object>::spec_size().1 + <SmallVec<opaque, 0, 32> as Object>::spec_size().1 + <CipherSuite as Object>::spec_size().1 + <uint8 as Object>::spec_size().1)
    }

    fn size() -> (r: Size) {
        Size::new(37, 69)
    }
}

impl<'de> TryParse<'de> for ServerHello {
    open spec fn spec_parse(data: Seq<u8>) -> ParseOutcome<(u16, Seq<u8>, Seq<u8>, Seq<u8>, u8)> {
        match <ProtocolVersion as TryParse<'de>>::spec_parse(data) {
            Ok((v0, n0)) => {
                if v0 != 0x0303 {
                    Err(Alert::spec_illegal_parameter())
                } else {
                    match <Random as TryParse<'de>>::spec_parse(data.skip((n0) as int)) {
                        Ok((v1, n1)) => {
                            match <SmallVec<opaque, 0, 32> as TryParse<'de>>::spec_parse(data.skip((n0 + n1) as int)) {
                                Ok((v2, n2)) => {
                                    match <CipherSuite as TryParse<'de>>::spec_parse(data.skip((n0 + n1 + n2) as int)) {
                                        Ok((v3, n3)) => {
                                            match <uint8 as TryParse<'de>>::spec_parse(data.skip((n0 + n1 + n2 + n3) as int)) {
                                                Ok((v4, n4)) => {
                                                    if v4 != 0 {
                                                        Err(Alert::spec_illegal_parameter())
                                                    } else {
                                                        Ok(((v0, v1, v2, v3, v4), (n0 + n1 + n2 + n3 + n4) as nat))
                                                    }
                                                },
                                                Err(a) => Err(a),
                                            }
                                        },
                                        Err(a) => Err(a),
                                    }
                                },
                                Err(a) => Err(a),
                            }
                        },
                        Err(a) => Err(a),
                    }
                }
            },
            Err(a) => Err(a),
        }
    }

    open spec fn spec_skip(data: Seq<u8>) -> Result<nat, Alert> {
        match <ProtocolVersion as TryParse<'de>>::spec_skip(data) {
            Ok(n0) => {
                match <Random as TryParse<'de>>::spec_skip(data.skip((n0) as int)) {
                    Ok(n1) => {
                        match <SmallVec<opaque, 0, 32> as TryParse<'de>>::spec_skip(data.skip((n0 + n1) as int)) {
                            Ok(n2) => {
                                match <CipherSuite as TryParse<'de>>::spec_skip(data.skip((n0 + n1 + n2) as int)) {
                                    Ok(n3) => {
                                        match <uint8 as TryParse<'de>>::spec_skip(data.skip((n0 + n1 + n2 + n3) as int)) {
                                            Ok(n4) => {
                                                Ok((n0 + n1 + n2 + n3 + n4) as nat)
                                            },
                                            Err(a) => Err(a),
                                        }
                                    },
                                    Err(a) => Err(a),
                                }
                            },
                            Err(a) => Err(a),
                        }
                    },
                    Err(a) => Err(a),
                }
            },
            Err(a) => Err(a),
        }
    }

    proof fn lemma_parse_bounds(data: Seq<u8>) {
        <ProtocolVersion as TryParse<'de>>::lemma_parse_bounds(data);
        if let Ok((_, n0)) = <ProtocolVersion as TryParse<'de>>::spec_parse(data) {
            <Random as TryParse<'de>>::lemma_parse_bounds(data.skip((n0) as int));
            if let Ok((_, n1)) = <Random as TryParse<'de>>::spec_parse(data.skip((n0) as int)) {
                <SmallVec<opaque, 0, 32> as TryParse<'de>>::lemma_parse_bounds(data.skip((n0 + n1) as int));
                if let Ok((_, n2)) = <SmallVec<opaque, 0, 32> as TryParse<'de>>::spec_parse(data.skip((n0 + n1) as int)) {
                    <CipherSuite as TryParse<'de>>::lemma_parse_bounds(data.skip((n0 + n1 + n2) as int));
                    if let Ok((_, n3)) = <CipherSuite as TryParse<'de>>::spec_parse(data.skip((n0 + n1 + n2) as int)) {
                        <uint8 as TryParse<'de>>::lemma_parse_bounds(data.skip((n0 + n1 + n2 + n3) as int));
                    }
                }
            }
        }
        <ProtocolVersion as TryParse<'de>>::lemma_parse_bounds(data);
        if let Ok(n0) = <ProtocolVersion as TryParse<'de>>::spec_skip(data) {
            <Random as TryParse<'de>>::lemma_parse_bounds(data.skip((n0) as int));
            if let Ok(n1) = <Random as TryParse<'de>>::spec_skip(data.skip((n0) as int)) {
                <SmallVec<opaque, 0, 32> as TryParse<'de>>::lemma_parse_bounds(data.skip((n0 + n1) as int));
                if let Ok(n2) = <SmallVec<opaque, 0, 32> as TryParse<'de>>::spec_skip(data.skip((n0 + n1) as int)) {
                    <CipherSuite as TryParse<'de>>::lemma_parse_bounds(data.skip((n0 + n1 + n2) as int));
                    if let Ok(n3) = <CipherSuite as TryParse<'de>>::spec_skip(data.skip((n0 + n1 + n2) as int)) {
                        <uint8 as TryParse<'de>>::lemma_parse_bounds(data.skip((n0 + n1 + n2 + n3) as int));
                    }
                }
            }
        }
    }

    fn try_parse(data: &'de [u8]) -> (r: Result<(ServerHello, &'de [u8]), Error>) {
        let (legacy_version, rest0) = match <ProtocolVersion as TryParse<'de>>::try_parse(data) {
            Ok(x) => x,
            Err(e) => return Err(e),
        };
        proof {
            assert(rest0@ =~= data@.skip((data@.len() - rest0@.len()) as int));
        }
        if legacy_version != 0x0303 {
            return Err(Error::illegal_parameter("invalid constant"));
        }
        let (random, rest1) = match <Random as TryParse<'de>>::try_parse(rest0) {
            Ok(x) => x,
            Err(e) => return Err(e),
        };
        proof {
            assert(rest1@ =~= data@.skip((data@.len() - rest1@.len()) as int));
        }
        let (legacy_session_id_echo, rest2) = match <SmallVec<opaque, 0, 32> as TryParse<'de>>::try_parse(rest1) {
            Ok(x) => x,
            Err(e) => return Err(e),
        };
        proof {
            assert(rest2@ =~= data@.skip((data@.len() - rest2@.len()) as int));
        }
        let (cipher_suite, rest3) = match <CipherSuite as TryParse<'de>>::try_parse(rest2) {
            Ok(x) => x,
            Err(e) => return Err(e),
        };
        proof {
            assert(rest3@ =~= data@.skip((data@.len() - rest3@.len()) as int));
        }
        let (legacy_compression_method, rest4) = match <uint8 as TryParse<'de>>::try_parse(rest3) {
            Ok(x) => x,
            Err(e) => return Err(e),
        };
        proof {
            assert(rest4@ =~= data@.skip((data@.len() - rest4@.len()) as int));
        }
        if legacy_compression_method != 0 {
            return Err(Error::illegal_parameter("invalid constant"));
        }
        proof {
            assert(rest4@ =~= data@.skip((data@.len() - rest4@.len()) as int));
        }
        Ok((ServerHello { legacy_version, random, legacy_session_id_echo, cipher_suite, legacy_compression_method }, rest4))
    }

    fn try_skip(data: &'de [u8]) -> (r: Result<&'de [u8], Error>) {
        let rest0 = match <ProtocolVersion as TryParse<'de>>::try_skip(data) {
            Ok(x) => x,
            Err(e) => return Err(e),
        };
        proof {
            assert(rest0@ =~= data@.skip((data@.len() - rest0@.len()) as int));
        }
        let rest1 = match <Random as TryParse<'de>>::try_skip(rest0) {
            Ok(x) => x,
            Err(e) => return Err(e),
        };
        proof {
            assert(rest1@ =~= data@.skip((data@.len() - rest1@.len()) as int));
        }
        let rest2 = match <SmallVec<opaque, 0, 32> as TryParse<'de>>::try_skip(rest1) {
            Ok(x) => x,
            Err(e) => return Err(e),
        };
        proof {
            assert(rest2@ =~= data@.skip((data@.len() - rest2@.len()) as int));
        }
        let rest3 = match <CipherSuite as TryParse<'de>>::try_skip(rest2) {
            Ok(x) => x,
            Err(e) => return Err(e),
        };
        proof {
            assert(rest3@ =~= data@.skip((data@.len() - rest3@.len()) as int));
        }
        let rest4 = match <uint8 as TryParse<'de>>::try_skip(rest3) {
            Ok(x) => x,
            Err(e) => return Err(e),
        };
        proof {
            assert(rest4@ =~= data@.skip((data@.len() - rest4@.len()) as int));
        }
        Ok(rest4)
    }
}

impl TryEncode for ServerHello {
    open spec fn spec_encode(v: (u16, Seq<u8>, Seq<u8>, Seq<u8>, u8), s: EncState) -> (EncState, Result<(), Alert>) {
        if v.0 != 0x0303 {
            (s, Err(Alert::spec_internal_error()))
        } else {
            let (s0, r0) = <ProtocolVersion as TryEncode>::spec_encode(v.0, s);
            match r0 {
                Ok(()) => {
                    let (s1, r1) = <Random as TryEncode>::spec_encode(v.1, s0);
                    match r1 {
                        Ok(()) => {
                            let (s2, r2) = <SmallVec<opaque, 0, 32> as TryEncode>::spec_encode(v.2, s1);
                            match r2 {
                                Ok(()) => {
                                    let (s3, r3) = <CipherSuite as TryEncode>::spec_encode(v.3, s2);
                                    match r3 {
                                        Ok(()) => {
                                            if v.4 != 0 {
                                                (s3, Err(Alert::spec_internal_error()))
                                            } else {
                                                <uint8 as TryEncode>::spec_encode(v.4, s3)
                                            }
                                        },
                                        Err(a) => (s3, Err(a)),
                                    }
                                },
                                Err(a) => (s2, Err(a)),
                            }
                        },
                        Err(a) => (s1, Err(a)),
                    }
                },
                Err(a) => (s0, Err(a)),
            }
        }
    }

    fn try_encode(&self, out: &mut EncBuf<'_>) -> (r: Result<(), Error>) {
        if self.legacy_version != 0x0303 {
            return Err(Error::internal_error("invalid constant"));
        }
        match self.legacy_version.try_encode(out) {
            Ok(()) => {},
            Err(e) => return Err(e),
        }
        match self.random.try_encode(out) {
            Ok(()) => {},
            Err(e) => return Err(e),
        }
        match self.legacy_session_id_echo.try_encode(out) {
            Ok(()) => {},
            Err(e) => return Err(e),
        }
        match self.cipher_suite.try_encode(out) {
            Ok(()) => {},
            Err(e) => return Err(e),
        }
        if self.legacy_compression_method != 0 {
            return Err(Error::internal_error("invalid constant"));
        }
        self.legacy_compression_method.try_encode(out)
    }
}
impl ServerHello {
    /// Returns the cipher suite ID.
    pub fn cipher_suite(&self) -> (r: CipherSuiteId)
        ensures
            r == CipherSuiteId::spec_from_suite(self.cipher_suite@),
    {
        CipherSuiteId::from_suite(self.cipher_suite)
    }

    /// Reports whether this is actually a `HelloRetryRequest`.
    pub fn is_hello_retry_request(&self) -> (r: bool)
        ensures
            r == (self.random@ == spec_hrr_random()),
    {
        // RFC 8446: "For reasons of backward compatibility with
        // middleboxes (see Appendix D.4), the HelloRetryRequest message
        // uses the same structure as the ServerHello, but with Random
        // set to the special value of the SHA-256 of
        // "HelloRetryRequest"."
        let hrr_random: [u8; 32] = [
            0xCF, 0x21, 0xAD, 0x74, 0xE5, 0x9A, 0x61, 0x11, 0xBE, 0x1D, 0x8C, 0x02, 0x1E, 0x65,
            0xB8, 0x91, 0xC2, 0xA2, 0x11, 0x16, 0x7A, 0xBB, 0x8C, 0x5E, 0x07, 0x9E, 0x09, 0xE2,
            0xC8, 0xA8, 0x33, 0x9C,
        ];
        proof {
            assert(hrr_random@ =~= spec_hrr_random());
        }
        ct_eq_bytes(self.random.as_slice(), hrr_random.as_slice())
    }
}

/// The extensions of a `ServerHello`.
pub type ServerHelloExtensions<'x> = Vector<'x, Extension<'x>, 6, 65535>;

/// TLS 1.3 cipher suites.
#[derive(Copy, Clone, Debug, PartialEq, Eq, Structural)]
pub enum CipherSuiteId {
    TlsAes128GcmSha256,
    TlsAes256GcmSha384,
    TlsChaCha20Poly1305,
    TlsAes128CcmSha256,
    TlsAes128Ccm8Sha256,
    /// An unrecognized value.
    Unknown(u16),
}

impl View for CipherSuiteId {
    type V = CipherSuiteId;

    open spec fn view(&self) -> CipherSuiteId {
        *self
    }
}

impl CipherSuiteId {
    /// The wire code of each variant, as the registry assigns it, and
    /// the variant that each of these codes is read as.
    pub proof fn lemma_wire_codes()
        ensures
            CipherSuiteId::TlsAes128GcmSha256.spec_to_repr() == 0x1301,
            CipherSuiteId::spec_from_repr(0x1301) == CipherSuiteId::TlsAes128GcmSha256,
            CipherSuiteId::TlsAes256GcmSha384.spec_to_repr() == 0x1302,
            CipherSuiteId::spec_from_repr(0x1302) == CipherSuiteId::TlsAes256GcmSha384,
            CipherSuiteId::TlsChaCha20Poly1305.spec_to_repr() == 0x1303,
            CipherSuiteId::spec_from_repr(0x1303) == CipherSuiteId::TlsChaCha20Poly1305,
            CipherSuiteId::TlsAes128CcmSha256.spec_to_repr() == 0x1304,
            CipherSuiteId::spec_from_repr(0x1304) == CipherSuiteId::TlsAes128CcmSha256,
            CipherSuiteId::TlsAes128Ccm8Sha256.spec_to_repr() == 0x1305,
            CipherSuiteId::spec_from_repr(0x1305) == CipherSuiteId::TlsAes128Ccm8Sha256,
    {
    }

    /// The value that stands for the enumeration on the wire.
    pub open spec fn spec_to_repr(self) -> u16 {
        match self {
            CipherSuiteId::TlsAes128GcmSha256 => 0x1301,
            CipherSuiteId::TlsAes256GcmSha384 => 0x1302,
            CipherSuiteId::TlsChaCha20Poly1305 => 0x1303,
            CipherSuiteId::TlsAes128CcmSha256 => 0x1304,
            CipherSuiteId::TlsAes128Ccm8Sha256 => 0x1305,
            CipherSuiteId::Unknown(v) => v,
        }
    }

    /// The enumeration that a wire value stands for.
    pub open spec fn spec_from_repr(repr: u16) -> CipherSuiteId {
        match repr {
            0x1301 => CipherSuiteId::TlsAes128GcmSha256,
            0x1302 => CipherSuiteId::TlsAes256GcmSha384,
            0x1303 => CipherSuiteId::TlsChaCha20Poly1305,
            0x1304 => CipherSuiteId::TlsAes128CcmSha256,
            0x1305 => CipherSuiteId::TlsAes128Ccm8Sha256,
            _ => CipherSuiteId::Unknown(repr),
        }
    }

    /// A value is canonical unless it is `Unknown` with a recognized
    /// value.
    pub open spec fn is_canonical(self) -> bool {
        self is Unknown ==> CipherSuiteId::spec_from_repr(self.spec_to_repr()) is Unknown
    }

    /// The name of the enumeration's variant.
    pub open spec fn spec_name(self) -> Seq<char> {
        match self {
            CipherSuiteId::TlsAes128GcmSha256 => "TlsAes128GcmSha256"@,
            CipherSuiteId::TlsAes256GcmSha384 => "TlsAes256GcmSha384"@,
            CipherSuiteId::TlsChaCha20Poly1305 => "TlsChaCha20Poly1305"@,
            CipherSuiteId::TlsAes128CcmSha256 => "TlsAes128CcmSha256"@,
            CipherSuiteId::TlsAes128Ccm8Sha256 => "TlsAes128Ccm8Sha256"@,
            CipherSuiteId::Unknown(_) => "unknown"@,
        }
    }

    /// Returns the enumeration as a string.
    pub fn to_str(self) -> (r: &'static str)
        ensures
            r@ == self.spec_name(),
    {
        match self {
            CipherSuiteId::TlsAes128GcmSha256 => "TlsAes128GcmSha256",
            CipherSuiteId::TlsAes256GcmSha384 => "TlsAes256GcmSha384",
            CipherSuiteId::TlsChaCha20Poly1305 => "TlsChaCha20Poly1305",
            CipherSuiteId::TlsAes128CcmSha256 => "TlsAes128CcmSha256",
            CipherSuiteId::TlsAes128Ccm8Sha256 => "TlsAes128Ccm8Sha256",
            CipherSuiteId::Unknown(_) => "unknown",
        }
    }

    /// Converts the enumeration to its repr.
    pub fn to_repr(self) -> (r: u16)
        ensures
            r == self.spec_to_repr(),
    {
        match self {
            CipherSuiteId::TlsAes128GcmSha256 => 0x1301,
            CipherSuiteId::TlsAes256GcmSha384 => 0x1302,
            CipherSuiteId::TlsChaCha20Poly1305 => 0x1303,
            CipherSuiteId::TlsAes128CcmSha256 => 0x1304,
            CipherSuiteId::TlsAes128Ccm8Sha256 => 0x1305,
            CipherSuiteId::Unknown(v) => v,
        }
    }

    /// Attempts to create the enumeration from its repr.
    pub fn try_from_repr(repr: u16) -> (r: Result<CipherSuiteId, Infallible>)
        ensures
            r == Ok::<CipherSuiteId, Infallible>(CipherSuiteId::spec_from_repr(repr)),
    {
        let v = match repr {
            0x1301 => CipherSuiteId::TlsAes128GcmSha256,
            0x1302 => CipherSuiteId::TlsAes256GcmSha384,
            0x1303 => CipherSuiteId::TlsChaCha20Poly1305,
            0x1304 => CipherSuiteId::TlsAes128CcmSha256,
            0x1305 => CipherSuiteId::TlsAes128Ccm8Sha256,
            _ => CipherSuiteId::Unknown(repr),
        };
        Ok(v)
    }

    /// Reading back the wire value of an enumeration gives the
    /// same wire value.
    pub proof fn lemma_repr_roundtrip(repr: u16)
        ensures
            CipherSuiteId::spec_from_repr(repr).spec_to_repr() == repr,
            CipherSuiteId::spec_from_repr(repr).is_canonical(),
    {
    }

    /// A canonical enumeration is given back by the wire value it
    /// stands for.
    pub proof fn lemma_value_roundtrip(v: CipherSuiteId)
        requires
            v.is_canonical(),
        ensures
            CipherSuiteId::spec_from_repr(v.spec_to_repr()) == v,
    {
    }
}

impl Object for CipherSuiteId {
    open spec fn spec_size() -> (nat, nat) {
        (2, 2)
    }

    fn size() -> (r: Size) {
        u16::size()
    }
}

impl<'de> TryParse<'de> for CipherSuiteId {
    open spec fn spec_parse(data: Seq<u8>) -> Result<(CipherSuiteId, nat), Alert> {
        match <u16 as TryParse<'de>>::spec_parse(data) {
            Ok((repr, n)) => Ok((CipherSuiteId::spec_from_repr(repr), n)),
            Err(a) => Err(a),
        }
    }

    open spec fn spec_skip(data: Seq<u8>) -> Result<nat, Alert> {
        match Self::spec_parse(data) {
            Ok((_, n)) => Ok(n),
            Err(a) => Err(a),
        }
    }

    proof fn lemma_parse_bounds(data: Seq<u8>) {
        <u16 as TryParse<'de>>::lemma_parse_bounds(data);
    }

    fn try_parse(data: &'de [u8]) -> (r: Result<(CipherSuiteId, &'de [u8]), Error>) {
        let (repr, rest) = match <u16 as TryParse<'de>>::try_parse(data) {
            Ok(x) => x,
            Err(e) => return Err(e),
        };
        let v = match CipherSuiteId::try_from_repr(repr) {
            Ok(v) => v,
            Err(_) => CipherSuiteId::Unknown(repr),
        };
        Ok((v, rest))
    }

    fn try_skip(data: &'de [u8]) -> (r: Result<&'de [u8], Error>) {
        match Self::try_parse(data) {
            Ok((_, rest)) => Ok(rest),
            Err(e) => Err(e),
        }
    }
}

impl TryEncode for CipherSuiteId {
    open spec fn spec_encode(v: Self::V, s: (Seq<u8>, nat)) -> ((Seq<u8>, nat), Result<(), Alert>) {
        <u16 as TryEncode>::spec_encode(v.spec_to_repr(), s)
    }

    fn try_encode(&self, out: &mut EncBuf<'_>) -> (r: Result<(), Error>) {
        self.to_repr().try_encode(out)
    }
}

impl CipherSuiteId {
    /// The cipher suite that two bytes on the wire stand for.
    pub open spec fn spec_from_suite(suite: Seq<u8>) -> CipherSuiteId {
        CipherSuiteId::spec_from_repr(spec_be16(suite) as u16)
    }

    /// Converts a cipher suite on the wire to its ID.
    pub fn from_suite(suite: CipherSuite) -> (r: CipherSuiteId)
        ensures
            r == CipherSuiteId::spec_from_suite(suite@),
    {
        let repr: u16 = (suite[0] as u16) * 0x100 + (suite[1] as u16);
        match CipherSuiteId::try_from_repr(repr) {
            Ok(id) => id,
            Err(_) => CipherSuiteId::Unknown(repr),
        }
    }
}

} // verus!
