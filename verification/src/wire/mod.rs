//! TLS wire format.

pub mod alert;
pub mod client;
pub mod alpn;
pub mod encode;
pub mod error;
pub mod ext;
pub mod parse;
pub mod roundtrip;
pub mod size;
pub mod sni;
pub mod tls13;
pub mod types;
pub mod vec;

use vstd::prelude::*;

pub use crate::wire::{
    encode::{EncBuf, TryEncode},
    error::{Error, Result},
    ext::{Extension, ExtensionType, MaxFragmentLength},
    parse::TryParse,
    size::{Object, Size},
    types::{uint24, u24},
};
use crate::wire::{
    alert::{Alert, AlertDesc},
    encode::EncState,
    parse::ParseOutcome,
    types::uint16,
};

verus! {

/// The header of a TLS record.
/// 
/// The fragment that follows the header is parsed in a second step.
#[derive(Copy, Clone, Debug)]
pub struct TLSPlaintext {
    pub type_: ContentType,
    pub legacy_record_version: ProtocolVersion,
    pub length: uint16,
}

impl View for TLSPlaintext {
    type V = (ContentType, ProtocolVersion, u16);

    open spec fn view(&self) -> (ContentType, ProtocolVersion, u16) {
        (self.type_@, self.legacy_record_version@, self.length@)
    }
}

impl Object for TLSPlaintext {
    open spec fn spec_size() -> (nat, nat) {
        (<ContentType as Object>::spec_size().0 + <ProtocolVersion as Object>::spec_size().0 + <uint16 as Object>::spec_size().0, <ContentType as Object>::spec_size().1 + <ProtocolVersion as Object>::spec_size().1 + <uint16 as Object>::spec_size().1)
    }

    fn size() -> (r: Size) {
        Size::new(5, 5)
    }
}

impl<'de> TryParse<'de> for TLSPlaintext {
    open spec fn spec_parse(data: Seq<u8>) -> ParseOutcome<(ContentType, ProtocolVersion, u16)> {
        match <ContentType as TryParse<'de>>::spec_parse(data) {
            Ok((v0, n0)) => {
                match <ProtocolVersion as TryParse<'de>>::spec_parse(data.skip((n0) as int)) {
                    Ok((v1, n1)) => {
                        match <uint16 as TryParse<'de>>::spec_parse(data.skip((n0 + n1) as int)) {
                            Ok((v2, n2)) => {
                                Ok(((v0, v1, v2), (n0 + n1 + n2) as nat))
                            },
                            Err(a) => Err(a),
                        }
                    },
                    Err(a) => Err(a),
                }
            },
            Err(a) => Err(a),
        }
    }

    open spec fn spec_skip(data: Seq<u8>) -> Result<nat, Alert> {
        match <ContentType as TryParse<'de>>::spec_skip(data) {
            Ok(n0) => {
                match <ProtocolVersion as TryParse<'de>>::spec_skip(data.skip((n0) as int)) {
                    Ok(n1) => {
                        match <uint16 as TryParse<'de>>::spec_skip(data.skip((n0 + n1) as int)) {
                            Ok(n2) => {
                                Ok((n0 + n1 + n2) as nat)
                            },
                            Err(a) => Err(a),
                        }
                    },
                    Err(a) => Err(a),
                }
            },
            Err(a) => Err(a),
        }
    }

    proof fn lemma_parse_bounds(data: Seq<u8>) {
        <ContentType as TryParse<'de>>::lemma_parse_bounds(data);
        if let Ok((_, n0)) = <ContentType as TryParse<'de>>::spec_parse(data) {
            <ProtocolVersion as TryParse<'de>>::lemma_parse_bounds(data.skip((n0) as int));
            if let Ok((_, n1)) = <ProtocolVersion as TryParse<'de>>::spec_parse(data.skip((n0) as int)) {
                <uint16 as TryParse<'de>>::lemma_parse_bounds(data.skip((n0 + n1) as int));
            }
        }
        <ContentType as TryParse<'de>>::lemma_parse_bounds(data);
        if let Ok(n0) = <ContentType as TryParse<'de>>::spec_skip(data) {
            <ProtocolVersion as TryParse<'de>>::lemma_parse_bounds(data.skip((n0) as int));
            if let Ok(n1) = <ProtocolVersion as TryParse<'de>>::spec_skip(data.skip((n0) as int)) {
                <uint16 as TryParse<'de>>::lemma_parse_bounds(data.skip((n0 + n1) as int));
            }
        }
    }

    fn try_parse(data: &'de [u8]) -> (r: core::result::Result<(TLSPlaintext, &'de [u8]), Error>) {
        let (type_, rest0) = match <ContentType as TryParse<'de>>::try_parse(data) {
            Ok(x) => x,
            Err(e) => return Err(e),
        };
        proof {
            assert(rest0@ =~= data@.skip((data@.len() - rest0@.len()) as int));
        }
        let (legacy_record_version, rest1) = match <ProtocolVersion as TryParse<'de>>::try_parse(rest0) {
            Ok(x) => x,
            Err(e) => return Err(e),
        };
        proof {
            assert(rest1@ =~= data@.skip((data@.len() - rest1@.len()) as int));
        }
        let (length, rest2) = match <uint16 as TryParse<'de>>::try_parse(rest1) {
            Ok(x) => x,
            Err(e) => return Err(e),
        };
        proof {
            assert(rest2@ =~= data@.skip((data@.len() - rest2@.len()) as int));
        }
        Ok((TLSPlaintext { type_, legacy_record_version, length }, rest2))
    }

    fn try_skip(data: &'de [u8]) -> (r: Result<&'de [u8], Error>) {
        let rest0 = match <ContentType as TryParse<'de>>::try_skip(data) {
            Ok(x) => x,
            Err(e) => return Err(e),
        };
        proof {
            assert(rest0@ =~= data@.skip((data@.len() - rest0@.len()) as int));
        }
        let rest1 = match <ProtocolVersion as TryParse<'de>>::try_skip(rest0) {
            Ok(x) => x,
            Err(e) => return Err(e),
        };
        proof {
            assert(rest1@ =~= data@.skip((data@.len() - rest1@.len()) as int));
        }
        let rest2 = match <uint16 as TryParse<'de>>::try_skip(rest1) {
            Ok(x) => x,
            Err(e) => return Err(e),
        };
        proof {
            assert(rest2@ =~= data@.skip((data@.len() - rest2@.len()) as int));
        }
        Ok(rest2)
    }
}

impl TryEncode for TLSPlaintext {
    open spec fn spec_encode(v: (ContentType, ProtocolVersion, u16), s: EncState) -> (EncState, Result<(), Alert>) {
        let (s0, r0) = <ContentType as TryEncode>::spec_encode(v.0, s);
        match r0 {
            Ok(()) => {
                let (s1, r1) = <ProtocolVersion as TryEncode>::spec_encode(v.1, s0);
                match r1 {
                    Ok(()) => {
                        <uint16 as TryEncode>::spec_encode(v.2, s1)
                    },
                    Err(a) => (s1, Err(a)),
                }
            },
            Err(a) => (s0, Err(a)),
        }
    }

    fn try_encode(&self, out: &mut EncBuf<'_>) -> (r: Result<(), Error>) {
        match self.type_.try_encode(out) {
            Ok(()) => {},
            Err(e) => return Err(e),
        }
        match self.legacy_record_version.try_encode(out) {
            Ok(()) => {},
            Err(e) => return Err(e),
        }
        self.length.try_encode(out)
    }
}
/// The TLS protocol version per RFC 8446.
#[derive(Copy, Clone, Debug, PartialEq, Eq, Structural)]
pub enum ProtocolVersion {
    Tls10,
    Tls11,
    Tls12,
    Tls13,
}

impl View for ProtocolVersion {
    type V = ProtocolVersion;

    open spec fn view(&self) -> ProtocolVersion {
        *self
    }
}

impl ProtocolVersion {
    /// The wire code of each variant, as the registry assigns it, and
    /// the variant that each of these codes is read as.
    pub proof fn lemma_wire_codes()
        ensures
            ProtocolVersion::Tls10.spec_to_repr() == 0x0301,
            ProtocolVersion::spec_try_from_repr(0x0301) == Some(ProtocolVersion::Tls10),
            ProtocolVersion::Tls11.spec_to_repr() == 0x0302,
            ProtocolVersion::spec_try_from_repr(0x0302) == Some(ProtocolVersion::Tls11),
            ProtocolVersion::Tls12.spec_to_repr() == 0x0303,
            ProtocolVersion::spec_try_from_repr(0x0303) == Some(ProtocolVersion::Tls12),
            ProtocolVersion::Tls13.spec_to_repr() == 0x0304,
            ProtocolVersion::spec_try_from_repr(0x0304) == Some(ProtocolVersion::Tls13),
    {
    }

    /// The value that stands for the enumeration on the wire.
    pub open spec fn spec_to_repr(self) -> u16 {
        match self {
            ProtocolVersion::Tls10 => 0x0301,
            ProtocolVersion::Tls11 => 0x0302,
            ProtocolVersion::Tls12 => 0x0303,
            ProtocolVersion::Tls13 => 0x0304,
        }
    }

    /// The enumeration that a wire value stands for, if any.
    pub open spec fn spec_try_from_repr(repr: u16) -> Option<ProtocolVersion> {
        match repr {
            0x0301 => Some(ProtocolVersion::Tls10),
            0x0302 => Some(ProtocolVersion::Tls11),
            0x0303 => Some(ProtocolVersion::Tls12),
            0x0304 => Some(ProtocolVersion::Tls13),
            _ => None,
        }
    }

    /// The error for a wire value that stands for no variant.
    pub open spec fn spec_invalid_alert() -> Alert {
        Alert::spec_new(AlertDesc::ProtocolVersion)
    }

    /// The name of the enumeration's variant.
    pub open spec fn spec_name(self) -> Seq<char> {
        match self {
            ProtocolVersion::Tls10 => "Tls10"@,
            ProtocolVersion::Tls11 => "Tls11"@,
            ProtocolVersion::Tls12 => "Tls12"@,
            ProtocolVersion::Tls13 => "Tls13"@,
        }
    }

    /// Returns the enumeration as a string.
    pub fn to_str(self) -> (r: &'static str)
        ensures
            r@ == self.spec_name(),
    {
        match self {
            ProtocolVersion::Tls10 => "Tls10",
            ProtocolVersion::Tls11 => "Tls11",
            ProtocolVersion::Tls12 => "Tls12",
            ProtocolVersion::Tls13 => "Tls13",
        }
    }

    /// Converts the enumeration to its repr.
    pub fn to_repr(self) -> (r: u16)
        ensures
            r == self.spec_to_repr(),
    {
        match self {
            ProtocolVersion::Tls10 => 0x0301,
            ProtocolVersion::Tls11 => 0x0302,
            ProtocolVersion::Tls12 => 0x0303,
            ProtocolVersion::Tls13 => 0x0304,
        }
    }

    /// Attempts to create the enumeration from its repr.
    pub fn try_from_repr(repr: u16) -> (r: Result<ProtocolVersion, Error>)
        ensures
            match ProtocolVersion::spec_try_from_repr(repr) {
                Some(v) => r == Ok::<ProtocolVersion, Error>(v),
                None => r matches Err(e) && e@ == ProtocolVersion::spec_invalid_alert(),
            },
    {
        let v = match repr {
            0x0301 => ProtocolVersion::Tls10,
            0x0302 => ProtocolVersion::Tls11,
            0x0303 => ProtocolVersion::Tls12,
            0x0304 => ProtocolVersion::Tls13,
            _ => return Err(Error::protocol_version("invalid protocol version")),
        };
        Ok(v)
    }

    /// Each variant is given back by its wire value, and only the
    /// wire value of a variant stands for one.
    pub proof fn lemma_repr_roundtrip(v: ProtocolVersion, repr: u16)
        ensures
            ProtocolVersion::spec_try_from_repr(v.spec_to_repr()) == Some(v),
            ProtocolVersion::spec_try_from_repr(repr) matches Some(w) ==> w.spec_to_repr() == repr,
    {
    }
}

impl Object for ProtocolVersion {
    open spec fn spec_size() -> (nat, nat) {
        (2, 2)
    }

    fn size() -> (r: Size) {
        u16::size()
    }
}

impl<'de> TryParse<'de> for ProtocolVersion {
    open spec fn spec_parse(data: Seq<u8>) -> Result<(ProtocolVersion, nat), Alert> {
        match <u16 as TryParse<'de>>::spec_parse(data) {
            Ok((repr, n)) => match ProtocolVersion::spec_try_from_repr(repr) {
                Some(v) => Ok((v, n)),
                None => Err(ProtocolVersion::spec_invalid_alert()),
            },
            Err(a) => Err(a),
        }
    }

    open spec fn spec_skip(data: Seq<u8>) -> Result<nat, Alert> {
        match Self::spec_parse(data) {
            Ok((_, n)) => Ok(n),
            Err(a) => Err(a),
        }
    }

    proof fn lemma_parse_bounds(data: Seq<u8>) {
        <u16 as TryParse<'de>>::lemma_parse_bounds(data);
    }

    fn try_parse(data: &'de [u8]) -> (r: Result<(ProtocolVersion, &'de [u8]), Error>) {
        let (repr, rest) = match <u16 as TryParse<'de>>::try_parse(data) {
            Ok(x) => x,
            Err(e) => return Err(e),
        };
        match ProtocolVersion::try_from_repr(repr) {
            Ok(v) => Ok((v, rest)),
            Err(e) => Err(e),
        }
    }

    fn try_skip(data: &'de [u8]) -> (r: Result<&'de [u8], Error>) {
        match Self::try_parse(data) {
            Ok((_, rest)) => Ok(rest),
            Err(e) => Err(e),
        }
    }
}

impl TryEncode for ProtocolVersion {
    open spec fn spec_encode(v: Self::V, s: (Seq<u8>, nat)) -> ((Seq<u8>, nat), Result<(), Alert>) {
        <u16 as TryEncode>::spec_encode(v.spec_to_repr(), s)
    }

    fn try_encode(&self, out: &mut EncBuf<'_>) -> (r: Result<(), Error>) {
        self.to_repr().try_encode(out)
    }
}

/// Identifies the content in a TLS record.
#[derive(Copy, Clone, Debug, PartialEq, Eq, Structural)]
pub enum ContentType {
    Invalid,
    ChangeCipherSpec,
    Alert,
    Handshake,
    ApplicationData,
    Heartbeat,
}

impl View for ContentType {
    type V = ContentType;

    open spec fn view(&self) -> ContentType {
        *self
    }
}

impl ContentType {
    /// The wire code of each variant, as the registry assigns it, and
    /// the variant that each of these codes is read as.
    pub proof fn lemma_wire_codes()
        ensures
            ContentType::Invalid.spec_to_repr() == 0,
            ContentType::spec_try_from_repr(0) == Some(ContentType::Invalid),
            ContentType::ChangeCipherSpec.spec_to_repr() == 20,
            ContentType::spec_try_from_repr(20) == Some(ContentType::ChangeCipherSpec),
            ContentType::Alert.spec_to_repr() == 21,
            ContentType::spec_try_from_repr(21) == Some(ContentType::Alert),
            ContentType::Handshake.spec_to_repr() == 22,
            ContentType::spec_try_from_repr(22) == Some(ContentType::Handshake),
            ContentType::ApplicationData.spec_to_repr() == 23,
            ContentType::spec_try_from_repr(23) == Some(ContentType::ApplicationData),
            ContentType::Heartbeat.spec_to_repr() == 24,
            ContentType::spec_try_from_repr(24) == Some(ContentType::Heartbeat),
    {
    }

    /// The value that stands for the enumeration on the wire.
    pub open spec fn spec_to_repr(self) -> u8 {
        match self {
            ContentType::Invalid => 0,
            ContentType::ChangeCipherSpec => 20,
            ContentType::Alert => 21,
            ContentType::Handshake => 22,
            ContentType::ApplicationData => 23,
            ContentType::Heartbeat => 24,
        }
    }

    /// The enumeration that a wire value stands for, if any.
    pub open spec fn spec_try_from_repr(repr: u8) -> Option<ContentType> {
        match repr {
            0 => Some(ContentType::Invalid),
            20 => Some(ContentType::ChangeCipherSpec),
            21 => Some(ContentType::Alert),
            22 => Some(ContentType::Handshake),
            23 => Some(ContentType::ApplicationData),
            24 => Some(ContentType::Heartbeat),
            _ => None,
        }
    }

    /// The error for a wire value that stands for no variant.
    pub open spec fn spec_invalid_alert() -> Alert {
        Alert::spec_new(AlertDesc::UnexpectedMessage)
    }

    /// The name of the enumeration's variant.
    pub open spec fn spec_name(self) -> Seq<char> {
        match self {
            ContentType::Invalid => "Invalid"@,
            ContentType::ChangeCipherSpec => "ChangeCipherSpec"@,
            ContentType::Alert => "Alert"@,
            ContentType::Handshake => "Handshake"@,
            ContentType::ApplicationData => "ApplicationData"@,
            ContentType::Heartbeat => "Heartbeat"@,
        }
    }

    /// Returns the enumeration as a string.
    pub fn to_str(self) -> (r: &'static str)
        ensures
            r@ == self.spec_name(),
    {
        match self {
            ContentType::Invalid => "Invalid",
            ContentType::ChangeCipherSpec => "ChangeCipherSpec",
            ContentType::Alert => "Alert",
            ContentType::Handshake => "Handshake",
            ContentType::ApplicationData => "ApplicationData",
            ContentType::Heartbeat => "Heartbeat",
        }
    }

    /// Converts the enumeration to its repr.
    pub fn to_repr(self) -> (r: u8)
        ensures
            r == self.spec_to_repr(),
    {
        match self {
            ContentType::Invalid => 0,
            ContentType::ChangeCipherSpec => 20,
            ContentType::Alert => 21,
            ContentType::Handshake => 22,
            ContentType::ApplicationData => 23,
            ContentType::Heartbeat => 24,
        }
    }

    /// Attempts to create the enumeration from its repr.
    pub fn try_from_repr(repr: u8) -> (r: Result<ContentType, Error>)
        ensures
            match ContentType::spec_try_from_repr(repr) {
                Some(v) => r == Ok::<ContentType, Error>(v),
                None => r matches Err(e) && e@ == ContentType::spec_invalid_alert(),
            },
    {
        let v = match repr {
            0 => ContentType::Invalid,
            20 => ContentType::ChangeCipherSpec,
            21 => ContentType::Alert,
            22 => ContentType::Handshake,
            23 => ContentType::ApplicationData,
            24 => ContentType::Heartbeat,
            _ => return Err(Error::unexpected_message("unknown content type")),
        };
        Ok(v)
    }

    /// Each variant is given back by its wire value, and only the
    /// wire value of a variant stands for one.
    pub proof fn lemma_repr_roundtrip(v: ContentType, repr: u8)
        ensures
            ContentType::spec_try_from_repr(v.spec_to_repr()) == Some(v),
            ContentType::spec_try_from_repr(repr) matches Some(w) ==> w.spec_to_repr() == repr,
    {
    }
}

impl Object for ContentType {
    open spec fn spec_size() -> (nat, nat) {
        (1, 1)
    }

    fn size() -> (r: Size) {
        u8::size()
    }
}

impl<'de> TryParse<'de> for ContentType {
    open spec fn spec_parse(data: Seq<u8>) -> Result<(ContentType, nat), Alert> {
        match <u8 as TryParse<'de>>::spec_parse(data) {
            Ok((repr, n)) => match ContentType::spec_try_from_repr(repr) {
                Some(v) => Ok((v, n)),
                None => Err(ContentType::spec_invalid_alert()),
            },
            Err(a) => Err(a),
        }
    }

    open spec fn spec_skip(data: Seq<u8>) -> Result<nat, Alert> {
        match Self::spec_parse(data) {
            Ok((_, n)) => Ok(n),
            Err(a) => Err(a),
        }
    }

    proof fn lemma_parse_bounds(data: Seq<u8>) {
        <u8 as TryParse<'de>>::lemma_parse_bounds(data);
    }

    fn try_parse(data: &'de [u8]) -> (r: Result<(ContentType, &'de [u8]), Error>) {
        let (repr, rest) = match <u8 as TryParse<'de>>::try_parse(data) {
            Ok(x) => x,
            Err(e) => return Err(e),
        };
        match ContentType::try_from_repr(repr) {
            Ok(v) => Ok((v, rest)),
            Err(e) => Err(e),
        }
    }

    fn try_skip(data: &'de [u8]) -> (r: Result<&'de [u8], Error>) {
        match Self::try_parse(data) {
            Ok((_, rest)) => Ok(rest),
            Err(e) => Err(e),
        }
    }
}

impl TryEncode for ContentType {
    open spec fn spec_encode(v: Self::V, s: (Seq<u8>, nat)) -> ((Seq<u8>, nat), Result<(), Alert>) {
        <u8 as TryEncode>::spec_encode(v.spec_to_repr(), s)
    }

    fn try_encode(&self, out: &mut EncBuf<'_>) -> (r: Result<(), Error>) {
        self.to_repr().try_encode(out)
    }
}

/// Handshake type.
#[derive(Copy, Clone, Debug, PartialEq, Eq, Structural)]
pub enum HandshakeType {
    ClientHello,
    ServerHello,
    NewSessionTicket,
    EndOfEarlyData,
    EncryptedExtensions,
    Certificate,
    CertificateRequest,
    CertificateVerify,
    Finished,
    KeyUpdate,
    MessageHash,
}

impl View for HandshakeType {
    type V = HandshakeType;

    open spec fn view(&self) -> HandshakeType {
        *self
    }
}

impl HandshakeType {
    /// The wire code of each variant, as the registry assigns it, and
    /// the variant that each of these codes is read as.
    pub proof fn lemma_wire_codes()
        ensures
            HandshakeType::ClientHello.spec_to_repr() == 1,
            HandshakeType::spec_try_from_repr(1) == Some(HandshakeType::ClientHello),
            HandshakeType::ServerHello.spec_to_repr() == 2,
            HandshakeType::spec_try_from_repr(2) == Some(HandshakeType::ServerHello),
            HandshakeType::NewSessionTicket.spec_to_repr() == 4,
            HandshakeType::spec_try_from_repr(4) == Some(HandshakeType::NewSessionTicket),
            HandshakeType::EndOfEarlyData.spec_to_repr() == 5,
            HandshakeType::spec_try_from_repr(5) == Some(HandshakeType::EndOfEarlyData),
            HandshakeType::EncryptedExtensions.spec_to_repr() == 8,
            HandshakeType::spec_try_from_repr(8) == Some(HandshakeType::EncryptedExtensions),
            HandshakeType::Certificate.spec_to_repr() == 11,
            HandshakeType::spec_try_from_repr(11) == Some(HandshakeType::Certificate),
            HandshakeType::CertificateRequest.spec_to_repr() == 13,
            HandshakeType::spec_try_from_repr(13) == Some(HandshakeType::CertificateRequest),
            HandshakeType::CertificateVerify.spec_to_repr() == 15,
            HandshakeType::spec_try_from_repr(15) == Some(HandshakeType::CertificateVerify),
            HandshakeType::Finished.spec_to_repr() == 20,
            HandshakeType::spec_try_from_repr(20) == Some(HandshakeType::Finished),
            HandshakeType::KeyUpdate.spec_to_repr() == 24,
            HandshakeType::spec_try_from_repr(24) == Some(HandshakeType::KeyUpdate),
            HandshakeType::MessageHash.spec_to_repr() == 254,
            HandshakeType::spec_try_from_repr(254) == Some(HandshakeType::MessageHash),
    {
    }

    /// The value that stands for the enumeration on the wire.
    pub open spec fn spec_to_repr(self) -> u8 {
        match self {
            HandshakeType::ClientHello => 1,
            HandshakeType::ServerHello => 2,
            HandshakeType::NewSessionTicket => 4,
            HandshakeType::EndOfEarlyData => 5,
            HandshakeType::EncryptedExtensions => 8,
            HandshakeType::Certificate => 11,
            HandshakeType::CertificateRequest => 13,
            HandshakeType::CertificateVerify => 15,
            HandshakeType::Finished => 20,
            HandshakeType::KeyUpdate => 24,
            HandshakeType::MessageHash => 254,
        }
    }

    /// The enumeration that a wire value stands for, if any.
    pub open spec fn spec_try_from_repr(repr: u8) -> Option<HandshakeType> {
        match repr {
            1 => Some(HandshakeType::ClientHello),
            2 => Some(HandshakeType::ServerHello),
            4 => Some(HandshakeType::NewSessionTicket),
            5 => Some(HandshakeType::EndOfEarlyData),
            8 => Some(HandshakeType::EncryptedExtensions),
            11 => Some(HandshakeType::Certificate),
            13 => Some(HandshakeType::CertificateRequest),
            15 => Some(HandshakeType::CertificateVerify),
            20 => Some(HandshakeType::Finished),
            24 => Some(HandshakeType::KeyUpdate),
            254 => Some(HandshakeType::MessageHash),
            _ => None,
        }
    }

    /// The error for a wire value that stands for no variant.
    pub open spec fn spec_invalid_alert() -> Alert {
        Alert::spec_new(AlertDesc::DecodeDrror)
    }

    /// The name of the enumeration's variant.
    pub open spec fn spec_name(self) -> Seq<char> {
        match self {
            HandshakeType::ClientHello => "ClientHello"@,
            HandshakeType::ServerHello => "ServerHello"@,
            HandshakeType::NewSessionTicket => "NewSessionTicket"@,
            HandshakeType::EndOfEarlyData => "EndOfEarlyData"@,
            HandshakeType::EncryptedExtensions => "EncryptedExtensions"@,
            HandshakeType::Certificate => "Certificate"@,
            HandshakeType::CertificateRequest => "CertificateRequest"@,
            HandshakeType::CertificateVerify => "CertificateVerify"@,
            HandshakeType::Finished => "Finished"@,
            HandshakeType::KeyUpdate => "KeyUpdate"@,
            HandshakeType::MessageHash => "MessageHash"@,
        }
    }

    /// Returns the enumeration as a string.
    pub fn to_str(self) -> (r: &'static str)
        ensures
            r@ == self.spec_name(),
    {
        match self {
            HandshakeType::ClientHello => "ClientHello",
            HandshakeType::ServerHello => "ServerHello",
            HandshakeType::NewSessionTicket => "NewSessionTicket",
            HandshakeType::EndOfEarlyData => "EndOfEarlyData",
            HandshakeType::EncryptedExtensions => "EncryptedExtensions",
            HandshakeType::Certificate => "Certificate",
            HandshakeType::CertificateRequest => "CertificateRequest",
            HandshakeType::CertificateVerify => "CertificateVerify",
            HandshakeType::Finished => "Finished",
            HandshakeType::KeyUpdate => "KeyUpdate",
            HandshakeType::MessageHash => "MessageHash",
        }
    }

    /// Converts the enumeration to its repr.
    pub fn to_repr(self) -> (r: u8)
        ensures
            r == self.spec_to_repr(),
    {
        match self {
            HandshakeType::ClientHello => 1,
            HandshakeType::ServerHello => 2,
            HandshakeType::NewSessionTicket => 4,
            HandshakeType::EndOfEarlyData => 5,
            HandshakeType::EncryptedExtensions => 8,
            HandshakeType::Certificate => 11,
            HandshakeType::CertificateRequest => 13,
            HandshakeType::CertificateVerify => 15,
            HandshakeType::Finished => 20,
            HandshakeType::KeyUpdate => 24,
            HandshakeType::MessageHash => 254,
        }
    }

    /// Attempts to create the enumeration from its repr.
    pub fn try_from_repr(repr: u8) -> (r: Result<HandshakeType, Error>)
        ensures
            match HandshakeType::spec_try_from_repr(repr) {
                Some(v) => r == Ok::<HandshakeType, Error>(v),
                None => r matches Err(e) && e@ == HandshakeType::spec_invalid_alert(),
            },
    {
        let v = match repr {
            1 => HandshakeType::ClientHello,
            2 => HandshakeType::ServerHello,
            4 => HandshakeType::NewSessionTicket,
            5 => HandshakeType::EndOfEarlyData,
            8 => HandshakeType::EncryptedExtensions,
            11 => HandshakeType::Certificate,
            13 => HandshakeType::CertificateRequest,
            15 => HandshakeType::CertificateVerify,
            20 => HandshakeType::Finished,
            24 => HandshakeType::KeyUpdate,
            254 => HandshakeType::MessageHash,
            _ => return Err(Error::decode_error("unexpected handshake type")),
        };
        Ok(v)
    }

    /// Each variant is given back by its wire value, and only the
    /// wire value of a variant stands for one.
    pub proof fn lemma_repr_roundtrip(v: HandshakeType, repr: u8)
        ensures
            HandshakeType::spec_try_from_repr(v.spec_to_repr()) == Some(v),
            HandshakeType::spec_try_from_repr(repr) matches Some(w) ==> w.spec_to_repr() == repr,
    {
    }
}

impl Object for HandshakeType {
    open spec fn spec_size() -> (nat, nat) {
        (1, 1)
    }

    fn size() -> (r: Size) {
        u8::size()
    }
}

impl<'de> TryParse<'de> for HandshakeType {
    open spec fn spec_parse(data: Seq<u8>) -> Result<(HandshakeType, nat), Alert> {
        match <u8 as TryParse<'de>>::spec_parse(data) {
            Ok((repr, n)) => match HandshakeType::spec_try_from_repr(repr) {
                Some(v) => Ok((v, n)),
                None => Err(HandshakeType::spec_invalid_alert()),
            },
            Err(a) => Err(a),
        }
    }

    open spec fn spec_skip(data: Seq<u8>) -> Result<nat, Alert> {
        match Self::spec_parse(data) {
            Ok((_, n)) => Ok(n),
            Err(a) => Err(a),
        }
    }

    proof fn lemma_parse_bounds(data: Seq<u8>) {
        <u8 as TryParse<'de>>::lemma_parse_bounds(data);
    }

    fn try_parse(data: &'de [u8]) -> (r: Result<(HandshakeType, &'de [u8]), Error>) {
        let (repr, rest) = match <u8 as TryParse<'de>>::try_parse(data) {
            Ok(x) => x,
            Err(e) => return Err(e),
        };
        match HandshakeType::try_from_repr(repr) {
            Ok(v) => Ok((v, rest)),
            Err(e) => Err(e),
        }
    }

    fn try_skip(data: &'de [u8]) -> (r: Result<&'de [u8], Error>) {
        match Self::try_parse(data) {
            Ok((_, rest)) => Ok(rest),
            Err(e) => Err(e),
        }
    }
}

impl TryEncode for HandshakeType {
    open spec fn spec_encode(v: Self::V, s: (Seq<u8>, nat)) -> ((Seq<u8>, nat), Result<(), Alert>) {
        <u8 as TryEncode>::spec_encode(v.spec_to_repr(), s)
    }

    fn try_encode(&self, out: &mut EncBuf<'_>) -> (r: Result<(), Error>) {
        self.to_repr().try_encode(out)
    }
}

/// The header of a handshake message, excluding the message itself.
#[derive(Copy, Clone, Debug)]
pub struct HandshakeHeader {
    pub msg_type: HandshakeType,
    pub length: uint24,
}

impl View for HandshakeHeader {
    type V = (HandshakeType, nat);

    open spec fn view(&self) -> (HandshakeType, nat) {
        (self.msg_type@, self.length@)
    }
}

impl Object for HandshakeHeader {
    open spec fn spec_size() -> (nat, nat) {
        (<HandshakeType as Object>::spec_size().0 + <uint24 as Object>::spec_size().0, <HandshakeType as Object>::spec_size().1 + <uint24 as Object>::spec_size().1)
    }

    fn size() -> (r: Size) {
        Size::new(4, 4)
    }
}

impl<'de> TryParse<'de> for HandshakeHeader {
    open spec fn spec_parse(data: Seq<u8>) -> ParseOutcome<(HandshakeType, nat)> {
        match <HandshakeType as TryParse<'de>>::spec_parse(data) {
            Ok((v0, n0)) => {
                match <uint24 as TryParse<'de>>::spec_parse(data.skip((n0) as int)) {
                    Ok((v1, n1)) => {
                        Ok(((v0, v1), (n0 + n1) as nat))
                    },
                    Err(a) => Err(a),
                }
            },
            Err(a) => Err(a),
        }
    }

    open spec fn spec_skip(data: Seq<u8>) -> Result<nat, Alert> {
        match <HandshakeType as TryParse<'de>>::spec_skip(data) {
            Ok(n0) => {
                match <uint24 as TryParse<'de>>::spec_skip(data.skip((n0) as int)) {
                    Ok(n1) => {
                        Ok((n0 + n1) as nat)
                    },
                    Err(a) => Err(a),
                }
            },
            Err(a) => Err(a),
        }
    }

    proof fn lemma_parse_bounds(data: Seq<u8>) {
        <HandshakeType as TryParse<'de>>::lemma_parse_bounds(data);
        if let Ok((_, n0)) = <HandshakeType as TryParse<'de>>::spec_parse(data) {
            <uint24 as TryParse<'de>>::lemma_parse_bounds(data.skip((n0) as int));
        }
        <HandshakeType as TryParse<'de>>::lemma_parse_bounds(data);
        if let Ok(n0) = <HandshakeType as TryParse<'de>>::spec_skip(data) {
            <uint24 as TryParse<'de>>::lemma_parse_bounds(data.skip((n0) as int));
        }
    }

    fn try_parse(data: &'de [u8]) -> (r: Result<(HandshakeHeader, &'de [u8]), Error>) {
        let (msg_type, rest0) = match <HandshakeType as TryParse<'de>>::try_parse(data) {
            Ok(x) => x,
            Err(e) => return Err(e),
        };
        proof {
            assert(rest0@ =~= data@.skip((data@.len() - rest0@.len()) as int));
        }
        let (length, rest1) = match <uint24 as TryParse<'de>>::try_parse(rest0) {
            Ok(x) => x,
            Err(e) => return Err(e),
        };
        proof {
            assert(rest1@ =~= data@.skip((data@.len() - rest1@.len()) as int));
        }
        Ok((HandshakeHeader { msg_type, length }, rest1))
    }

    fn try_skip(data: &'de [u8]) -> (r: Result<&'de [u8], Error>) {
        let rest0 = match <HandshakeType as TryParse<'de>>::try_skip(data) {
            Ok(x) => x,
            Err(e) => return Err(e),
        };
        proof {
            assert(rest0@ =~= data@.skip((data@.len() - rest0@.len()) as int));
        }
        let rest1 = match <uint24 as TryParse<'de>>::try_skip(rest0) {
            Ok(x) => x,
            Err(e) => return Err(e),
        };
        proof {
            assert(rest1@ =~= data@.skip((data@.len() - rest1@.len()) as int));
        }
        Ok(rest1)
    }
}

impl TryEncode for HandshakeHeader {
    open spec fn spec_encode(v: (HandshakeType, nat), s: EncState) -> (EncState, Result<(), Alert>) {
        let (s0, r0) = <HandshakeType as TryEncode>::spec_encode(v.0, s);
        match r0 {
            Ok(()) => {
                <uint24 as TryEncode>::spec_encode(v.1, s0)
            },
            Err(a) => (s0, Err(a)),
        }
    }

    fn try_encode(&self, out: &mut EncBuf<'_>) -> (r: Result<(), Error>) {
        match self.msg_type.try_encode(out) {
            Ok(()) => {},
            Err(e) => return Err(e),
        }
        self.length.try_encode(out)
    }
}
} // verus!
