use core::convert::Infallible;

use vstd::prelude::*;

use crate::wire::{
    alert::{Alert, AlertDesc},
    encode::{EncBuf, EncState, TryEncode},
    error::Error,
    parse::{parse_all_outcome, ParseOutcome, TryParse},
    size::{Object, Size},
    types::opaque,
    vec::Vector,
};

verus! {

/// An extension.
#[derive(Copy, Clone, Debug)]
pub struct Extension<'a> {
    pub extension_type: ExtensionType,
    pub extension_data: Vector<'a, opaque, 0, 65535>,
}

impl<'a> View for Extension<'a> {
    type V = (ExtensionType, Seq<u8>);

    open spec fn view(&self) -> (ExtensionType, Seq<u8>) {
        (self.extension_type@, self.extension_data@)
    }
}

impl<'a> Object for Extension<'a> {
    open spec fn spec_size() -> (nat, nat) {
        (<ExtensionType as Object>::spec_size().0 + <Vector<'a, opaque, 0, 65535> as Object>::spec_size().0, <ExtensionType as Object>::spec_size().1 + <Vector<'a, opaque, 0, 65535> as Object>::spec_size().1)
    }

    fn size() -> (r: Size) {
        Size::new(2, 65537)
    }
}

impl<'de: 'a, 'a> TryParse<'de> for Extension<'a> {
    open spec fn spec_parse(data: Seq<u8>) -> ParseOutcome<(ExtensionType, Seq<u8>)> {
        match <ExtensionType as TryParse<'de>>::spec_parse(data) {
            Ok((v0, n0)) => {
                match <Vector<'a, opaque, 0, 65535> as TryParse<'de>>::spec_parse(data.skip((n0) as int)) {
                    Ok((v1, n1)) => {
                        Ok(((v0, v1), (n0 + n1) as nat))
                    },
                    Err(a) => Err(a),
                }
            },
            Err(a) => Err(a),
        }
    }

    open spec fn spec_skip(data: Seq<u8>) -> Result<nat, Alert> {
        match <ExtensionType as TryParse<'de>>::spec_skip(data) {
            Ok(n0) => {
                match <Vector<'a, opaque, 0, 65535> as TryParse<'de>>::spec_skip(data.skip((n0) as int)) {
                    Ok(n1) => {
                        Ok((n0 + n1) as nat)
                    },
                    Err(a) => Err(a),
                }
            },
            Err(a) => Err(a),
        }
    }

    proof fn lemma_parse_bounds(data: Seq<u8>) {
        <ExtensionType as TryParse<'de>>::lemma_parse_bounds(data);
        if let Ok((_, n0)) = <ExtensionType as TryParse<'de>>::spec_parse(data) {
            <Vector<'a, opaque, 0, 65535> as TryParse<'de>>::lemma_parse_bounds(data.skip((n0) as int));
        }
        <ExtensionType as TryParse<'de>>::lemma_parse_bounds(data);
        if let Ok(n0) = <ExtensionType as TryParse<'de>>::spec_skip(data) {
            <Vector<'a, opaque, 0, 65535> as TryParse<'de>>::lemma_parse_bounds(data.skip((n0) as int));
        }
    }

    fn try_parse(data: &'de [u8]) -> (r: Result<(Extension<'a>, &'de [u8]), Error>) {
        let (extension_type, rest0) = match <ExtensionType as TryParse<'de>>::try_parse(data) {
            Ok(x) => x,
            Err(e) => return Err(e),
        };
        proof {
            assert(rest0@ =~= data@.skip((data@.len() - rest0@.len()) as int));
        }
        let (extension_data, rest1) = match <Vector<'a, opaque, 0, 65535> as TryParse<'de>>::try_parse(rest0) {
            Ok(x) => x,
            Err(e) => return Err(e),
        };
        proof {
            assert(rest1@ =~= data@.skip((data@.len() - rest1@.len()) as int));
        }
        Ok((Extension { extension_type, extension_data }, rest1))
    }

    fn try_skip(data: &'de [u8]) -> (r: Result<&'de [u8], Error>) {
        let rest0 = match <ExtensionType as TryParse<'de>>::try_skip(data) {
            Ok(x) => x,
            Err(e) => return Err(e),
        };
        proof {
            assert(rest0@ =~= data@.skip((data@.len() - rest0@.len()) as int));
        }
        let rest1 = match <Vector<'a, opaque, 0, 65535> as TryParse<'de>>::try_skip(rest0) {
            Ok(x) => x,
            Err(e) => return Err(e),
        };
        proof {
            assert(rest1@ =~= data@.skip((data@.len() - rest1@.len()) as int));
        }
        Ok(rest1)
    }
}

impl<'a> TryEncode for Extension<'a> {
    open spec fn spec_encode(v: (ExtensionType, Seq<u8>), s: EncState) -> (EncState, Result<(), Alert>) {
        let (s0, r0) = <ExtensionType as TryEncode>::spec_encode(v.0, s);
        match r0 {
            Ok(()) => {
                <Vector<'a, opaque, 0, 65535> as TryEncode>::spec_encode(v.1, s0)
            },
            Err(a) => (s0, Err(a)),
        }
    }

    fn try_encode(&self, out: &mut EncBuf<'_>) -> (r: Result<(), Error>) {
        match self.extension_type.try_encode(out) {
            Ok(()) => {},
            Err(e) => return Err(e),
        }
        self.extension_data.try_encode(out)
    }
}
impl<'a> Extension<'a> {
    /// Returns the extension type.
    pub fn ty(&self) -> (r: ExtensionType)
        ensures
            r == self.extension_type,
    {
        self.extension_type
    }

    /// Returns the opaque extension data.
    pub fn data(&self) -> (r: &[u8])
        ensures
            r@ == self.extension_data@,
    {
        self.extension_data.as_slice()
    }

    /// Parses the extension data as a `T`, which must take up all of it.
    pub(crate) fn try_parse_data<T: TryParse<'a>>(&self) -> (r: Result<T, Error>)
        ensures
            match r {
                Ok(v) => parse_all_outcome(T::spec_parse(self.extension_data@), self.extension_data@)
                    == Ok::<<T as View>::V, Alert>(v@),
                Err(e) => parse_all_outcome(T::spec_parse(self.extension_data@), self.extension_data@)
                    == Err::<<T as View>::V, Alert>(e@),
            },
    {
        T::try_parse_all(self.extension_data.into_slice())
    }
}

/// TLS extension types.
#[derive(Copy, Clone, Debug, PartialEq, Eq, Structural)]
pub enum ExtensionType {
    ServerName,
    MaxFragmentLength,
    StatusRequest,
    SupportedGroups,
    SignatureAlgorithms,
    UseSrtp,
    Heartbeat,
    Alpn,
    Sct,
    ClientCertificateType,
    ServerCertificateType,
    Padding,
    PreSharedKey,
    EarlyData,
    SupportedVersions,
    Cookie,
    PskKexModes,
    CertificateAuthorities,
    OidFilters,
    PostHandshakeAuth,
    SignatureAlgorithmsCert,
    KeyShare,
    /// An unrecognized value.
    Unknown(u16),
}

impl View for ExtensionType {
    type V = ExtensionType;

    open spec fn view(&self) -> ExtensionType {
        *self
    }
}

impl ExtensionType {
    /// The wire code of each variant, as the registry assigns it, and
    /// the variant that each of these codes is read as.
    pub proof fn lemma_wire_codes()
        ensures
            ExtensionType::ServerName.spec_to_repr() == 0,
            ExtensionType::spec_from_repr(0) == ExtensionType::ServerName,
            ExtensionType::MaxFragmentLength.spec_to_repr() == 1,
            ExtensionType::spec_from_repr(1) == ExtensionType::MaxFragmentLength,
            ExtensionType::StatusRequest.spec_to_repr() == 5,
            ExtensionType::spec_from_repr(5) == ExtensionType::StatusRequest,
            ExtensionType::SupportedGroups.spec_to_repr() == 10,
            ExtensionType::spec_from_repr(10) == ExtensionType::SupportedGroups,
            ExtensionType::SignatureAlgorithms.spec_to_repr() == 13,
            ExtensionType::spec_from_repr(13) == ExtensionType::SignatureAlgorithms,
            ExtensionType::UseSrtp.spec_to_repr() == 14,
            ExtensionType::spec_from_repr(14) == ExtensionType::UseSrtp,
            ExtensionType::Heartbeat.spec_to_repr() == 15,
            ExtensionType::spec_from_repr(15) == ExtensionType::Heartbeat,
            ExtensionType::Alpn.spec_to_repr() == 16,
            ExtensionType::spec_from_repr(16) == ExtensionType::Alpn,
            ExtensionType::Sct.spec_to_repr() == 18,
            ExtensionType::spec_from_repr(18) == ExtensionType::Sct,
            ExtensionType::ClientCertificateType.spec_to_repr() == 19,
            ExtensionType::spec_from_repr(19) == ExtensionType::ClientCertificateType,
            ExtensionType::ServerCertificateType.spec_to_repr() == 20,
            ExtensionType::spec_from_repr(20) == ExtensionType::ServerCertificateType,
            ExtensionType::Padding.spec_to_repr() == 21,
            ExtensionType::spec_from_repr(21) == ExtensionType::Padding,
            ExtensionType::PreSharedKey.spec_to_repr() == 41,
            ExtensionType::spec_from_repr(41) == ExtensionType::PreSharedKey,
            ExtensionType::EarlyData.spec_to_repr() == 42,
            ExtensionType::spec_from_repr(42) == ExtensionType::EarlyData,
            ExtensionType::SupportedVersions.spec_to_repr() == 43,
            ExtensionType::spec_from_repr(43) == ExtensionType::SupportedVersions,
            ExtensionType::Cookie.spec_to_repr() == 44,
            ExtensionType::spec_from_repr(44) == ExtensionType::Cookie,
            ExtensionType::PskKexModes.spec_to_repr() == 45,
            ExtensionType::spec_from_repr(45) == ExtensionType::PskKexModes,
            ExtensionType::CertificateAuthorities.spec_to_repr() == 47,
            ExtensionType::spec_from_repr(47) == ExtensionType::CertificateAuthorities,
            ExtensionType::OidFilters.spec_to_repr() == 48,
            ExtensionType::spec_from_repr(48) == ExtensionType::OidFilters,
            ExtensionType::PostHandshakeAuth.spec_to_repr() == 49,
            ExtensionType::spec_from_repr(49) == ExtensionType::PostHandshakeAuth,
            ExtensionType::SignatureAlgorithmsCert.spec_to_repr() == 50,
            ExtensionType::spec_from_repr(50) == ExtensionType::SignatureAlgorithmsCert,
            ExtensionType::KeyShare.spec_to_repr() == 51,
            ExtensionType::spec_from_repr(51) == ExtensionType::KeyShare,
    {
    }

    /// The value that stands for the enumeration on the wire.
    pub open spec fn spec_to_repr(self) -> u16 {
        match self {
            ExtensionType::ServerName => 0,
            ExtensionType::MaxFragmentLength => 1,
            ExtensionType::StatusRequest => 5,
            ExtensionType::SupportedGroups => 10,
            ExtensionType::SignatureAlgorithms => 13,
            ExtensionType::UseSrtp => 14,
            ExtensionType::Heartbeat => 15,
            ExtensionType::Alpn => 16,
            ExtensionType::Sct => 18,
            ExtensionType::ClientCertificateType => 19,
            ExtensionType::ServerCertificateType => 20,
            ExtensionType::Padding => 21,
            ExtensionType::PreSharedKey => 41,
            ExtensionType::EarlyData => 42,
            ExtensionType::SupportedVersions => 43,
            ExtensionType::Cookie => 44,
            ExtensionType::PskKexModes => 45,
            ExtensionType::CertificateAuthorities => 47,
            ExtensionType::OidFilters => 48,
            ExtensionType::PostHandshakeAuth => 49,
            ExtensionType::SignatureAlgorithmsCert => 50,
            ExtensionType::KeyShare => 51,
            ExtensionType::Unknown(v) => v,
        }
    }

    /// The enumeration that a wire value stands for.
    pub open spec fn spec_from_repr(repr: u16) -> ExtensionType {
        match repr {
            0 => ExtensionType::ServerName,
            1 => ExtensionType::MaxFragmentLength,
            5 => ExtensionType::StatusRequest,
            10 => ExtensionType::SupportedGroups,
            13 => ExtensionType::SignatureAlgorithms,
            14 => ExtensionType::UseSrtp,
            15 => ExtensionType::Heartbeat,
            16 => ExtensionType::Alpn,
            18 => ExtensionType::Sct,
            19 => ExtensionType::ClientCertificateType,
            20 => ExtensionType::ServerCertificateType,
            21 => ExtensionType::Padding,
            41 => ExtensionType::PreSharedKey,
            42 => ExtensionType::EarlyData,
            43 => ExtensionType::SupportedVersions,
            44 => ExtensionType::Cookie,
            45 => ExtensionType::PskKexModes,
            47 => ExtensionType::CertificateAuthorities,
            48 => ExtensionType::OidFilters,
            49 => ExtensionType::PostHandshakeAuth,
            50 => ExtensionType::SignatureAlgorithmsCert,
            51 => ExtensionType::KeyShare,
            _ => ExtensionType::Unknown(repr),
        }
    }

    /// A value is canonical unless it is `Unknown` with a recognized
    /// value.
    pub open spec fn is_canonical(self) -> bool {
        self is Unknown ==> ExtensionType::spec_from_repr(self.spec_to_repr()) is Unknown
    }

    /// The name of the enumeration's variant.
    pub open spec fn spec_name(self) -> Seq<char> {
        match self {
            ExtensionType::ServerName => "ServerName"@,
            ExtensionType::MaxFragmentLength => "MaxFragmentLength"@,
            ExtensionType::StatusRequest => "StatusRequest"@,
            ExtensionType::SupportedGroups => "SupportedGroups"@,
            ExtensionType::SignatureAlgorithms => "SignatureAlgorithms"@,
            ExtensionType::UseSrtp => "UseSrtp"@,
            ExtensionType::Heartbeat => "Heartbeat"@,
            ExtensionType::Alpn => "Alpn"@,
            ExtensionType::Sct => "Sct"@,
            ExtensionType::ClientCertificateType => "ClientCertificateType"@,
            ExtensionType::ServerCertificateType => "ServerCertificateType"@,
            ExtensionType::Padding => "Padding"@,
            ExtensionType::PreSharedKey => "PreSharedKey"@,
            ExtensionType::EarlyData => "EarlyData"@,
            ExtensionType::SupportedVersions => "SupportedVersions"@,
            ExtensionType::Cookie => "Cookie"@,
            ExtensionType::PskKexModes => "PskKexModes"@,
            ExtensionType::CertificateAuthorities => "CertificateAuthorities"@,
            ExtensionType::OidFilters => "OidFilters"@,
            ExtensionType::PostHandshakeAuth => "PostHandshakeAuth"@,
            ExtensionType::SignatureAlgorithmsCert => "SignatureAlgorithmsCert"@,
            ExtensionType::KeyShare => "KeyShare"@,
            ExtensionType::Unknown(_) => "unknown"@,
        }
    }

    /// Returns the enumeration as a string.
    pub fn to_str(self) -> (r: &'static str)
        ensures
            r@ == self.spec_name(),
    {
        match self {
            ExtensionType::ServerName => "ServerName",
            ExtensionType::MaxFragmentLength => "MaxFragmentLength",
            ExtensionType::StatusRequest => "StatusRequest",
            ExtensionType::SupportedGroups => "SupportedGroups",
            ExtensionType::SignatureAlgorithms => "SignatureAlgorithms",
            ExtensionType::UseSrtp => "UseSrtp",
            ExtensionType::Heartbeat => "Heartbeat",
            ExtensionType::Alpn => "Alpn",
            ExtensionType::Sct => "Sct",
            ExtensionType::ClientCertificateType => "ClientCertificateType",
            ExtensionType::ServerCertificateType => "ServerCertificateType",
            ExtensionType::Padding => "Padding",
            ExtensionType::PreSharedKey => "PreSharedKey",
            ExtensionType::EarlyData => "EarlyData",
            ExtensionType::SupportedVersions => "SupportedVersions",
            ExtensionType::Cookie => "Cookie",
            ExtensionType::PskKexModes => "PskKexModes",
            ExtensionType::CertificateAuthorities => "CertificateAuthorities",
            ExtensionType::OidFilters => "OidFilters",
            ExtensionType::PostHandshakeAuth => "PostHandshakeAuth",
            ExtensionType::SignatureAlgorithmsCert => "SignatureAlgorithmsCert",
            ExtensionType::KeyShare => "KeyShare",
            ExtensionType::Unknown(_) => "unknown",
        }
    }

    /// Converts the enumeration to its repr.
    pub fn to_repr(self) -> (r: u16)
        ensures
            r == self.spec_to_repr(),
    {
        match self {
            ExtensionType::ServerName => 0,
            ExtensionType::MaxFragmentLength => 1,
            ExtensionType::StatusRequest => 5,
            ExtensionType::SupportedGroups => 10,
            ExtensionType::SignatureAlgorithms => 13,
            ExtensionType::UseSrtp => 14,
            ExtensionType::Heartbeat => 15,
            ExtensionType::Alpn => 16,
            ExtensionType::Sct => 18,
            ExtensionType::ClientCertificateType => 19,
            ExtensionType::ServerCertificateType => 20,
            ExtensionType::Padding => 21,
            ExtensionType::PreSharedKey => 41,
            ExtensionType::EarlyData => 42,
            ExtensionType::SupportedVersions => 43,
            ExtensionType::Cookie => 44,
            ExtensionType::PskKexModes => 45,
            ExtensionType::CertificateAuthorities => 47,
            ExtensionType::OidFilters => 48,
            ExtensionType::PostHandshakeAuth => 49,
            ExtensionType::SignatureAlgorithmsCert => 50,
            ExtensionType::KeyShare => 51,
            ExtensionType::Unknown(v) => v,
        }
    }

    /// Attempts to create the enumeration from its repr.
    pub fn try_from_repr(repr: u16) -> (r: Result<ExtensionType, Infallible>)
        ensures
            r == Ok::<ExtensionType, Infallible>(ExtensionType::spec_from_repr(repr)),
    {
        let v = match repr {
            0 => ExtensionType::ServerName,
            1 => ExtensionType::MaxFragmentLength,
            5 => ExtensionType::StatusRequest,
            10 => ExtensionType::SupportedGroups,
            13 => ExtensionType::SignatureAlgorithms,
            14 => ExtensionType::UseSrtp,
            15 => ExtensionType::Heartbeat,
            16 => ExtensionType::Alpn,
            18 => ExtensionType::Sct,
            19 => ExtensionType::ClientCertificateType,
            20 => ExtensionType::ServerCertificateType,
            21 => ExtensionType::Padding,
            41 => ExtensionType::PreSharedKey,
            42 => ExtensionType::EarlyData,
            43 => ExtensionType::SupportedVersions,
            44 => ExtensionType::Cookie,
            45 => ExtensionType::PskKexModes,
            47 => ExtensionType::CertificateAuthorities,
            48 => ExtensionType::OidFilters,
            49 => ExtensionType::PostHandshakeAuth,
            50 => ExtensionType::SignatureAlgorithmsCert,
            51 => ExtensionType::KeyShare,
            _ => ExtensionType::Unknown(repr),
        };
        Ok(v)
    }

    /// Reading back the wire value of an enumeration gives the
    /// same wire value.
    pub proof fn lemma_repr_roundtrip(repr: u16)
        ensures
            ExtensionType::spec_from_repr(repr).spec_to_repr() == repr,
            ExtensionType::spec_from_repr(repr).is_canonical(),
    {
    }

    /// A canonical enumeration is given back by the wire value it
    /// stands for.
    pub proof fn lemma_value_roundtrip(v: ExtensionType)
        requires
            v.is_canonical(),
        ensures
            ExtensionType::spec_from_repr(v.spec_to_repr()) == v,
    {
    }
}

impl Object for ExtensionType {
    open spec fn spec_size() -> (nat, nat) {
        (2, 2)
    }

    fn size() -> (r: Size) {
        u16::size()
    }
}

impl<'de> TryParse<'de> for ExtensionType {
    open spec fn spec_parse(data: Seq<u8>) -> Result<(ExtensionType, nat), Alert> {
        match <u16 as TryParse<'de>>::spec_parse(data) {
            Ok((repr, n)) => Ok((ExtensionType::spec_from_repr(repr), n)),
            Err(a) => Err(a),
        }
    }

    open spec fn spec_skip(data: Seq<u8>) -> Result<nat, Alert> {
        match Self::spec_parse(data) {
            Ok((_, n)) => Ok(n),
            Err(a) => Err(a),
        }
    }

    proof fn lemma_parse_bounds(data: Seq<u8>) {
        <u16 as TryParse<'de>>::lemma_parse_bounds(data);
    }

    fn try_parse(data: &'de [u8]) -> (r: Result<(ExtensionType, &'de [u8]), Error>) {
        let (repr, rest) = match <u16 as TryParse<'de>>::try_parse(data) {
            Ok(x) => x,
            Err(e) => return Err(e),
        };
        let v = match ExtensionType::try_from_repr(repr) {
            Ok(v) => v,
            Err(_) => ExtensionType::Unknown(repr),
        };
        Ok((v, rest))
    }

    fn try_skip(data: &'de [u8]) -> (r: Result<&'de [u8], Error>) {
        match Self::try_parse(data) {
            Ok((_, rest)) => Ok(rest),
            Err(e) => Err(e),
        }
    }
}

impl TryEncode for ExtensionType {
    open spec fn spec_encode(v: Self::V, s: (Seq<u8>, nat)) -> ((Seq<u8>, nat), Result<(), Alert>) {
        <u16 as TryEncode>::spec_encode(v.spec_to_repr(), s)
    }

    fn try_encode(&self, out: &mut EncBuf<'_>) -> (r: Result<(), Error>) {
        self.to_repr().try_encode(out)
    }
}

/// The `max_fragment_length` extension per RFC 6066.
#[derive(Copy, Clone, Debug, PartialEq, Eq, Structural)]
pub enum MaxFragmentLength {
    _512,
    _1024,
    _2048,
    _4096,
}

impl View for MaxFragmentLength {
    type V = MaxFragmentLength;

    open spec fn view(&self) -> MaxFragmentLength {
        *self
    }
}

impl MaxFragmentLength {
    /// The wire code of each variant, as the registry assigns it, and
    /// the variant that each of these codes is read as.
    pub proof fn lemma_wire_codes()
        ensures
            MaxFragmentLength::_512.spec_to_repr() == 1,
            MaxFragmentLength::spec_try_from_repr(1) == Some(MaxFragmentLength::_512),
            MaxFragmentLength::_1024.spec_to_repr() == 2,
            MaxFragmentLength::spec_try_from_repr(2) == Some(MaxFragmentLength::_1024),
            MaxFragmentLength::_2048.spec_to_repr() == 3,
            MaxFragmentLength::spec_try_from_repr(3) == Some(MaxFragmentLength::_2048),
            MaxFragmentLength::_4096.spec_to_repr() == 4,
            MaxFragmentLength::spec_try_from_repr(4) == Some(MaxFragmentLength::_4096),
    {
    }

    /// The value that stands for the enumeration on the wire.
    pub open spec fn spec_to_repr(self) -> u8 {
        match self {
            MaxFragmentLength::_512 => 1,
            MaxFragmentLength::_1024 => 2,
            MaxFragmentLength::_2048 => 3,
            MaxFragmentLength::_4096 => 4,
        }
    }

    /// The enumeration that a wire value stands for, if any.
    pub open spec fn spec_try_from_repr(repr: u8) -> Option<MaxFragmentLength> {
        match repr {
            1 => Some(MaxFragmentLength::_512),
            2 => Some(MaxFragmentLength::_1024),
            3 => Some(MaxFragmentLength::_2048),
            4 => Some(MaxFragmentLength::_4096),
            _ => None,
        }
    }

    /// The error for a wire value that stands for no variant.
    pub open spec fn spec_invalid_alert() -> Alert {
        Alert::spec_new(AlertDesc::IllegalParameter)
    }

    /// The name of the enumeration's variant.
    pub open spec fn spec_name(self) -> Seq<char> {
        match self {
            MaxFragmentLength::_512 => "_512"@,
            MaxFragmentLength::_1024 => "_1024"@,
            MaxFragmentLength::_2048 => "_2048"@,
            MaxFragmentLength::_4096 => "_4096"@,
        }
    }

    /// Returns the enumeration as a string.
    pub fn to_str(self) -> (r: &'static str)
        ensures
            r@ == self.spec_name(),
    {
        match self {
            MaxFragmentLength::_512 => "_512",
            MaxFragmentLength::_1024 => "_1024",
            MaxFragmentLength::_2048 => "_2048",
            MaxFragmentLength::_4096 => "_4096",
        }
    }

    /// Converts the enumeration to its repr.
    pub fn to_repr(self) -> (r: u8)
        ensures
            r == self.spec_to_repr(),
    {
        match self {
            MaxFragmentLength::_512 => 1,
            MaxFragmentLength::_1024 => 2,
            MaxFragmentLength::_2048 => 3,
            MaxFragmentLength::_4096 => 4,
        }
    }

    /// Attempts to create the enumeration from its repr.
    pub fn try_from_repr(repr: u8) -> (r: Result<MaxFragmentLength, Error>)
        ensures
            match MaxFragmentLength::spec_try_from_repr(repr) {
                Some(v) => r == Ok::<MaxFragmentLength, Error>(v),
                None => r matches Err(e) && e@ == MaxFragmentLength::spec_invalid_alert(),
            },
    {
        let v = match repr {
            1 => MaxFragmentLength::_512,
            2 => MaxFragmentLength::_1024,
            3 => MaxFragmentLength::_2048,
            4 => MaxFragmentLength::_4096,
            _ => return Err(Error::illegal_parameter("invalid max fragment length")),
        };
        Ok(v)
    }

    /// Each variant is given back by its wire value, and only the
    /// wire value of a variant stands for one.
    pub proof fn lemma_repr_roundtrip(v: MaxFragmentLength, repr: u8)
        ensures
            MaxFragmentLength::spec_try_from_repr(v.spec_to_repr()) == Some(v),
            MaxFragmentLength::spec_try_from_repr(repr) matches Some(w) ==> w.spec_to_repr() == repr,
    {
    }
}

impl Object for MaxFragmentLength {
    open spec fn spec_size() -> (nat, nat) {
        (1, 1)
    }

    fn size() -> (r: Size) {
        u8::size()
    }
}

impl<'de> TryParse<'de> for MaxFragmentLength {
    open spec fn spec_parse(data: Seq<u8>) -> Result<(MaxFragmentLength, nat), Alert> {
        match <u8 as TryParse<'de>>::spec_parse(data) {
            Ok((repr, n)) => match MaxFragmentLength::spec_try_from_repr(repr) {
                Some(v) => Ok((v, n)),
                None => Err(MaxFragmentLength::spec_invalid_alert()),
            },
            Err(a) => Err(a),
        }
    }

    open spec fn spec_skip(data: Seq<u8>) -> Result<nat, Alert> {
        match Self::spec_parse(data) {
            Ok((_, n)) => Ok(n),
            Err(a) => Err(a),
        }
    }

    proof fn lemma_parse_bounds(data: Seq<u8>) {
        <u8 as TryParse<'de>>::lemma_parse_bounds(data);
    }

    fn try_parse(data: &'de [u8]) -> (r: Result<(MaxFragmentLength, &'de [u8]), Error>) {
        let (repr, rest) = match <u8 as TryParse<'de>>::try_parse(data) {
            Ok(x) => x,
            Err(e) => return Err(e),
        };
        match MaxFragmentLength::try_from_repr(repr) {
            Ok(v) => Ok((v, rest)),
            Err(e) => Err(e),
        }
    }

    fn try_skip(data: &'de [u8]) -> (r: Result<&'de [u8], Error>) {
        match Self::try_parse(data) {
            Ok((_, rest)) => Ok(rest),
            Err(e) => Err(e),
        }
    }
}

impl TryEncode for MaxFragmentLength {
    open spec fn spec_encode(v: Self::V, s: (Seq<u8>, nat)) -> ((Seq<u8>, nat), Result<(), Alert>) {
        <u8 as TryEncode>::spec_encode(v.spec_to_repr(), s)
    }

    fn try_encode(&self, out: &mut EncBuf<'_>) -> (r: Result<(), Error>) {
        self.to_repr().try_encode(out)
    }
}

impl MaxFragmentLength {
    /// The maximum fragment length in bytes.
    pub open spec fn spec_length(self) -> nat {
        match self {
            MaxFragmentLength::_512 => 512,
            MaxFragmentLength::_1024 => 1024,
            MaxFragmentLength::_2048 => 2048,
            MaxFragmentLength::_4096 => 4096,
        }
    }

    /// Returns the maximum fragment length.
    pub fn length(self) -> (r: usize)
        ensures
            r == self.spec_length(),
    {
        match self {
            Self::_512 => 512,
            Self::_1024 => 1024,
            Self::_2048 => 2048,
            Self::_4096 => 4096,
        }
    }

    /// The wire code of a maximum fragment length is the power of two
    /// above 2^8 that its length is (RFC 6066, section 4): code 1 means
    /// 2^9 bytes, 2 means 2^10, 3 means 2^11 and 4 means 2^12; no other
    /// code stands for a length.
    pub proof fn lemma_length_of_code(v: MaxFragmentLength, code: u8)
        ensures
            v.spec_length() == vstd::arithmetic::power2::pow2((8 + v.spec_to_repr()) as nat),
            MaxFragmentLength::spec_try_from_repr(code) is Some <==> 1 <= code <= 4,
            MaxFragmentLength::spec_try_from_repr(code) matches Some(w) ==> w.spec_length()
                == vstd::arithmetic::power2::pow2((8 + code) as nat) && w.spec_to_repr() == code,
    {
        vstd::arithmetic::power2::lemma2_to64();
    }
}

} // verus!
