//! Extensions told apart by their type code alone.

use vstd::prelude::*;

use crate::wire::{
    error::Error,
    ext::ExtensionType,
    parse::{parsed_as, ParseOutcome, TryParse},
    tls13::{ext::SupportedVersionsList, ProtocolVersion},
};

verus! {

/// An extension, known by its type code. Only the versions of the
/// `supported_versions` extension are read from what follows the code.
#[derive(Copy, Clone, Debug)]
pub enum Extension2<'a> {
    ServerName,
    MaxFragmentLength,
    StatusRequest,
    SupportedGroups,
    SignatureAlgorithms,
    UseSrtp,
    Heartbeat,
    Alpn,
    Sct,
    ClientCertificateType,
    ServerCertificateType,
    Padding,
    PreSharedKey,
    EarlyData,
    /// The versions a client supports.
    SupportedVersions(SupportedVersionsList<'a>),
    /// The version a server selected.
    SupportedVersion(ProtocolVersion),
    Cookie,
    PskKexModes,
    CertificateAuthorities,
    OidFilters,
    PostHandshakeAuth,
    SignatureAlgorithmsCert,
    KeyShare,
    /// An extension of another type code.
    Unknown(u16),
}

/// What an [`Extension2`] holds.
pub enum Extension2View {
    ServerName,
    MaxFragmentLength,
    StatusRequest,
    SupportedGroups,
    SignatureAlgorithms,
    UseSrtp,
    Heartbeat,
    Alpn,
    Sct,
    ClientCertificateType,
    ServerCertificateType,
    Padding,
    PreSharedKey,
    EarlyData,
    SupportedVersions(Seq<u8>),
    SupportedVersion(u16),
    Cookie,
    PskKexModes,
    CertificateAuthorities,
    OidFilters,
    PostHandshakeAuth,
    SignatureAlgorithmsCert,
    KeyShare,
    Unknown(u16),
}

impl<'a> View for Extension2<'a> {
    type V = Extension2View;

    open spec fn view(&self) -> Extension2View {
        match self {
            Extension2::ServerName => Extension2View::ServerName,
            Extension2::MaxFragmentLength => Extension2View::MaxFragmentLength,
            Extension2::StatusRequest => Extension2View::StatusRequest,
            Extension2::SupportedGroups => Extension2View::SupportedGroups,
            Extension2::SignatureAlgorithms => Extension2View::SignatureAlgorithms,
            Extension2::UseSrtp => Extension2View::UseSrtp,
            Extension2::Heartbeat => Extension2View::Heartbeat,
            Extension2::Alpn => Extension2View::Alpn,
            Extension2::Sct => Extension2View::Sct,
            Extension2::ClientCertificateType => Extension2View::ClientCertificateType,
            Extension2::ServerCertificateType => Extension2View::ServerCertificateType,
            Extension2::Padding => Extension2View::Padding,
            Extension2::PreSharedKey => Extension2View::PreSharedKey,
            Extension2::EarlyData => Extension2View::EarlyData,
            Extension2::SupportedVersions(l) => Extension2View::SupportedVersions(l@),
            Extension2::SupportedVersion(v) => Extension2View::SupportedVersion(*v),
            Extension2::Cookie => Extension2View::Cookie,
            Extension2::PskKexModes => Extension2View::PskKexModes,
            Extension2::CertificateAuthorities => Extension2View::CertificateAuthorities,
            Extension2::OidFilters => Extension2View::OidFilters,
            Extension2::PostHandshakeAuth => Extension2View::PostHandshakeAuth,
            Extension2::SignatureAlgorithmsCert => Extension2View::SignatureAlgorithmsCert,
            Extension2::KeyShare => Extension2View::KeyShare,
            Extension2::Unknown(v) => Extension2View::Unknown(*v),
        }
    }
}

/// The extension that a type code other than that of
/// `supported_versions` (43) stands for.
pub open spec fn spec_code_ext(code: u16) -> Extension2View {
    match code {
        0 => Extension2View::ServerName,
        1 => Extension2View::MaxFragmentLength,
        5 => Extension2View::StatusRequest,
        10 => Extension2View::SupportedGroups,
        13 => Extension2View::SignatureAlgorithms,
        14 => Extension2View::UseSrtp,
        15 => Extension2View::Heartbeat,
        16 => Extension2View::Alpn,
        18 => Extension2View::Sct,
        19 => Extension2View::ClientCertificateType,
        20 => Extension2View::ServerCertificateType,
        21 => Extension2View::Padding,
        41 => Extension2View::PreSharedKey,
        42 => Extension2View::EarlyData,
        44 => Extension2View::Cookie,
        45 => Extension2View::PskKexModes,
        47 => Extension2View::CertificateAuthorities,
        48 => Extension2View::OidFilters,
        49 => Extension2View::PostHandshakeAuth,
        50 => Extension2View::SignatureAlgorithmsCert,
        51 => Extension2View::KeyShare,
        _ => Extension2View::Unknown(code),
    }
}

/// The extension type that an [`Extension2`] is.
pub open spec fn spec_ext2_type(v: Extension2View) -> ExtensionType {
    match v {
        Extension2View::ServerName => ExtensionType::ServerName,
        Extension2View::MaxFragmentLength => ExtensionType::MaxFragmentLength,
        Extension2View::StatusRequest => ExtensionType::StatusRequest,
        Extension2View::SupportedGroups => ExtensionType::SupportedGroups,
        Extension2View::SignatureAlgorithms => ExtensionType::SignatureAlgorithms,
        Extension2View::UseSrtp => ExtensionType::UseSrtp,
        Extension2View::Heartbeat => ExtensionType::Heartbeat,
        Extension2View::Alpn => ExtensionType::Alpn,
        Extension2View::Sct => ExtensionType::Sct,
        Extension2View::ClientCertificateType => ExtensionType::ClientCertificateType,
        Extension2View::ServerCertificateType => ExtensionType::ServerCertificateType,
        Extension2View::Padding => ExtensionType::Padding,
        Extension2View::PreSharedKey => ExtensionType::PreSharedKey,
        Extension2View::EarlyData => ExtensionType::EarlyData,
        Extension2View::Cookie => ExtensionType::Cookie,
        Extension2View::PskKexModes => ExtensionType::PskKexModes,
        Extension2View::CertificateAuthorities => ExtensionType::CertificateAuthorities,
        Extension2View::OidFilters => ExtensionType::OidFilters,
        Extension2View::PostHandshakeAuth => ExtensionType::PostHandshakeAuth,
        Extension2View::SignatureAlgorithmsCert => ExtensionType::SignatureAlgorithmsCert,
        Extension2View::KeyShare => ExtensionType::KeyShare,
        Extension2View::SupportedVersions(_) => ExtensionType::SupportedVersions,
        Extension2View::SupportedVersion(_) => ExtensionType::SupportedVersions,
        Extension2View::Unknown(code) => ExtensionType::Unknown(code),
    }
}

/// An extension read by its type code is the extension of the type that
/// its first two bytes name, as `ExtensionType` reads them, whether read
/// from a `ClientHello` or from a `ServerHello`.
pub proof fn lemma_ext2_type(data: Seq<u8>)
    ensures
        Extension2::spec_parse_client(data) matches Ok((v, n)) ==> n == 2 && spec_ext2_type(v)
            == ExtensionType::spec_from_repr(crate::wire::parse::spec_be16(data) as u16),
        Extension2::spec_parse_server(data) matches Ok((v, n)) ==> n == 2 && spec_ext2_type(v)
            == ExtensionType::spec_from_repr(crate::wire::parse::spec_be16(data) as u16),
{
}

impl<'a> Extension2<'a> {
    /// What reading an extension of a `ClientHello` from `data` gives:
    /// its two-byte type code is taken; for `supported_versions` the list
    /// of versions that follows is read too, but not taken.
    pub open spec fn spec_parse_client(data: Seq<u8>) -> ParseOutcome<Extension2View> {
        match <u16 as TryParse<'static>>::spec_parse(data) {
            Ok((code, n)) => if code == 43 {
                match <SupportedVersionsList<'static> as TryParse<'static>>::spec_parse(
                    data.skip(n as int),
                ) {
                    Ok((l, _)) => Ok((Extension2View::SupportedVersions(l), n)),
                    Err(a) => Err(a),
                }
            } else {
                Ok((spec_code_ext(code), n))
            },
            Err(a) => Err(a),
        }
    }

    /// What reading an extension of a `ServerHello` from `data` gives:
    /// its two-byte type code is taken; for `supported_versions` the
    /// selected version that follows is read too, but not taken.
    pub open spec fn spec_parse_server(data: Seq<u8>) -> ParseOutcome<Extension2View> {
        match <u16 as TryParse<'static>>::spec_parse(data) {
            Ok((code, n)) => if code == 43 {
                match <u16 as TryParse<'static>>::spec_parse(data.skip(n as int)) {
                    Ok((v, _)) => Ok((Extension2View::SupportedVersion(v), n)),
                    Err(a) => Err(a),
                }
            } else {
                Ok((spec_code_ext(code), n))
            },
            Err(a) => Err(a),
        }
    }

    /// The extension of type code `code`, other than 43.
    fn from_code(code: u16) -> (r: Self)
        requires
            code != 43,
        ensures
            r@ == spec_code_ext(code),
    {
        match code {
            0 => Self::ServerName,
            1 => Self::MaxFragmentLength,
            5 => Self::StatusRequest,
            10 => Self::SupportedGroups,
            13 => Self::SignatureAlgorithms,
            14 => Self::UseSrtp,
            15 => Self::Heartbeat,
            16 => Self::Alpn,
            18 => Self::Sct,
            19 => Self::ClientCertificateType,
            20 => Self::ServerCertificateType,
            21 => Self::Padding,
            41 => Self::PreSharedKey,
            42 => Self::EarlyData,
            44 => Self::Cookie,
            45 => Self::PskKexModes,
            47 => Self::CertificateAuthorities,
            48 => Self::OidFilters,
            49 => Self::PostHandshakeAuth,
            50 => Self::SignatureAlgorithmsCert,
            51 => Self::KeyShare,
            v => Self::Unknown(v),
        }
    }

    /// Reads an extension of a `ClientHello` by its type code, and
    /// returns it and the data after the code.
    pub fn try_parse_client(data: &'a [u8]) -> (r: Result<(Extension2<'a>, &'a [u8]), Error>)
        ensures
            parsed_as::<Extension2<'a>>(Self::spec_parse_client(data@), data@, r),
    {
        let (code, rest) = match <u16 as TryParse<'a>>::try_parse(data) {
            Ok(x) => x,
            Err(e) => return Err(e),
        };
        let ext = if code == 43 {
            match SupportedVersionsList::try_parse(rest) {
                Ok((list, _)) => Self::SupportedVersions(list),
                Err(e) => return Err(e),
            }
        } else {
            Self::from_code(code)
        };
        Ok((ext, rest))
    }

    /// Reads an extension of a `ServerHello` by its type code, and
    /// returns it and the data after the code.
    pub fn try_parse_server(data: &'a [u8]) -> (r: Result<(Extension2<'a>, &'a [u8]), Error>)
        ensures
            parsed_as::<Extension2<'a>>(Self::spec_parse_server(data@), data@, r),
    {
        let (code, rest) = match <u16 as TryParse<'a>>::try_parse(data) {
            Ok(x) => x,
            Err(e) => return Err(e),
        };
        let ext = if code == 43 {
            match <u16 as TryParse<'a>>::try_parse(rest) {
                Ok((v, _)) => Self::SupportedVersion(v),
                Err(e) => return Err(e),
            }
        } else {
            Self::from_code(code)
        };
        Ok((ext, rest))
    }
}

} // verus!
