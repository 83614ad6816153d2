//! TLS alerts.

use core::convert::Infallible;

use vstd::prelude::*;

use crate::wire::{
    encode::{EncBuf, TryEncode},
    error::Error,
    parse::{ParseOutcome, TryParse},
    size::{Object, Size},
};

verus! {

/// A TLS alert.
#[derive(Copy, Clone, Debug, PartialEq, Eq, Structural)]
pub struct Alert {
    pub level: AlertLevel,
    pub desc: AlertDesc,
}

impl View for Alert {
    type V = Alert;

    open spec fn view(&self) -> Alert {
        *self
    }
}

impl Alert {
    /// The size in bytes of an encoded alert.
    pub const SIZE: usize = 2;

    /// The alert that [`Alert::new`] creates for `desc`.
    pub open spec fn spec_new(desc: AlertDesc) -> Alert {
        match desc {
            AlertDesc::CloseNotify | AlertDesc::UserCanceled => Alert {
                level: AlertLevel::Warning,
                desc,
            },
            _ => Alert { level: AlertLevel::Fatal, desc },
        }
    }

    /// The alert of a malformed message.
    pub open spec fn spec_decode_error() -> Alert {
        Alert::spec_new(AlertDesc::DecodeDrror)
    }

    /// The alert of a failure that is not the peer's.
    pub open spec fn spec_internal_error() -> Alert {
        Alert::spec_new(AlertDesc::InternalError)
    }

    /// The alert of a field that holds a value it may not hold.
    pub open spec fn spec_illegal_parameter() -> Alert {
        Alert::spec_new(AlertDesc::IllegalParameter)
    }

    /// Creates an `Alert`.
    ///
    /// `close_notify` and `user_canceled` are warnings; every other
    /// alert is fatal.
    pub fn new(desc: AlertDesc) -> (r: Self)
        ensures
            r == Alert::spec_new(desc),
    {
        match desc {
            AlertDesc::CloseNotify | AlertDesc::UserCanceled => Self {
                level: AlertLevel::Warning,
                desc,
            },
            _ => Self { level: AlertLevel::Fatal, desc },
        }
    }

    pub(crate) fn decode_error() -> (r: Self)
        ensures
            r == Alert::spec_decode_error(),
    {
        Self::new(AlertDesc::DecodeDrror)
    }

    pub(crate) fn internal_error() -> (r: Self)
        ensures
            r == Alert::spec_internal_error(),
    {
        Self::new(AlertDesc::InternalError)
    }

    pub(crate) fn record_overflow() -> (r: Self)
        ensures
            r == Alert::spec_new(AlertDesc::RecordOverflow),
    {
        Self::new(AlertDesc::RecordOverflow)
    }

    pub(crate) fn protocol_version() -> (r: Self)
        ensures
            r == Alert::spec_new(AlertDesc::ProtocolVersion),
    {
        Self::new(AlertDesc::ProtocolVersion)
    }

    pub(crate) fn illegal_parameter() -> (r: Self)
        ensures
            r == Alert::spec_illegal_parameter(),
    {
        Self::new(AlertDesc::IllegalParameter)
    }

    pub(crate) fn unexpected_message() -> (r: Self)
        ensures
            r == Alert::spec_new(AlertDesc::UnexpectedMessage),
    {
        Self::new(AlertDesc::UnexpectedMessage)
    }

    pub(crate) fn missing_extension() -> (r: Self)
        ensures
            r == Alert::spec_new(AlertDesc::MissingExtension),
    {
        Self::new(AlertDesc::MissingExtension)
    }

    pub(crate) fn unsupported_extension() -> (r: Self)
        ensures
            r == Alert::spec_new(AlertDesc::UnsupportedExtension),
    {
        Self::new(AlertDesc::UnsupportedExtension)
    }
}

impl Object for Alert {
    open spec fn spec_size() -> (nat, nat) {
        (2, 2)
    }

    fn size() -> (r: Size) {
        Size::new(2, 2)
    }
}

impl<'de> TryParse<'de> for Alert {
    open spec fn spec_parse(data: Seq<u8>) -> ParseOutcome<Alert> {
        match <AlertLevel as TryParse<'de>>::spec_parse(data) {
            Ok((level, n)) => match <AlertDesc as TryParse<'de>>::spec_parse(data.skip(n as int)) {
                Ok((desc, m)) => Ok((Alert { level, desc }, n + m)),
                Err(a) => Err(a),
            },
            Err(a) => Err(a),
        }
    }

    open spec fn spec_skip(data: Seq<u8>) -> Result<nat, Alert> {
        match Self::spec_parse(data) {
            Ok((_, n)) => Ok(n),
            Err(a) => Err(a),
        }
    }

    proof fn lemma_parse_bounds(data: Seq<u8>) {
    }

    fn try_parse(data: &'de [u8]) -> (r: Result<(Alert, &'de [u8]), Error>) {
        let (level, rest) = match AlertLevel::try_parse(data) {
            Ok(x) => x,
            Err(e) => return Err(e),
        };
        let (desc, rest2) = match AlertDesc::try_parse(rest) {
            Ok(x) => x,
            Err(e) => return Err(e),
        };
        proof {
            assert(rest2@ =~= data@.skip(2));
        }
        Ok((Alert { level, desc }, rest2))
    }

    fn try_skip(data: &'de [u8]) -> (r: Result<&'de [u8], Error>) {
        match Self::try_parse(data) {
            Ok((_, rest)) => Ok(rest),
            Err(e) => Err(e),
        }
    }
}

impl TryEncode for Alert {
    open spec fn spec_encode(v: Alert, s: (Seq<u8>, nat)) -> ((Seq<u8>, nat), Result<(), Alert>) {
        let (s1, r1) = <AlertLevel as TryEncode>::spec_encode(v.level, s);
        match r1 {
            Ok(()) => <AlertDesc as TryEncode>::spec_encode(v.desc, s1),
            Err(a) => (s1, Err(a)),
        }
    }

    fn try_encode(&self, out: &mut EncBuf<'_>) -> (r: Result<(), Error>) {
        match self.level.try_encode(out) {
            Ok(()) => {},
            Err(e) => return Err(e),
        }
        self.desc.try_encode(out)
    }
}

/// TLS alert level.
#[derive(Copy, Clone, Debug, PartialEq, Eq, Structural)]
pub enum AlertLevel {
    Warning,
    Fatal,
    /// An unrecognized value.
    Unknown(u8),
}

impl View for AlertLevel {
    type V = AlertLevel;

    open spec fn view(&self) -> AlertLevel {
        *self
    }
}

impl AlertLevel {
    /// The wire code of each variant, as the registry assigns it, and
    /// the variant that each of these codes is read as.
    pub proof fn lemma_wire_codes()
        ensures
            AlertLevel::Warning.spec_to_repr() == 1,
            AlertLevel::spec_from_repr(1) == AlertLevel::Warning,
            AlertLevel::Fatal.spec_to_repr() == 2,
            AlertLevel::spec_from_repr(2) == AlertLevel::Fatal,
    {
    }

    /// The value that stands for the enumeration on the wire.
    pub open spec fn spec_to_repr(self) -> u8 {
        match self {
            AlertLevel::Warning => 1,
            AlertLevel::Fatal => 2,
            AlertLevel::Unknown(v) => v,
        }
    }

    /// The enumeration that a wire value stands for.
    pub open spec fn spec_from_repr(repr: u8) -> AlertLevel {
        match repr {
            1 => AlertLevel::Warning,
            2 => AlertLevel::Fatal,
            _ => AlertLevel::Unknown(repr),
        }
    }

    /// A value is canonical unless it is `Unknown` with a recognized
    /// value.
    pub open spec fn is_canonical(self) -> bool {
        self is Unknown ==> AlertLevel::spec_from_repr(self.spec_to_repr()) is Unknown
    }

    /// The name of the enumeration's variant.
    pub open spec fn spec_name(self) -> Seq<char> {
        match self {
            AlertLevel::Warning => "Warning"@,
            AlertLevel::Fatal => "Fatal"@,
            AlertLevel::Unknown(_) => "unknown"@,
        }
    }

    /// Returns the enumeration as a string.
    pub fn to_str(self) -> (r: &'static str)
        ensures
            r@ == self.spec_name(),
    {
        match self {
            AlertLevel::Warning => "Warning",
            AlertLevel::Fatal => "Fatal",
            AlertLevel::Unknown(_) => "unknown",
        }
    }

    /// Converts the enumeration to its repr.
    pub fn to_repr(self) -> (r: u8)
        ensures
            r == self.spec_to_repr(),
    {
        match self {
            AlertLevel::Warning => 1,
            AlertLevel::Fatal => 2,
            AlertLevel::Unknown(v) => v,
        }
    }

    /// Attempts to create the enumeration from its repr.
    pub fn try_from_repr(repr: u8) -> (r: Result<AlertLevel, Infallible>)
        ensures
            r == Ok::<AlertLevel, Infallible>(AlertLevel::spec_from_repr(repr)),
    {
        let v = match repr {
            1 => AlertLevel::Warning,
            2 => AlertLevel::Fatal,
            _ => AlertLevel::Unknown(repr),
        };
        Ok(v)
    }

    /// Reading back the wire value of an enumeration gives the
    /// same wire value.
    pub proof fn lemma_repr_roundtrip(repr: u8)
        ensures
            AlertLevel::spec_from_repr(repr).spec_to_repr() == repr,
            AlertLevel::spec_from_repr(repr).is_canonical(),
    {
    }

    /// A canonical enumeration is given back by the wire value it
    /// stands for.
    pub proof fn lemma_value_roundtrip(v: AlertLevel)
        requires
            v.is_canonical(),
        ensures
            AlertLevel::spec_from_repr(v.spec_to_repr()) == v,
    {
    }
}

impl Object for AlertLevel {
    open spec fn spec_size() -> (nat, nat) {
        (1, 1)
    }

    fn size() -> (r: Size) {
        u8::size()
    }
}

impl<'de> TryParse<'de> for AlertLevel {
    open spec fn spec_parse(data: Seq<u8>) -> Result<(AlertLevel, nat), Alert> {
        match <u8 as TryParse<'de>>::spec_parse(data) {
            Ok((repr, n)) => Ok((AlertLevel::spec_from_repr(repr), n)),
            Err(a) => Err(a),
        }
    }

    open spec fn spec_skip(data: Seq<u8>) -> Result<nat, Alert> {
        match Self::spec_parse(data) {
            Ok((_, n)) => Ok(n),
            Err(a) => Err(a),
        }
    }

    proof fn lemma_parse_bounds(data: Seq<u8>) {
        <u8 as TryParse<'de>>::lemma_parse_bounds(data);
    }

    fn try_parse(data: &'de [u8]) -> (r: Result<(AlertLevel, &'de [u8]), Error>) {
        let (repr, rest) = match <u8 as TryParse<'de>>::try_parse(data) {
            Ok(x) => x,
            Err(e) => return Err(e),
        };
        let v = match AlertLevel::try_from_repr(repr) {
            Ok(v) => v,
            Err(_) => AlertLevel::Unknown(repr),
        };
        Ok((v, rest))
    }

    fn try_skip(data: &'de [u8]) -> (r: Result<&'de [u8], Error>) {
        match Self::try_parse(data) {
            Ok((_, rest)) => Ok(rest),
            Err(e) => Err(e),
        }
    }
}

impl TryEncode for AlertLevel {
    open spec fn spec_encode(v: Self::V, s: (Seq<u8>, nat)) -> ((Seq<u8>, nat), Result<(), Alert>) {
        <u8 as TryEncode>::spec_encode(v.spec_to_repr(), s)
    }

    fn try_encode(&self, out: &mut EncBuf<'_>) -> (r: Result<(), Error>) {
        self.to_repr().try_encode(out)
    }
}

/// TLS alert description.
#[derive(Copy, Clone, Debug, PartialEq, Eq, Structural)]
pub enum AlertDesc {
    CloseNotify,
    UnexpectedMessage,
    BadRecordMac,
    DecryptionFailed,
    RecordOverflow,
    DecompressionFailure,
    HandshakeFailure,
    BadCertificate,
    UnsupportedCertificate,
    CertificateRevoked,
    CertificateExpired,
    CertificateUnknown,
    IllegalParameter,
    UnknownCA,
    AccessDenied,
    DecodeDrror,
    DecryptError,
    ExportRestriction,
    ProtocolVersion,
    InsufficientSecurity,
    InternalError,
    InappropriateFallback,
    UserCanceled,
    MissingExtension,
    UnsupportedExtension,
    CertificateUnobtainable,
    UnrecognizedName,
    BadCertificateStatusResponse,
    BadCertificateHashValue,
    UnknownPskIdentity,
    CertificateRequired,
    NoApplicationProtocol,
    /// An unrecognized value.
    Unknown(u8),
}

impl View for AlertDesc {
    type V = AlertDesc;

    open spec fn view(&self) -> AlertDesc {
        *self
    }
}

impl AlertDesc {
    /// The wire code of each variant, as the registry assigns it, and
    /// the variant that each of these codes is read as.
    pub proof fn lemma_wire_codes()
        ensures
            AlertDesc::CloseNotify.spec_to_repr() == 0,
            AlertDesc::spec_from_repr(0) == AlertDesc::CloseNotify,
            AlertDesc::UnexpectedMessage.spec_to_repr() == 10,
            AlertDesc::spec_from_repr(10) == AlertDesc::UnexpectedMessage,
            AlertDesc::BadRecordMac.spec_to_repr() == 20,
            AlertDesc::spec_from_repr(20) == AlertDesc::BadRecordMac,
            AlertDesc::DecryptionFailed.spec_to_repr() == 21,
            AlertDesc::spec_from_repr(21) == AlertDesc::DecryptionFailed,
            AlertDesc::RecordOverflow.spec_to_repr() == 22,
            AlertDesc::spec_from_repr(22) == AlertDesc::RecordOverflow,
            AlertDesc::DecompressionFailure.spec_to_repr() == 30,
            AlertDesc::spec_from_repr(30) == AlertDesc::DecompressionFailure,
            AlertDesc::HandshakeFailure.spec_to_repr() == 40,
            AlertDesc::spec_from_repr(40) == AlertDesc::HandshakeFailure,
            AlertDesc::BadCertificate.spec_to_repr() == 42,
            AlertDesc::spec_from_repr(42) == AlertDesc::BadCertificate,
            AlertDesc::UnsupportedCertificate.spec_to_repr() == 43,
            AlertDesc::spec_from_repr(43) == AlertDesc::UnsupportedCertificate,
            AlertDesc::CertificateRevoked.spec_to_repr() == 44,
            AlertDesc::spec_from_repr(44) == AlertDesc::CertificateRevoked,
            AlertDesc::CertificateExpired.spec_to_repr() == 45,
            AlertDesc::spec_from_repr(45) == AlertDesc::CertificateExpired,
            AlertDesc::CertificateUnknown.spec_to_repr() == 46,
            AlertDesc::spec_from_repr(46) == AlertDesc::CertificateUnknown,
            AlertDesc::IllegalParameter.spec_to_repr() == 47,
            AlertDesc::spec_from_repr(47) == AlertDesc::IllegalParameter,
            AlertDesc::UnknownCA.spec_to_repr() == 48,
            AlertDesc::spec_from_repr(48) == AlertDesc::UnknownCA,
            AlertDesc::AccessDenied.spec_to_repr() == 49,
            AlertDesc::spec_from_repr(49) == AlertDesc::AccessDenied,
            AlertDesc::DecodeDrror.spec_to_repr() == 50,
            AlertDesc::spec_from_repr(50) == AlertDesc::DecodeDrror,
            AlertDesc::DecryptError.spec_to_repr() == 51,
            AlertDesc::spec_from_repr(51) == AlertDesc::DecryptError,
            AlertDesc::ExportRestriction.spec_to_repr() == 60,
            AlertDesc::spec_from_repr(60) == AlertDesc::ExportRestriction,
            AlertDesc::ProtocolVersion.spec_to_repr() == 70,
            AlertDesc::spec_from_repr(70) == AlertDesc::ProtocolVersion,
            AlertDesc::InsufficientSecurity.spec_to_repr() == 71,
            AlertDesc::spec_from_repr(71) == AlertDesc::InsufficientSecurity,
            AlertDesc::InternalError.spec_to_repr() == 80,
            AlertDesc::spec_from_repr(80) == AlertDesc::InternalError,
            AlertDesc::InappropriateFallback.spec_to_repr() == 86,
            AlertDesc::spec_from_repr(86) == AlertDesc::InappropriateFallback,
            AlertDesc::UserCanceled.spec_to_repr() == 90,
            AlertDesc::spec_from_repr(90) == AlertDesc::UserCanceled,
            AlertDesc::MissingExtension.spec_to_repr() == 109,
            AlertDesc::spec_from_repr(109) == AlertDesc::MissingExtension,
            AlertDesc::UnsupportedExtension.spec_to_repr() == 110,
            AlertDesc::spec_from_repr(110) == AlertDesc::UnsupportedExtension,
            AlertDesc::CertificateUnobtainable.spec_to_repr() == 111,
            AlertDesc::spec_from_repr(111) == AlertDesc::CertificateUnobtainable,
            AlertDesc::UnrecognizedName.spec_to_repr() == 112,
            AlertDesc::spec_from_repr(112) == AlertDesc::UnrecognizedName,
            AlertDesc::BadCertificateStatusResponse.spec_to_repr() == 113,
            AlertDesc::spec_from_repr(113) == AlertDesc::BadCertificateStatusResponse,
            AlertDesc::BadCertificateHashValue.spec_to_repr() == 114,
            AlertDesc::spec_from_repr(114) == AlertDesc::BadCertificateHashValue,
            AlertDesc::UnknownPskIdentity.spec_to_repr() == 115,
            AlertDesc::spec_from_repr(115) == AlertDesc::UnknownPskIdentity,
            AlertDesc::CertificateRequired.spec_to_repr() == 116,
            AlertDesc::spec_from_repr(116) == AlertDesc::CertificateRequired,
            AlertDesc::NoApplicationProtocol.spec_to_repr() == 120,
            AlertDesc::spec_from_repr(120) == AlertDesc::NoApplicationProtocol,
    {
    }

    /// The value that stands for the enumeration on the wire.
    pub open spec fn spec_to_repr(self) -> u8 {
        match self {
            AlertDesc::CloseNotify => 0,
            AlertDesc::UnexpectedMessage => 10,
            AlertDesc::BadRecordMac => 20,
            AlertDesc::DecryptionFailed => 21,
            AlertDesc::RecordOverflow => 22,
            AlertDesc::DecompressionFailure => 30,
            AlertDesc::HandshakeFailure => 40,
            AlertDesc::BadCertificate => 42,
            AlertDesc::UnsupportedCertificate => 43,
            AlertDesc::CertificateRevoked => 44,
            AlertDesc::CertificateExpired => 45,
            AlertDesc::CertificateUnknown => 46,
            AlertDesc::IllegalParameter => 47,
            AlertDesc::UnknownCA => 48,
            AlertDesc::AccessDenied => 49,
            AlertDesc::DecodeDrror => 50,
            AlertDesc::DecryptError => 51,
            AlertDesc::ExportRestriction => 60,
            AlertDesc::ProtocolVersion => 70,
            AlertDesc::InsufficientSecurity => 71,
            AlertDesc::InternalError => 80,
            AlertDesc::InappropriateFallback => 86,
            AlertDesc::UserCanceled => 90,
            AlertDesc::MissingExtension => 109,
            AlertDesc::UnsupportedExtension => 110,
            AlertDesc::CertificateUnobtainable => 111,
            AlertDesc::UnrecognizedName => 112,
            AlertDesc::BadCertificateStatusResponse => 113,
            AlertDesc::BadCertificateHashValue => 114,
            AlertDesc::UnknownPskIdentity => 115,
            AlertDesc::CertificateRequired => 116,
            AlertDesc::NoApplicationProtocol => 120,
            AlertDesc::Unknown(v) => v,
        }
    }

    /// The enumeration that a wire value stands for.
    pub open spec fn spec_from_repr(repr: u8) -> AlertDesc {
        match repr {
            0 => AlertDesc::CloseNotify,
            10 => AlertDesc::UnexpectedMessage,
            20 => AlertDesc::BadRecordMac,
            21 => AlertDesc::DecryptionFailed,
            22 => AlertDesc::RecordOverflow,
            30 => AlertDesc::DecompressionFailure,
            40 => AlertDesc::HandshakeFailure,
            42 => AlertDesc::BadCertificate,
            43 => AlertDesc::UnsupportedCertificate,
            44 => AlertDesc::CertificateRevoked,
            45 => AlertDesc::CertificateExpired,
            46 => AlertDesc::CertificateUnknown,
            47 => AlertDesc::IllegalParameter,
            48 => AlertDesc::UnknownCA,
            49 => AlertDesc::AccessDenied,
            50 => AlertDesc::DecodeDrror,
            51 => AlertDesc::DecryptError,
            60 => AlertDesc::ExportRestriction,
            70 => AlertDesc::ProtocolVersion,
            71 => AlertDesc::InsufficientSecurity,
            80 => AlertDesc::InternalError,
            86 => AlertDesc::InappropriateFallback,
            90 => AlertDesc::UserCanceled,
            109 => AlertDesc::MissingExtension,
            110 => AlertDesc::UnsupportedExtension,
            111 => AlertDesc::CertificateUnobtainable,
            112 => AlertDesc::UnrecognizedName,
            113 => AlertDesc::BadCertificateStatusResponse,
            114 => AlertDesc::BadCertificateHashValue,
            115 => AlertDesc::UnknownPskIdentity,
            116 => AlertDesc::CertificateRequired,
            120 => AlertDesc::NoApplicationProtocol,
            _ => AlertDesc::Unknown(repr),
        }
    }

    /// A value is canonical unless it is `Unknown` with a recognized
    /// value.
    pub open spec fn is_canonical(self) -> bool {
        self is Unknown ==> AlertDesc::spec_from_repr(self.spec_to_repr()) is Unknown
    }

    /// The name of the enumeration's variant.
    pub open spec fn spec_name(self) -> Seq<char> {
        match self {
            AlertDesc::CloseNotify => "CloseNotify"@,
            AlertDesc::UnexpectedMessage => "UnexpectedMessage"@,
            AlertDesc::BadRecordMac => "BadRecordMac"@,
            AlertDesc::DecryptionFailed => "DecryptionFailed"@,
            AlertDesc::RecordOverflow => "RecordOverflow"@,
            AlertDesc::DecompressionFailure => "DecompressionFailure"@,
            AlertDesc::HandshakeFailure => "HandshakeFailure"@,
            AlertDesc::BadCertificate => "BadCertificate"@,
            AlertDesc::UnsupportedCertificate => "UnsupportedCertificate"@,
            AlertDesc::CertificateRevoked => "CertificateRevoked"@,
            AlertDesc::CertificateExpired => "CertificateExpired"@,
            AlertDesc::CertificateUnknown => "CertificateUnknown"@,
            AlertDesc::IllegalParameter => "IllegalParameter"@,
            AlertDesc::UnknownCA => "UnknownCA"@,
            AlertDesc::AccessDenied => "AccessDenied"@,
            AlertDesc::DecodeDrror => "DecodeDrror"@,
            AlertDesc::DecryptError => "DecryptError"@,
            AlertDesc::ExportRestriction => "ExportRestriction"@,
            AlertDesc::ProtocolVersion => "ProtocolVersion"@,
            AlertDesc::InsufficientSecurity => "InsufficientSecurity"@,
            AlertDesc::InternalError => "InternalError"@,
            AlertDesc::InappropriateFallback => "InappropriateFallback"@,
            AlertDesc::UserCanceled => "UserCanceled"@,
            AlertDesc::MissingExtension => "MissingExtension"@,
            AlertDesc::UnsupportedExtension => "UnsupportedExtension"@,
            AlertDesc::CertificateUnobtainable => "CertificateUnobtainable"@,
            AlertDesc::UnrecognizedName => "UnrecognizedName"@,
            AlertDesc::BadCertificateStatusResponse => "BadCertificateStatusResponse"@,
            AlertDesc::BadCertificateHashValue => "BadCertificateHashValue"@,
            AlertDesc::UnknownPskIdentity => "UnknownPskIdentity"@,
            AlertDesc::CertificateRequired => "CertificateRequired"@,
            AlertDesc::NoApplicationProtocol => "NoApplicationProtocol"@,
            AlertDesc::Unknown(_) => "unknown"@,
        }
    }

    /// Returns the enumeration as a string.
    pub fn to_str(self) -> (r: &'static str)
        ensures
            r@ == self.spec_name(),
    {
        match self {
            AlertDesc::CloseNotify => "CloseNotify",
            AlertDesc::UnexpectedMessage => "UnexpectedMessage",
            AlertDesc::BadRecordMac => "BadRecordMac",
            AlertDesc::DecryptionFailed => "DecryptionFailed",
            AlertDesc::RecordOverflow => "RecordOverflow",
            AlertDesc::DecompressionFailure => "DecompressionFailure",
            AlertDesc::HandshakeFailure => "HandshakeFailure",
            AlertDesc::BadCertificate => "BadCertificate",
            AlertDesc::UnsupportedCertificate => "UnsupportedCertificate",
            AlertDesc::CertificateRevoked => "CertificateRevoked",
            AlertDesc::CertificateExpired => "CertificateExpired",
            AlertDesc::CertificateUnknown => "CertificateUnknown",
            AlertDesc::IllegalParameter => "IllegalParameter",
            AlertDesc::UnknownCA => "UnknownCA",
            AlertDesc::AccessDenied => "AccessDenied",
            AlertDesc::DecodeDrror => "DecodeDrror",
            AlertDesc::DecryptError => "DecryptError",
            AlertDesc::ExportRestriction => "ExportRestriction",
            AlertDesc::ProtocolVersion => "ProtocolVersion",
            AlertDesc::InsufficientSecurity => "InsufficientSecurity",
            AlertDesc::InternalError => "InternalError",
            AlertDesc::InappropriateFallback => "InappropriateFallback",
            AlertDesc::UserCanceled => "UserCanceled",
            AlertDesc::MissingExtension => "MissingExtension",
            AlertDesc::UnsupportedExtension => "UnsupportedExtension",
            AlertDesc::CertificateUnobtainable => "CertificateUnobtainable",
            AlertDesc::UnrecognizedName => "UnrecognizedName",
            AlertDesc::BadCertificateStatusResponse => "BadCertificateStatusResponse",
            AlertDesc::BadCertificateHashValue => "BadCertificateHashValue",
            AlertDesc::UnknownPskIdentity => "UnknownPskIdentity",
            AlertDesc::CertificateRequired => "CertificateRequired",
            AlertDesc::NoApplicationProtocol => "NoApplicationProtocol",
            AlertDesc::Unknown(_) => "unknown",
        }
    }

    /// Converts the enumeration to its repr.
    pub fn to_repr(self) -> (r: u8)
        ensures
            r == self.spec_to_repr(),
    {
        match self {
            AlertDesc::CloseNotify => 0,
            AlertDesc::UnexpectedMessage => 10,
            AlertDesc::BadRecordMac => 20,
            AlertDesc::DecryptionFailed => 21,
            AlertDesc::RecordOverflow => 22,
            AlertDesc::DecompressionFailure => 30,
            AlertDesc::HandshakeFailure => 40,
            AlertDesc::BadCertificate => 42,
            AlertDesc::UnsupportedCertificate => 43,
            AlertDesc::CertificateRevoked => 44,
            AlertDesc::CertificateExpired => 45,
            AlertDesc::CertificateUnknown => 46,
            AlertDesc::IllegalParameter => 47,
            AlertDesc::UnknownCA => 48,
            AlertDesc::AccessDenied => 49,
            AlertDesc::DecodeDrror => 50,
            AlertDesc::DecryptError => 51,
            AlertDesc::ExportRestriction => 60,
            AlertDesc::ProtocolVersion => 70,
            AlertDesc::InsufficientSecurity => 71,
            AlertDesc::InternalError => 80,
            AlertDesc::InappropriateFallback => 86,
            AlertDesc::UserCanceled => 90,
            AlertDesc::MissingExtension => 109,
            AlertDesc::UnsupportedExtension => 110,
            AlertDesc::CertificateUnobtainable => 111,
            AlertDesc::UnrecognizedName => 112,
            AlertDesc::BadCertificateStatusResponse => 113,
            AlertDesc::BadCertificateHashValue => 114,
            AlertDesc::UnknownPskIdentity => 115,
            AlertDesc::CertificateRequired => 116,
            AlertDesc::NoApplicationProtocol => 120,
            AlertDesc::Unknown(v) => v,
        }
    }

    /// Attempts to create the enumeration from its repr.
    pub fn try_from_repr(repr: u8) -> (r: Result<AlertDesc, Infallible>)
        ensures
            r == Ok::<AlertDesc, Infallible>(AlertDesc::spec_from_repr(repr)),
    {
        let v = match repr {
            0 => AlertDesc::CloseNotify,
            10 => AlertDesc::UnexpectedMessage,
            20 => AlertDesc::BadRecordMac,
            21 => AlertDesc::DecryptionFailed,
            22 => AlertDesc::RecordOverflow,
            30 => AlertDesc::DecompressionFailure,
            40 => AlertDesc::HandshakeFailure,
            42 => AlertDesc::BadCertificate,
            43 => AlertDesc::UnsupportedCertificate,
            44 => AlertDesc::CertificateRevoked,
            45 => AlertDesc::CertificateExpired,
            46 => AlertDesc::CertificateUnknown,
            47 => AlertDesc::IllegalParameter,
            48 => AlertDesc::UnknownCA,
            49 => AlertDesc::AccessDenied,
            50 => AlertDesc::DecodeDrror,
            51 => AlertDesc::DecryptError,
            60 => AlertDesc::ExportRestriction,
            70 => AlertDesc::ProtocolVersion,
            71 => AlertDesc::InsufficientSecurity,
            80 => AlertDesc::InternalError,
            86 => AlertDesc::InappropriateFallback,
            90 => AlertDesc::UserCanceled,
            109 => AlertDesc::MissingExtension,
            110 => AlertDesc::UnsupportedExtension,
            111 => AlertDesc::CertificateUnobtainable,
            112 => AlertDesc::UnrecognizedName,
            113 => AlertDesc::BadCertificateStatusResponse,
            114 => AlertDesc::BadCertificateHashValue,
            115 => AlertDesc::UnknownPskIdentity,
            116 => AlertDesc::CertificateRequired,
            120 => AlertDesc::NoApplicationProtocol,
            _ => AlertDesc::Unknown(repr),
        };
        Ok(v)
    }

    /// Reading back the wire value of an enumeration gives the
    /// same wire value.
    pub proof fn lemma_repr_roundtrip(repr: u8)
        ensures
            AlertDesc::spec_from_repr(repr).spec_to_repr() == repr,
            AlertDesc::spec_from_repr(repr).is_canonical(),
    {
    }

    /// A canonical enumeration is given back by the wire value it
    /// stands for.
    pub proof fn lemma_value_roundtrip(v: AlertDesc)
        requires
            v.is_canonical(),
        ensures
            AlertDesc::spec_from_repr(v.spec_to_repr()) == v,
    {
    }
}

impl Object for AlertDesc {
    open spec fn spec_size() -> (nat, nat) {
        (1, 1)
    }

    fn size() -> (r: Size) {
        u8::size()
    }
}

impl<'de> TryParse<'de> for AlertDesc {
    open spec fn spec_parse(data: Seq<u8>) -> Result<(AlertDesc, nat), Alert> {
        match <u8 as TryParse<'de>>::spec_parse(data) {
            Ok((repr, n)) => Ok((AlertDesc::spec_from_repr(repr), n)),
            Err(a) => Err(a),
        }
    }

    open spec fn spec_skip(data: Seq<u8>) -> Result<nat, Alert> {
        match Self::spec_parse(data) {
            Ok((_, n)) => Ok(n),
            Err(a) => Err(a),
        }
    }

    proof fn lemma_parse_bounds(data: Seq<u8>) {
        <u8 as TryParse<'de>>::lemma_parse_bounds(data);
    }

    fn try_parse(data: &'de [u8]) -> (r: Result<(AlertDesc, &'de [u8]), Error>) {
        let (repr, rest) = match <u8 as TryParse<'de>>::try_parse(data) {
            Ok(x) => x,
            Err(e) => return Err(e),
        };
        let v = match AlertDesc::try_from_repr(repr) {
            Ok(v) => v,
            Err(_) => AlertDesc::Unknown(repr),
        };
        Ok((v, rest))
    }

    fn try_skip(data: &'de [u8]) -> (r: Result<&'de [u8], Error>) {
        match Self::try_parse(data) {
            Ok((_, rest)) => Ok(rest),
            Err(e) => Err(e),
        }
    }
}

impl TryEncode for AlertDesc {
    open spec fn spec_encode(v: Self::V, s: (Seq<u8>, nat)) -> ((Seq<u8>, nat), Result<(), Alert>) {
        <u8 as TryEncode>::spec_encode(v.spec_to_repr(), s)
    }

    fn try_encode(&self, out: &mut EncBuf<'_>) -> (r: Result<(), Error>) {
        self.to_repr().try_encode(out)
    }
}

} // verus!
