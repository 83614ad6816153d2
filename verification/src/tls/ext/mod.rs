//! TLS extensions.

pub mod psk;
pub mod sni;

use vstd::prelude::*;

use crate::wire::ExtensionType;

verus! {

/// The extension can appear in `ClientHello`.
pub const CH: u64 = 1 << 0;
/// The extension can appear in `ServerHello`.
pub const SH: u64 = 1 << 1;
/// The extension can appear in `EncryptedExtensions`.
pub const EE: u64 = 1 << 2;
/// The extension can appear in `Certificate`.
pub const CT: u64 = 1 << 3;
/// The extension can appear in `CertificateRequest`.
pub const CR: u64 = 1 << 4;
/// The extension can appear in `NewSessionTicket`.
pub const NST: u64 = 1 << 5;
/// The extension can appear in `HelloRetryRequest`.
pub const HRR: u64 = 1 << 6;

/// The flag of the `server_name` extension.
pub const SERVER_NAME: u64 = 1 << 7 | CH | EE;
/// The flag of the `max_fragment_length` extension.
pub const MAX_FRAGMENT_LENGTH: u64 = 1 << 8 | CH | EE;
/// The flag of the `status_request` extension.
pub const STATUS_REQUEST: u64 = 1 << 9 | CH | CR | CT;
/// The flag of the `supported_groups` extension.
pub const SUPPORTED_GROUPS: u64 = 1 << 10 | CH | EE;
/// The flag of the `signature_algorithms` extension.
pub const SIGNATURE_ALGORITHMS: u64 = 1 << 11 | CH | CR;
/// The flag of the `use_srtp` extension.
pub const USE_SRTP: u64 = 1 << 12 | CH | EE;
/// The flag of the `heartbeat` extension.
pub const HEARTBEAT: u64 = 1 << 13 | CH | EE;
/// The flag of the `application_layer_protocol_negotiation` extension.
pub const ALPN: u64 = 1 << 14 | CH | EE;
/// The flag of the `signed_certificate_timestamp` extension.
pub const SCT: u64 = 1 << 15 | CH | CR | CT;
/// The flag of the `client_certificate_type` extension.
pub const CLIENT_CERTIFICATE_TYPE: u64 = 1 << 16 | CH | EE;
/// The flag of the `server_certificate_type` extension.
pub const SERVER_CERTIFICATE_TYPE: u64 = 1 << 17 | CH | EE;
/// The flag of the `padding` extension.
pub const PADDING: u64 = 1 << 18 | CH;
/// The flag of the `key_share` extension.
pub const KEY_SHARE: u64 = 1 << 19 | CH | SH | HRR;
/// The flag of the `pre_shared_key` extension.
pub const PRE_SHARED_KEY: u64 = 1 << 20 | CH | SH;
/// The flag of the `psk_key_exchange_modes` extension.
pub const PSK_KEX_MODES: u64 = 1 << 21 | CH;
/// The flag of the `early_data` extension.
pub const EARLY_DATA: u64 = 1 << 22 | CH | EE | NST;
/// The flag of the `supported_versions` extension.
pub const SUPPORTED_VERSIONS: u64 = 1 << 23 | CH | SH | HRR;
/// The flag of the `cookie` extension.
pub const COOKIE: u64 = 1 << 24 | CH | HRR;
/// The flag of the `certificate_authorities` extension.
pub const CERTIFICATE_AUTHORITIES: u64 = 1 << 25 | CH | CR;
/// The flag of the `oid_filters` extension.
pub const OID_FILTERS: u64 = 1 << 26 | CR;
/// The flag of the `post_handshake_auth` extension.
pub const POST_HANDSHAKE_AUTH: u64 = 1 << 27 | CH;
/// The flag of the `signature_algorithms_cert` extension.
pub const SIGNATURE_ALGORITHMS_CERT: u64 = 1 << 28 | CH | CR;

/// Bitmask for all supported extensions.
#[derive(Copy, Clone, Debug, PartialEq, Eq, Structural)]
pub struct ExtMask {
    bits: u64,
}

impl View for ExtMask {
    type V = u64;

    closed spec fn view(&self) -> u64 {
        self.bits
    }
}

/// The flag of an extension type: a bit of its own and the bits of the
/// messages it can appear in. An unknown extension has no flag.
pub open spec fn spec_flag(ty: ExtensionType) -> u64 {
    match ty {
        ExtensionType::ServerName => SERVER_NAME,
        ExtensionType::MaxFragmentLength => MAX_FRAGMENT_LENGTH,
        ExtensionType::StatusRequest => STATUS_REQUEST,
        ExtensionType::SupportedGroups => SUPPORTED_GROUPS,
        ExtensionType::SignatureAlgorithms => SIGNATURE_ALGORITHMS,
        ExtensionType::UseSrtp => USE_SRTP,
        ExtensionType::Heartbeat => HEARTBEAT,
        ExtensionType::Alpn => ALPN,
        ExtensionType::Sct => SCT,
        ExtensionType::ClientCertificateType => CLIENT_CERTIFICATE_TYPE,
        ExtensionType::ServerCertificateType => SERVER_CERTIFICATE_TYPE,
        ExtensionType::Padding => PADDING,
        ExtensionType::PreSharedKey => PRE_SHARED_KEY,
        ExtensionType::EarlyData => EARLY_DATA,
        ExtensionType::SupportedVersions => SUPPORTED_VERSIONS,
        ExtensionType::Cookie => COOKIE,
        ExtensionType::PskKexModes => PSK_KEX_MODES,
        ExtensionType::CertificateAuthorities => CERTIFICATE_AUTHORITIES,
        ExtensionType::OidFilters => OID_FILTERS,
        ExtensionType::PostHandshakeAuth => POST_HANDSHAKE_AUTH,
        ExtensionType::SignatureAlgorithmsCert => SIGNATURE_ALGORITHMS_CERT,
        ExtensionType::KeyShare => KEY_SHARE,
        ExtensionType::Unknown(_) => 0,
    }
}

/// The position of the bit that belongs to an extension type alone.
pub open spec fn spec_own_bit(ty: ExtensionType) -> u64 {
    match ty {
        ExtensionType::ServerName => 7,
        ExtensionType::MaxFragmentLength => 8,
        ExtensionType::StatusRequest => 9,
        ExtensionType::SupportedGroups => 10,
        ExtensionType::SignatureAlgorithms => 11,
        ExtensionType::UseSrtp => 12,
        ExtensionType::Heartbeat => 13,
        ExtensionType::Alpn => 14,
        ExtensionType::Sct => 15,
        ExtensionType::ClientCertificateType => 16,
        ExtensionType::ServerCertificateType => 17,
        ExtensionType::Padding => 18,
        ExtensionType::KeyShare => 19,
        ExtensionType::PreSharedKey => 20,
        ExtensionType::PskKexModes => 21,
        ExtensionType::EarlyData => 22,
        ExtensionType::SupportedVersions => 23,
        ExtensionType::Cookie => 24,
        ExtensionType::CertificateAuthorities => 25,
        ExtensionType::OidFilters => 26,
        ExtensionType::PostHandshakeAuth => 27,
        ExtensionType::SignatureAlgorithmsCert => 28,
        ExtensionType::Unknown(_) => 0,
    }
}

/// `other` has no bit that `mask` lacks.
pub open spec fn spec_contains(mask: u64, other: u64) -> bool {
    mask & other == other
}

/// An extension type is allowed in a `ClientHello`.
pub open spec fn spec_allowed_in_ch(ty: ExtensionType) -> bool {
    spec_contains(spec_flag(ty), CH)
}

/// The union of the flags of `types`.
pub open spec fn spec_mask_of(types: Seq<ExtensionType>) -> u64
    decreases types.len(),
{
    if types.len() == 0 {
        0
    } else {
        spec_mask_of(types.drop_last()) | spec_flag(types.last())
    }
}

impl ExtMask {
    /// Returns the empty mask.
    pub fn empty() -> (r: ExtMask)
        ensures
            r@ == 0,
    {
        ExtMask { bits: 0 }
    }

    /// Creates a mask from raw bits, keeping bits that name no
    /// extension.
    pub fn from_bits_retain(bits: u64) -> (r: ExtMask)
        ensures
            r@ == bits,
    {
        ExtMask { bits }
    }

    /// Returns the raw bits.
    pub fn bits(&self) -> (r: u64)
        ensures
            r == self@,
    {
        self.bits
    }

    /// Reports whether every bit of `other` is set in `self`.
    pub fn contains(&self, other: ExtMask) -> (r: bool)
        ensures
            r == spec_contains(self@, other@),
    {
        self.bits & other.bits == other.bits
    }

    /// Returns the union of both masks.
    pub fn union(&self, other: ExtMask) -> (r: ExtMask)
        ensures
            r@ == self@ | other@,
    {
        ExtMask { bits: self.bits | other.bits }
    }

    /// Sets the bits of `other`.
    pub fn insert(&mut self, other: ExtMask)
        ensures
            final(self)@ == old(self)@ | other@,
    {
        self.bits = self.bits | other.bits;
    }

    /// Sets the bits of the flag of `ty`.
    pub fn bitor_assign(&mut self, ty: ExtensionType)
        ensures
            final(self)@ == old(self)@ | spec_flag(ty),
    {
        let flag = ty.flag();
        self.insert(flag);
    }
}

impl ExtensionType {
    /// Returns the flag of the extension type.
    pub fn flag(self) -> (r: ExtMask)
        ensures
            r@ == spec_flag(self),
    {
        let bits: u64 = match self {
            ExtensionType::ServerName => SERVER_NAME,
            ExtensionType::MaxFragmentLength => MAX_FRAGMENT_LENGTH,
            ExtensionType::StatusRequest => STATUS_REQUEST,
            ExtensionType::SupportedGroups => SUPPORTED_GROUPS,
            ExtensionType::SignatureAlgorithms => SIGNATURE_ALGORITHMS,
            ExtensionType::UseSrtp => USE_SRTP,
            ExtensionType::Heartbeat => HEARTBEAT,
            ExtensionType::Alpn => ALPN,
            ExtensionType::Sct => SCT,
            ExtensionType::ClientCertificateType => CLIENT_CERTIFICATE_TYPE,
            ExtensionType::ServerCertificateType => SERVER_CERTIFICATE_TYPE,
            ExtensionType::Padding => PADDING,
            ExtensionType::PreSharedKey => PRE_SHARED_KEY,
            ExtensionType::EarlyData => EARLY_DATA,
            ExtensionType::SupportedVersions => SUPPORTED_VERSIONS,
            ExtensionType::Cookie => COOKIE,
            ExtensionType::PskKexModes => PSK_KEX_MODES,
            ExtensionType::CertificateAuthorities => CERTIFICATE_AUTHORITIES,
            ExtensionType::OidFilters => OID_FILTERS,
            ExtensionType::PostHandshakeAuth => POST_HANDSHAKE_AUTH,
            ExtensionType::SignatureAlgorithmsCert => SIGNATURE_ALGORITHMS_CERT,
            ExtensionType::KeyShare => KEY_SHARE,
            ExtensionType::Unknown(_) => 0,
        };
        ExtMask::from_bits_retain(bits)
    }
}

/// Each flag of a known extension type is its own bit and bits below
/// `HRR`'s.
proof fn lemma_flag_layout() by (bit_vector)
    ensures
        SERVER_NAME == (1u64 << 7u64) | (SERVER_NAME & 0x7f),
        MAX_FRAGMENT_LENGTH == (1u64 << 8u64) | (MAX_FRAGMENT_LENGTH & 0x7f),
        STATUS_REQUEST == (1u64 << 9u64) | (STATUS_REQUEST & 0x7f),
        SUPPORTED_GROUPS == (1u64 << 10u64) | (SUPPORTED_GROUPS & 0x7f),
        SIGNATURE_ALGORITHMS == (1u64 << 11u64) | (SIGNATURE_ALGORITHMS & 0x7f),
        USE_SRTP == (1u64 << 12u64) | (USE_SRTP & 0x7f),
        HEARTBEAT == (1u64 << 13u64) | (HEARTBEAT & 0x7f),
        ALPN == (1u64 << 14u64) | (ALPN & 0x7f),
        SCT == (1u64 << 15u64) | (SCT & 0x7f),
        CLIENT_CERTIFICATE_TYPE == (1u64 << 16u64) | (CLIENT_CERTIFICATE_TYPE & 0x7f),
        SERVER_CERTIFICATE_TYPE == (1u64 << 17u64) | (SERVER_CERTIFICATE_TYPE & 0x7f),
        PADDING == (1u64 << 18u64) | (PADDING & 0x7f),
        KEY_SHARE == (1u64 << 19u64) | (KEY_SHARE & 0x7f),
        PRE_SHARED_KEY == (1u64 << 20u64) | (PRE_SHARED_KEY & 0x7f),
        PSK_KEX_MODES == (1u64 << 21u64) | (PSK_KEX_MODES & 0x7f),
        EARLY_DATA == (1u64 << 22u64) | (EARLY_DATA & 0x7f),
        SUPPORTED_VERSIONS == (1u64 << 23u64) | (SUPPORTED_VERSIONS & 0x7f),
        COOKIE == (1u64 << 24u64) | (COOKIE & 0x7f),
        CERTIFICATE_AUTHORITIES == (1u64 << 25u64) | (CERTIFICATE_AUTHORITIES & 0x7f),
        OID_FILTERS == (1u64 << 26u64) | (OID_FILTERS & 0x7f),
        POST_HANDSHAKE_AUTH == (1u64 << 27u64) | (POST_HANDSHAKE_AUTH & 0x7f),
        SIGNATURE_ALGORITHMS_CERT == (1u64 << 28u64) | (SIGNATURE_ALGORITHMS_CERT & 0x7f),
{
}

/// The flag of a known type is its own bit and context bits.
proof fn lemma_flag_of(ty: ExtensionType)
    ensures
        !(ty is Unknown) ==> 7 <= spec_own_bit(ty) <= 28 && spec_flag(ty) == (1u64 << spec_own_bit(
            ty,
        )) | (spec_flag(ty) & 0x7f),
        ty is Unknown ==> spec_flag(ty) == 0,
{
    lemma_flag_layout();
}

/// Facts about unions of bits.
proof fn lemma_or_bits(m: u64, g: u64, h: u64, o: u64) by (bit_vector)
    ensures
        (m | g) & g == g,
        m & h == h ==> (m | g) & h == h,
        (m | g) & o != 0 <==> (m & o != 0 || g & o != 0),
        g & 0x7f < 0x80,
        0u64 & o == 0,
{
}

/// Facts about flags made of an own bit and context bits.
proof fn lemma_own_bits(m: u64, a: u64, b: u64, c: u64) by (bit_vector)
    requires
        7 <= a <= 28,
        7 <= b <= 28,
        c < 0x80,
    ensures
        ((1u64 << a) | c) & (1u64 << b) != 0 <==> a == b,
        m & ((1u64 << a) | c) == ((1u64 << a) | c) ==> m & (1u64 << a) != 0,
{
}

/// A mask built from the flags of `types` has the own bit of a known
/// type exactly when `types` holds the type, and then it has its whole
/// flag.
proof fn lemma_mask_of(types: Seq<ExtensionType>, ty: ExtensionType)
    requires
        !(ty is Unknown),
    ensures
        spec_mask_of(types) & (1u64 << spec_own_bit(ty)) != 0 <==> types.contains(ty),
        types.contains(ty) ==> spec_contains(spec_mask_of(types), spec_flag(ty)),
    decreases types.len(),
{
    lemma_flag_of(ty);
    let o = 1u64 << spec_own_bit(ty);
    if types.len() == 0 {
        lemma_or_bits(0, 0, 0, o);
    } else {
        let prev = types.drop_last();
        let x = types.last();
        lemma_mask_of(prev, ty);
        lemma_flag_of(x);
        let m = spec_mask_of(prev);
        let f = spec_flag(x);
        assert(types =~= prev.push(x));
        assert(types.contains(ty) <==> (prev.contains(ty) || x == ty)) by {
            if types.contains(ty) {
                let i = choose|i: int| 0 <= i < types.len() && types[i] == ty;
                if i < prev.len() {
                    assert(prev[i] == ty);
                }
            }
            if prev.contains(ty) {
                let i = choose|i: int| 0 <= i < prev.len() && prev[i] == ty;
                assert(types[i] == ty);
            }
            if x == ty {
                assert(types[types.len() - 1] == ty);
            }
        }
        lemma_or_bits(m, f, spec_flag(ty), o);
        if !(x is Unknown) {
            lemma_or_bits(0, f, 0, 0);
            lemma_own_bits(m, spec_own_bit(x), spec_own_bit(ty), f & 0x7f);
            if x != ty {
                assert(spec_own_bit(x) != spec_own_bit(ty));
            }
        }
    }
}

/// Duplicate detection: a mask built from the flags of `types`
/// contains the flag of a known extension type exactly when `types`
/// holds that type.
pub proof fn lemma_mask_detects_duplicates(types: Seq<ExtensionType>, ty: ExtensionType)
    requires
        !(ty is Unknown),
    ensures
        spec_contains(spec_mask_of(types), spec_flag(ty)) <==> types.contains(ty),
{
    lemma_mask_of(types, ty);
    lemma_flag_of(ty);
    lemma_or_bits(0, spec_flag(ty), 0, 0);
    lemma_own_bits(spec_mask_of(types), spec_own_bit(ty), 7, spec_flag(ty) & 0x7f);
}

/// The mask of a list of extension types contains the flag of each type
/// in the list.
pub proof fn lemma_mask_contains_each(types: Seq<ExtensionType>, i: int)
    requires
        0 <= i < types.len(),
    ensures
        spec_contains(spec_mask_of(types), spec_flag(types[i])),
    decreases types.len(),
{
    let m = spec_mask_of(types.drop_last());
    let f = spec_flag(types.last());
    let g = spec_flag(types[i]);
    if i == types.len() - 1 {
        assert((m | f) & f == f) by (bit_vector);
    } else {
        assert(types.drop_last()[i] == types[i]);
        lemma_mask_contains_each(types.drop_last(), i);
        assert(m & g == g ==> (m | f) & g == g) by (bit_vector);
    }
}

/// Which message bits each flag has.
proof fn lemma_flag_message_bits() by (bit_vector)
    ensures
        SERVER_NAME & 1u64 != 0,
        SERVER_NAME & 2u64 == 0,
        SERVER_NAME & 4u64 != 0,
        SERVER_NAME & 8u64 == 0,
        SERVER_NAME & 16u64 == 0,
        SERVER_NAME & 32u64 == 0,
        SERVER_NAME & 64u64 == 0,
        MAX_FRAGMENT_LENGTH & 1u64 != 0,
        MAX_FRAGMENT_LENGTH & 2u64 == 0,
        MAX_FRAGMENT_LENGTH & 4u64 != 0,
        MAX_FRAGMENT_LENGTH & 8u64 == 0,
        MAX_FRAGMENT_LENGTH & 16u64 == 0,
        MAX_FRAGMENT_LENGTH & 32u64 == 0,
        MAX_FRAGMENT_LENGTH & 64u64 == 0,
        STATUS_REQUEST & 1u64 != 0,
        STATUS_REQUEST & 2u64 == 0,
        STATUS_REQUEST & 4u64 == 0,
        STATUS_REQUEST & 8u64 != 0,
        STATUS_REQUEST & 16u64 != 0,
        STATUS_REQUEST & 32u64 == 0,
        STATUS_REQUEST & 64u64 == 0,
        SUPPORTED_GROUPS & 1u64 != 0,
        SUPPORTED_GROUPS & 2u64 == 0,
        SUPPORTED_GROUPS & 4u64 != 0,
        SUPPORTED_GROUPS & 8u64 == 0,
        SUPPORTED_GROUPS & 16u64 == 0,
        SUPPORTED_GROUPS & 32u64 == 0,
        SUPPORTED_GROUPS & 64u64 == 0,
        SIGNATURE_ALGORITHMS & 1u64 != 0,
        SIGNATURE_ALGORITHMS & 2u64 == 0,
        SIGNATURE_ALGORITHMS & 4u64 == 0,
        SIGNATURE_ALGORITHMS & 8u64 == 0,
        SIGNATURE_ALGORITHMS & 16u64 != 0,
        SIGNATURE_ALGORITHMS & 32u64 == 0,
        SIGNATURE_ALGORITHMS & 64u64 == 0,
        USE_SRTP & 1u64 != 0,
        USE_SRTP & 2u64 == 0,
        USE_SRTP & 4u64 != 0,
        USE_SRTP & 8u64 == 0,
        USE_SRTP & 16u64 == 0,
        USE_SRTP & 32u64 == 0,
        USE_SRTP & 64u64 == 0,
        HEARTBEAT & 1u64 != 0,
        HEARTBEAT & 2u64 == 0,
        HEARTBEAT & 4u64 != 0,
        HEARTBEAT & 8u64 == 0,
        HEARTBEAT & 16u64 == 0,
        HEARTBEAT & 32u64 == 0,
        HEARTBEAT & 64u64 == 0,
        ALPN & 1u64 != 0,
        ALPN & 2u64 == 0,
        ALPN & 4u64 != 0,
        ALPN & 8u64 == 0,
        ALPN & 16u64 == 0,
        ALPN & 32u64 == 0,
        ALPN & 64u64 == 0,
        SCT & 1u64 != 0,
        SCT & 2u64 == 0,
        SCT & 4u64 == 0,
        SCT & 8u64 != 0,
        SCT & 16u64 != 0,
        SCT & 32u64 == 0,
        SCT & 64u64 == 0,
        CLIENT_CERTIFICATE_TYPE & 1u64 != 0,
        CLIENT_CERTIFICATE_TYPE & 2u64 == 0,
        CLIENT_CERTIFICATE_TYPE & 4u64 != 0,
        CLIENT_CERTIFICATE_TYPE & 8u64 == 0,
        CLIENT_CERTIFICATE_TYPE & 16u64 == 0,
        CLIENT_CERTIFICATE_TYPE & 32u64 == 0,
        CLIENT_CERTIFICATE_TYPE & 64u64 == 0,
        SERVER_CERTIFICATE_TYPE & 1u64 != 0,
        SERVER_CERTIFICATE_TYPE & 2u64 == 0,
        SERVER_CERTIFICATE_TYPE & 4u64 != 0,
        SERVER_CERTIFICATE_TYPE & 8u64 == 0,
        SERVER_CERTIFICATE_TYPE & 16u64 == 0,
        SERVER_CERTIFICATE_TYPE & 32u64 == 0,
        SERVER_CERTIFICATE_TYPE & 64u64 == 0,
        PADDING & 1u64 != 0,
        PADDING & 2u64 == 0,
        PADDING & 4u64 == 0,
        PADDING & 8u64 == 0,
        PADDING & 16u64 == 0,
        PADDING & 32u64 == 0,
        PADDING & 64u64 == 0,
        KEY_SHARE & 1u64 != 0,
        KEY_SHARE & 2u64 != 0,
        KEY_SHARE & 4u64 == 0,
        KEY_SHARE & 8u64 == 0,
        KEY_SHARE & 16u64 == 0,
        KEY_SHARE & 32u64 == 0,
        KEY_SHARE & 64u64 != 0,
        PRE_SHARED_KEY & 1u64 != 0,
        PRE_SHARED_KEY & 2u64 != 0,
        PRE_SHARED_KEY & 4u64 == 0,
        PRE_SHARED_KEY & 8u64 == 0,
        PRE_SHARED_KEY & 16u64 == 0,
        PRE_SHARED_KEY & 32u64 == 0,
        PRE_SHARED_KEY & 64u64 == 0,
        PSK_KEX_MODES & 1u64 != 0,
        PSK_KEX_MODES & 2u64 == 0,
        PSK_KEX_MODES & 4u64 == 0,
        PSK_KEX_MODES & 8u64 == 0,
        PSK_KEX_MODES & 16u64 == 0,
        PSK_KEX_MODES & 32u64 == 0,
        PSK_KEX_MODES & 64u64 == 0,
        EARLY_DATA & 1u64 != 0,
        EARLY_DATA & 2u64 == 0,
        EARLY_DATA & 4u64 != 0,
        EARLY_DATA & 8u64 == 0,
        EARLY_DATA & 16u64 == 0,
        EARLY_DATA & 32u64 != 0,
        EARLY_DATA & 64u64 == 0,
        SUPPORTED_VERSIONS & 1u64 != 0,
        SUPPORTED_VERSIONS & 2u64 != 0,
        SUPPORTED_VERSIONS & 4u64 == 0,
        SUPPORTED_VERSIONS & 8u64 == 0,
        SUPPORTED_VERSIONS & 16u64 == 0,
        SUPPORTED_VERSIONS & 32u64 == 0,
        SUPPORTED_VERSIONS & 64u64 != 0,
        COOKIE & 1u64 != 0,
        COOKIE & 2u64 == 0,
        COOKIE & 4u64 == 0,
        COOKIE & 8u64 == 0,
        COOKIE & 16u64 == 0,
        COOKIE & 32u64 == 0,
        COOKIE & 64u64 != 0,
        CERTIFICATE_AUTHORITIES & 1u64 != 0,
        CERTIFICATE_AUTHORITIES & 2u64 == 0,
        CERTIFICATE_AUTHORITIES & 4u64 == 0,
        CERTIFICATE_AUTHORITIES & 8u64 == 0,
        CERTIFICATE_AUTHORITIES & 16u64 != 0,
        CERTIFICATE_AUTHORITIES & 32u64 == 0,
        CERTIFICATE_AUTHORITIES & 64u64 == 0,
        OID_FILTERS & 1u64 == 0,
        OID_FILTERS & 2u64 == 0,
        OID_FILTERS & 4u64 == 0,
        OID_FILTERS & 8u64 == 0,
        OID_FILTERS & 16u64 != 0,
        OID_FILTERS & 32u64 == 0,
        OID_FILTERS & 64u64 == 0,
        POST_HANDSHAKE_AUTH & 1u64 != 0,
        POST_HANDSHAKE_AUTH & 2u64 == 0,
        POST_HANDSHAKE_AUTH & 4u64 == 0,
        POST_HANDSHAKE_AUTH & 8u64 == 0,
        POST_HANDSHAKE_AUTH & 16u64 == 0,
        POST_HANDSHAKE_AUTH & 32u64 == 0,
        POST_HANDSHAKE_AUTH & 64u64 == 0,
        SIGNATURE_ALGORITHMS_CERT & 1u64 != 0,
        SIGNATURE_ALGORITHMS_CERT & 2u64 == 0,
        SIGNATURE_ALGORITHMS_CERT & 4u64 == 0,
        SIGNATURE_ALGORITHMS_CERT & 8u64 == 0,
        SIGNATURE_ALGORITHMS_CERT & 16u64 != 0,
        SIGNATURE_ALGORITHMS_CERT & 32u64 == 0,
        SIGNATURE_ALGORITHMS_CERT & 64u64 == 0,
{
}

/// The messages that a known extension may appear in, per the table of
/// RFC 8446, section 4.2: every known extension but `oid_filters` may
/// appear in a `ClientHello`; only `key_share`, `pre_shared_key` and
/// `supported_versions` in a `ServerHello`; and so on for
/// `EncryptedExtensions`, `Certificate`, `CertificateRequest`,
/// `NewSessionTicket` and `HelloRetryRequest`. An unknown extension has
/// no flag.
pub proof fn lemma_flag_messages(ty: ExtensionType)
    ensures
        spec_flag(ty) & 1u64 != 0 <==> (ty is ServerName || ty is MaxFragmentLength || ty is StatusRequest || ty is SupportedGroups || ty is SignatureAlgorithms || ty is UseSrtp || ty is Heartbeat || ty is Alpn || ty is Sct || ty is ClientCertificateType || ty is ServerCertificateType || ty is Padding || ty is KeyShare || ty is PreSharedKey || ty is PskKexModes || ty is EarlyData || ty is SupportedVersions || ty is Cookie || ty is CertificateAuthorities || ty is PostHandshakeAuth || ty is SignatureAlgorithmsCert),
        spec_flag(ty) & 2u64 != 0 <==> (ty is KeyShare || ty is PreSharedKey || ty is SupportedVersions),
        spec_flag(ty) & 4u64 != 0 <==> (ty is ServerName || ty is MaxFragmentLength || ty is SupportedGroups || ty is UseSrtp || ty is Heartbeat || ty is Alpn || ty is ClientCertificateType || ty is ServerCertificateType || ty is EarlyData),
        spec_flag(ty) & 8u64 != 0 <==> (ty is StatusRequest || ty is Sct),
        spec_flag(ty) & 16u64 != 0 <==> (ty is StatusRequest || ty is SignatureAlgorithms || ty is Sct || ty is CertificateAuthorities || ty is OidFilters || ty is SignatureAlgorithmsCert),
        spec_flag(ty) & 32u64 != 0 <==> (ty is EarlyData),
        spec_flag(ty) & 64u64 != 0 <==> (ty is KeyShare || ty is SupportedVersions || ty is Cookie),
        !(ty is Unknown) ==> (spec_allowed_in_ch(ty) <==> !(ty is OidFilters)),
        ty is Unknown ==> spec_flag(ty) == 0,
{
    lemma_flag_message_bits();
    lemma_ch_bit(spec_flag(ty));
    match ty {
        ExtensionType::ServerName => {},
        ExtensionType::MaxFragmentLength => {},
        ExtensionType::StatusRequest => {},
        ExtensionType::SupportedGroups => {},
        ExtensionType::SignatureAlgorithms => {},
        ExtensionType::UseSrtp => {},
        ExtensionType::Heartbeat => {},
        ExtensionType::Alpn => {},
        ExtensionType::Sct => {},
        ExtensionType::ClientCertificateType => {},
        ExtensionType::ServerCertificateType => {},
        ExtensionType::Padding => {},
        ExtensionType::PreSharedKey => {},
        ExtensionType::EarlyData => {},
        ExtensionType::SupportedVersions => {},
        ExtensionType::Cookie => {},
        ExtensionType::PskKexModes => {},
        ExtensionType::CertificateAuthorities => {},
        ExtensionType::OidFilters => {},
        ExtensionType::PostHandshakeAuth => {},
        ExtensionType::SignatureAlgorithmsCert => {},
        ExtensionType::KeyShare => {},
        ExtensionType::Unknown(_) => {
            lemma_or_bits(0, 0, 0, 1);
            lemma_or_bits(0, 0, 0, 2);
            lemma_or_bits(0, 0, 0, 4);
            lemma_or_bits(0, 0, 0, 8);
            lemma_or_bits(0, 0, 0, 16);
            lemma_or_bits(0, 0, 0, 32);
            lemma_or_bits(0, 0, 0, 64);
        },
    }
}

/// Containing `CH` is having its bit.
proof fn lemma_ch_bit(f: u64) by (bit_vector)
    ensures
        (f & CH == CH) <==> (f & 1u64 != 0),
{
}

} // verus!
