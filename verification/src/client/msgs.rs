//! Messages a client sends and what a server reads of them.

use vstd::prelude::*;

use crate::{
    tls::{
        ext::{
            lemma_mask_detects_duplicates, spec_allowed_in_ch, spec_contains, spec_flag,
            spec_mask_of, ExtMask, CH,
        },
        MaxFragmentLength,
    },
    wire::{
        self,
        alert::{Alert, AlertDesc},
        alpn::Alpn,
        encode::{enc_wf, EncState, TryEncode},
        parse::{parse_all_outcome, ParseOutcome},
        roundtrip::lemma_client_hello_roundtrip,
        sni::ServerNameList,
        size::{Object, Size},
        tls13::{
            self,
            ext::{
                Cookie, KeyShareClientHello, NamedGroupList, OfferedPsksList, PskKexModesList,
                SupportedVersionsList,
            },
            CipherSuiteId,
        },
        vec::{lemma_iter_items_len, spec_iter_items, Iter, SmallVec},
        Error, ExtensionType, ProtocolVersion, TryParse,
    },
};

verus! {

/// An extension found in a `ClientHello`.
#[derive(Copy, Clone, Debug)]
pub enum Extension<'a> {
    /// The `server_name` extension.
    ServerName(ServerNameList<'a>),
    /// The `max_fragment_length` extension.
    MaxFragmentLength(wire::MaxFragmentLength),
    /// The `status_request` extension.
    StatusRequest,
    /// The `supported_groups` extension.
    SupportedGroups(NamedGroupList<'a>),
    /// The `signature_algorithms` extension.
    SignatureAlgorithms,
    /// The `use_srtp` extension.
    UseSrtp,
    /// The `heartbeat` extension.
    Heartbeat,
    /// The `application_layer_protocol_negotiation` extension.
    Alpn(Alpn<'a>),
    /// The `signed_certificate_timestamp` extension.
    Sct,
    /// The `client_certificate_type` extension.
    ClientCertificateType,
    /// The `server_certificate_type` extension.
    ServerCertificateType,
    /// The `padding` extension.
    Padding,
    /// The `pre_shared_key` extension.
    PreSharedKey(OfferedPsksList<'a>),
    /// The `early_data` extension.
    EarlyData,
    /// The `supported_versions` extension in a `ClientHello`.
    SupportedVersions(SupportedVersionsList<'a>),
    /// The `cookie` extension.
    Cookie(Cookie<'a>),
    /// The `psk_key_exchange_modes` extension.
    PskKexModes(PskKexModesList<'a>),
    /// The `certificate_authorities` extension.
    CertificateAuthorities,
    /// The `oid_filters` extension.
    OidFilters,
    /// The `post_handshake_auth` extension.
    PostHandshakeAuth,
    /// The `signature_algorithms_cert` extension.
    SignatureAlgorithmsCert,
    /// The `key_share` extension.
    KeyShare(KeyShareClientHello<'a>),
    /// An unknown extension.
    Unknown(wire::Extension<'a>),
}

/// What an extension found in a `ClientHello` holds.
pub ghost enum ExtensionView {
    ServerName(Seq<u8>),
    MaxFragmentLength(wire::MaxFragmentLength),
    StatusRequest,
    SupportedGroups(Seq<u8>),
    SignatureAlgorithms,
    UseSrtp,
    Heartbeat,
    Alpn(Seq<u8>),
    Sct,
    ClientCertificateType,
    ServerCertificateType,
    Padding,
    PreSharedKey((Seq<u8>, Seq<u8>)),
    EarlyData,
    SupportedVersions(Seq<u8>),
    Cookie(Seq<u8>),
    PskKexModes(Seq<u8>),
    CertificateAuthorities,
    OidFilters,
    PostHandshakeAuth,
    SignatureAlgorithmsCert,
    KeyShare(Seq<u8>),
    Unknown((ExtensionType, Seq<u8>)),
}

impl<'a> View for Extension<'a> {
    type V = ExtensionView;

    open spec fn view(&self) -> ExtensionView {
        match self {
            Extension::ServerName(x) => ExtensionView::ServerName(x@),
            Extension::MaxFragmentLength(x) => ExtensionView::MaxFragmentLength(x@),
            Extension::StatusRequest => ExtensionView::StatusRequest,
            Extension::SupportedGroups(x) => ExtensionView::SupportedGroups(x@),
            Extension::SignatureAlgorithms => ExtensionView::SignatureAlgorithms,
            Extension::UseSrtp => ExtensionView::UseSrtp,
            Extension::Heartbeat => ExtensionView::Heartbeat,
            Extension::Alpn(x) => ExtensionView::Alpn(x@),
            Extension::Sct => ExtensionView::Sct,
            Extension::ClientCertificateType => ExtensionView::ClientCertificateType,
            Extension::ServerCertificateType => ExtensionView::ServerCertificateType,
            Extension::Padding => ExtensionView::Padding,
            Extension::PreSharedKey(x) => ExtensionView::PreSharedKey(x@),
            Extension::EarlyData => ExtensionView::EarlyData,
            Extension::SupportedVersions(x) => ExtensionView::SupportedVersions(x@),
            Extension::Cookie(x) => ExtensionView::Cookie(x@),
            Extension::PskKexModes(x) => ExtensionView::PskKexModes(x@),
            Extension::CertificateAuthorities => ExtensionView::CertificateAuthorities,
            Extension::OidFilters => ExtensionView::OidFilters,
            Extension::PostHandshakeAuth => ExtensionView::PostHandshakeAuth,
            Extension::SignatureAlgorithmsCert => ExtensionView::SignatureAlgorithmsCert,
            Extension::KeyShare(x) => ExtensionView::KeyShare(x@),
            Extension::Unknown(x) => ExtensionView::Unknown(x@),
        }
    }
}

/// The type of an extension.
pub open spec fn spec_ext_ty(v: ExtensionView) -> ExtensionType {
    match v {
        ExtensionView::ServerName(_) => ExtensionType::ServerName,
        ExtensionView::MaxFragmentLength(_) => ExtensionType::MaxFragmentLength,
        ExtensionView::StatusRequest => ExtensionType::StatusRequest,
        ExtensionView::SupportedGroups(_) => ExtensionType::SupportedGroups,
        ExtensionView::SignatureAlgorithms => ExtensionType::SignatureAlgorithms,
        ExtensionView::UseSrtp => ExtensionType::UseSrtp,
        ExtensionView::Heartbeat => ExtensionType::Heartbeat,
        ExtensionView::Alpn(_) => ExtensionType::Alpn,
        ExtensionView::Sct => ExtensionType::Sct,
        ExtensionView::ClientCertificateType => ExtensionType::ClientCertificateType,
        ExtensionView::ServerCertificateType => ExtensionType::ServerCertificateType,
        ExtensionView::Padding => ExtensionType::Padding,
        ExtensionView::PreSharedKey(_) => ExtensionType::PreSharedKey,
        ExtensionView::EarlyData => ExtensionType::EarlyData,
        ExtensionView::SupportedVersions(_) => ExtensionType::SupportedVersions,
        ExtensionView::Cookie(_) => ExtensionType::Cookie,
        ExtensionView::PskKexModes(_) => ExtensionType::PskKexModes,
        ExtensionView::CertificateAuthorities => ExtensionType::CertificateAuthorities,
        ExtensionView::OidFilters => ExtensionType::OidFilters,
        ExtensionView::PostHandshakeAuth => ExtensionType::PostHandshakeAuth,
        ExtensionView::SignatureAlgorithmsCert => ExtensionType::SignatureAlgorithmsCert,
        ExtensionView::KeyShare(_) => ExtensionType::KeyShare,
        ExtensionView::Unknown(x) => x.0,
    }
}

/// The extension that the body of an extension of type `ty` is.
pub open spec fn spec_ext_from_body(ty: ExtensionType, body: Seq<u8>) -> Result<ExtensionView, Alert> {
    match ty {
        ExtensionType::ServerName => match parse_all_outcome(<ServerNameList<'static> as TryParse<'static>>::spec_parse(body), body) {
            Ok(x) => Ok(ExtensionView::ServerName(x)),
            Err(a) => Err(a),
        },
        ExtensionType::MaxFragmentLength => match parse_all_outcome(<wire::MaxFragmentLength as TryParse<'static>>::spec_parse(body), body) {
            Ok(x) => Ok(ExtensionView::MaxFragmentLength(x)),
            Err(a) => Err(a),
        },
        ExtensionType::StatusRequest => Ok(ExtensionView::StatusRequest),
        ExtensionType::SupportedGroups => match parse_all_outcome(<NamedGroupList<'static> as TryParse<'static>>::spec_parse(body), body) {
            Ok(x) => Ok(ExtensionView::SupportedGroups(x)),
            Err(a) => Err(a),
        },
        ExtensionType::SignatureAlgorithms => Ok(ExtensionView::SignatureAlgorithms),
        ExtensionType::UseSrtp => Ok(ExtensionView::UseSrtp),
        ExtensionType::Heartbeat => Ok(ExtensionView::Heartbeat),
        ExtensionType::Alpn => match parse_all_outcome(<Alpn<'static> as TryParse<'static>>::spec_parse(body), body) {
            Ok(x) => Ok(ExtensionView::Alpn(x)),
            Err(a) => Err(a),
        },
        ExtensionType::Sct => Ok(ExtensionView::Sct),
        ExtensionType::ClientCertificateType => Ok(ExtensionView::ClientCertificateType),
        ExtensionType::ServerCertificateType => Ok(ExtensionView::ServerCertificateType),
        ExtensionType::Padding => Ok(ExtensionView::Padding),
        ExtensionType::PreSharedKey => match parse_all_outcome(<OfferedPsksList<'static> as TryParse<'static>>::spec_parse(body), body) {
            Ok(x) => Ok(ExtensionView::PreSharedKey(x)),
            Err(a) => Err(a),
        },
        ExtensionType::EarlyData => match parse_all_outcome(<() as TryParse<'static>>::spec_parse(body), body) {
            Ok(_) => Ok(ExtensionView::EarlyData),
            Err(a) => Err(a),
        },
        ExtensionType::SupportedVersions => match parse_all_outcome(<SupportedVersionsList<'static> as TryParse<'static>>::spec_parse(body), body) {
            Ok(x) => Ok(ExtensionView::SupportedVersions(x)),
            Err(a) => Err(a),
        },
        ExtensionType::Cookie => match parse_all_outcome(<Cookie<'static> as TryParse<'static>>::spec_parse(body), body) {
            Ok(x) => Ok(ExtensionView::Cookie(x)),
            Err(a) => Err(a),
        },
        ExtensionType::PskKexModes => match parse_all_outcome(<PskKexModesList<'static> as TryParse<'static>>::spec_parse(body), body) {
            Ok(x) => Ok(ExtensionView::PskKexModes(x)),
            Err(a) => Err(a),
        },
        ExtensionType::CertificateAuthorities => Ok(ExtensionView::CertificateAuthorities),
        ExtensionType::OidFilters => Ok(ExtensionView::OidFilters),
        ExtensionType::PostHandshakeAuth => Ok(ExtensionView::PostHandshakeAuth),
        ExtensionType::SignatureAlgorithmsCert => Ok(ExtensionView::SignatureAlgorithmsCert),
        ExtensionType::KeyShare => match parse_all_outcome(<KeyShareClientHello<'static> as TryParse<'static>>::spec_parse(body), body) {
            Ok(x) => Ok(ExtensionView::KeyShare(x)),
            Err(a) => Err(a),
        },
        ExtensionType::Unknown(_) => Ok(ExtensionView::Unknown((ty, body))),
    }
}

impl<'a> Extension<'a> {
    /// Returns the extension type.
    pub fn ty(&self) -> (r: ExtensionType)
        ensures
            r == spec_ext_ty(self@),
    {
        match self {
            Self::ServerName(_) => ExtensionType::ServerName,
            Self::MaxFragmentLength(_) => ExtensionType::MaxFragmentLength,
            Self::StatusRequest => ExtensionType::StatusRequest,
            Self::SupportedGroups(_) => ExtensionType::SupportedGroups,
            Self::SignatureAlgorithms => ExtensionType::SignatureAlgorithms,
            Self::UseSrtp => ExtensionType::UseSrtp,
            Self::Heartbeat => ExtensionType::Heartbeat,
            Self::Alpn(_) => ExtensionType::Alpn,
            Self::Sct => ExtensionType::Sct,
            Self::ClientCertificateType => ExtensionType::ClientCertificateType,
            Self::ServerCertificateType => ExtensionType::ServerCertificateType,
            Self::Padding => ExtensionType::Padding,
            Self::PreSharedKey(_) => ExtensionType::PreSharedKey,
            Self::EarlyData => ExtensionType::EarlyData,
            Self::SupportedVersions(_) => ExtensionType::SupportedVersions,
            Self::Cookie(_) => ExtensionType::Cookie,
            Self::PskKexModes(_) => ExtensionType::PskKexModes,
            Self::CertificateAuthorities => ExtensionType::CertificateAuthorities,
            Self::OidFilters => ExtensionType::OidFilters,
            Self::PostHandshakeAuth => ExtensionType::PostHandshakeAuth,
            Self::SignatureAlgorithmsCert => ExtensionType::SignatureAlgorithmsCert,
            Self::KeyShare(_) => ExtensionType::KeyShare,
            Self::Unknown(ext) => ext.extension_type,
        }
    }

    /// Returns the flag of the extension's type.
    fn mask_bit(&self) -> (r: ExtMask)
        ensures
            r@ == spec_flag(spec_ext_ty(self@)),
    {
        self.ty().flag()
    }
}

impl<'a> Object for Extension<'a> {
    open spec fn spec_size() -> (nat, nat) {
        <wire::Extension<'a> as Object>::spec_size()
    }

    fn size() -> (r: Size) {
        wire::Extension::size()
    }
}

impl<'de: 'a, 'a> TryParse<'de> for Extension<'a> {
    open spec fn spec_parse(data: Seq<u8>) -> ParseOutcome<ExtensionView> {
        match <wire::Extension<'a> as TryParse<'de>>::spec_parse(data) {
            Ok(((ty, body), n)) => match spec_ext_from_body(ty, body) {
                Ok(v) => Ok((v, n)),
                Err(a) => Err(a),
            },
            Err(a) => Err(a),
        }
    }

    open spec fn spec_skip(data: Seq<u8>) -> Result<nat, Alert> {
        <wire::Extension<'a> as TryParse<'de>>::spec_skip(data)
    }

    proof fn lemma_parse_bounds(data: Seq<u8>) {
        <wire::Extension<'a> as TryParse<'de>>::lemma_parse_bounds(data);
    }

    fn try_parse(data: &'de [u8]) -> (r: Result<(Extension<'a>, &'de [u8]), Error>) {
        let (ext, rest) = match <wire::Extension<'a> as TryParse<'de>>::try_parse(data) {
            Ok(x) => x,
            Err(e) => return Err(e),
        };
        let v = match ext.extension_type {
            ExtensionType::ServerName => match ext.try_parse_data::<ServerNameList<'a>>() {
                Ok(x) => Self::ServerName(x),
                Err(e) => return Err(e),
            },
            ExtensionType::MaxFragmentLength => match ext.try_parse_data::<wire::MaxFragmentLength>() {
                Ok(x) => Self::MaxFragmentLength(x),
                Err(e) => return Err(e),
            },
            ExtensionType::StatusRequest => Self::StatusRequest,
            ExtensionType::SupportedGroups => match ext.try_parse_data::<NamedGroupList<'a>>() {
                Ok(x) => Self::SupportedGroups(x),
                Err(e) => return Err(e),
            },
            ExtensionType::SignatureAlgorithms => Self::SignatureAlgorithms,
            ExtensionType::UseSrtp => Self::UseSrtp,
            ExtensionType::Heartbeat => Self::Heartbeat,
            ExtensionType::Alpn => match ext.try_parse_data::<Alpn<'a>>() {
                Ok(x) => Self::Alpn(x),
                Err(e) => return Err(e),
            },
            ExtensionType::Sct => Self::Sct,
            ExtensionType::ClientCertificateType => Self::ClientCertificateType,
            ExtensionType::ServerCertificateType => Self::ServerCertificateType,
            ExtensionType::Padding => Self::Padding,
            ExtensionType::PreSharedKey => match ext.try_parse_data::<OfferedPsksList<'a>>() {
                Ok(x) => Self::PreSharedKey(x),
                Err(e) => return Err(e),
            },
            ExtensionType::EarlyData => match ext.try_parse_data::<()>() {
                Ok(()) => Self::EarlyData,
                Err(e) => return Err(e),
            },
            ExtensionType::SupportedVersions => match ext.try_parse_data::<SupportedVersionsList<'a>>() {
                Ok(x) => Self::SupportedVersions(x),
                Err(e) => return Err(e),
            },
            ExtensionType::Cookie => match ext.try_parse_data::<Cookie<'a>>() {
                Ok(x) => Self::Cookie(x),
                Err(e) => return Err(e),
            },
            ExtensionType::PskKexModes => match ext.try_parse_data::<PskKexModesList<'a>>() {
                Ok(x) => Self::PskKexModes(x),
                Err(e) => return Err(e),
            },
            ExtensionType::CertificateAuthorities => Self::CertificateAuthorities,
            ExtensionType::OidFilters => Self::OidFilters,
            ExtensionType::PostHandshakeAuth => Self::PostHandshakeAuth,
            ExtensionType::SignatureAlgorithmsCert => Self::SignatureAlgorithmsCert,
            ExtensionType::KeyShare => match ext.try_parse_data::<KeyShareClientHello<'a>>() {
                Ok(x) => Self::KeyShare(x),
                Err(e) => return Err(e),
            },
            ExtensionType::Unknown(_) => Self::Unknown(ext),
        };
        Ok((v, rest))
    }

    fn try_skip(data: &'de [u8]) -> (r: Result<&'de [u8], Error>) {
        <wire::Extension<'a> as TryParse<'de>>::try_skip(data)
    }
}

/// The types of a list of extensions.
pub open spec fn spec_ext_types(items: Seq<ExtensionView>) -> Seq<ExtensionType> {
    items.map_values(|x: ExtensionView| spec_ext_ty(x))
}

/// The checks a `ClientHello` makes of its extensions, in order: each
/// extension of a known type must be allowed in a `ClientHello` and must
/// not have appeared before. Extensions of unknown types are ignored.
pub open spec fn spec_check_ch_exts(types: Seq<ExtensionType>) -> Result<(), Alert>
    decreases types.len(),
{
    if types.len() == 0 {
        Ok(())
    } else {
        match spec_check_ch_exts(types.drop_last()) {
            Err(a) => Err(a),
            Ok(()) => {
                let ty = types.last();
                if ty is Unknown {
                    Ok(())
                } else if !spec_allowed_in_ch(ty) || types.drop_last().contains(ty) {
                    Err(Alert::spec_illegal_parameter())
                } else {
                    Ok(())
                }
            },
        }
    }
}

/// The types of the extensions of a `ClientHello` pass its checks
/// exactly when every known type among them is allowed in a
/// `ClientHello` and no known type appears twice; when they fail, the
/// alert is `illegal_parameter`.
pub proof fn lemma_check_ch_exts(types: Seq<ExtensionType>)
    ensures
        spec_check_ch_exts(types) is Ok <==> ({
            &&& forall|i: int|
                0 <= i < types.len() && !(types[i] is Unknown) ==> spec_allowed_in_ch(
                    #[trigger] types[i],
                )
            &&& forall|i: int, j: int|
                0 <= i < j < types.len() && !(types[j] is Unknown) ==> #[trigger] types[i]
                    != #[trigger] types[j]
        }),
        spec_check_ch_exts(types) is Err ==> spec_check_ch_exts(types) == Err::<(), Alert>(
            Alert::spec_illegal_parameter(),
        ),
    decreases types.len(),
{
    if types.len() > 0 {
        let p = types.drop_last();
        let n = types.len() - 1;
        let last = types.last();
        lemma_check_ch_exts(p);
        assert forall|i: int| 0 <= i < p.len() implies p[i] == types[i] by {}
        if spec_check_ch_exts(types) is Ok {
            assert forall|i: int, j: int|
                0 <= i < j < types.len() && !(types[j] is Unknown) implies #[trigger] types[i]
                != #[trigger] types[j] by {
                if j < n {
                    assert(p[i] == types[i] && p[j] == types[j]);
                } else if types[i] == types[j] {
                    assert(p[i] == last);
                    assert(p.contains(last));
                }
            }
            assert forall|i: int|
                0 <= i < types.len() && !(types[i] is Unknown) implies spec_allowed_in_ch(
                #[trigger] types[i],
            ) by {
                if i < n {
                    assert(p[i] == types[i]);
                }
            }
        } else {
            let allowed = forall|i: int|
                0 <= i < types.len() && !(types[i] is Unknown) ==> spec_allowed_in_ch(
                    #[trigger] types[i],
                );
            let unique = forall|i: int, j: int|
                0 <= i < j < types.len() && !(types[j] is Unknown) ==> #[trigger] types[i]
                    != #[trigger] types[j];
            if allowed && unique {
                assert forall|i: int| 0 <= i < p.len() && !(p[i] is Unknown) implies spec_allowed_in_ch(
                    #[trigger] p[i],
                ) by {
                    assert(types[i] == p[i]);
                }
                assert forall|i: int, j: int|
                    0 <= i < j < p.len() && !(p[j] is Unknown) implies #[trigger] p[i]
                    != #[trigger] p[j] by {
                    assert(types[i] == p[i] && types[j] == p[j]);
                }
                if p.contains(last) && !(last is Unknown) {
                    let i = choose|i: int| 0 <= i < p.len() && p[i] == last;
                    assert(types[i] == types[n]);
                }
                assert(!(last is Unknown) ==> spec_allowed_in_ch(types[n]));
            }
        }
    }
}

/// Once a prefix of the types fails the checks, the whole list fails
/// them in the same way.
proof fn lemma_check_prefix(types: Seq<ExtensionType>, k: int)
    requires
        0 <= k <= types.len(),
        spec_check_ch_exts(types.take(k)) is Err,
    ensures
        spec_check_ch_exts(types) == spec_check_ch_exts(types.take(k)),
    decreases types.len(),
{
    if k == types.len() {
        assert(types.take(k) =~= types);
    } else {
        assert(types.drop_last().take(k) =~= types.take(k));
        lemma_check_prefix(types.drop_last(), k);
    }
}

/// The last extension of the list whose variant is of type `ty`.
pub open spec fn spec_find(items: Seq<ExtensionView>, ty: ExtensionType) -> Option<ExtensionView>
    decreases items.len(),
{
    if items.len() == 0 {
        None
    } else if !(items.last() is Unknown) && spec_ext_ty(items.last()) == ty {
        Some(items.last())
    } else {
        spec_find(items.drop_last(), ty)
    }
}

/// The extensions of a `ClientHello` pass its checks exactly when no
/// known type among them appears twice and none is `oid_filters`, the one
/// known extension that a `ClientHello` may not carry (RFC 8446, section
/// 4.2); unknown types are ignored.
pub proof fn lemma_client_hello_extension_types(types: Seq<ExtensionType>)
    ensures
        spec_check_ch_exts(types) is Ok <==> ({
            &&& forall|i: int|
                0 <= i < types.len() && !(types[i] is Unknown) ==> !(#[trigger] types[i] is OidFilters)
            &&& forall|i: int, j: int|
                0 <= i < j < types.len() && !(types[j] is Unknown) ==> #[trigger] types[i]
                    != #[trigger] types[j]
        }),
{
    lemma_check_ch_exts(types);
    assert forall|i: int| 0 <= i < types.len() implies (!(types[i] is Unknown) ==> (
    spec_allowed_in_ch(#[trigger] types[i]) <==> !(types[i] is OidFilters))) by {
        crate::tls::ext::lemma_flag_messages(types[i]);
    }
}

/// The search for an extension of a known type finds one exactly when
/// the list holds an extension of that type, and what it finds is in the
/// list; when no known type appears twice, it finds the one extension of
/// that type.
pub proof fn lemma_find_present(items: Seq<ExtensionView>, ty: ExtensionType)
    ensures
        spec_find(items, ty) is Some <==> exists|i: int|
            0 <= i < items.len() && !(items[i] is Unknown) && spec_ext_ty(#[trigger] items[i]) == ty,
        spec_find(items, ty) matches Some(x) ==> items.contains(x) && !(x is Unknown)
            && spec_ext_ty(x) == ty,
        (forall|i: int, j: int|
            0 <= i < j < items.len() && !(items[j] is Unknown) ==> spec_ext_ty(#[trigger] items[i])
                != spec_ext_ty(#[trigger] items[j])) ==> forall|i: int|
            0 <= i < items.len() && !(items[i] is Unknown) && spec_ext_ty(#[trigger] items[i]) == ty
                ==> spec_find(items, ty) == Some(items[i]),
    decreases items.len(),
{
    if items.len() > 0 {
        let rest = items.drop_last();
        lemma_find_present(rest, ty);
        assert forall|i: int| 0 <= i < rest.len() implies #[trigger] rest[i] == items[i] by {}
        if !(items.last() is Unknown) && spec_ext_ty(items.last()) == ty {
            assert(items[items.len() - 1] == items.last());
        } else {
            if let Some(x) = spec_find(rest, ty) {
                let k = choose|k: int| 0 <= k < rest.len() && rest[k] == x;
                assert(items[k] == x);
            }
            if exists|i: int|
                0 <= i < items.len() && !(items[i] is Unknown) && spec_ext_ty(#[trigger] items[i]) == ty {
                let i = choose|i: int|
                    0 <= i < items.len() && !(items[i] is Unknown) && spec_ext_ty(#[trigger] items[i]) == ty;
                assert(i < items.len() - 1);
                assert(rest[i] == items[i]);
            }
        }
        if forall|i: int, j: int|
            0 <= i < j < items.len() && !(items[j] is Unknown) ==> spec_ext_ty(#[trigger] items[i])
                != spec_ext_ty(#[trigger] items[j]) {
            assert forall|i: int, j: int|
                0 <= i < j < rest.len() && !(rest[j] is Unknown) implies spec_ext_ty(#[trigger] rest[i])
                != spec_ext_ty(#[trigger] rest[j]) by {
                assert(rest[i] == items[i] && rest[j] == items[j]);
            }
            assert forall|i: int|
                0 <= i < items.len() && !(items[i] is Unknown) && spec_ext_ty(#[trigger] items[i]) == ty
                implies spec_find(items, ty) == Some(items[i]) by {
                if i < items.len() - 1 {
                    assert(rest[i] == items[i]);
                    if !(items.last() is Unknown) && spec_ext_ty(items.last()) == ty {
                        assert(items.last() == items[items.len() - 1]);
                        assert(spec_ext_ty(items[i]) != spec_ext_ty(items[items.len() - 1]));
                    }
                }
            }
        }
    }
}

/// A list holds a `max_fragment_length` extension exactly when the
/// search for one finds it; when no known type appears twice, the search
/// finds that very extension.
pub proof fn lemma_max_fragment_length_present(items: Seq<ExtensionView>, m: wire::MaxFragmentLength)
    ensures
        spec_find(items, ExtensionType::MaxFragmentLength) is Some <==> exists|i: int|
            0 <= i < items.len() && #[trigger] items[i] is MaxFragmentLength,
        spec_find(items, ExtensionType::MaxFragmentLength) == Some(ExtensionView::MaxFragmentLength(m))
            ==> items.contains(ExtensionView::MaxFragmentLength(m)),
        (forall|i: int, j: int|
            0 <= i < j < items.len() && !(items[j] is Unknown) ==> spec_ext_ty(#[trigger] items[i])
                != spec_ext_ty(#[trigger] items[j])) && items.contains(
            ExtensionView::MaxFragmentLength(m),
        ) ==> spec_find(items, ExtensionType::MaxFragmentLength) == Some(
            ExtensionView::MaxFragmentLength(m),
        ),
{
    lemma_find_present(items, ExtensionType::MaxFragmentLength);
    assert forall|i: int| 0 <= i < items.len() implies (#[trigger] items[i] is MaxFragmentLength
        <==> (!(items[i] is Unknown) && spec_ext_ty(items[i]) == ExtensionType::MaxFragmentLength)) by {
    }
    if items.contains(ExtensionView::MaxFragmentLength(m)) {
        let i = choose|i: int| 0 <= i < items.len() && items[i] == ExtensionView::MaxFragmentLength(m);
        assert(items[i] is MaxFragmentLength);
    }
}

/// The `early_data` extension is among `items`.
pub open spec fn spec_has_early_data(items: Seq<ExtensionView>) -> bool {
    spec_find(items, ExtensionType::EarlyData) is Some
}

/// TLS extensions.
pub struct ExtensionList<'a> {
    list: Iter<'a, Extension<'a>>,
    mask: ExtMask,
    len: usize,
    alpn: Option<Alpn<'a>>,
    cookie: Option<Cookie<'a>>,
    early_data: bool,
    key_share: Option<KeyShareClientHello<'a>>,
    max_fragment_length: Option<wire::MaxFragmentLength>,
    pre_shared_key: Option<OfferedPsksList<'a>>,
    psk_kex_modes: Option<PskKexModesList<'a>>,
    server_name: Option<ServerNameList<'a>>,
    supported_versions: Option<SupportedVersionsList<'a>>,
}

/// The extensions that a list holds match the fields that stand for
/// them.
pub open spec fn spec_fields_match<'a>(
    items: Seq<ExtensionView>,
    alpn: Option<Alpn<'a>>,
    cookie: Option<Cookie<'a>>,
    early_data: bool,
    key_share: Option<KeyShareClientHello<'a>>,
    max_fragment_length: Option<wire::MaxFragmentLength>,
    pre_shared_key: Option<OfferedPsksList<'a>>,
    psk_kex_modes: Option<PskKexModesList<'a>>,
    server_name: Option<ServerNameList<'a>>,
    supported_versions: Option<SupportedVersionsList<'a>>,
) -> bool {
    &&& spec_find(items, ExtensionType::Alpn) == match alpn {
        Some(v) => Some(ExtensionView::Alpn(v@)),
        None => None::<ExtensionView>,
    }
    &&& spec_find(items, ExtensionType::Cookie) == match cookie {
        Some(v) => Some(ExtensionView::Cookie(v@)),
        None => None::<ExtensionView>,
    }
    &&& early_data == spec_has_early_data(items)
    &&& spec_find(items, ExtensionType::KeyShare) == match key_share {
        Some(v) => Some(ExtensionView::KeyShare(v@)),
        None => None::<ExtensionView>,
    }
    &&& spec_find(items, ExtensionType::MaxFragmentLength) == match max_fragment_length {
        Some(v) => Some(ExtensionView::MaxFragmentLength(v@)),
        None => None::<ExtensionView>,
    }
    &&& spec_find(items, ExtensionType::PreSharedKey) == match pre_shared_key {
        Some(v) => Some(ExtensionView::PreSharedKey(v@)),
        None => None::<ExtensionView>,
    }
    &&& spec_find(items, ExtensionType::PskKexModes) == match psk_kex_modes {
        Some(v) => Some(ExtensionView::PskKexModes(v@)),
        None => None::<ExtensionView>,
    }
    &&& spec_find(items, ExtensionType::ServerName) == match server_name {
        Some(v) => Some(ExtensionView::ServerName(v@)),
        None => None::<ExtensionView>,
    }
    &&& spec_find(items, ExtensionType::SupportedVersions) == match supported_versions {
        Some(v) => Some(ExtensionView::SupportedVersions(v@)),
        None => None::<ExtensionView>,
    }
}

impl<'a> ExtensionList<'a> {
    /// The list passed the checks of a `ClientHello`, and every field
    /// stands for what the list holds.
    #[verifier::type_invariant]
    closed spec fn inv(self) -> bool {
        let items = spec_iter_items::<Extension<'a>>(self.list@);
        &&& spec_check_ch_exts(spec_ext_types(items)) is Ok
        &&& self.mask@ == spec_mask_of(spec_ext_types(items))
        &&& self.len == items.len()
        &&& spec_fields_match(
            items,
            self.alpn,
            self.cookie,
            self.early_data,
            self.key_share,
            self.max_fragment_length,
            self.pre_shared_key,
            self.psk_kex_modes,
            self.server_name,
            self.supported_versions,
        )
    }

    /// The extensions in the order they were received.
    pub closed spec fn items(&self) -> Seq<ExtensionView> {
        spec_iter_items::<Extension<'a>>(self.list@)
    }

    /// Returns an empty list.
    pub(crate) fn empty() -> (r: Self)
        ensures
            r.items() == Seq::<ExtensionView>::empty(),
    {
        let list = Iter::empty();
        proof {
            assert(spec_iter_items::<Extension<'a>>(list@) =~= Seq::<ExtensionView>::empty());
            assert(spec_ext_types(Seq::<ExtensionView>::empty()) =~= Seq::<ExtensionType>::empty());
        }
        Self {
            list,
            mask: ExtMask::empty(),
            len: 0,
            alpn: None,
            cookie: None,
            early_data: false,
            key_share: None,
            max_fragment_length: None,
            pre_shared_key: None,
            psk_kex_modes: None,
            server_name: None,
            supported_versions: None,
        }
    }

    /// Collects the extensions of a `ClientHello`.
    ///
    /// Iteration stops at the end of the list or at the first extension
    /// whose body does not parse.
    pub(crate) fn new(list: Iter<'a, Extension<'a>>) -> (r: Result<Self, Error>)
        ensures
            match r {
                Ok(v) => {
                    &&& spec_check_ch_exts(spec_ext_types(spec_iter_items::<Extension<'a>>(list@))) is Ok
                    &&& v.items() == spec_iter_items::<Extension<'a>>(list@)
                },
                Err(e) => spec_check_ch_exts(spec_ext_types(spec_iter_items::<Extension<'a>>(list@)))
                    == Err::<(), Alert>(e@),
            },
    {
        let ghost all = spec_iter_items::<Extension<'a>>(list@);
        proof {
            lemma_iter_items_len::<Extension<'a>>(list@);
            list.lemma_len();
        }
        let mut it = list.clone();
        let mut mask = ExtMask::empty();
        let mut len: usize = 0;
        let mut alpn: Option<Alpn<'a>> = None;
        let mut cookie: Option<Cookie<'a>> = None;
        let mut early_data = false;
        let mut key_share: Option<KeyShareClientHello<'a>> = None;
        let mut max_fragment_length: Option<wire::MaxFragmentLength> = None;
        let mut pre_shared_key: Option<OfferedPsksList<'a>> = None;
        let mut psk_kex_modes: Option<PskKexModesList<'a>> = None;
        let mut server_name: Option<ServerNameList<'a>> = None;
        let mut supported_versions: Option<SupportedVersionsList<'a>> = None;
        proof {
            assert(all.take(0) =~= Seq::<ExtensionView>::empty());
            assert(spec_ext_types(all.take(0)) =~= Seq::<ExtensionType>::empty());
            assert(all.skip(0) =~= all);
        }
        loop
            invariant
                all == spec_iter_items::<Extension<'a>>(list@),
                all.len() <= list@.len(),
                list@.len() <= usize::MAX,
                len <= all.len(),
                spec_iter_items::<Extension<'a>>(it@) == all.skip(len as int),
                spec_check_ch_exts(spec_ext_types(all.take(len as int))) is Ok,
                mask@ == spec_mask_of(spec_ext_types(all.take(len as int))),
                spec_fields_match(
                    all.take(len as int),
                    alpn,
                    cookie,
                    early_data,
                    key_share,
                    max_fragment_length,
                    pre_shared_key,
                    psk_kex_modes,
                    server_name,
                    supported_versions,
                ),
            ensures
                len == all.len(),
                spec_check_ch_exts(spec_ext_types(all)) is Ok,
                mask@ == spec_mask_of(spec_ext_types(all)),
                spec_fields_match(
                    all,
                    alpn,
                    cookie,
                    early_data,
                    key_share,
                    max_fragment_length,
                    pre_shared_key,
                    psk_kex_modes,
                    server_name,
                    supported_versions,
                ),
            decreases all.len() - len,
        {
            let ghost rest = spec_iter_items::<Extension<'a>>(it@);
            let ext = match it.next() {
                Some(ext) => ext,
                None => {
                    proof {
                        assert(all.take(len as int) =~= all);
                    }
                    break;
                },
            };
            let ghost done = all.take(len as int);
            let ghost next = all.take(len + 1);
            let ghost x = ext@;
            proof {
                assert(rest.len() > 0);
                assert(len < all.len());
                assert(all.skip(len as int)[0] == all[len as int]);
                assert(x == all[len as int]);
                assert(next =~= done.push(x));
                assert(next.drop_last() =~= done);
                assert(spec_ext_types(next) =~= spec_ext_types(done).push(spec_ext_ty(x)));
                assert(spec_ext_types(next).drop_last() =~= spec_ext_types(done));
                assert(all.skip(len as int).drop_first() =~= all.skip(len + 1));
            }
            let ty = ext.ty();
            let bit = ext.mask_bit();
            if !matches!(ty, ExtensionType::Unknown(_)) {
                proof {
                    lemma_mask_detects_duplicates(spec_ext_types(done), ty);
                }
                // RFC 8446: "If an implementation receives an extension
                // which it recognizes and which is not specified for the
                // message in which it appears, it MUST abort the
                // handshake with an "illegal_parameter" alert."
                if !bit.contains(ExtMask::from_bits_retain(CH)) {
                    proof {
                        assert(spec_ext_types(all).take(len + 1) =~= spec_ext_types(next));
                        lemma_check_prefix(spec_ext_types(all), len + 1);
                    }
                    return Err(Error::illegal_parameter("extension not allowed in `ClientHello`"));
                }
                // RFC 8446: "There MUST NOT be more than one extension of
                // the same type in a given extension block."
                if mask.contains(bit) {
                    proof {
                        assert(spec_ext_types(all).take(len + 1) =~= spec_ext_types(next));
                        lemma_check_prefix(spec_ext_types(all), len + 1);
                    }
                    return Err(Error::illegal_parameter("duplicate extension"));
                }
            }
            mask.insert(bit);
            len = len + 1;
            match ext {
                Extension::Alpn(v) => alpn = Some(v),
                Extension::Cookie(v) => cookie = Some(v),
                Extension::EarlyData => early_data = true,
                Extension::KeyShare(v) => key_share = Some(v),
                Extension::MaxFragmentLength(v) => max_fragment_length = Some(v),
                Extension::PreSharedKey(v) => pre_shared_key = Some(v),
                Extension::PskKexModes(v) => psk_kex_modes = Some(v),
                Extension::ServerName(v) => server_name = Some(v),
                Extension::SupportedVersions(v) => supported_versions = Some(v),
                _ => {},
            }
        }
        Ok(
            Self {
                list,
                mask,
                len,
                alpn,
                cookie,
                early_data,
                key_share,
                max_fragment_length,
                pre_shared_key,
                psk_kex_modes,
                server_name,
                supported_versions,
            },
        )
    }

    /// Returns an iterator over the extensions in the order they
    /// were received.
    pub fn iter(&self) -> (r: Iter<'a, Extension<'a>>)
        ensures
            spec_iter_items::<Extension<'a>>(r@) == self.items(),
    {
        self.list.const_clone()
    }

    /// Returns the number of extensions in the list.
    ///
    /// It's cheaper than calling `self.iter().count()`.
    pub fn len(&self) -> (r: usize)
        ensures
            r == self.items().len(),
    {
        proof {
            use_type_invariant(self);
        }
        self.len
    }

    /// Returns the extension mask.
    pub fn mask(&self) -> (r: ExtMask)
        ensures
            r@ == spec_mask_of(spec_ext_types(self.items())),
    {
        proof {
            use_type_invariant(self);
        }
        self.mask
    }

    /// Returns the `application_layer_protocol_negotiation`
    /// extension, if present.
    pub fn alpn(&self) -> (r: Option<Alpn<'a>>)
        ensures
            spec_find(self.items(), ExtensionType::Alpn) == match r {
                Some(v) => Some(ExtensionView::Alpn(v@)),
                None => None::<ExtensionView>,
            },
    {
        proof {
            use_type_invariant(self);
        }
        self.alpn
    }

    /// Returns the `cookie` extension, if present.
    pub fn cookie(&self) -> (r: Option<Cookie<'a>>)
        ensures
            spec_find(self.items(), ExtensionType::Cookie) == match r {
                Some(v) => Some(ExtensionView::Cookie(v@)),
                None => None::<ExtensionView>,
            },
    {
        proof {
            use_type_invariant(self);
        }
        self.cookie
    }

    /// Reports whether the `early_data` extension is present.
    pub fn early_data(&self) -> (r: bool)
        ensures
            r == spec_has_early_data(self.items()),
    {
        proof {
            use_type_invariant(self);
        }
        self.early_data
    }

    /// Returns the `max_fragment_length` extension, if present.
    pub fn max_fragment_length(&self) -> (r: Option<MaxFragmentLength>)
        ensures
            spec_find(self.items(), ExtensionType::MaxFragmentLength) == match r {
                Some(v) => Some(ExtensionView::MaxFragmentLength(v@)),
                None => None::<ExtensionView>,
            },
    {
        proof {
            use_type_invariant(self);
        }
        match self.max_fragment_length {
            Some(len) => Some(MaxFragmentLength::from_wire(len)),
            None => None,
        }
    }

    /// Returns the `key_share` extension, if present.
    pub fn key_share(&self) -> (r: Option<KeyShareClientHello<'a>>)
        ensures
            spec_find(self.items(), ExtensionType::KeyShare) == match r {
                Some(v) => Some(ExtensionView::KeyShare(v@)),
                None => None::<ExtensionView>,
            },
    {
        proof {
            use_type_invariant(self);
        }
        self.key_share
    }

    /// Returns the `pre_shared_key` extension, if present.
    pub fn pre_shared_key(&self) -> (r: Option<OfferedPsksList<'a>>)
        ensures
            spec_find(self.items(), ExtensionType::PreSharedKey) == match r {
                Some(v) => Some(ExtensionView::PreSharedKey(v@)),
                None => None::<ExtensionView>,
            },
    {
        proof {
            use_type_invariant(self);
        }
        self.pre_shared_key
    }

    /// Returns the `psk_key_exchange_modes` extension, if
    /// present.
    pub fn psk_kex_modes(&self) -> (r: Option<PskKexModesList<'a>>)
        ensures
            spec_find(self.items(), ExtensionType::PskKexModes) == match r {
                Some(v) => Some(ExtensionView::PskKexModes(v@)),
                None => None::<ExtensionView>,
            },
    {
        proof {
            use_type_invariant(self);
        }
        self.psk_kex_modes
    }

    /// Returns the `server_name` extension, if present.
    pub fn server_name(&self) -> (r: Option<ServerNameList<'a>>)
        ensures
            spec_find(self.items(), ExtensionType::ServerName) == match r {
                Some(v) => Some(ExtensionView::ServerName(v@)),
                None => None::<ExtensionView>,
            },
    {
        proof {
            use_type_invariant(self);
        }
        self.server_name
    }

    /// Returns the `supported_versions` extension, if present.
    pub fn supported_versions(&self) -> (r: Option<SupportedVersionsList<'a>>)
        ensures
            spec_find(self.items(), ExtensionType::SupportedVersions) == match r {
                Some(v) => Some(ExtensionView::SupportedVersions(v@)),
                None => None::<ExtensionView>,
            },
    {
        proof {
            use_type_invariant(self);
        }
        self.supported_versions
    }
}

impl<'a> Clone for ExtensionList<'a> {
    fn clone(&self) -> (r: Self)
        ensures
            r.items() == self.items(),
    {
        proof {
            use_type_invariant(self);
        }
        Self {
            list: self.list.clone(),
            mask: self.mask,
            len: self.len,
            alpn: self.alpn,
            cookie: self.cookie,
            early_data: self.early_data,
            key_share: self.key_share,
            max_fragment_length: self.max_fragment_length,
            pre_shared_key: self.pre_shared_key,
            psk_kex_modes: self.psk_kex_modes,
            server_name: self.server_name,
            supported_versions: self.supported_versions,
        }
    }
}

/// What a `ClientHello` is, given its wire form: its random nonce, its
/// legacy session ID, the bytes of its cipher suites and its
/// extensions, or the alert that the message calls for.
pub open spec fn spec_client_hello(
    repr: ParseOutcome<(u16, Seq<u8>, Seq<u8>, Seq<u8>, Seq<u8>, Seq<u8>)>,
) -> ParseOutcome<(Seq<u8>, Seq<u8>, Seq<u8>, Seq<ExtensionView>)> {
    match repr {
        Ok(((legacy_version, random, session_id, suites, compression, exts), n)) => {
            if legacy_version != 0x0303 {
                Err(Alert::spec_new(AlertDesc::ProtocolVersion))
            } else if compression != seq![0u8] {
                Err(Alert::spec_illegal_parameter())
            } else {
                let items = spec_iter_items::<Extension<'static>>(exts);
                match spec_check_ch_exts(spec_ext_types(items)) {
                    Ok(()) => Ok(((random, session_id, suites, items), n)),
                    Err(a) => Err(a),
                }
            }
        },
        Err(a) => Err(a),
    }
}

/// A server reads back the `ClientHello` that a client wrote: its
/// random, its legacy session ID, its cipher suites and the extensions
/// its list yields, when the extensions pass the checks of a
/// `ClientHello`.
pub proof fn lemma_client_hello_read_back(
    v: (u16, Seq<u8>, Seq<u8>, Seq<u8>, Seq<u8>, Seq<u8>),
    s: EncState,
)
    requires
        enc_wf(s),
        v.0 == 0x0303,
        v.1.len() == 32,
        v.2.len() <= 32,
        2 <= v.3.len() <= 65534,
        v.3.len() % 2 == 0,
        v.4 == seq![0u8],
        8 <= v.5.len() <= 65535,
        s.1 + 41 + v.2.len() + v.3.len() + v.5.len() <= s.0.len(),
        spec_check_ch_exts(spec_ext_types(spec_iter_items::<Extension<'static>>(v.5))) is Ok,
    ensures
        ({
            let (t, r) = <tls13::ClientHello<'static> as TryEncode>::spec_encode(v, s);
            &&& r is Ok
            &&& <ClientHello<'static> as TryParse<'static>>::spec_parse(t.0.skip(s.1 as int)) == Ok::<
                ((Seq<u8>, Seq<u8>, Seq<u8>, Seq<ExtensionView>), nat),
                Alert,
            >(((v.1, v.2, v.3, spec_iter_items::<Extension<'static>>(v.5)), (t.1 - s.1) as nat))
        }),
{
    lemma_client_hello_roundtrip(v, s);
}

/// The `ClientHello` message per RFC 8446.
#[derive(Clone)]
pub struct ClientHello<'a> {
    random: [u8; 32],
    legacy_session_id: SmallVec<u8, 0, 32>,
    suites: Iter<'a, CipherSuiteId>,
    extensions: ExtensionList<'a>,
}

impl<'a> View for ClientHello<'a> {
    /// The random nonce, the legacy session ID, the bytes of the cipher
    /// suites and the extensions.
    type V = (Seq<u8>, Seq<u8>, Seq<u8>, Seq<ExtensionView>);

    closed spec fn view(&self) -> (Seq<u8>, Seq<u8>, Seq<u8>, Seq<ExtensionView>) {
        (self.random@, self.legacy_session_id@, self.suites@, self.extensions.items())
    }
}

impl<'a> ClientHello<'a> {
    /// Returns the protocol version.
    pub fn version(&self) -> (r: ProtocolVersion)
        ensures
            r == ProtocolVersion::Tls12,
    {
        // RFC 8446: "In TLS 1.3, the client indicates its version
        // preferences in the "supported_versions" extension (Section
        // 4.2.1) and the legacy_version field MUST be set to 0x0303,
        // which is the version number for TLS 1.2."
        ProtocolVersion::Tls12
    }

    /// Returns the client's 32-byte random nonce.
    pub fn random(&self) -> (r: &[u8; 32])
        ensures
            r@ == self@.0,
    {
        &self.random
    }

    /// Returns the legacy session ID.
    pub fn legacy_session_id(&self) -> (r: &[u8])
        ensures
            r@ == self@.1,
    {
        self.legacy_session_id.as_slice()
    }

    /// Returns the supported cipher suites.
    pub fn suites(&self) -> (r: Iter<'a, CipherSuiteId>)
        ensures
            r@ == self@.2,
    {
        self.suites.const_clone()
    }

    /// Returns the extensions.
    pub fn extensions(&self) -> (r: &ExtensionList<'a>)
        ensures
            r.items() == self@.3,
    {
        &self.extensions
    }
}

impl<'a> Object for ClientHello<'a> {
    open spec fn spec_size() -> (nat, nat) {
        <tls13::ClientHello<'a> as Object>::spec_size()
    }

    fn size() -> (r: Size) {
        tls13::ClientHello::size()
    }
}

impl<'de: 'a, 'a> TryParse<'de> for ClientHello<'a> {
    open spec fn spec_parse(data: Seq<u8>) -> ParseOutcome<(Seq<u8>, Seq<u8>, Seq<u8>, Seq<ExtensionView>)> {
        spec_client_hello(<tls13::ClientHello<'a> as TryParse<'de>>::spec_parse(data))
    }

    open spec fn spec_skip(data: Seq<u8>) -> Result<nat, Alert> {
        match Self::spec_parse(data) {
            Ok((_, n)) => Ok(n),
            Err(a) => Err(a),
        }
    }

    proof fn lemma_parse_bounds(data: Seq<u8>) {
        <tls13::ClientHello<'a> as TryParse<'de>>::lemma_parse_bounds(data);
    }

    fn try_parse(data: &'de [u8]) -> (r: Result<(ClientHello<'a>, &'de [u8]), Error>) {
        let (repr, rest) = match tls13::ClientHello::try_parse(data) {
            Ok(x) => x,
            Err(e) => return Err(e),
        };
        // RFC 8446: "In TLS 1.3, the client indicates its version
        // preferences in the "supported_versions" extension (Section
        // 4.2.1) and the legacy_version field MUST be set to 0x0303,
        // which is the version number for TLS 1.2."
        if repr.legacy_version != ProtocolVersion::Tls12.to_repr() {
            return Err(Error::protocol_version("`legacy_version` must be TLS 1.2"));
        }
        // RFC 8446: "For every TLS 1.3 ClientHello, this vector MUST
        // contain exactly one byte, set to zero, which corresponds to
        // the "null" compression method in prior versions of TLS. If a
        // TLS 1.3 ClientHello is received with any other value in this
        // field, the server MUST abort the handshake with an
        // "illegal_parameter" alert."
        let null_compression: [u8; 1] = [0u8];
        assert(null_compression@ =~= seq![0u8]);
        if !repr.legacy_compression_methods.eq_bytes(&null_compression) {
            return Err(Error::illegal_parameter("`legacy_compression_methods` must be `[0]`"));
        }
        let extensions = match ExtensionList::new(repr.extensions.map().into_iter()) {
            Ok(v) => v,
            Err(e) => return Err(e),
        };
        let hello = Self {
            random: repr.random,
            legacy_session_id: repr.legacy_session_id,
            suites: repr.cipher_suites.map().into_iter(),
            extensions,
        };
        Ok((hello, rest))
    }

    fn try_skip(data: &'de [u8]) -> (r: Result<&'de [u8], Error>) {
        match Self::try_parse(data) {
            Ok((_, rest)) => Ok(rest),
            Err(e) => Err(e),
        }
    }
}

/// Builds a `ClientHello`.
pub struct HelloBuilder<'a> {
    alpn: &'a [&'a [u8]],
    legacy_session_id: [u8; 32],
    early_data: bool,
    max_fragment_length: Option<wire::MaxFragmentLength>,
    suites: Iter<'static, CipherSuiteId>,
}

impl<'a> HelloBuilder<'a> {
    /// The ALPN protocols to offer.
    pub closed spec fn spec_alpn(&self) -> &'a [&'a [u8]] {
        self.alpn
    }

    /// The legacy session ID to send.
    pub closed spec fn spec_legacy_session_id(&self) -> Seq<u8> {
        self.legacy_session_id@
    }

    /// Whether to offer early data.
    pub closed spec fn spec_early_data(&self) -> bool {
        self.early_data
    }

    /// The maximum fragment length to ask for.
    pub closed spec fn spec_max_fragment_length(&self) -> Option<wire::MaxFragmentLength> {
        self.max_fragment_length
    }

    /// The bytes of the cipher suites to offer.
    pub closed spec fn spec_suites(&self) -> Seq<u8> {
        self.suites@
    }

    /// Creates a builder that offers nothing.
    pub fn new() -> (r: Self)
        ensures
            r.spec_alpn()@.len() == 0,
            r.spec_legacy_session_id() == Seq::new(32, |_i: int| 0u8),
            !r.spec_early_data(),
            r.spec_max_fragment_length() is None,
            r.spec_suites().len() == 0,
    {
        let alpn: &'a [&'a [u8]] = &[];
        let legacy_session_id = [0u8; 32];
        let r = Self {
            alpn,
            legacy_session_id,
            early_data: false,
            max_fragment_length: None,
            suites: Iter::empty(),
        };
        proof {
            assert(r.spec_legacy_session_id() =~= Seq::new(32, |_i: int| 0u8));
        }
        r
    }

    /// Applies `f` to the builder.
    pub fn pipe<F: FnOnce(Self) -> Self>(self, f: F) -> (r: Self)
        requires
            f.requires((self,)),
        ensures
            f.ensures((self,), r),
    {
        f(self)
    }

    /// Applies `f` to the builder if `cond` holds.
    pub fn pipe_if<F: FnOnce(Self) -> Self>(self, cond: bool, f: F) -> (r: Self)
        requires
            cond ==> f.requires((self,)),
        ensures
            cond ==> f.ensures((self,), r),
            !cond ==> r == self,
    {
        if cond {
            f(self)
        } else {
            self
        }
    }

    /// Offers the ALPN protocols `alpn`.
    pub fn with_alpn(self, alpn: &'a [&'a [u8]]) -> (r: Self)
        ensures
            r.spec_alpn() == alpn,
            r.spec_legacy_session_id() == self.spec_legacy_session_id(),
            r.spec_early_data() == self.spec_early_data(),
            r.spec_max_fragment_length() == self.spec_max_fragment_length(),
            r.spec_suites() == self.spec_suites(),
    {
        Self { alpn, ..self }
    }

    /// Offers early data, or not.
    pub fn with_early_data(self, early_data: bool) -> (r: Self)
        ensures
            r.spec_alpn() == self.spec_alpn(),
            r.spec_legacy_session_id() == self.spec_legacy_session_id(),
            r.spec_early_data() == early_data,
            r.spec_max_fragment_length() == self.spec_max_fragment_length(),
            r.spec_suites() == self.spec_suites(),
    {
        Self { early_data, ..self }
    }

    /// Adds an extension.
    ///
    /// The builder does not yet send extensions given this way; it is
    /// handed back unchanged.
    pub fn with_extension(self, _ext: Extension<'_>) -> (r: Self)
        ensures
            r == self,
    {
        self
    }

    /// Sends `id` as the legacy session ID.
    pub fn with_legacy_session_id(self, id: [u8; 32]) -> (r: Self)
        ensures
            r.spec_alpn() == self.spec_alpn(),
            r.spec_legacy_session_id() == id@,
            r.spec_early_data() == self.spec_early_data(),
            r.spec_max_fragment_length() == self.spec_max_fragment_length(),
            r.spec_suites() == self.spec_suites(),
    {
        Self { legacy_session_id: id, ..self }
    }

    /// Asks for the maximum fragment length `len`.
    pub fn with_max_fragment_length(self, len: MaxFragmentLength) -> (r: Self)
        ensures
            r.spec_alpn() == self.spec_alpn(),
            r.spec_legacy_session_id() == self.spec_legacy_session_id(),
            r.spec_early_data() == self.spec_early_data(),
            r.spec_max_fragment_length() == Some(len@),
            r.spec_suites() == self.spec_suites(),
    {
        Self { max_fragment_length: Some(len.to_wire()), ..self }
    }

    /// Encodes the `ClientHello` into `out` and returns the encoding.
    ///
    /// Encoding a `ClientHello` is not supported yet: it always fails
    /// with an `internal_error` alert.
    pub fn build<'b>(self, _out: &'b mut [u8]) -> (r: Result<&'b [u8], Error>)
        ensures
            r matches Err(e) && e@ == Alert::spec_internal_error(),
    {
        Err(Error::internal_error("encoding a `ClientHello` is not supported"))
    }
}

} // verus!
