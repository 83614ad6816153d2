//! Messages a server sends and what a client reads of them.

use vstd::prelude::*;

use crate::{
    tls::MaxFragmentLength,
    wire::{
        self,
        alert::Alert,
        alpn::Alpn,
        parse::{parse_all_outcome, ParseOutcome},
        size::{Object, Size},
        tls13::{
            self,
            ext::{Cookie, KeyShareServerHello, NamedGroup, NamedGroupList, OfferedPsksList, PskKexModesList},
        },
        vec::{lemma_iter_items_len, spec_iter_items, Iter},
        Error, ExtensionType, ProtocolVersion, TryParse,
    },
};

verus! {

/// The `ServerHello` message.
pub type ServerHello = tls13::ServerHello;

/// An extension found in a `ServerHello`.
#[derive(Copy, Clone, Debug)]
pub enum Extension<'a> {
    /// The `server_name` extension.
    ServerName,
    /// The `max_fragment_length` extension.
    MaxFragmentLength(wire::MaxFragmentLength),
    /// The `status_request` extension.
    StatusRequest,
    /// The `supported_groups` extension.
    SupportedGroups(NamedGroupList<'a>),
    /// The `signature_algorithms` extension.
    SignatureAlgorithms,
    /// The `use_srtp` extension.
    UseSrtp,
    /// The `heartbeat` extension.
    Heartbeat,
    /// The `application_layer_protocol_negotiation` extension.
    Alpn(Alpn<'a>),
    /// The `signed_certificate_timestamp` extension.
    Sct,
    /// The `client_certificate_type` extension.
    ClientCertificateType,
    /// The `server_certificate_type` extension.
    ServerCertificateType,
    /// The `padding` extension.
    Padding,
    /// The `pre_shared_key` extension.
    PreSharedKey(OfferedPsksList<'a>),
    /// The `early_data` extension.
    EarlyData,
    /// The `supported_versions` extension in a `ServerHello`.
    SupportedVersions(ProtocolVersion),
    /// The `cookie` extension.
    Cookie(Cookie<'a>),
    /// The `psk_key_exchange_modes` extension.
    PskKexModes(PskKexModesList<'a>),
    /// The `certificate_authorities` extension.
    CertificateAuthorities,
    /// The `oid_filters` extension.
    OidFilters,
    /// The `post_handshake_auth` extension.
    PostHandshakeAuth,
    /// The `signature_algorithms_cert` extension.
    SignatureAlgorithmsCert,
    /// The `key_share` extension.
    KeyShare(KeyShareServerHello<'a>),
    /// An unknown extension.
    Unknown(wire::Extension<'a>),
}

/// What an extension found in a `ServerHello` holds.
pub ghost enum ExtensionView {
    ServerName,
    MaxFragmentLength(wire::MaxFragmentLength),
    StatusRequest,
    SupportedGroups(Seq<u8>),
    SignatureAlgorithms,
    UseSrtp,
    Heartbeat,
    Alpn(Seq<u8>),
    Sct,
    ClientCertificateType,
    ServerCertificateType,
    Padding,
    PreSharedKey((Seq<u8>, Seq<u8>)),
    EarlyData,
    SupportedVersions(ProtocolVersion),
    Cookie(Seq<u8>),
    PskKexModes(Seq<u8>),
    CertificateAuthorities,
    OidFilters,
    PostHandshakeAuth,
    SignatureAlgorithmsCert,
    KeyShare((NamedGroup, Seq<u8>)),
    Unknown((ExtensionType, Seq<u8>)),
}

impl<'a> View for Extension<'a> {
    type V = ExtensionView;

    open spec fn view(&self) -> ExtensionView {
        match self {
            Extension::ServerName => ExtensionView::ServerName,
            Extension::MaxFragmentLength(x) => ExtensionView::MaxFragmentLength(x@),
            Extension::StatusRequest => ExtensionView::StatusRequest,
            Extension::SupportedGroups(x) => ExtensionView::SupportedGroups(x@),
            Extension::SignatureAlgorithms => ExtensionView::SignatureAlgorithms,
            Extension::UseSrtp => ExtensionView::UseSrtp,
            Extension::Heartbeat => ExtensionView::Heartbeat,
            Extension::Alpn(x) => ExtensionView::Alpn(x@),
            Extension::Sct => ExtensionView::Sct,
            Extension::ClientCertificateType => ExtensionView::ClientCertificateType,
            Extension::ServerCertificateType => ExtensionView::ServerCertificateType,
            Extension::Padding => ExtensionView::Padding,
            Extension::PreSharedKey(x) => ExtensionView::PreSharedKey(x@),
            Extension::EarlyData => ExtensionView::EarlyData,
            Extension::SupportedVersions(x) => ExtensionView::SupportedVersions(x@),
            Extension::Cookie(x) => ExtensionView::Cookie(x@),
            Extension::PskKexModes(x) => ExtensionView::PskKexModes(x@),
            Extension::CertificateAuthorities => ExtensionView::CertificateAuthorities,
            Extension::OidFilters => ExtensionView::OidFilters,
            Extension::PostHandshakeAuth => ExtensionView::PostHandshakeAuth,
            Extension::SignatureAlgorithmsCert => ExtensionView::SignatureAlgorithmsCert,
            Extension::KeyShare(x) => ExtensionView::KeyShare(x@),
            Extension::Unknown(x) => ExtensionView::Unknown(x@),
        }
    }
}

/// The type of an extension.
pub open spec fn spec_ext_ty(v: ExtensionView) -> ExtensionType {
    match v {
        ExtensionView::ServerName => ExtensionType::ServerName,
        ExtensionView::MaxFragmentLength(_) => ExtensionType::MaxFragmentLength,
        ExtensionView::StatusRequest => ExtensionType::StatusRequest,
        ExtensionView::SupportedGroups(_) => ExtensionType::SupportedGroups,
        ExtensionView::SignatureAlgorithms => ExtensionType::SignatureAlgorithms,
        ExtensionView::UseSrtp => ExtensionType::UseSrtp,
        ExtensionView::Heartbeat => ExtensionType::Heartbeat,
        ExtensionView::Alpn(_) => ExtensionType::Alpn,
        ExtensionView::Sct => ExtensionType::Sct,
        ExtensionView::ClientCertificateType => ExtensionType::ClientCertificateType,
        ExtensionView::ServerCertificateType => ExtensionType::ServerCertificateType,
        ExtensionView::Padding => ExtensionType::Padding,
        ExtensionView::PreSharedKey(_) => ExtensionType::PreSharedKey,
        ExtensionView::EarlyData => ExtensionType::EarlyData,
        ExtensionView::SupportedVersions(_) => ExtensionType::SupportedVersions,
        ExtensionView::Cookie(_) => ExtensionType::Cookie,
        ExtensionView::PskKexModes(_) => ExtensionType::PskKexModes,
        ExtensionView::CertificateAuthorities => ExtensionType::CertificateAuthorities,
        ExtensionView::OidFilters => ExtensionType::OidFilters,
        ExtensionView::PostHandshakeAuth => ExtensionType::PostHandshakeAuth,
        ExtensionView::SignatureAlgorithmsCert => ExtensionType::SignatureAlgorithmsCert,
        ExtensionView::KeyShare(_) => ExtensionType::KeyShare,
        ExtensionView::Unknown(x) => x.0,
    }
}

/// The extension that the body of an extension of type `ty` is.
pub open spec fn spec_ext_from_body(ty: ExtensionType, body: Seq<u8>) -> Result<ExtensionView, Alert> {
    match ty {
        ExtensionType::ServerName => Ok(ExtensionView::ServerName),
        ExtensionType::MaxFragmentLength => match parse_all_outcome(<wire::MaxFragmentLength as TryParse<'static>>::spec_parse(body), body) {
            Ok(x) => Ok(ExtensionView::MaxFragmentLength(x)),
            Err(a) => Err(a),
        },
        ExtensionType::StatusRequest => Ok(ExtensionView::StatusRequest),
        ExtensionType::SupportedGroups => match parse_all_outcome(<NamedGroupList<'static> as TryParse<'static>>::spec_parse(body), body) {
            Ok(x) => Ok(ExtensionView::SupportedGroups(x)),
            Err(a) => Err(a),
        },
        ExtensionType::SignatureAlgorithms => Ok(ExtensionView::SignatureAlgorithms),
        ExtensionType::UseSrtp => Ok(ExtensionView::UseSrtp),
        ExtensionType::Heartbeat => Ok(ExtensionView::Heartbeat),
        ExtensionType::Alpn => match parse_all_outcome(<Alpn<'static> as TryParse<'static>>::spec_parse(body), body) {
            Ok(x) => Ok(ExtensionView::Alpn(x)),
            Err(a) => Err(a),
        },
        ExtensionType::Sct => Ok(ExtensionView::Sct),
        ExtensionType::ClientCertificateType => Ok(ExtensionView::ClientCertificateType),
        ExtensionType::ServerCertificateType => Ok(ExtensionView::ServerCertificateType),
        ExtensionType::Padding => Ok(ExtensionView::Padding),
        ExtensionType::PreSharedKey => match parse_all_outcome(<OfferedPsksList<'static> as TryParse<'static>>::spec_parse(body), body) {
            Ok(x) => Ok(ExtensionView::PreSharedKey(x)),
            Err(a) => Err(a),
        },
        ExtensionType::EarlyData => match parse_all_outcome(<() as TryParse<'static>>::spec_parse(body), body) {
            Ok(_) => Ok(ExtensionView::EarlyData),
            Err(a) => Err(a),
        },
        ExtensionType::SupportedVersions => match parse_all_outcome(<ProtocolVersion as TryParse<'static>>::spec_parse(body), body) {
            Ok(x) => Ok(ExtensionView::SupportedVersions(x)),
            Err(a) => Err(a),
        },
        ExtensionType::Cookie => match parse_all_outcome(<Cookie<'static> as TryParse<'static>>::spec_parse(body), body) {
            Ok(x) => Ok(ExtensionView::Cookie(x)),
            Err(a) => Err(a),
        },
        ExtensionType::PskKexModes => match parse_all_outcome(<PskKexModesList<'static> as TryParse<'static>>::spec_parse(body), body) {
            Ok(x) => Ok(ExtensionView::PskKexModes(x)),
            Err(a) => Err(a),
        },
        ExtensionType::CertificateAuthorities => Ok(ExtensionView::CertificateAuthorities),
        ExtensionType::OidFilters => Ok(ExtensionView::OidFilters),
        ExtensionType::PostHandshakeAuth => Ok(ExtensionView::PostHandshakeAuth),
        ExtensionType::SignatureAlgorithmsCert => Ok(ExtensionView::SignatureAlgorithmsCert),
        ExtensionType::KeyShare => match parse_all_outcome(<KeyShareServerHello<'static> as TryParse<'static>>::spec_parse(body), body) {
            Ok(x) => Ok(ExtensionView::KeyShare(x)),
            Err(a) => Err(a),
        },
        ExtensionType::Unknown(_) => Ok(ExtensionView::Unknown((ty, body))),
    }
}

impl<'a> Object for Extension<'a> {
    open spec fn spec_size() -> (nat, nat) {
        <wire::Extension<'a> as Object>::spec_size()
    }

    fn size() -> (r: Size) {
        wire::Extension::size()
    }
}

impl<'de: 'a, 'a> TryParse<'de> for Extension<'a> {
    open spec fn spec_parse(data: Seq<u8>) -> ParseOutcome<ExtensionView> {
        match <wire::Extension<'a> as TryParse<'de>>::spec_parse(data) {
            Ok(((ty, body), n)) => match spec_ext_from_body(ty, body) {
                Ok(v) => Ok((v, n)),
                Err(a) => Err(a),
            },
            Err(a) => Err(a),
        }
    }

    open spec fn spec_skip(data: Seq<u8>) -> Result<nat, Alert> {
        <wire::Extension<'a> as TryParse<'de>>::spec_skip(data)
    }

    proof fn lemma_parse_bounds(data: Seq<u8>) {
        <wire::Extension<'a> as TryParse<'de>>::lemma_parse_bounds(data);
    }

    fn try_parse(data: &'de [u8]) -> (r: Result<(Extension<'a>, &'de [u8]), Error>) {
        let (ext, rest) = match <wire::Extension<'a> as TryParse<'de>>::try_parse(data) {
            Ok(x) => x,
            Err(e) => return Err(e),
        };
        let v = match ext.extension_type {
            ExtensionType::ServerName => Self::ServerName,
            ExtensionType::MaxFragmentLength => match ext.try_parse_data::<wire::MaxFragmentLength>() {
                Ok(x) => Self::MaxFragmentLength(x),
                Err(e) => return Err(e),
            },
            ExtensionType::StatusRequest => Self::StatusRequest,
            ExtensionType::SupportedGroups => match ext.try_parse_data::<NamedGroupList<'a>>() {
                Ok(x) => Self::SupportedGroups(x),
                Err(e) => return Err(e),
            },
            ExtensionType::SignatureAlgorithms => Self::SignatureAlgorithms,
            ExtensionType::UseSrtp => Self::UseSrtp,
            ExtensionType::Heartbeat => Self::Heartbeat,
            ExtensionType::Alpn => match ext.try_parse_data::<Alpn<'a>>() {
                Ok(x) => Self::Alpn(x),
                Err(e) => return Err(e),
            },
            ExtensionType::Sct => Self::Sct,
            ExtensionType::ClientCertificateType => Self::ClientCertificateType,
            ExtensionType::ServerCertificateType => Self::ServerCertificateType,
            ExtensionType::Padding => Self::Padding,
            ExtensionType::PreSharedKey => match ext.try_parse_data::<OfferedPsksList<'a>>() {
                Ok(x) => Self::PreSharedKey(x),
                Err(e) => return Err(e),
            },
            ExtensionType::EarlyData => match ext.try_parse_data::<()>() {
                Ok(()) => Self::EarlyData,
                Err(e) => return Err(e),
            },
            ExtensionType::SupportedVersions => match ext.try_parse_data::<ProtocolVersion>() {
                Ok(x) => Self::SupportedVersions(x),
                Err(e) => return Err(e),
            },
            ExtensionType::Cookie => match ext.try_parse_data::<Cookie<'a>>() {
                Ok(x) => Self::Cookie(x),
                Err(e) => return Err(e),
            },
            ExtensionType::PskKexModes => match ext.try_parse_data::<PskKexModesList<'a>>() {
                Ok(x) => Self::PskKexModes(x),
                Err(e) => return Err(e),
            },
            ExtensionType::CertificateAuthorities => Self::CertificateAuthorities,
            ExtensionType::OidFilters => Self::OidFilters,
            ExtensionType::PostHandshakeAuth => Self::PostHandshakeAuth,
            ExtensionType::SignatureAlgorithmsCert => Self::SignatureAlgorithmsCert,
            ExtensionType::KeyShare => match ext.try_parse_data::<KeyShareServerHello<'a>>() {
                Ok(x) => Self::KeyShare(x),
                Err(e) => return Err(e),
            },
            ExtensionType::Unknown(_) => Self::Unknown(ext),
        };
        Ok((v, rest))
    }

    fn try_skip(data: &'de [u8]) -> (r: Result<&'de [u8], Error>) {
        <wire::Extension<'a> as TryParse<'de>>::try_skip(data)
    }
}

/// The last extension of the list whose variant is of type `ty`.
pub open spec fn spec_find(items: Seq<ExtensionView>, ty: ExtensionType) -> Option<ExtensionView>
    decreases items.len(),
{
    if items.len() == 0 {
        None
    } else if !(items.last() is Unknown) && spec_ext_ty(items.last()) == ty {
        Some(items.last())
    } else {
        spec_find(items.drop_last(), ty)
    }
}

/// The search for an extension of a known type finds one exactly when
/// the list holds an extension of that type, and what it finds is in the
/// list; when no known type appears twice, it finds the one extension of
/// that type.
pub proof fn lemma_find_present(items: Seq<ExtensionView>, ty: ExtensionType)
    ensures
        spec_find(items, ty) is Some <==> exists|i: int|
            0 <= i < items.len() && !(items[i] is Unknown) && spec_ext_ty(#[trigger] items[i]) == ty,
        spec_find(items, ty) matches Some(x) ==> items.contains(x) && !(x is Unknown)
            && spec_ext_ty(x) == ty,
        (forall|i: int, j: int|
            0 <= i < j < items.len() && !(items[j] is Unknown) ==> spec_ext_ty(#[trigger] items[i])
                != spec_ext_ty(#[trigger] items[j])) ==> forall|i: int|
            0 <= i < items.len() && !(items[i] is Unknown) && spec_ext_ty(#[trigger] items[i]) == ty
                ==> spec_find(items, ty) == Some(items[i]),
    decreases items.len(),
{
    if items.len() > 0 {
        let rest = items.drop_last();
        lemma_find_present(rest, ty);
        assert forall|i: int| 0 <= i < rest.len() implies #[trigger] rest[i] == items[i] by {}
        if !(items.last() is Unknown) && spec_ext_ty(items.last()) == ty {
            assert(items[items.len() - 1] == items.last());
        } else {
            if let Some(x) = spec_find(rest, ty) {
                let k = choose|k: int| 0 <= k < rest.len() && rest[k] == x;
                assert(items[k] == x);
            }
            if exists|i: int|
                0 <= i < items.len() && !(items[i] is Unknown) && spec_ext_ty(#[trigger] items[i]) == ty {
                let i = choose|i: int|
                    0 <= i < items.len() && !(items[i] is Unknown) && spec_ext_ty(#[trigger] items[i]) == ty;
                assert(i < items.len() - 1);
                assert(rest[i] == items[i]);
            }
        }
        if forall|i: int, j: int|
            0 <= i < j < items.len() && !(items[j] is Unknown) ==> spec_ext_ty(#[trigger] items[i])
                != spec_ext_ty(#[trigger] items[j]) {
            assert forall|i: int, j: int|
                0 <= i < j < rest.len() && !(rest[j] is Unknown) implies spec_ext_ty(#[trigger] rest[i])
                != spec_ext_ty(#[trigger] rest[j]) by {
                assert(rest[i] == items[i] && rest[j] == items[j]);
            }
            assert forall|i: int|
                0 <= i < items.len() && !(items[i] is Unknown) && spec_ext_ty(#[trigger] items[i]) == ty
                implies spec_find(items, ty) == Some(items[i]) by {
                if i < items.len() - 1 {
                    assert(rest[i] == items[i]);
                    if !(items.last() is Unknown) && spec_ext_ty(items.last()) == ty {
                        assert(items.last() == items[items.len() - 1]);
                        assert(spec_ext_ty(items[i]) != spec_ext_ty(items[items.len() - 1]));
                    }
                }
            }
        }
    }
}

/// A list holds a `supported_versions` extension exactly when a version
/// is selected, and the version selected is that of an extension in the
/// list; when no known type appears twice, it is the version of the one
/// `supported_versions` extension.
pub proof fn lemma_selected_version_present(items: Seq<ExtensionView>, v: ProtocolVersion)
    ensures
        spec_selected_version(items) is Some <==> exists|i: int|
            0 <= i < items.len() && #[trigger] items[i] is SupportedVersions,
        spec_selected_version(items) == Some(v) ==> items.contains(ExtensionView::SupportedVersions(v)),
        (forall|i: int, j: int|
            0 <= i < j < items.len() && !(items[j] is Unknown) ==> spec_ext_ty(#[trigger] items[i])
                != spec_ext_ty(#[trigger] items[j])) && items.contains(
            ExtensionView::SupportedVersions(v),
        ) ==> spec_selected_version(items) == Some(v),
{
    lemma_find_present(items, ExtensionType::SupportedVersions);
    assert forall|i: int| 0 <= i < items.len() implies (#[trigger] items[i] is SupportedVersions
        <==> (!(items[i] is Unknown) && spec_ext_ty(items[i]) == ExtensionType::SupportedVersions)) by {
    }
    if items.contains(ExtensionView::SupportedVersions(v)) {
        let i = choose|i: int| 0 <= i < items.len() && items[i] == ExtensionView::SupportedVersions(v);
        assert(items[i] is SupportedVersions);
    }
}

/// The version that the last `supported_versions` extension selects.
pub open spec fn spec_selected_version(items: Seq<ExtensionView>) -> Option<ProtocolVersion> {
    match spec_find(items, ExtensionType::SupportedVersions) {
        Some(ExtensionView::SupportedVersions(v)) => Some(v),
        _ => None,
    }
}

/// The extensions that a list holds match the fields that stand for
/// them.
pub open spec fn spec_fields_match<'a>(
    items: Seq<ExtensionView>,
    alpn: Option<Alpn<'a>>,
    cookie: Option<Cookie<'a>>,
    early_data: bool,
    key_share: Option<KeyShareServerHello<'a>>,
    max_fragment_length: Option<wire::MaxFragmentLength>,
    pre_shared_key: Option<OfferedPsksList<'a>>,
    server_name: bool,
    selected_version: Option<ProtocolVersion>,
) -> bool {
    &&& spec_find(items, ExtensionType::Alpn) == match alpn {
        Some(v) => Some(ExtensionView::Alpn(v@)),
        None => None::<ExtensionView>,
    }
    &&& spec_find(items, ExtensionType::Cookie) == match cookie {
        Some(v) => Some(ExtensionView::Cookie(v@)),
        None => None::<ExtensionView>,
    }
    &&& early_data == (spec_find(items, ExtensionType::EarlyData) is Some)
    &&& spec_find(items, ExtensionType::KeyShare) == match key_share {
        Some(v) => Some(ExtensionView::KeyShare(v@)),
        None => None::<ExtensionView>,
    }
    &&& spec_find(items, ExtensionType::MaxFragmentLength) == match max_fragment_length {
        Some(v) => Some(ExtensionView::MaxFragmentLength(v@)),
        None => None::<ExtensionView>,
    }
    &&& spec_find(items, ExtensionType::PreSharedKey) == match pre_shared_key {
        Some(v) => Some(ExtensionView::PreSharedKey(v@)),
        None => None::<ExtensionView>,
    }
    &&& server_name == (spec_find(items, ExtensionType::ServerName) is Some)
    &&& spec_find(items, ExtensionType::SupportedVersions) == match selected_version {
        Some(v) => Some(ExtensionView::SupportedVersions(v)),
        None => None::<ExtensionView>,
    }
}

/// The extensions of a `ServerHello`.
pub struct ServerHelloExtensions<'a> {
    list: Iter<'a, Extension<'a>>,
    alpn: Option<Alpn<'a>>,
    cookie: Option<Cookie<'a>>,
    early_data: bool,
    key_share: Option<KeyShareServerHello<'a>>,
    max_fragment_length: Option<wire::MaxFragmentLength>,
    pre_shared_key: Option<OfferedPsksList<'a>>,
    server_name: bool,
    selected_version: Option<ProtocolVersion>,
}

impl<'a> ServerHelloExtensions<'a> {
    /// Every field stands for what the list holds.
    #[verifier::type_invariant]
    closed spec fn inv(self) -> bool {
        spec_fields_match(
            spec_iter_items::<Extension<'a>>(self.list@),
            self.alpn,
            self.cookie,
            self.early_data,
            self.key_share,
            self.max_fragment_length,
            self.pre_shared_key,
            self.server_name,
            self.selected_version,
        )
    }

    /// The extensions in the order they were received.
    pub closed spec fn items(&self) -> Seq<ExtensionView> {
        spec_iter_items::<Extension<'a>>(self.list@)
    }

    /// Returns an empty list.
    pub(crate) fn empty() -> (r: Self)
        ensures
            r.items() == Seq::<ExtensionView>::empty(),
    {
        let list = Iter::empty();
        proof {
            assert(spec_iter_items::<Extension<'a>>(list@) =~= Seq::<ExtensionView>::empty());
        }
        Self {
            list,
            alpn: None,
            cookie: None,
            early_data: false,
            key_share: None,
            max_fragment_length: None,
            pre_shared_key: None,
            server_name: false,
            selected_version: None,
        }
    }

    /// Collects the extensions of a `ServerHello`.
    ///
    /// Iteration stops at the end of the list or at the first extension
    /// whose body does not parse.
    pub(crate) fn new(list: Iter<'a, Extension<'a>>) -> (r: Result<Self, Error>)
        ensures
            r matches Ok(v) && v.items() == spec_iter_items::<Extension<'a>>(list@),
    {
        let ghost all = spec_iter_items::<Extension<'a>>(list@);
        proof {
            lemma_iter_items_len::<Extension<'a>>(list@);
            list.lemma_len();
        }
        let mut it = list.clone();
        let mut len: usize = 0;
        let mut alpn: Option<Alpn<'a>> = None;
        let mut cookie: Option<Cookie<'a>> = None;
        let mut early_data = false;
        let mut key_share: Option<KeyShareServerHello<'a>> = None;
        let mut max_fragment_length: Option<wire::MaxFragmentLength> = None;
        let mut pre_shared_key: Option<OfferedPsksList<'a>> = None;
        let mut server_name = false;
        let mut selected_version: Option<ProtocolVersion> = None;
        proof {
            assert(all.take(0) =~= Seq::<ExtensionView>::empty());
            assert(all.skip(0) =~= all);
        }
        loop
            invariant
                all == spec_iter_items::<Extension<'a>>(list@),
                all.len() <= list@.len(),
                list@.len() <= usize::MAX,
                len <= all.len(),
                spec_iter_items::<Extension<'a>>(it@) == all.skip(len as int),
                spec_fields_match(
                    all.take(len as int),
                    alpn,
                    cookie,
                    early_data,
                    key_share,
                    max_fragment_length,
                    pre_shared_key,
                    server_name,
                    selected_version,
                ),
            ensures
                spec_fields_match(
                    all,
                    alpn,
                    cookie,
                    early_data,
                    key_share,
                    max_fragment_length,
                    pre_shared_key,
                    server_name,
                    selected_version,
                ),
            decreases all.len() - len,
        {
            let ghost rest = spec_iter_items::<Extension<'a>>(it@);
            let ext = match it.next() {
                Some(ext) => ext,
                None => {
                    proof {
                        assert(all.take(len as int) =~= all);
                    }
                    break;
                },
            };
            let ghost done = all.take(len as int);
            let ghost next = all.take(len + 1);
            proof {
                assert(rest.len() > 0);
                assert(all.skip(len as int)[0] == all[len as int]);
                assert(next =~= done.push(ext@));
                assert(next.drop_last() =~= done);
                assert(all.skip(len as int).drop_first() =~= all.skip(len + 1));
            }
            len = len + 1;
            match ext {
                Extension::Alpn(v) => alpn = Some(v),
                Extension::Cookie(v) => cookie = Some(v),
                Extension::EarlyData => early_data = true,
                Extension::KeyShare(v) => key_share = Some(v),
                Extension::MaxFragmentLength(v) => max_fragment_length = Some(v),
                Extension::PreSharedKey(v) => pre_shared_key = Some(v),
                Extension::ServerName => server_name = true,
                Extension::SupportedVersions(v) => selected_version = Some(v),
                _ => {},
            }
        }
        Ok(
            Self {
                list,
                alpn,
                cookie,
                early_data,
                key_share,
                max_fragment_length,
                pre_shared_key,
                server_name,
                selected_version,
            },
        )
    }

    /// Returns an iterator over the extensions in the order they
    /// were received.
    pub fn iter(&self) -> (r: Iter<'a, Extension<'a>>)
        ensures
            spec_iter_items::<Extension<'a>>(r@) == self.items(),
    {
        self.list.const_clone()
    }

    /// Returns the `application_layer_protocol_negotiation`
    /// extension, if present.
    pub fn alpn(&self) -> (r: Option<Alpn<'a>>)
        ensures
            spec_find(self.items(), ExtensionType::Alpn) == match r {
                Some(v) => Some(ExtensionView::Alpn(v@)),
                None => None::<ExtensionView>,
            },
    {
        proof {
            use_type_invariant(self);
        }
        self.alpn
    }

    /// Returns the `cookie` extension, if present.
    pub fn cookie(&self) -> (r: Option<Cookie<'a>>)
        ensures
            spec_find(self.items(), ExtensionType::Cookie) == match r {
                Some(v) => Some(ExtensionView::Cookie(v@)),
                None => None::<ExtensionView>,
            },
    {
        proof {
            use_type_invariant(self);
        }
        self.cookie
    }

    /// Reports whether the `early_data` extension is present.
    pub fn early_data(&self) -> (r: bool)
        ensures
            r == (spec_find(self.items(), ExtensionType::EarlyData) is Some),
    {
        proof {
            use_type_invariant(self);
        }
        self.early_data
    }

    /// Returns the `max_fragment_length` extension, if present.
    pub fn max_fragment_length(&self) -> (r: Option<MaxFragmentLength>)
        ensures
            spec_find(self.items(), ExtensionType::MaxFragmentLength) == match r {
                Some(v) => Some(ExtensionView::MaxFragmentLength(v@)),
                None => None::<ExtensionView>,
            },
    {
        proof {
            use_type_invariant(self);
        }
        match self.max_fragment_length {
            Some(len) => Some(MaxFragmentLength::from_wire(len)),
            None => None,
        }
    }

    /// Returns the `key_share` extension, if present.
    pub fn key_share(&self) -> (r: Option<KeyShareServerHello<'a>>)
        ensures
            spec_find(self.items(), ExtensionType::KeyShare) == match r {
                Some(v) => Some(ExtensionView::KeyShare(v@)),
                None => None::<ExtensionView>,
            },
    {
        proof {
            use_type_invariant(self);
        }
        self.key_share
    }

    /// Returns the `pre_shared_key` extension, if present.
    pub fn pre_shared_key(&self) -> (r: Option<OfferedPsksList<'a>>)
        ensures
            spec_find(self.items(), ExtensionType::PreSharedKey) == match r {
                Some(v) => Some(ExtensionView::PreSharedKey(v@)),
                None => None::<ExtensionView>,
            },
    {
        proof {
            use_type_invariant(self);
        }
        self.pre_shared_key
    }

    /// Reports whether the `server_name` extension is present.
    pub fn server_name(&self) -> (r: bool)
        ensures
            r == (spec_find(self.items(), ExtensionType::ServerName) is Some),
    {
        proof {
            use_type_invariant(self);
        }
        self.server_name
    }

    /// Returns the version that the `supported_versions` extension
    /// selects, if present.
    pub fn selected_version(&self) -> (r: Option<ProtocolVersion>)
        ensures
            r == spec_selected_version(self.items()),
    {
        proof {
            use_type_invariant(self);
        }
        self.selected_version
    }
}

impl<'a> Clone for ServerHelloExtensions<'a> {
    fn clone(&self) -> (r: Self)
        ensures
            r.items() == self.items(),
    {
        proof {
            use_type_invariant(self);
        }
        Self {
            list: self.list.clone(),
            alpn: self.alpn,
            cookie: self.cookie,
            early_data: self.early_data,
            key_share: self.key_share,
            max_fragment_length: self.max_fragment_length,
            pre_shared_key: self.pre_shared_key,
            server_name: self.server_name,
            selected_version: self.selected_version,
        }
    }
}

impl<'a> Object for ServerHelloExtensions<'a> {
    open spec fn spec_size() -> (nat, nat) {
        <tls13::ServerHelloExtensions<'a> as Object>::spec_size()
    }

    fn size() -> (r: Size) {
        <tls13::ServerHelloExtensions<'a> as Object>::size()
    }
}

impl<'de: 'a, 'a> TryParse<'de> for ServerHelloExtensions<'a> {
    /// The extensions of a `ServerHello` are the items of its list.
    open spec fn spec_parse(data: Seq<u8>) -> ParseOutcome<Seq<ExtensionView>> {
        match <tls13::ServerHelloExtensions<'a> as TryParse<'de>>::spec_parse(data) {
            Ok((list, n)) => Ok((spec_iter_items::<Extension<'a>>(list), n)),
            Err(a) => Err(a),
        }
    }

    open spec fn spec_skip(data: Seq<u8>) -> Result<nat, Alert> {
        <tls13::ServerHelloExtensions<'a> as TryParse<'de>>::spec_skip(data)
    }

    proof fn lemma_parse_bounds(data: Seq<u8>) {
        <tls13::ServerHelloExtensions<'a> as TryParse<'de>>::lemma_parse_bounds(data);
    }

    fn try_parse(data: &'de [u8]) -> (r: Result<(ServerHelloExtensions<'a>, &'de [u8]), Error>) {
        let (list, rest) = match <tls13::ServerHelloExtensions<'a> as TryParse<'de>>::try_parse(
            data,
        ) {
            Ok(x) => x,
            Err(e) => return Err(e),
        };
        let exts = match Self::new(list.map().into_iter()) {
            Ok(v) => v,
            Err(e) => return Err(e),
        };
        Ok((exts, rest))
    }

    fn try_skip(data: &'de [u8]) -> (r: Result<&'de [u8], Error>) {
        <tls13::ServerHelloExtensions<'a> as TryParse<'de>>::try_skip(data)
    }
}

impl<'a> View for ServerHelloExtensions<'a> {
    type V = Seq<ExtensionView>;

    open spec fn view(&self) -> Seq<ExtensionView> {
        self.items()
    }
}

} // verus!
