//! The `key_share` extension.

use vstd::prelude::*;

use crate::wire::{
    alert::Alert,
    encode::{spec_write_fixed, EncBuf, EncState, TryEncode},
    error::Error,
    parse::{parse_all_outcome, split_prefix, ParseOutcome, TryParse},
    size::{Object, Size},
    tls13::ext::NamedGroup,
    types::opaque,
    vec::{Iter, Vector},
};

verus! {

/// The `key_share` extension for the `ClientHello`.
#[derive(Copy, Clone, Debug)]
pub struct KeyShareClientHello<'a> {
    data: Vector<'a, KeyShare<'a>, 0, 65535>,
}

impl<'a> View for KeyShareClientHello<'a> {
    type V = Seq<u8>;

    closed spec fn view(&self) -> Seq<u8> {
        self.data@
    }
}

impl<'a> KeyShareClientHello<'a> {
    /// Returns an iterator over the list's items.
    pub fn iter(&self) -> (r: Iter<'_, KeyShare<'a>>)
        ensures
            r@ == self@,
    {
        self.data.iter()
    }

    /// Turns the list into an iterator over its items.
    pub fn into_iter(self) -> (r: Iter<'a, KeyShare<'a>>)
        ensures
            r@ == self@,
    {
        Iter::new(self.data.into_slice())
    }
}

impl<'a> Object for KeyShareClientHello<'a> {
    open spec fn spec_size() -> (nat, nat) {
        (0, 65535)
    }

    fn size() -> (r: Size) {
        Size::new(0, 65535)
    }
}

impl<'de: 'a, 'a> TryParse<'de> for KeyShareClientHello<'a> {
    open spec fn spec_parse(data: Seq<u8>) -> ParseOutcome<Seq<u8>> {
        <Vector<'a, KeyShare<'a>, 0, 65535> as TryParse<'de>>::spec_parse(data)
    }

    open spec fn spec_skip(data: Seq<u8>) -> Result<nat, Alert> {
        <Vector<'a, KeyShare<'a>, 0, 65535> as TryParse<'de>>::spec_skip(data)
    }

    proof fn lemma_parse_bounds(data: Seq<u8>) {
        <Vector<'a, KeyShare<'a>, 0, 65535> as TryParse<'de>>::lemma_parse_bounds(data);
    }

    fn try_parse(data: &'de [u8]) -> (r: Result<(KeyShareClientHello<'a>, &'de [u8]), Error>) {
        match <Vector<'a, KeyShare<'a>, 0, 65535> as TryParse<'de>>::try_parse(data) {
            Ok((data, rest)) => Ok((Self { data }, rest)),
            Err(e) => Err(e),
        }
    }

    fn try_skip(data: &'de [u8]) -> (r: Result<&'de [u8], Error>) {
        <Vector<'a, KeyShare<'a>, 0, 65535> as TryParse<'de>>::try_skip(data)
    }
}

impl<'a> TryEncode for KeyShareClientHello<'a> {
    open spec fn spec_encode(v: Seq<u8>, s: EncState) -> (EncState, Result<(), Alert>) {
        <Vector<'a, KeyShare<'a>, 0, 65535> as TryEncode>::spec_encode(v, s)
    }

    fn try_encode(&self, out: &mut EncBuf<'_>) -> (r: Result<(), Error>) {
        self.data.try_encode(out)
    }
}
/// The `key_share` extension for the `HelloRetryRequest`.
#[derive(Copy, Clone, Debug)]
pub struct KeyShareHelloRetryRequest {
    pub selected_group: NamedGroup,
}

impl View for KeyShareHelloRetryRequest {
    type V = NamedGroup;

    open spec fn view(&self) -> NamedGroup {
        self.selected_group@
    }
}

impl Object for KeyShareHelloRetryRequest {
    open spec fn spec_size() -> (nat, nat) {
        (<NamedGroup as Object>::spec_size().0, <NamedGroup as Object>::spec_size().1)
    }

    fn size() -> (r: Size) {
        Size::new(2, 2)
    }
}

impl<'de> TryParse<'de> for KeyShareHelloRetryRequest {
    open spec fn spec_parse(data: Seq<u8>) -> ParseOutcome<NamedGroup> {
        match <NamedGroup as TryParse<'de>>::spec_parse(data) {
            Ok((v0, n0)) => {
                Ok((v0, (n0) as nat))
            },
            Err(a) => Err(a),
        }
    }

    open spec fn spec_skip(data: Seq<u8>) -> Result<nat, Alert> {
        match <NamedGroup as TryParse<'de>>::spec_skip(data) {
            Ok(n0) => {
                Ok((n0) as nat)
            },
            Err(a) => Err(a),
        }
    }

    proof fn lemma_parse_bounds(data: Seq<u8>) {
        <NamedGroup as TryParse<'de>>::lemma_parse_bounds(data);
        <NamedGroup as TryParse<'de>>::lemma_parse_bounds(data);
    }

    fn try_parse(data: &'de [u8]) -> (r: Result<(KeyShareHelloRetryRequest, &'de [u8]), Error>) {
        let (selected_group, rest0) = match <NamedGroup as TryParse<'de>>::try_parse(data) {
            Ok(x) => x,
            Err(e) => return Err(e),
        };
        proof {
            assert(rest0@ =~= data@.skip((data@.len() - rest0@.len()) as int));
        }
        Ok((KeyShareHelloRetryRequest { selected_group }, rest0))
    }

    fn try_skip(data: &'de [u8]) -> (r: Result<&'de [u8], Error>) {
        let rest0 = match <NamedGroup as TryParse<'de>>::try_skip(data) {
            Ok(x) => x,
            Err(e) => return Err(e),
        };
        proof {
            assert(rest0@ =~= data@.skip((data@.len() - rest0@.len()) as int));
        }
        Ok(rest0)
    }
}

impl TryEncode for KeyShareHelloRetryRequest {
    open spec fn spec_encode(v: NamedGroup, s: EncState) -> (EncState, Result<(), Alert>) {
        <NamedGroup as TryEncode>::spec_encode(v, s)
    }

    fn try_encode(&self, out: &mut EncBuf<'_>) -> (r: Result<(), Error>) {
        self.selected_group.try_encode(out)
    }
}
impl KeyShareHelloRetryRequest {
    /// Returns the selected named group.
    pub fn group(&self) -> (r: NamedGroup)
        ensures
            r == self.selected_group,
    {
        self.selected_group
    }
}

/// The `key_share` extension for the `ServerHello`.
#[derive(Copy, Clone, Debug)]
pub struct KeyShareServerHello<'a> {
    pub server_share: KeyShare<'a>,
}

impl<'a> View for KeyShareServerHello<'a> {
    type V = (NamedGroup, Seq<u8>);

    open spec fn view(&self) -> (NamedGroup, Seq<u8>) {
        self.server_share@
    }
}

impl<'a> Object for KeyShareServerHello<'a> {
    open spec fn spec_size() -> (nat, nat) {
        (<KeyShare<'a> as Object>::spec_size().0, <KeyShare<'a> as Object>::spec_size().1)
    }

    fn size() -> (r: Size) {
        Size::new(3, 65537)
    }
}

impl<'de: 'a, 'a> TryParse<'de> for KeyShareServerHello<'a> {
    open spec fn spec_parse(data: Seq<u8>) -> ParseOutcome<(NamedGroup, Seq<u8>)> {
        match <KeyShare<'a> as TryParse<'de>>::spec_parse(data) {
            Ok((v0, n0)) => {
                Ok((v0, (n0) as nat))
            },
            Err(a) => Err(a),
        }
    }

    open spec fn spec_skip(data: Seq<u8>) -> Result<nat, Alert> {
        match <KeyShare<'a> as TryParse<'de>>::spec_skip(data) {
            Ok(n0) => {
                Ok((n0) as nat)
            },
            Err(a) => Err(a),
        }
    }

    proof fn lemma_parse_bounds(data: Seq<u8>) {
        <KeyShare<'a> as TryParse<'de>>::lemma_parse_bounds(data);
        <KeyShare<'a> as TryParse<'de>>::lemma_parse_bounds(data);
    }

    fn try_parse(data: &'de [u8]) -> (r: Result<(KeyShareServerHello<'a>, &'de [u8]), Error>) {
        let (server_share, rest0) = match <KeyShare<'a> as TryParse<'de>>::try_parse(data) {
            Ok(x) => x,
            Err(e) => return Err(e),
        };
        proof {
            assert(rest0@ =~= data@.skip((data@.len() - rest0@.len()) as int));
        }
        Ok((KeyShareServerHello { server_share }, rest0))
    }

    fn try_skip(data: &'de [u8]) -> (r: Result<&'de [u8], Error>) {
        let rest0 = match <KeyShare<'a> as TryParse<'de>>::try_skip(data) {
            Ok(x) => x,
            Err(e) => return Err(e),
        };
        proof {
            assert(rest0@ =~= data@.skip((data@.len() - rest0@.len()) as int));
        }
        Ok(rest0)
    }
}

impl<'a> TryEncode for KeyShareServerHello<'a> {
    open spec fn spec_encode(v: (NamedGroup, Seq<u8>), s: EncState) -> (EncState, Result<(), Alert>) {
        <KeyShare<'a> as TryEncode>::spec_encode(v, s)
    }

    fn try_encode(&self, out: &mut EncBuf<'_>) -> (r: Result<(), Error>) {
        self.server_share.try_encode(out)
    }
}
impl<'a> KeyShareServerHello<'a> {
    /// Returns the server's selected [`KeyShareEntry`].
    pub fn share(&self) -> (r: KeyShare<'a>)
        ensures
            r@ == self.server_share@,
    {
        self.server_share
    }
}

/// A `KeyShareEntry`.
#[derive(Copy, Clone, Debug)]
pub struct KeyShareEntry<'a> {
    pub group: NamedGroup,
    pub key_exchange: Vector<'a, opaque, 1, 65535>,
}

impl<'a> View for KeyShareEntry<'a> {
    type V = (NamedGroup, Seq<u8>);

    open spec fn view(&self) -> (NamedGroup, Seq<u8>) {
        (self.group@, self.key_exchange@)
    }
}

impl<'a> Object for KeyShareEntry<'a> {
    open spec fn spec_size() -> (nat, nat) {
        (<NamedGroup as Object>::spec_size().0 + <Vector<'a, opaque, 1, 65535> as Object>::spec_size().0, <NamedGroup as Object>::spec_size().1 + <Vector<'a, opaque, 1, 65535> as Object>::spec_size().1)
    }

    fn size() -> (r: Size) {
        Size::new(3, 65537)
    }
}

impl<'de: 'a, 'a> TryParse<'de> for KeyShareEntry<'a> {
    open spec fn spec_parse(data: Seq<u8>) -> ParseOutcome<(NamedGroup, Seq<u8>)> {
        match <NamedGroup as TryParse<'de>>::spec_parse(data) {
            Ok((v0, n0)) => {
                match <Vector<'a, opaque, 1, 65535> as TryParse<'de>>::spec_parse(data.skip((n0) as int)) {
                    Ok((v1, n1)) => {
                        Ok(((v0, v1), (n0 + n1) as nat))
                    },
                    Err(a) => Err(a),
                }
            },
            Err(a) => Err(a),
        }
    }

    open spec fn spec_skip(data: Seq<u8>) -> Result<nat, Alert> {
        match <NamedGroup as TryParse<'de>>::spec_skip(data) {
            Ok(n0) => {
                match <Vector<'a, opaque, 1, 65535> as TryParse<'de>>::spec_skip(data.skip((n0) as int)) {
                    Ok(n1) => {
                        Ok((n0 + n1) as nat)
                    },
                    Err(a) => Err(a),
                }
            },
            Err(a) => Err(a),
        }
    }

    proof fn lemma_parse_bounds(data: Seq<u8>) {
        <NamedGroup as TryParse<'de>>::lemma_parse_bounds(data);
        if let Ok((_, n0)) = <NamedGroup as TryParse<'de>>::spec_parse(data) {
            <Vector<'a, opaque, 1, 65535> as TryParse<'de>>::lemma_parse_bounds(data.skip((n0) as int));
        }
        <NamedGroup as TryParse<'de>>::lemma_parse_bounds(data);
        if let Ok(n0) = <NamedGroup as TryParse<'de>>::spec_skip(data) {
            <Vector<'a, opaque, 1, 65535> as TryParse<'de>>::lemma_parse_bounds(data.skip((n0) as int));
        }
    }

    fn try_parse(data: &'de [u8]) -> (r: Result<(KeyShareEntry<'a>, &'de [u8]), Error>) {
        let (group, rest0) = match <NamedGroup as TryParse<'de>>::try_parse(data) {
            Ok(x) => x,
            Err(e) => return Err(e),
        };
        proof {
            assert(rest0@ =~= data@.skip((data@.len() - rest0@.len()) as int));
        }
        let (key_exchange, rest1) = match <Vector<'a, opaque, 1, 65535> as TryParse<'de>>::try_parse(rest0) {
            Ok(x) => x,
            Err(e) => return Err(e),
        };
        proof {
            assert(rest1@ =~= data@.skip((data@.len() - rest1@.len()) as int));
        }
        Ok((KeyShareEntry { group, key_exchange }, rest1))
    }

    fn try_skip(data: &'de [u8]) -> (r: Result<&'de [u8], Error>) {
        let rest0 = match <NamedGroup as TryParse<'de>>::try_skip(data) {
            Ok(x) => x,
            Err(e) => return Err(e),
        };
        proof {
            assert(rest0@ =~= data@.skip((data@.len() - rest0@.len()) as int));
        }
        let rest1 = match <Vector<'a, opaque, 1, 65535> as TryParse<'de>>::try_skip(rest0) {
            Ok(x) => x,
            Err(e) => return Err(e),
        };
        proof {
            assert(rest1@ =~= data@.skip((data@.len() - rest1@.len()) as int));
        }
        Ok(rest1)
    }
}

impl<'a> TryEncode for KeyShareEntry<'a> {
    open spec fn spec_encode(v: (NamedGroup, Seq<u8>), s: EncState) -> (EncState, Result<(), Alert>) {
        let (s0, r0) = <NamedGroup as TryEncode>::spec_encode(v.0, s);
        match r0 {
            Ok(()) => {
                <Vector<'a, opaque, 1, 65535> as TryEncode>::spec_encode(v.1, s0)
            },
            Err(a) => (s0, Err(a)),
        }
    }

    fn try_encode(&self, out: &mut EncBuf<'_>) -> (r: Result<(), Error>) {
        match self.group.try_encode(out) {
            Ok(()) => {},
            Err(e) => return Err(e),
        }
        self.key_exchange.try_encode(out)
    }
}
impl<'a> KeyShareEntry<'a> {
    /// Returns the named group.
    pub fn group(&self) -> (r: NamedGroup)
        ensures
            r == self.group,
    {
        self.group
    }

    /// Returns the key exchange data.
    pub fn kex(&self) -> (r: &[u8])
        ensures
            r@ == self.key_exchange@,
            1 <= r@.len() <= 65535,
    {
        self.key_exchange.as_slice()
    }

    /// Parses the key exchange data as a `T`, which must take up all of
    /// it.
    fn parse_kex_data<T: TryParse<'a>>(&self) -> (r: Result<T, Error>)
        ensures
            match r {
                Ok(v) => parse_all_outcome(T::spec_parse(self.key_exchange@), self.key_exchange@)
                    == Ok::<<T as View>::V, Alert>(v@),
                Err(e) => parse_all_outcome(T::spec_parse(self.key_exchange@), self.key_exchange@)
                    == Err::<<T as View>::V, Alert>(e@),
            },
    {
        T::try_parse_all(self.key_exchange.into_slice())
    }
}

/// A known [`KeyShareEntry`].
#[derive(Copy, Clone, Debug)]
pub enum KeyShare<'a> {
    /// NIST P-256.
    Secp256r1(Secp256r1<'a>),
    /// NIST P-384.
    Secp384r1(Secp384r1<'a>),
    /// NIST P-521.
    Secp521r1(Secp521r1<'a>),
    /// X25519.
    X25519(X25519<'a>),
    /// X448.
    X448(X448<'a>),
    /// An unknown key share type.
    Unknown(KeyShareEntry<'a>),
}

impl<'a> View for KeyShare<'a> {
    type V = (NamedGroup, Seq<u8>);

    open spec fn view(&self) -> (NamedGroup, Seq<u8>) {
        match self {
            KeyShare::Secp256r1(p) => (NamedGroup::Secp256r1, p@),
            KeyShare::Secp384r1(p) => (NamedGroup::Secp384r1, p@),
            KeyShare::Secp521r1(p) => (NamedGroup::Secp521r1, p@),
            KeyShare::X25519(p) => (NamedGroup::X25519, p@),
            KeyShare::X448(p) => (NamedGroup::X448, p@),
            KeyShare::Unknown(e) => e@,
        }
    }
}

/// The key share that a key share entry of group `g` with key exchange
/// data `kex` stands for.
pub open spec fn spec_key_share_from(g: NamedGroup, kex: Seq<u8>) -> Result<
    (NamedGroup, Seq<u8>),
    Alert,
> {
    let parsed = match g {
        NamedGroup::Secp256r1 => parse_all_outcome(
            <Secp256r1<'static> as TryParse<'static>>::spec_parse(kex),
            kex,
        ),
        NamedGroup::Secp384r1 => parse_all_outcome(
            <Secp384r1<'static> as TryParse<'static>>::spec_parse(kex),
            kex,
        ),
        NamedGroup::Secp521r1 => parse_all_outcome(
            <Secp521r1<'static> as TryParse<'static>>::spec_parse(kex),
            kex,
        ),
        NamedGroup::X25519 => parse_all_outcome(<X25519<'static> as TryParse<'static>>::spec_parse(kex), kex),
        NamedGroup::X448 => parse_all_outcome(<X448<'static> as TryParse<'static>>::spec_parse(kex), kex),
        _ => Ok(kex),
    };
    match parsed {
        Ok(d) => Ok((g, d)),
        Err(a) => Err(a),
    }
}

impl<'a> KeyShare<'a> {
    /// The variant is the one that the named group calls for: each known
    /// group has a variant of its own, and `Unknown` holds the other
    /// groups.
    pub open spec fn spec_variant_of_group(&self) -> bool {
        &&& (self is Secp256r1 <==> self@.0 == NamedGroup::Secp256r1)
        &&& (self is Secp384r1 <==> self@.0 == NamedGroup::Secp384r1)
        &&& (self is Secp521r1 <==> self@.0 == NamedGroup::Secp521r1)
        &&& (self is X25519 <==> self@.0 == NamedGroup::X25519)
        &&& (self is X448 <==> self@.0 == NamedGroup::X448)
    }

    /// Returns the named group.
    pub fn group(&self) -> (r: NamedGroup)
        ensures
            r == self@.0,
    {
        match self {
            Self::Secp256r1(_) => NamedGroup::Secp256r1,
            Self::Secp384r1(_) => NamedGroup::Secp384r1,
            Self::Secp521r1(_) => NamedGroup::Secp521r1,
            Self::X25519(_) => NamedGroup::X25519,
            Self::X448(_) => NamedGroup::X448,
            Self::Unknown(v) => v.group,
        }
    }

    /// Returns the key exchange data.
    pub fn data(&self) -> (r: &[u8])
        ensures
            r@ == self@.1,
            1 <= r@.len() <= 65535,
    {
        match self {
            Self::Secp256r1(share) => share.data(),
            Self::Secp384r1(share) => share.data(),
            Self::Secp521r1(share) => share.data(),
            Self::X25519(share) => share.data(),
            Self::X448(share) => share.data(),
            Self::Unknown(share) => share.kex(),
        }
    }

    /// Interprets a key share entry of a known group.
    pub fn try_from(share: KeyShareEntry<'a>) -> (r: Result<KeyShare<'a>, Error>)
        ensures
            r matches Ok(v) ==> v.spec_variant_of_group(),
            match r {
                Ok(v) => spec_key_share_from(share.group, share.key_exchange@) == Ok::<
                    (NamedGroup, Seq<u8>),
                    Alert,
                >(v@),
                Err(e) => spec_key_share_from(share.group, share.key_exchange@) == Err::<
                    (NamedGroup, Seq<u8>),
                    Alert,
                >(e@),
            },
    {
        match share.group {
            NamedGroup::Secp256r1 => match share.parse_kex_data::<Secp256r1<'a>>() {
                Ok(v) => Ok(Self::Secp256r1(v)),
                Err(e) => Err(e),
            },
            NamedGroup::Secp384r1 => match share.parse_kex_data::<Secp384r1<'a>>() {
                Ok(v) => Ok(Self::Secp384r1(v)),
                Err(e) => Err(e),
            },
            NamedGroup::Secp521r1 => match share.parse_kex_data::<Secp521r1<'a>>() {
                Ok(v) => Ok(Self::Secp521r1(v)),
                Err(e) => Err(e),
            },
            NamedGroup::X25519 => match share.parse_kex_data::<X25519<'a>>() {
                Ok(v) => Ok(Self::X25519(v)),
                Err(e) => Err(e),
            },
            NamedGroup::X448 => match share.parse_kex_data::<X448<'a>>() {
                Ok(v) => Ok(Self::X448(v)),
                Err(e) => Err(e),
            },
            _ => Ok(Self::Unknown(share)),
        }
    }
}

impl<'a> Object for KeyShare<'a> {
    open spec fn spec_size() -> (nat, nat) {
        <KeyShareEntry<'a> as Object>::spec_size()
    }

    fn size() -> (r: Size) {
        KeyShareEntry::size()
    }
}

impl<'de: 'a, 'a> TryParse<'de> for KeyShare<'a> {
    open spec fn spec_parse(data: Seq<u8>) -> ParseOutcome<(NamedGroup, Seq<u8>)> {
        match <KeyShareEntry<'a> as TryParse<'de>>::spec_parse(data) {
            Ok(((g, kex), n)) => match spec_key_share_from(g, kex) {
                Ok(v) => Ok((v, n)),
                Err(a) => Err(a),
            },
            Err(a) => Err(a),
        }
    }

    open spec fn spec_skip(data: Seq<u8>) -> Result<nat, Alert> {
        match Self::spec_parse(data) {
            Ok((_, n)) => Ok(n),
            Err(a) => Err(a),
        }
    }

    proof fn lemma_parse_bounds(data: Seq<u8>) {
        <KeyShareEntry<'a> as TryParse<'de>>::lemma_parse_bounds(data);
    }

    fn try_parse(data: &'de [u8]) -> (r: Result<(KeyShare<'a>, &'de [u8]), Error>)
        ensures
            r matches Ok((v, _)) ==> v.spec_variant_of_group(),
    {
        let (entry, rest) = match KeyShareEntry::try_parse(data) {
            Ok(x) => x,
            Err(e) => return Err(e),
        };
        match Self::try_from(entry) {
            Ok(share) => Ok((share, rest)),
            Err(e) => Err(e),
        }
    }

    fn try_parse_all(data: &'de [u8]) -> (r: Result<KeyShare<'a>, Error>)
        ensures
            r matches Ok(v) ==> v.spec_variant_of_group(),
    {
        let (v, rest) = match Self::try_parse(data) {
            Ok(x) => x,
            Err(e) => return Err(e),
        };
        if rest.len() != 0 {
            Err(Error::decode_error("unexpected trailing data"))
        } else {
            Ok(v)
        }
    }

    fn try_skip(data: &'de [u8]) -> (r: Result<&'de [u8], Error>) {
        match Self::try_parse(data) {
            Ok((_, rest)) => Ok(rest),
            Err(e) => Err(e),
        }
    }
}

impl<'a> TryEncode for KeyShare<'a> {
    open spec fn spec_encode(v: (NamedGroup, Seq<u8>), s: EncState) -> (EncState, Result<(), Alert>) {
        <KeyShareEntry<'a> as TryEncode>::spec_encode(v, s)
    }

    fn try_encode(&self, out: &mut EncBuf<'_>) -> (r: Result<(), Error>) {
        let data: &[u8] = match self {
            Self::Unknown(share) => return share.try_encode(out),
            _ => self.data(),
        };
        let key_exchange = match Vector::try_new(data) {
            Ok(v) => v,
            Err(e) => return Err(e),
        };
        KeyShareEntry { group: self.group(), key_exchange }.try_encode(out)
    }
}

/// `UncompressedPointRepresentation` for the NIST P-256 curve.
#[derive(Copy, Clone, Debug)]
pub struct Secp256r1<'a> {
    data: &'a [u8],
}

impl<'a> View for Secp256r1<'a> {
    type V = Seq<u8>;

    closed spec fn view(&self) -> Seq<u8> {
        self.data@
    }
}

impl<'a> Secp256r1<'a> {
    #[verifier::type_invariant]
    closed spec fn inv(self) -> bool {
        self.data@.len() == 65 && self.data@[0] == 4
    }

    /// Returns the underlying data in the form `0x4 || x || y`.
    pub fn data(&self) -> (r: &[u8])
        ensures
            r@ == self@,
            r@.len() == 65,
    {
        proof {
            use_type_invariant(self);
        }
        self.data
    }

    /// Returns the public key ((x, y) coordinates).
    pub fn pk(&self) -> (r: (&[u8], &[u8]))
        ensures
            r.0@ == self@.subrange(1, 33),
            r.1@ == self@.subrange(33, 65),
    {
        proof {
            use_type_invariant(self);
        }
        let (_, rest) = split_prefix(self.data, 1);
        let (x, y) = split_prefix(rest, 32);
        proof {
            assert(x@ =~= self@.subrange(1, 33));
            assert(y@ =~= self@.subrange(33, 65));
        }
        (x, y)
    }
}

impl<'a> Object for Secp256r1<'a> {
    open spec fn spec_size() -> (nat, nat) {
        (65, 65)
    }

    fn size() -> (r: Size) {
        Size::new(65, 65)
    }
}

impl<'a> TryParse<'a> for Secp256r1<'a> {
    open spec fn spec_parse(data: Seq<u8>) -> ParseOutcome<Seq<u8>> {
        if data.len() < 65 {
            Err(Alert::spec_decode_error())
        } else if data[0] != 4 {
            Err(Alert::spec_illegal_parameter())
        } else {
            Ok((data.take(65), 65))
        }
    }

    open spec fn spec_skip(data: Seq<u8>) -> Result<nat, Alert> {
        match Self::spec_parse(data) {
            Ok((_, n)) => Ok(n),
            Err(a) => Err(a),
        }
    }

    proof fn lemma_parse_bounds(data: Seq<u8>) {
    }

    fn try_parse(data: &'a [u8]) -> (r: Result<(Secp256r1<'a>, &'a [u8]), Error>) {
        if data.len() < 65 {
            return Err(Error::unexpected_eof());
        }
        let (head, rest) = split_prefix(data, 65);
        if head[0] != 0x4 {
            return Err(Error::illegal_parameter("invalid constant"));
        }
        Ok((Self { data: head }, rest))
    }

    fn try_skip(data: &'a [u8]) -> (r: Result<&'a [u8], Error>) {
        match Self::try_parse(data) {
            Ok((_, rest)) => Ok(rest),
            Err(e) => Err(e),
        }
    }
}

impl<'a> TryEncode for Secp256r1<'a> {
    open spec fn spec_encode(v: Seq<u8>, s: EncState) -> (EncState, Result<(), Alert>) {
        spec_write_fixed(s, v)
    }

    fn try_encode(&self, out: &mut EncBuf<'_>) -> (r: Result<(), Error>) {
        out.write_exact(self.data)
    }
}
/// `UncompressedPointRepresentation` for the NIST P-384 curve.
#[derive(Copy, Clone, Debug)]
pub struct Secp384r1<'a> {
    data: &'a [u8],
}

impl<'a> View for Secp384r1<'a> {
    type V = Seq<u8>;

    closed spec fn view(&self) -> Seq<u8> {
        self.data@
    }
}

impl<'a> Secp384r1<'a> {
    #[verifier::type_invariant]
    closed spec fn inv(self) -> bool {
        self.data@.len() == 97 && self.data@[0] == 4
    }

    /// Returns the underlying data in the form `0x4 || x || y`.
    pub fn data(&self) -> (r: &[u8])
        ensures
            r@ == self@,
            r@.len() == 97,
    {
        proof {
            use_type_invariant(self);
        }
        self.data
    }

    /// Returns the public key ((x, y) coordinates).
    pub fn pk(&self) -> (r: (&[u8], &[u8]))
        ensures
            r.0@ == self@.subrange(1, 49),
            r.1@ == self@.subrange(49, 97),
    {
        proof {
            use_type_invariant(self);
        }
        let (_, rest) = split_prefix(self.data, 1);
        let (x, y) = split_prefix(rest, 48);
        proof {
            assert(x@ =~= self@.subrange(1, 49));
            assert(y@ =~= self@.subrange(49, 97));
        }
        (x, y)
    }
}

impl<'a> Object for Secp384r1<'a> {
    open spec fn spec_size() -> (nat, nat) {
        (97, 97)
    }

    fn size() -> (r: Size) {
        Size::new(97, 97)
    }
}

impl<'a> TryParse<'a> for Secp384r1<'a> {
    open spec fn spec_parse(data: Seq<u8>) -> ParseOutcome<Seq<u8>> {
        if data.len() < 97 {
            Err(Alert::spec_decode_error())
        } else if data[0] != 4 {
            Err(Alert::spec_illegal_parameter())
        } else {
            Ok((data.take(97), 97))
        }
    }

    open spec fn spec_skip(data: Seq<u8>) -> Result<nat, Alert> {
        match Self::spec_parse(data) {
            Ok((_, n)) => Ok(n),
            Err(a) => Err(a),
        }
    }

    proof fn lemma_parse_bounds(data: Seq<u8>) {
    }

    fn try_parse(data: &'a [u8]) -> (r: Result<(Secp384r1<'a>, &'a [u8]), Error>) {
        if data.len() < 97 {
            return Err(Error::unexpected_eof());
        }
        let (head, rest) = split_prefix(data, 97);
        if head[0] != 0x4 {
            return Err(Error::illegal_parameter("invalid constant"));
        }
        Ok((Self { data: head }, rest))
    }

    fn try_skip(data: &'a [u8]) -> (r: Result<&'a [u8], Error>) {
        match Self::try_parse(data) {
            Ok((_, rest)) => Ok(rest),
            Err(e) => Err(e),
        }
    }
}

impl<'a> TryEncode for Secp384r1<'a> {
    open spec fn spec_encode(v: Seq<u8>, s: EncState) -> (EncState, Result<(), Alert>) {
        spec_write_fixed(s, v)
    }

    fn try_encode(&self, out: &mut EncBuf<'_>) -> (r: Result<(), Error>) {
        out.write_exact(self.data)
    }
}
/// `UncompressedPointRepresentation` for the NIST P-521 curve.
#[derive(Copy, Clone, Debug)]
pub struct Secp521r1<'a> {
    data: &'a [u8],
}

impl<'a> View for Secp521r1<'a> {
    type V = Seq<u8>;

    closed spec fn view(&self) -> Seq<u8> {
        self.data@
    }
}

impl<'a> Secp521r1<'a> {
    #[verifier::type_invariant]
    closed spec fn inv(self) -> bool {
        self.data@.len() == 133 && self.data@[0] == 4
    }

    /// Returns the underlying data in the form `0x4 || x || y`.
    pub fn data(&self) -> (r: &[u8])
        ensures
            r@ == self@,
            r@.len() == 133,
    {
        proof {
            use_type_invariant(self);
        }
        self.data
    }

    /// Returns the public key ((x, y) coordinates).
    pub fn pk(&self) -> (r: (&[u8], &[u8]))
        ensures
            r.0@ == self@.subrange(1, 67),
            r.1@ == self@.subrange(67, 133),
    {
        proof {
            use_type_invariant(self);
        }
        let (_, rest) = split_prefix(self.data, 1);
        let (x, y) = split_prefix(rest, 66);
        proof {
            assert(x@ =~= self@.subrange(1, 67));
            assert(y@ =~= self@.subrange(67, 133));
        }
        (x, y)
    }
}

impl<'a> Object for Secp521r1<'a> {
    open spec fn spec_size() -> (nat, nat) {
        (133, 133)
    }

    fn size() -> (r: Size) {
        Size::new(133, 133)
    }
}

impl<'a> TryParse<'a> for Secp521r1<'a> {
    open spec fn spec_parse(data: Seq<u8>) -> ParseOutcome<Seq<u8>> {
        if data.len() < 133 {
            Err(Alert::spec_decode_error())
        } else if data[0] != 4 {
            Err(Alert::spec_illegal_parameter())
        } else {
            Ok((data.take(133), 133))
        }
    }

    open spec fn spec_skip(data: Seq<u8>) -> Result<nat, Alert> {
        match Self::spec_parse(data) {
            Ok((_, n)) => Ok(n),
            Err(a) => Err(a),
        }
    }

    proof fn lemma_parse_bounds(data: Seq<u8>) {
    }

    fn try_parse(data: &'a [u8]) -> (r: Result<(Secp521r1<'a>, &'a [u8]), Error>) {
        if data.len() < 133 {
            return Err(Error::unexpected_eof());
        }
        let (head, rest) = split_prefix(data, 133);
        if head[0] != 0x4 {
            return Err(Error::illegal_parameter("invalid constant"));
        }
        Ok((Self { data: head }, rest))
    }

    fn try_skip(data: &'a [u8]) -> (r: Result<&'a [u8], Error>) {
        match Self::try_parse(data) {
            Ok((_, rest)) => Ok(rest),
            Err(e) => Err(e),
        }
    }
}

impl<'a> TryEncode for Secp521r1<'a> {
    open spec fn spec_encode(v: Seq<u8>, s: EncState) -> (EncState, Result<(), Alert>) {
        spec_write_fixed(s, v)
    }

    fn try_encode(&self, out: &mut EncBuf<'_>) -> (r: Result<(), Error>) {
        out.write_exact(self.data)
    }
}
/// `UncompressedPointRepresentation` for the X25519 curve.
#[derive(Copy, Clone, Debug)]
pub struct X25519<'a> {
    pk: &'a [u8],
}

impl<'a> View for X25519<'a> {
    type V = Seq<u8>;

    closed spec fn view(&self) -> Seq<u8> {
        self.pk@
    }
}

impl<'a> X25519<'a> {
    #[verifier::type_invariant]
    closed spec fn inv(self) -> bool {
        self.pk@.len() == 32
    }

    /// Returns the underlying data.
    pub fn data(&self) -> (r: &[u8])
        ensures
            r@ == self@,
            r@.len() == 32,
    {
        proof {
            use_type_invariant(self);
        }
        self.pk
    }

    /// Returns the public key.
    pub fn pk(&self) -> (r: &[u8])
        ensures
            r@ == self@,
            r@.len() == 32,
    {
        self.data()
    }
}

impl<'a> Object for X25519<'a> {
    open spec fn spec_size() -> (nat, nat) {
        (32, 32)
    }

    fn size() -> (r: Size) {
        Size::new(32, 32)
    }
}

impl<'a> TryParse<'a> for X25519<'a> {
    open spec fn spec_parse(data: Seq<u8>) -> ParseOutcome<Seq<u8>> {
        if data.len() < 32 {
            Err(Alert::spec_decode_error())
        } else {
            Ok((data.take(32), 32))
        }
    }

    open spec fn spec_skip(data: Seq<u8>) -> Result<nat, Alert> {
        match Self::spec_parse(data) {
            Ok((_, n)) => Ok(n),
            Err(a) => Err(a),
        }
    }

    proof fn lemma_parse_bounds(data: Seq<u8>) {
    }

    fn try_parse(data: &'a [u8]) -> (r: Result<(X25519<'a>, &'a [u8]), Error>) {
        if data.len() < 32 {
            return Err(Error::unexpected_eof());
        }
        let (head, rest) = split_prefix(data, 32);
        Ok((Self { pk: head }, rest))
    }

    fn try_skip(data: &'a [u8]) -> (r: Result<&'a [u8], Error>) {
        match Self::try_parse(data) {
            Ok((_, rest)) => Ok(rest),
            Err(e) => Err(e),
        }
    }
}

impl<'a> TryEncode for X25519<'a> {
    open spec fn spec_encode(v: Seq<u8>, s: EncState) -> (EncState, Result<(), Alert>) {
        spec_write_fixed(s, v)
    }

    fn try_encode(&self, out: &mut EncBuf<'_>) -> (r: Result<(), Error>) {
        out.write_exact(self.pk)
    }
}
/// `UncompressedPointRepresentation` for the X448 curve.
#[derive(Copy, Clone, Debug)]
pub struct X448<'a> {
    pk: &'a [u8],
}

impl<'a> View for X448<'a> {
    type V = Seq<u8>;

    closed spec fn view(&self) -> Seq<u8> {
        self.pk@
    }
}

impl<'a> X448<'a> {
    #[verifier::type_invariant]
    closed spec fn inv(self) -> bool {
        self.pk@.len() == 56
    }

    /// Returns the underlying data.
    pub fn data(&self) -> (r: &[u8])
        ensures
            r@ == self@,
            r@.len() == 56,
    {
        proof {
            use_type_invariant(self);
        }
        self.pk
    }

    /// Returns the public key.
    pub fn pk(&self) -> (r: &[u8])
        ensures
            r@ == self@,
            r@.len() == 56,
    {
        self.data()
    }
}

impl<'a> Object for X448<'a> {
    open spec fn spec_size() -> (nat, nat) {
        (56, 56)
    }

    fn size() -> (r: Size) {
        Size::new(56, 56)
    }
}

impl<'a> TryParse<'a> for X448<'a> {
    open spec fn spec_parse(data: Seq<u8>) -> ParseOutcome<Seq<u8>> {
        if data.len() < 56 {
            Err(Alert::spec_decode_error())
        } else {
            Ok((data.take(56), 56))
        }
    }

    open spec fn spec_skip(data: Seq<u8>) -> Result<nat, Alert> {
        match Self::spec_parse(data) {
            Ok((_, n)) => Ok(n),
            Err(a) => Err(a),
        }
    }

    proof fn lemma_parse_bounds(data: Seq<u8>) {
    }

    fn try_parse(data: &'a [u8]) -> (r: Result<(X448<'a>, &'a [u8]), Error>) {
        if data.len() < 56 {
            return Err(Error::unexpected_eof());
        }
        let (head, rest) = split_prefix(data, 56);
        Ok((Self { pk: head }, rest))
    }

    fn try_skip(data: &'a [u8]) -> (r: Result<&'a [u8], Error>) {
        match Self::try_parse(data) {
            Ok((_, rest)) => Ok(rest),
            Err(e) => Err(e),
        }
    }
}

impl<'a> TryEncode for X448<'a> {
    open spec fn spec_encode(v: Seq<u8>, s: EncState) -> (EncState, Result<(), Alert>) {
        spec_write_fixed(s, v)
    }

    fn try_encode(&self, out: &mut EncBuf<'_>) -> (r: Result<(), Error>) {
        out.write_exact(self.pk)
    }
}

} // verus!

verus! {

/// The key exchange data that a key share of a named group on the wire
/// (RFC 8446, section 4.2.8.2) holds: an uncompressed point of 65, 97 or
/// 133 bytes starting with 4 for secp256r1 (0x0017), secp384r1 (0x0018)
/// and secp521r1 (0x0019), and 32 or 56 bytes for x25519 (0x001d) and
/// x448 (0x001e). A share of one of these codes is accepted exactly when
/// its data has that form, and then keeps its group and its data.
pub proof fn lemma_key_share_point_sizes(code: u16, kex: Seq<u8>)
    ensures
        code == 0x0017 ==> (spec_key_share_from(NamedGroup::spec_from_repr(code), kex) is Ok
            <==> kex.len() == 65 && kex[0] == 4),
        code == 0x0018 ==> (spec_key_share_from(NamedGroup::spec_from_repr(code), kex) is Ok
            <==> kex.len() == 97 && kex[0] == 4),
        code == 0x0019 ==> (spec_key_share_from(NamedGroup::spec_from_repr(code), kex) is Ok
            <==> kex.len() == 133 && kex[0] == 4),
        code == 0x001d ==> (spec_key_share_from(NamedGroup::spec_from_repr(code), kex) is Ok
            <==> kex.len() == 32),
        code == 0x001e ==> (spec_key_share_from(NamedGroup::spec_from_repr(code), kex) is Ok
            <==> kex.len() == 56),
        spec_key_share_from(NamedGroup::spec_from_repr(code), kex) matches Ok(v) ==> v == (
            NamedGroup::spec_from_repr(code),
            kex,
        ),
        NamedGroup::spec_from_repr(code).spec_to_repr() == code,
{
    assert(kex.take(kex.len() as int) =~= kex);
}

} // verus!
