//! `pre_shared_key` and `psk_key_exchange_modes` extensions.

use core::convert::Infallible;

use vstd::prelude::*;

use crate::{
    util::Sensitive,
    wire::{
        alert::Alert,
        encode::{EncBuf, EncState, TryEncode},
        error::Error,
        parse::{ParseOutcome, TryParse},
        size::{Object, Size},
        types::{opaque, uint32},
        vec::{spec_iter_items, Iter, Vector},
    },
};

verus! {

/// A `PskIdentity`.
#[derive(Copy, Clone, Debug)]
pub struct PskIdentity<'a> {
    pub identity: Vector<'a, opaque, 1, 65535>,
    pub obfuscated_ticket_age: uint32,
}

impl<'a> View for PskIdentity<'a> {
    type V = (Seq<u8>, u32);

    open spec fn view(&self) -> (Seq<u8>, u32) {
        (self.identity@, self.obfuscated_ticket_age@)
    }
}

impl<'a> Object for PskIdentity<'a> {
    open spec fn spec_size() -> (nat, nat) {
        (<Vector<'a, opaque, 1, 65535> as Object>::spec_size().0 + <uint32 as Object>::spec_size().0, <Vector<'a, opaque, 1, 65535> as Object>::spec_size().1 + <uint32 as Object>::spec_size().1)
    }

    fn size() -> (r: Size) {
        Size::new(5, 65539)
    }
}

impl<'de: 'a, 'a> TryParse<'de> for PskIdentity<'a> {
    open spec fn spec_parse(data: Seq<u8>) -> ParseOutcome<(Seq<u8>, u32)> {
        match <Vector<'a, opaque, 1, 65535> as TryParse<'de>>::spec_parse(data) {
            Ok((v0, n0)) => {
                match <uint32 as TryParse<'de>>::spec_parse(data.skip((n0) as int)) {
                    Ok((v1, n1)) => {
                        Ok(((v0, v1), (n0 + n1) as nat))
                    },
                    Err(a) => Err(a),
                }
            },
            Err(a) => Err(a),
        }
    }

    open spec fn spec_skip(data: Seq<u8>) -> Result<nat, Alert> {
        match <Vector<'a, opaque, 1, 65535> as TryParse<'de>>::spec_skip(data) {
            Ok(n0) => {
                match <uint32 as TryParse<'de>>::spec_skip(data.skip((n0) as int)) {
                    Ok(n1) => {
                        Ok((n0 + n1) as nat)
                    },
                    Err(a) => Err(a),
                }
            },
            Err(a) => Err(a),
        }
    }

    proof fn lemma_parse_bounds(data: Seq<u8>) {
        <Vector<'a, opaque, 1, 65535> as TryParse<'de>>::lemma_parse_bounds(data);
        if let Ok((_, n0)) = <Vector<'a, opaque, 1, 65535> as TryParse<'de>>::spec_parse(data) {
            <uint32 as TryParse<'de>>::lemma_parse_bounds(data.skip((n0) as int));
        }
        <Vector<'a, opaque, 1, 65535> as TryParse<'de>>::lemma_parse_bounds(data);
        if let Ok(n0) = <Vector<'a, opaque, 1, 65535> as TryParse<'de>>::spec_skip(data) {
            <uint32 as TryParse<'de>>::lemma_parse_bounds(data.skip((n0) as int));
        }
    }

    fn try_parse(data: &'de [u8]) -> (r: Result<(PskIdentity<'a>, &'de [u8]), Error>) {
        let (identity, rest0) = match <Vector<'a, opaque, 1, 65535> as TryParse<'de>>::try_parse(data) {
            Ok(x) => x,
            Err(e) => return Err(e),
        };
        proof {
            assert(rest0@ =~= data@.skip((data@.len() - rest0@.len()) as int));
        }
        let (obfuscated_ticket_age, rest1) = match <uint32 as TryParse<'de>>::try_parse(rest0) {
            Ok(x) => x,
            Err(e) => return Err(e),
        };
        proof {
            assert(rest1@ =~= data@.skip((data@.len() - rest1@.len()) as int));
        }
        Ok((PskIdentity { identity, obfuscated_ticket_age }, rest1))
    }

    fn try_skip(data: &'de [u8]) -> (r: Result<&'de [u8], Error>) {
        let rest0 = match <Vector<'a, opaque, 1, 65535> as TryParse<'de>>::try_skip(data) {
            Ok(x) => x,
            Err(e) => return Err(e),
        };
        proof {
            assert(rest0@ =~= data@.skip((data@.len() - rest0@.len()) as int));
        }
        let rest1 = match <uint32 as TryParse<'de>>::try_skip(rest0) {
            Ok(x) => x,
            Err(e) => return Err(e),
        };
        proof {
            assert(rest1@ =~= data@.skip((data@.len() - rest1@.len()) as int));
        }
        Ok(rest1)
    }
}

impl<'a> TryEncode for PskIdentity<'a> {
    open spec fn spec_encode(v: (Seq<u8>, u32), s: EncState) -> (EncState, Result<(), Alert>) {
        let (s0, r0) = <Vector<'a, opaque, 1, 65535> as TryEncode>::spec_encode(v.0, s);
        match r0 {
            Ok(()) => {
                <uint32 as TryEncode>::spec_encode(v.1, s0)
            },
            Err(a) => (s0, Err(a)),
        }
    }

    fn try_encode(&self, out: &mut EncBuf<'_>) -> (r: Result<(), Error>) {
        match self.identity.try_encode(out) {
            Ok(()) => {},
            Err(e) => return Err(e),
        }
        self.obfuscated_ticket_age.try_encode(out)
    }
}
impl<'a> PskIdentity<'a> {
    /// Returns the identity.
    pub fn identity(&self) -> (r: Sensitive<'_>)
        ensures
            r@ == self.identity@,
    {
        // It isn't necessary to compare identities in constant time
        // since they are not secret. However, it can help prevent
        // clients from enumerating the PSK identities stored on a
        // server.
        Sensitive::new(self.identity.as_slice())
    }

    /// Returns the obfuscated ticket age.
    pub fn obfuscated_ticket_age(&self) -> (r: u32)
        ensures
            r == self.obfuscated_ticket_age,
    {
        self.obfuscated_ticket_age
    }
}

/// A `PskBinderEntry`.
pub type PskBinderEntry<'a> = Vector<'a, opaque, 32, 255>;

/// The wire form of `OfferedPsks`.
#[derive(Copy, Clone, Debug)]
pub struct OfferedPsksRepr<'a> {
    pub identities: Vector<'a, PskIdentity<'a>, 7, 65535>,
    pub binders: Vector<'a, PskBinderEntry<'a>, 33, 65535>,
}

impl<'a> View for OfferedPsksRepr<'a> {
    type V = (Seq<u8>, Seq<u8>);

    open spec fn view(&self) -> (Seq<u8>, Seq<u8>) {
        (self.identities@, self.binders@)
    }
}

impl<'a> Object for OfferedPsksRepr<'a> {
    open spec fn spec_size() -> (nat, nat) {
        (<Vector<'a, PskIdentity<'a>, 7, 65535> as Object>::spec_size().0 + <Vector<'a, PskBinderEntry<'a>, 33, 65535> as Object>::spec_size().0, <Vector<'a, PskIdentity<'a>, 7, 65535> as Object>::spec_size().1 + <Vector<'a, PskBinderEntry<'a>, 33, 65535> as Object>::spec_size().1)
    }

    fn size() -> (r: Size) {
        Size::new(40, 131070)
    }
}

impl<'de: 'a, 'a> TryParse<'de> for OfferedPsksRepr<'a> {
    open spec fn spec_parse(data: Seq<u8>) -> ParseOutcome<(Seq<u8>, Seq<u8>)> {
        match <Vector<'a, PskIdentity<'a>, 7, 65535> as TryParse<'de>>::spec_parse(data) {
            Ok((v0, n0)) => {
                match <Vector<'a, PskBinderEntry<'a>, 33, 65535> as TryParse<'de>>::spec_parse(data.skip((n0) as int)) {
                    Ok((v1, n1)) => {
                        Ok(((v0, v1), (n0 + n1) as nat))
                    },
                    Err(a) => Err(a),
                }
            },
            Err(a) => Err(a),
        }
    }

    open spec fn spec_skip(data: Seq<u8>) -> Result<nat, Alert> {
        match <Vector<'a, PskIdentity<'a>, 7, 65535> as TryParse<'de>>::spec_skip(data) {
            Ok(n0) => {
                match <Vector<'a, PskBinderEntry<'a>, 33, 65535> as TryParse<'de>>::spec_skip(data.skip((n0) as int)) {
                    Ok(n1) => {
                        Ok((n0 + n1) as nat)
                    },
                    Err(a) => Err(a),
                }
            },
            Err(a) => Err(a),
        }
    }

    proof fn lemma_parse_bounds(data: Seq<u8>) {
        <Vector<'a, PskIdentity<'a>, 7, 65535> as TryParse<'de>>::lemma_parse_bounds(data);
        if let Ok((_, n0)) = <Vector<'a, PskIdentity<'a>, 7, 65535> as TryParse<'de>>::spec_parse(data) {
            <Vector<'a, PskBinderEntry<'a>, 33, 65535> as TryParse<'de>>::lemma_parse_bounds(data.skip((n0) as int));
        }
        <Vector<'a, PskIdentity<'a>, 7, 65535> as TryParse<'de>>::lemma_parse_bounds(data);
        if let Ok(n0) = <Vector<'a, PskIdentity<'a>, 7, 65535> as TryParse<'de>>::spec_skip(data) {
            <Vector<'a, PskBinderEntry<'a>, 33, 65535> as TryParse<'de>>::lemma_parse_bounds(data.skip((n0) as int));
        }
    }

    fn try_parse(data: &'de [u8]) -> (r: Result<(OfferedPsksRepr<'a>, &'de [u8]), Error>) {
        let (identities, rest0) = match <Vector<'a, PskIdentity<'a>, 7, 65535> as TryParse<'de>>::try_parse(data) {
            Ok(x) => x,
            Err(e) => return Err(e),
        };
        proof {
            assert(rest0@ =~= data@.skip((data@.len() - rest0@.len()) as int));
        }
        let (binders, rest1) = match <Vector<'a, PskBinderEntry<'a>, 33, 65535> as TryParse<'de>>::try_parse(rest0) {
            Ok(x) => x,
            Err(e) => return Err(e),
        };
        proof {
            assert(rest1@ =~= data@.skip((data@.len() - rest1@.len()) as int));
        }
        Ok((OfferedPsksRepr { identities, binders }, rest1))
    }

    fn try_skip(data: &'de [u8]) -> (r: Result<&'de [u8], Error>) {
        let rest0 = match <Vector<'a, PskIdentity<'a>, 7, 65535> as TryParse<'de>>::try_skip(data) {
            Ok(x) => x,
            Err(e) => return Err(e),
        };
        proof {
            assert(rest0@ =~= data@.skip((data@.len() - rest0@.len()) as int));
        }
        let rest1 = match <Vector<'a, PskBinderEntry<'a>, 33, 65535> as TryParse<'de>>::try_skip(rest0) {
            Ok(x) => x,
            Err(e) => return Err(e),
        };
        proof {
            assert(rest1@ =~= data@.skip((data@.len() - rest1@.len()) as int));
        }
        Ok(rest1)
    }
}

impl<'a> TryEncode for OfferedPsksRepr<'a> {
    open spec fn spec_encode(v: (Seq<u8>, Seq<u8>), s: EncState) -> (EncState, Result<(), Alert>) {
        let (s0, r0) = <Vector<'a, PskIdentity<'a>, 7, 65535> as TryEncode>::spec_encode(v.0, s);
        match r0 {
            Ok(()) => {
                <Vector<'a, PskBinderEntry<'a>, 33, 65535> as TryEncode>::spec_encode(v.1, s0)
            },
            Err(a) => (s0, Err(a)),
        }
    }

    fn try_encode(&self, out: &mut EncBuf<'_>) -> (r: Result<(), Error>) {
        match self.identities.try_encode(out) {
            Ok(()) => {},
            Err(e) => return Err(e),
        }
        self.binders.try_encode(out)
    }
}
/// `OfferedPsks`: the identities and binders of the `pre_shared_key`
/// extension, one binder for each identity.
#[derive(Copy, Clone, Debug)]
pub struct OfferedPsksList<'a> {
    repr: OfferedPsksRepr<'a>,
}

impl<'a> View for OfferedPsksList<'a> {
    type V = (Seq<u8>, Seq<u8>);

    closed spec fn view(&self) -> (Seq<u8>, Seq<u8>) {
        self.repr@
    }
}

impl<'a> OfferedPsksList<'a> {
    /// Returns an iterator over the [`PskIdentity`] and
    /// [`PskBinderEntry`] pairs.
    pub fn iter(&self) -> (r: OfferedPsks<'_>)
        ensures
            r@ == self@,
    {
        OfferedPsks::new(self.repr.identities.into_iter(), self.repr.binders.into_iter())
    }

    /// Turns the list into an iterator over the [`PskIdentity`] and
    /// [`PskBinderEntry`] pairs.
    pub fn into_iter(self) -> (r: OfferedPsks<'a>)
        ensures
            r@ == self@,
    {
        OfferedPsks::new(self.repr.identities.into_iter(), self.repr.binders.into_iter())
    }
}

impl<'a> Object for OfferedPsksList<'a> {
    open spec fn spec_size() -> (nat, nat) {
        <OfferedPsksRepr<'a> as Object>::spec_size()
    }

    fn size() -> (r: Size) {
        OfferedPsksRepr::size()
    }
}

impl<'de: 'a, 'a> TryParse<'de> for OfferedPsksList<'a> {
    open spec fn spec_parse(data: Seq<u8>) -> ParseOutcome<(Seq<u8>, Seq<u8>)> {
        match <OfferedPsksRepr<'a> as TryParse<'de>>::spec_parse(data) {
            Ok(((ids, binders), n)) => if spec_iter_items::<'a, PskIdentity<'a>>(ids).len()
                != spec_iter_items::<'a, PskBinderEntry<'a>>(binders).len() {
                Err(Alert::spec_illegal_parameter())
            } else {
                Ok(((ids, binders), n))
            },
            Err(a) => Err(a),
        }
    }

    open spec fn spec_skip(data: Seq<u8>) -> Result<nat, Alert> {
        match Self::spec_parse(data) {
            Ok((_, n)) => Ok(n),
            Err(a) => Err(a),
        }
    }

    proof fn lemma_parse_bounds(data: Seq<u8>) {
        <OfferedPsksRepr<'a> as TryParse<'de>>::lemma_parse_bounds(data);
    }

    fn try_parse(data: &'de [u8]) -> (r: Result<(OfferedPsksList<'a>, &'de [u8]), Error>) {
        let (repr, rest) = match OfferedPsksRepr::try_parse(data) {
            Ok(x) => x,
            Err(e) => return Err(e),
        };
        if repr.identities.into_iter().count() != repr.binders.into_iter().count() {
            return Err(Error::illegal_parameter("mismatched lengths"));
        }
        Ok((Self { repr }, rest))
    }

    fn try_skip(data: &'de [u8]) -> (r: Result<&'de [u8], Error>) {
        match Self::try_parse(data) {
            Ok((_, rest)) => Ok(rest),
            Err(e) => Err(e),
        }
    }
}

impl<'a> TryEncode for OfferedPsksList<'a> {
    open spec fn spec_encode(v: (Seq<u8>, Seq<u8>), s: EncState) -> (EncState, Result<(), Alert>) {
        <OfferedPsksRepr<'a> as TryEncode>::spec_encode(v, s)
    }

    fn try_encode(&self, out: &mut EncBuf<'_>) -> (r: Result<(), Error>) {
        self.repr.try_encode(out)
    }
}

/// The identity and binder pairs that an iterator over the identities
/// in `d.0` and the binders in `d.1` yields: the `i`th identity with the
/// `i`th binder, for as long as both last.
pub open spec fn spec_psk_pairs(d: (Seq<u8>, Seq<u8>)) -> Seq<((Seq<u8>, u32), Seq<u8>)> {
    let ids = spec_iter_items::<'static, PskIdentity<'static>>(d.0);
    let bs = spec_iter_items::<'static, PskBinderEntry<'static>>(d.1);
    let k = if ids.len() <= bs.len() {
        ids.len()
    } else {
        bs.len()
    };
    Seq::new(k, |i: int| (ids[i], bs[i]))
}

/// When there are as many identities as binders, which a parsed
/// `OfferedPsksList` ensures, the pairs are the `k` identities each with
/// its binder, in order.
pub proof fn lemma_psk_pairs(d: (Seq<u8>, Seq<u8>))
    requires
        spec_iter_items::<'static, PskIdentity<'static>>(d.0).len() == spec_iter_items::<
            'static,
            PskBinderEntry<'static>,
        >(d.1).len(),
    ensures
        spec_psk_pairs(d).len() == spec_iter_items::<'static, PskIdentity<'static>>(d.0).len(),
        forall|i: int|
            0 <= i < spec_psk_pairs(d).len() ==> #[trigger] spec_psk_pairs(d)[i] == (
                spec_iter_items::<'static, PskIdentity<'static>>(d.0)[i],
                spec_iter_items::<'static, PskBinderEntry<'static>>(d.1)[i],
            ),
{
}

/// An iterator over [`PskIdentity`] and [`PskBinderEntry`] pairs.
pub struct OfferedPsks<'a> {
    identities: Iter<'a, PskIdentity<'a>>,
    binders: Iter<'a, PskBinderEntry<'a>>,
}

impl<'a> View for OfferedPsks<'a> {
    type V = (Seq<u8>, Seq<u8>);

    closed spec fn view(&self) -> (Seq<u8>, Seq<u8>) {
        (self.identities@, self.binders@)
    }
}

impl<'a> OfferedPsks<'a> {
    fn new(identities: Iter<'a, PskIdentity<'a>>, binders: Iter<'a, PskBinderEntry<'a>>) -> (r:
        Self)
        ensures
            r@ == (identities@, binders@),
    {
        Self { identities, binders }
    }

    /// Returns the next identity and its binder, or `None` once either
    /// list is exhausted.
    pub fn next(&mut self) -> (r: Option<(PskIdentity<'a>, PskBinderEntry<'a>)>)
        ensures
            ({
                let ids = spec_iter_items::<'a, PskIdentity<'a>>(old(self)@.0);
                let bs = spec_iter_items::<'a, PskBinderEntry<'a>>(old(self)@.1);
                &&& ids.len() > 0 && bs.len() > 0 ==> (r matches Some((i, b)) && i@ == ids[0]
                    && b@ == bs[0])
                &&& (ids.len() == 0 || bs.len() == 0) ==> r is None
                &&& spec_iter_items::<'a, PskIdentity<'a>>(final(self)@.0) == (if ids.len() > 0 {
                    ids.drop_first()
                } else {
                    ids
                })
                &&& bs.len() > 0 && ids.len() > 0 ==> spec_iter_items::<'a, PskBinderEntry<'a>>(
                    final(self)@.1,
                ) == bs.drop_first()
                &&& ids.len() == 0 ==> final(self)@.1 == old(self)@.1
            }),
            spec_psk_pairs(old(self)@).len() > 0 ==> (r matches Some((i, b)) && (i@, b@)
                == spec_psk_pairs(old(self)@)[0]),
            spec_psk_pairs(old(self)@).len() > 0 ==> spec_psk_pairs(final(self)@) == spec_psk_pairs(
                old(self)@,
            ).drop_first(),
            spec_psk_pairs(old(self)@).len() == 0 ==> r is None,
    {
        let identity = match self.identities.next() {
            Some(x) => x,
            None => return None,
        };
        let binder = match self.binders.next() {
            Some(x) => x,
            None => return None,
        };
        Some((identity, binder))
    }
}

/// The `psk_key_exchange_modes` extension.
#[derive(Copy, Clone, Debug)]
pub struct PskKexModesList<'a> {
    data: Vector<'a, PskKexMode, 1, 255>,
}

impl<'a> View for PskKexModesList<'a> {
    type V = Seq<u8>;

    closed spec fn view(&self) -> Seq<u8> {
        self.data@
    }
}

impl<'a> PskKexModesList<'a> {
    /// Returns an iterator over the list's items.
    pub fn iter(&self) -> (r: Iter<'_, PskKexMode>)
        ensures
            r@ == self@,
    {
        self.data.iter()
    }

    /// Turns the list into an iterator over its items.
    pub fn into_iter(self) -> (r: Iter<'a, PskKexMode>)
        ensures
            r@ == self@,
    {
        Iter::new(self.data.into_slice())
    }
}

impl<'a> Object for PskKexModesList<'a> {
    open spec fn spec_size() -> (nat, nat) {
        (1, 255)
    }

    fn size() -> (r: Size) {
        Size::new(1, 255)
    }
}

impl<'de: 'a, 'a> TryParse<'de> for PskKexModesList<'a> {
    open spec fn spec_parse(data: Seq<u8>) -> ParseOutcome<Seq<u8>> {
        <Vector<'a, PskKexMode, 1, 255> as TryParse<'de>>::spec_parse(data)
    }

    open spec fn spec_skip(data: Seq<u8>) -> Result<nat, Alert> {
        <Vector<'a, PskKexMode, 1, 255> as TryParse<'de>>::spec_skip(data)
    }

    proof fn lemma_parse_bounds(data: Seq<u8>) {
        <Vector<'a, PskKexMode, 1, 255> as TryParse<'de>>::lemma_parse_bounds(data);
    }

    fn try_parse(data: &'de [u8]) -> (r: Result<(PskKexModesList<'a>, &'de [u8]), Error>) {
        match <Vector<'a, PskKexMode, 1, 255> as TryParse<'de>>::try_parse(data) {
            Ok((data, rest)) => Ok((Self { data }, rest)),
            Err(e) => Err(e),
        }
    }

    fn try_skip(data: &'de [u8]) -> (r: Result<&'de [u8], Error>) {
        <Vector<'a, PskKexMode, 1, 255> as TryParse<'de>>::try_skip(data)
    }
}

impl<'a> TryEncode for PskKexModesList<'a> {
    open spec fn spec_encode(v: Seq<u8>, s: EncState) -> (EncState, Result<(), Alert>) {
        <Vector<'a, PskKexMode, 1, 255> as TryEncode>::spec_encode(v, s)
    }

    fn try_encode(&self, out: &mut EncBuf<'_>) -> (r: Result<(), Error>) {
        self.data.try_encode(out)
    }
}
/// A `PskKeyExchangeMode`.
#[derive(Copy, Clone, Debug, PartialEq, Eq, Structural)]
pub enum PskKexMode {
    Psk,
    DhePsk,
    /// An unrecognized value.
    Unknown(u8),
}

impl View for PskKexMode {
    type V = PskKexMode;

    open spec fn view(&self) -> PskKexMode {
        *self
    }
}

impl PskKexMode {
    /// The wire code of each variant, as the registry assigns it, and
    /// the variant that each of these codes is read as.
    pub proof fn lemma_wire_codes()
        ensures
            PskKexMode::Psk.spec_to_repr() == 0,
            PskKexMode::spec_from_repr(0) == PskKexMode::Psk,
            PskKexMode::DhePsk.spec_to_repr() == 1,
            PskKexMode::spec_from_repr(1) == PskKexMode::DhePsk,
    {
    }

    /// The value that stands for the enumeration on the wire.
    pub open spec fn spec_to_repr(self) -> u8 {
        match self {
            PskKexMode::Psk => 0,
            PskKexMode::DhePsk => 1,
            PskKexMode::Unknown(v) => v,
        }
    }

    /// The enumeration that a wire value stands for.
    pub open spec fn spec_from_repr(repr: u8) -> PskKexMode {
        match repr {
            0 => PskKexMode::Psk,
            1 => PskKexMode::DhePsk,
            _ => PskKexMode::Unknown(repr),
        }
    }

    /// A value is canonical unless it is `Unknown` with a recognized
    /// value.
    pub open spec fn is_canonical(self) -> bool {
        self is Unknown ==> PskKexMode::spec_from_repr(self.spec_to_repr()) is Unknown
    }

    /// The name of the enumeration's variant.
    pub open spec fn spec_name(self) -> Seq<char> {
        match self {
            PskKexMode::Psk => "Psk"@,
            PskKexMode::DhePsk => "DhePsk"@,
            PskKexMode::Unknown(_) => "unknown"@,
        }
    }

    /// Returns the enumeration as a string.
    pub fn to_str(self) -> (r: &'static str)
        ensures
            r@ == self.spec_name(),
    {
        match self {
            PskKexMode::Psk => "Psk",
            PskKexMode::DhePsk => "DhePsk",
            PskKexMode::Unknown(_) => "unknown",
        }
    }

    /// Converts the enumeration to its repr.
    pub fn to_repr(self) -> (r: u8)
        ensures
            r == self.spec_to_repr(),
    {
        match self {
            PskKexMode::Psk => 0,
            PskKexMode::DhePsk => 1,
            PskKexMode::Unknown(v) => v,
        }
    }

    /// Attempts to create the enumeration from its repr.
    pub fn try_from_repr(repr: u8) -> (r: Result<PskKexMode, Infallible>)
        ensures
            r == Ok::<PskKexMode, Infallible>(PskKexMode::spec_from_repr(repr)),
    {
        let v = match repr {
            0 => PskKexMode::Psk,
            1 => PskKexMode::DhePsk,
            _ => PskKexMode::Unknown(repr),
        };
        Ok(v)
    }

    /// Reading back the wire value of an enumeration gives the
    /// same wire value.
    pub proof fn lemma_repr_roundtrip(repr: u8)
        ensures
            PskKexMode::spec_from_repr(repr).spec_to_repr() == repr,
            PskKexMode::spec_from_repr(repr).is_canonical(),
    {
    }

    /// A canonical enumeration is given back by the wire value it
    /// stands for.
    pub proof fn lemma_value_roundtrip(v: PskKexMode)
        requires
            v.is_canonical(),
        ensures
            PskKexMode::spec_from_repr(v.spec_to_repr()) == v,
    {
    }
}

impl Object for PskKexMode {
    open spec fn spec_size() -> (nat, nat) {
        (1, 1)
    }

    fn size() -> (r: Size) {
        u8::size()
    }
}

impl<'de> TryParse<'de> for PskKexMode {
    open spec fn spec_parse(data: Seq<u8>) -> Result<(PskKexMode, nat), Alert> {
        match <u8 as TryParse<'de>>::spec_parse(data) {
            Ok((repr, n)) => Ok((PskKexMode::spec_from_repr(repr), n)),
            Err(a) => Err(a),
        }
    }

    open spec fn spec_skip(data: Seq<u8>) -> Result<nat, Alert> {
        match Self::spec_parse(data) {
            Ok((_, n)) => Ok(n),
            Err(a) => Err(a),
        }
    }

    proof fn lemma_parse_bounds(data: Seq<u8>) {
        <u8 as TryParse<'de>>::lemma_parse_bounds(data);
    }

    fn try_parse(data: &'de [u8]) -> (r: Result<(PskKexMode, &'de [u8]), Error>) {
        let (repr, rest) = match <u8 as TryParse<'de>>::try_parse(data) {
            Ok(x) => x,
            Err(e) => return Err(e),
        };
        let v = match PskKexMode::try_from_repr(repr) {
            Ok(v) => v,
            Err(_) => PskKexMode::Unknown(repr),
        };
        Ok((v, rest))
    }

    fn try_skip(data: &'de [u8]) -> (r: Result<&'de [u8], Error>) {
        match Self::try_parse(data) {
            Ok((_, rest)) => Ok(rest),
            Err(e) => Err(e),
        }
    }
}

impl TryEncode for PskKexMode {
    open spec fn spec_encode(v: Self::V, s: (Seq<u8>, nat)) -> ((Seq<u8>, nat), Result<(), Alert>) {
        <u8 as TryEncode>::spec_encode(v.spec_to_repr(), s)
    }

    fn try_encode(&self, out: &mut EncBuf<'_>) -> (r: Result<(), Error>) {
        self.to_repr().try_encode(out)
    }
}

} // verus!
