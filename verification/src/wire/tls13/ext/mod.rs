//! Extensions.

mod groups;
mod key_share;
mod psk;

use vstd::prelude::*;

pub use groups::{NamedGroup, NamedGroupList};
pub use key_share::{
    spec_key_share_from, KeyShare, KeyShareClientHello, KeyShareEntry, KeyShareHelloRetryRequest, KeyShareServerHello,
    Secp256r1, Secp384r1, Secp521r1, X25519, X448,
};
pub use psk::{
    OfferedPsks, OfferedPsksList, PskBinderEntry, PskIdentity, PskKexMode, PskKexModesList,
};

use crate::{
    util::ct_eq_bytes,
    wire::{
        alert::Alert,
        encode::{EncBuf, EncState, TryEncode},
        error::Error,
        parse::{ParseOutcome, TryParse},
        size::{Object, Size},
        types::opaque,
        vec::{Iter, Vector},
        ProtocolVersion,
    },
};

verus! {

/// The `cookie` extension.
#[derive(Copy, Clone, Debug)]
pub struct Cookie<'a> {
    pub cookie: Vector<'a, opaque, 1, 65535>,
}

impl<'a> View for Cookie<'a> {
    type V = Seq<u8>;

    open spec fn view(&self) -> Seq<u8> {
        self.cookie@
    }
}

impl<'a> Object for Cookie<'a> {
    open spec fn spec_size() -> (nat, nat) {
        (<Vector<'a, opaque, 1, 65535> as Object>::spec_size().0, <Vector<'a, opaque, 1, 65535> as Object>::spec_size().1)
    }

    fn size() -> (r: Size) {
        Size::new(1, 65535)
    }
}

impl<'de: 'a, 'a> TryParse<'de> for Cookie<'a> {
    open spec fn spec_parse(data: Seq<u8>) -> ParseOutcome<Seq<u8>> {
        match <Vector<'a, opaque, 1, 65535> as TryParse<'de>>::spec_parse(data) {
            Ok((v0, n0)) => {
                Ok((v0, (n0) as nat))
            },
            Err(a) => Err(a),
        }
    }

    open spec fn spec_skip(data: Seq<u8>) -> Result<nat, Alert> {
        match <Vector<'a, opaque, 1, 65535> as TryParse<'de>>::spec_skip(data) {
            Ok(n0) => {
                Ok((n0) as nat)
            },
            Err(a) => Err(a),
        }
    }

    proof fn lemma_parse_bounds(data: Seq<u8>) {
        <Vector<'a, opaque, 1, 65535> as TryParse<'de>>::lemma_parse_bounds(data);
        <Vector<'a, opaque, 1, 65535> as TryParse<'de>>::lemma_parse_bounds(data);
    }

    fn try_parse(data: &'de [u8]) -> (r: Result<(Cookie<'a>, &'de [u8]), Error>) {
        let (cookie, rest0) = match <Vector<'a, opaque, 1, 65535> as TryParse<'de>>::try_parse(data) {
            Ok(x) => x,
            Err(e) => return Err(e),
        };
        proof {
            assert(rest0@ =~= data@.skip((data@.len() - rest0@.len()) as int));
        }
        Ok((Cookie { cookie }, rest0))
    }

    fn try_skip(data: &'de [u8]) -> (r: Result<&'de [u8], Error>) {
        let rest0 = match <Vector<'a, opaque, 1, 65535> as TryParse<'de>>::try_skip(data) {
            Ok(x) => x,
            Err(e) => return Err(e),
        };
        proof {
            assert(rest0@ =~= data@.skip((data@.len() - rest0@.len()) as int));
        }
        Ok(rest0)
    }
}

impl<'a> TryEncode for Cookie<'a> {
    open spec fn spec_encode(v: Seq<u8>, s: EncState) -> (EncState, Result<(), Alert>) {
        <Vector<'a, opaque, 1, 65535> as TryEncode>::spec_encode(v, s)
    }

    fn try_encode(&self, out: &mut EncBuf<'_>) -> (r: Result<(), Error>) {
        self.cookie.try_encode(out)
    }
}
impl<'a> Cookie<'a> {
    /// Reports in constant time whether two cookies are equal.
    pub fn ct_eq(&self, other: &Self) -> (r: bool)
        ensures
            r == (self@ == other@),
    {
        ct_eq_bytes(self.cookie.as_slice(), other.cookie.as_slice())
    }
}

/// The `supported_versions` extension from the `ClientHello`.
#[derive(Copy, Clone, Debug)]
pub struct SupportedVersionsList<'a> {
    data: Vector<'a, ProtocolVersion, 2, 254>,
}

impl<'a> View for SupportedVersionsList<'a> {
    type V = Seq<u8>;

    closed spec fn view(&self) -> Seq<u8> {
        self.data@
    }
}

impl<'a> SupportedVersionsList<'a> {
    /// Returns an iterator over the list's items.
    pub fn iter(&self) -> (r: Iter<'_, ProtocolVersion>)
        ensures
            r@ == self@,
    {
        self.data.iter()
    }

    /// Turns the list into an iterator over its items.
    pub fn into_iter(self) -> (r: Iter<'a, ProtocolVersion>)
        ensures
            r@ == self@,
    {
        Iter::new(self.data.into_slice())
    }
}

impl<'a> Object for SupportedVersionsList<'a> {
    open spec fn spec_size() -> (nat, nat) {
        (2, 254)
    }

    fn size() -> (r: Size) {
        Size::new(2, 254)
    }
}

impl<'de: 'a, 'a> TryParse<'de> for SupportedVersionsList<'a> {
    open spec fn spec_parse(data: Seq<u8>) -> ParseOutcome<Seq<u8>> {
        <Vector<'a, ProtocolVersion, 2, 254> as TryParse<'de>>::spec_parse(data)
    }

    open spec fn spec_skip(data: Seq<u8>) -> Result<nat, Alert> {
        <Vector<'a, ProtocolVersion, 2, 254> as TryParse<'de>>::spec_skip(data)
    }

    proof fn lemma_parse_bounds(data: Seq<u8>) {
        <Vector<'a, ProtocolVersion, 2, 254> as TryParse<'de>>::lemma_parse_bounds(data);
    }

    fn try_parse(data: &'de [u8]) -> (r: Result<(SupportedVersionsList<'a>, &'de [u8]), Error>) {
        match <Vector<'a, ProtocolVersion, 2, 254> as TryParse<'de>>::try_parse(data) {
            Ok((data, rest)) => Ok((Self { data }, rest)),
            Err(e) => Err(e),
        }
    }

    fn try_skip(data: &'de [u8]) -> (r: Result<&'de [u8], Error>) {
        <Vector<'a, ProtocolVersion, 2, 254> as TryParse<'de>>::try_skip(data)
    }
}

impl<'a> TryEncode for SupportedVersionsList<'a> {
    open spec fn spec_encode(v: Seq<u8>, s: EncState) -> (EncState, Result<(), Alert>) {
        <Vector<'a, ProtocolVersion, 2, 254> as TryEncode>::spec_encode(v, s)
    }

    fn try_encode(&self, out: &mut EncBuf<'_>) -> (r: Result<(), Error>) {
        self.data.try_encode(out)
    }
}

} // verus!
