//! The `application_layer_protocol_negotiation` extension.

use vstd::prelude::*;

use crate::wire::{
    alert::Alert,
    encode::{EncBuf, EncState, TryEncode},
    error::Error,
    parse::{ParseOutcome, TryParse},
    size::{Object, Size},
    types::opaque,
    vec::{Iter, Vector},
};

verus! {

/// The `application_layer_protocol_negotiation` extension.
pub type Alpn<'a> = ProtocolNameList<'a>;

/// An ALPN protocol name.
pub type ProtocolName<'a> = Vector<'a, opaque, 1, 255>;

/// The `application_layer_protocol_negotiation` extension.
#[derive(Copy, Clone, Debug)]
pub struct ProtocolNameList<'a> {
    data: Vector<'a, ProtocolName<'a>, 2, 65535>,
}

impl<'a> View for ProtocolNameList<'a> {
    type V = Seq<u8>;

    closed spec fn view(&self) -> Seq<u8> {
        self.data@
    }
}

impl<'a> ProtocolNameList<'a> {
    /// Returns an iterator over the list's items.
    pub fn iter(&self) -> (r: Iter<'_, ProtocolName<'a>>)
        ensures
            r@ == self@,
    {
        self.data.iter()
    }

    /// Turns the list into an iterator over its items.
    pub fn into_iter(self) -> (r: Iter<'a, ProtocolName<'a>>)
        ensures
            r@ == self@,
    {
        Iter::new(self.data.into_slice())
    }
}

impl<'a> Object for ProtocolNameList<'a> {
    open spec fn spec_size() -> (nat, nat) {
        (2, 65535)
    }

    fn size() -> (r: Size) {
        Size::new(2, 65535)
    }
}

impl<'de: 'a, 'a> TryParse<'de> for ProtocolNameList<'a> {
    open spec fn spec_parse(data: Seq<u8>) -> ParseOutcome<Seq<u8>> {
        <Vector<'a, ProtocolName<'a>, 2, 65535> as TryParse<'de>>::spec_parse(data)
    }

    open spec fn spec_skip(data: Seq<u8>) -> Result<nat, Alert> {
        <Vector<'a, ProtocolName<'a>, 2, 65535> as TryParse<'de>>::spec_skip(data)
    }

    proof fn lemma_parse_bounds(data: Seq<u8>) {
        <Vector<'a, ProtocolName<'a>, 2, 65535> as TryParse<'de>>::lemma_parse_bounds(data);
    }

    fn try_parse(data: &'de [u8]) -> (r: Result<(ProtocolNameList<'a>, &'de [u8]), Error>) {
        match <Vector<'a, ProtocolName<'a>, 2, 65535> as TryParse<'de>>::try_parse(data) {
            Ok((data, rest)) => Ok((Self { data }, rest)),
            Err(e) => Err(e),
        }
    }

    fn try_skip(data: &'de [u8]) -> (r: Result<&'de [u8], Error>) {
        <Vector<'a, ProtocolName<'a>, 2, 65535> as TryParse<'de>>::try_skip(data)
    }
}

impl<'a> TryEncode for ProtocolNameList<'a> {
    open spec fn spec_encode(v: Seq<u8>, s: EncState) -> (EncState, Result<(), Alert>) {
        <Vector<'a, ProtocolName<'a>, 2, 65535> as TryEncode>::spec_encode(v, s)
    }

    fn try_encode(&self, out: &mut EncBuf<'_>) -> (r: Result<(), Error>) {
        self.data.try_encode(out)
    }
}

} // verus!
