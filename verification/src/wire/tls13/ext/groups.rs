//! The `supported_groups` extension.

use core::convert::Infallible;

use vstd::prelude::*;

use crate::wire::{
    alert::Alert,
    encode::{EncBuf, EncState, TryEncode},
    error::Error,
    parse::{ParseOutcome, TryParse},
    size::{Object, Size},
    vec::{Iter, Vector},
};

verus! {

/// The `supported_groups` extension.
#[derive(Copy, Clone, Debug)]
pub struct NamedGroupList<'a> {
    data: Vector<'a, NamedGroup, 2, 65535>,
}

impl<'a> View for NamedGroupList<'a> {
    type V = Seq<u8>;

    closed spec fn view(&self) -> Seq<u8> {
        self.data@
    }
}

impl<'a> NamedGroupList<'a> {
    /// Returns an iterator over the list's items.
    pub fn iter(&self) -> (r: Iter<'_, NamedGroup>)
        ensures
            r@ == self@,
    {
        self.data.iter()
    }

    /// Turns the list into an iterator over its items.
    pub fn into_iter(self) -> (r: Iter<'a, NamedGroup>)
        ensures
            r@ == self@,
    {
        Iter::new(self.data.into_slice())
    }
}

impl<'a> Object for NamedGroupList<'a> {
    open spec fn spec_size() -> (nat, nat) {
        (2, 65535)
    }

    fn size() -> (r: Size) {
        Size::new(2, 65535)
    }
}

impl<'de: 'a, 'a> TryParse<'de> for NamedGroupList<'a> {
    open spec fn spec_parse(data: Seq<u8>) -> ParseOutcome<Seq<u8>> {
        <Vector<'a, NamedGroup, 2, 65535> as TryParse<'de>>::spec_parse(data)
    }

    open spec fn spec_skip(data: Seq<u8>) -> Result<nat, Alert> {
        <Vector<'a, NamedGroup, 2, 65535> as TryParse<'de>>::spec_skip(data)
    }

    proof fn lemma_parse_bounds(data: Seq<u8>) {
        <Vector<'a, NamedGroup, 2, 65535> as TryParse<'de>>::lemma_parse_bounds(data);
    }

    fn try_parse(data: &'de [u8]) -> (r: Result<(NamedGroupList<'a>, &'de [u8]), Error>) {
        match <Vector<'a, NamedGroup, 2, 65535> as TryParse<'de>>::try_parse(data) {
            Ok((data, rest)) => Ok((Self { data }, rest)),
            Err(e) => Err(e),
        }
    }

    fn try_skip(data: &'de [u8]) -> (r: Result<&'de [u8], Error>) {
        <Vector<'a, NamedGroup, 2, 65535> as TryParse<'de>>::try_skip(data)
    }
}

impl<'a> TryEncode for NamedGroupList<'a> {
    open spec fn spec_encode(v: Seq<u8>, s: EncState) -> (EncState, Result<(), Alert>) {
        <Vector<'a, NamedGroup, 2, 65535> as TryEncode>::spec_encode(v, s)
    }

    fn try_encode(&self, out: &mut EncBuf<'_>) -> (r: Result<(), Error>) {
        self.data.try_encode(out)
    }
}
/// A named group.
#[derive(Copy, Clone, Debug, PartialEq, Eq, Structural)]
pub enum NamedGroup {
    Secp256r1,
    Secp384r1,
    Secp521r1,
    X25519,
    X448,
    Ffdhe2048,
    Ffdhe3072,
    Ffdhe4096,
    Ffdhe6144,
    Ffdhe8192,
    /// An unrecognized value.
    Unknown(u16),
}

impl View for NamedGroup {
    type V = NamedGroup;

    open spec fn view(&self) -> NamedGroup {
        *self
    }
}

impl NamedGroup {
    /// The wire code of each variant, as the registry assigns it, and
    /// the variant that each of these codes is read as.
    pub proof fn lemma_wire_codes()
        ensures
            NamedGroup::Secp256r1.spec_to_repr() == 0x0017,
            NamedGroup::spec_from_repr(0x0017) == NamedGroup::Secp256r1,
            NamedGroup::Secp384r1.spec_to_repr() == 0x0018,
            NamedGroup::spec_from_repr(0x0018) == NamedGroup::Secp384r1,
            NamedGroup::Secp521r1.spec_to_repr() == 0x0019,
            NamedGroup::spec_from_repr(0x0019) == NamedGroup::Secp521r1,
            NamedGroup::X25519.spec_to_repr() == 0x001d,
            NamedGroup::spec_from_repr(0x001d) == NamedGroup::X25519,
            NamedGroup::X448.spec_to_repr() == 0x001e,
            NamedGroup::spec_from_repr(0x001e) == NamedGroup::X448,
            NamedGroup::Ffdhe2048.spec_to_repr() == 0x0100,
            NamedGroup::spec_from_repr(0x0100) == NamedGroup::Ffdhe2048,
            NamedGroup::Ffdhe3072.spec_to_repr() == 0x0101,
            NamedGroup::spec_from_repr(0x0101) == NamedGroup::Ffdhe3072,
            NamedGroup::Ffdhe4096.spec_to_repr() == 0x0102,
            NamedGroup::spec_from_repr(0x0102) == NamedGroup::Ffdhe4096,
            NamedGroup::Ffdhe6144.spec_to_repr() == 0x0103,
            NamedGroup::spec_from_repr(0x0103) == NamedGroup::Ffdhe6144,
            NamedGroup::Ffdhe8192.spec_to_repr() == 0x0104,
            NamedGroup::spec_from_repr(0x0104) == NamedGroup::Ffdhe8192,
    {
    }

    /// The value that stands for the enumeration on the wire.
    pub open spec fn spec_to_repr(self) -> u16 {
        match self {
            NamedGroup::Secp256r1 => 0x0017,
            NamedGroup::Secp384r1 => 0x0018,
            NamedGroup::Secp521r1 => 0x0019,
            NamedGroup::X25519 => 0x001d,
            NamedGroup::X448 => 0x001e,
            NamedGroup::Ffdhe2048 => 0x0100,
            NamedGroup::Ffdhe3072 => 0x0101,
            NamedGroup::Ffdhe4096 => 0x0102,
            NamedGroup::Ffdhe6144 => 0x0103,
            NamedGroup::Ffdhe8192 => 0x0104,
            NamedGroup::Unknown(v) => v,
        }
    }

    /// The enumeration that a wire value stands for.
    pub open spec fn spec_from_repr(repr: u16) -> NamedGroup {
        match repr {
            0x0017 => NamedGroup::Secp256r1,
            0x0018 => NamedGroup::Secp384r1,
            0x0019 => NamedGroup::Secp521r1,
            0x001d => NamedGroup::X25519,
            0x001e => NamedGroup::X448,
            0x0100 => NamedGroup::Ffdhe2048,
            0x0101 => NamedGroup::Ffdhe3072,
            0x0102 => NamedGroup::Ffdhe4096,
            0x0103 => NamedGroup::Ffdhe6144,
            0x0104 => NamedGroup::Ffdhe8192,
            _ => NamedGroup::Unknown(repr),
        }
    }

    /// A value is canonical unless it is `Unknown` with a recognized
    /// value.
    pub open spec fn is_canonical(self) -> bool {
        self is Unknown ==> NamedGroup::spec_from_repr(self.spec_to_repr()) is Unknown
    }

    /// The name of the enumeration's variant.
    pub open spec fn spec_name(self) -> Seq<char> {
        match self {
            NamedGroup::Secp256r1 => "Secp256r1"@,
            NamedGroup::Secp384r1 => "Secp384r1"@,
            NamedGroup::Secp521r1 => "Secp521r1"@,
            NamedGroup::X25519 => "X25519"@,
            NamedGroup::X448 => "X448"@,
            NamedGroup::Ffdhe2048 => "Ffdhe2048"@,
            NamedGroup::Ffdhe3072 => "Ffdhe3072"@,
            NamedGroup::Ffdhe4096 => "Ffdhe4096"@,
            NamedGroup::Ffdhe6144 => "Ffdhe6144"@,
            NamedGroup::Ffdhe8192 => "Ffdhe8192"@,
            NamedGroup::Unknown(_) => "unknown"@,
        }
    }

    /// Returns the enumeration as a string.
    pub fn to_str(self) -> (r: &'static str)
        ensures
            r@ == self.spec_name(),
    {
        match self {
            NamedGroup::Secp256r1 => "Secp256r1",
            NamedGroup::Secp384r1 => "Secp384r1",
            NamedGroup::Secp521r1 => "Secp521r1",
            NamedGroup::X25519 => "X25519",
            NamedGroup::X448 => "X448",
            NamedGroup::Ffdhe2048 => "Ffdhe2048",
            NamedGroup::Ffdhe3072 => "Ffdhe3072",
            NamedGroup::Ffdhe4096 => "Ffdhe4096",
            NamedGroup::Ffdhe6144 => "Ffdhe6144",
            NamedGroup::Ffdhe8192 => "Ffdhe8192",
            NamedGroup::Unknown(_) => "unknown",
        }
    }

    /// Converts the enumeration to its repr.
    pub fn to_repr(self) -> (r: u16)
        ensures
            r == self.spec_to_repr(),
    {
        match self {
            NamedGroup::Secp256r1 => 0x0017,
            NamedGroup::Secp384r1 => 0x0018,
            NamedGroup::Secp521r1 => 0x0019,
            NamedGroup::X25519 => 0x001d,
            NamedGroup::X448 => 0x001e,
            NamedGroup::Ffdhe2048 => 0x0100,
            NamedGroup::Ffdhe3072 => 0x0101,
            NamedGroup::Ffdhe4096 => 0x0102,
            NamedGroup::Ffdhe6144 => 0x0103,
            NamedGroup::Ffdhe8192 => 0x0104,
            NamedGroup::Unknown(v) => v,
        }
    }

    /// Attempts to create the enumeration from its repr.
    pub fn try_from_repr(repr: u16) -> (r: Result<NamedGroup, Infallible>)
        ensures
            r == Ok::<NamedGroup, Infallible>(NamedGroup::spec_from_repr(repr)),
    {
        let v = match repr {
            0x0017 => NamedGroup::Secp256r1,
            0x0018 => NamedGroup::Secp384r1,
            0x0019 => NamedGroup::Secp521r1,
            0x001d => NamedGroup::X25519,
            0x001e => NamedGroup::X448,
            0x0100 => NamedGroup::Ffdhe2048,
            0x0101 => NamedGroup::Ffdhe3072,
            0x0102 => NamedGroup::Ffdhe4096,
            0x0103 => NamedGroup::Ffdhe6144,
            0x0104 => NamedGroup::Ffdhe8192,
            _ => NamedGroup::Unknown(repr),
        };
        Ok(v)
    }

    /// Reading back the wire value of an enumeration gives the
    /// same wire value.
    pub proof fn lemma_repr_roundtrip(repr: u16)
        ensures
            NamedGroup::spec_from_repr(repr).spec_to_repr() == repr,
            NamedGroup::spec_from_repr(repr).is_canonical(),
    {
    }

    /// A canonical enumeration is given back by the wire value it
    /// stands for.
    pub proof fn lemma_value_roundtrip(v: NamedGroup)
        requires
            v.is_canonical(),
        ensures
            NamedGroup::spec_from_repr(v.spec_to_repr()) == v,
    {
    }
}

impl Object for NamedGroup {
    open spec fn spec_size() -> (nat, nat) {
        (2, 2)
    }

    fn size() -> (r: Size) {
        u16::size()
    }
}

impl<'de> TryParse<'de> for NamedGroup {
    open spec fn spec_parse(data: Seq<u8>) -> Result<(NamedGroup, nat), Alert> {
        match <u16 as TryParse<'de>>::spec_parse(data) {
            Ok((repr, n)) => Ok((NamedGroup::spec_from_repr(repr), n)),
            Err(a) => Err(a),
        }
    }

    open spec fn spec_skip(data: Seq<u8>) -> Result<nat, Alert> {
        match Self::spec_parse(data) {
            Ok((_, n)) => Ok(n),
            Err(a) => Err(a),
        }
    }

    proof fn lemma_parse_bounds(data: Seq<u8>) {
        <u16 as TryParse<'de>>::lemma_parse_bounds(data);
    }

    fn try_parse(data: &'de [u8]) -> (r: Result<(NamedGroup, &'de [u8]), Error>) {
        let (repr, rest) = match <u16 as TryParse<'de>>::try_parse(data) {
            Ok(x) => x,
            Err(e) => return Err(e),
        };
        let v = match NamedGroup::try_from_repr(repr) {
            Ok(v) => v,
            Err(_) => NamedGroup::Unknown(repr),
        };
        Ok((v, rest))
    }

    fn try_skip(data: &'de [u8]) -> (r: Result<&'de [u8], Error>) {
        match Self::try_parse(data) {
            Ok((_, rest)) => Ok(rest),
            Err(e) => Err(e),
        }
    }
}

impl TryEncode for NamedGroup {
    open spec fn spec_encode(v: Self::V, s: (Seq<u8>, nat)) -> ((Seq<u8>, nat), Result<(), Alert>) {
        <u16 as TryEncode>::spec_encode(v.spec_to_repr(), s)
    }

    fn try_encode(&self, out: &mut EncBuf<'_>) -> (r: Result<(), Error>) {
        self.to_repr().try_encode(out)
    }
}

} // verus!
