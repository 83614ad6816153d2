//! The `server_name` extension per RFC 6066.

use core::convert::Infallible;

use vstd::prelude::*;

use crate::wire::{
    alert::Alert,
    encode::{spec_then, EncBuf, EncState, TryEncode},
    error::Error,
    parse::{ParseOutcome, TryParse},
    size::{Object, Size},
    types::opaque,
    vec::{Iter, Vector},
};

verus! {

/// A fully qualified DNS name of a server.
pub type HostName<'a> = Vector<'a, opaque, 1, 65535>;

/// The `server_name` extension per RFC 6066.
#[derive(Copy, Clone, Debug)]
pub struct ServerNameList<'a> {
    data: Vector<'a, ServerName<'a>, 1, 65535>,
}

impl<'a> View for ServerNameList<'a> {
    type V = Seq<u8>;

    closed spec fn view(&self) -> Seq<u8> {
        self.data@
    }
}

impl<'a> ServerNameList<'a> {
    /// Returns an iterator over the list's items.
    pub fn iter(&self) -> (r: Iter<'_, ServerName<'a>>)
        ensures
            r@ == self@,
    {
        self.data.iter()
    }

    /// Turns the list into an iterator over its items.
    pub fn into_iter(self) -> (r: Iter<'a, ServerName<'a>>)
        ensures
            r@ == self@,
    {
        Iter::new(self.data.into_slice())
    }
}

impl<'a> Object for ServerNameList<'a> {
    open spec fn spec_size() -> (nat, nat) {
        (1, 65535)
    }

    fn size() -> (r: Size) {
        Size::new(1, 65535)
    }
}

impl<'de: 'a, 'a> TryParse<'de> for ServerNameList<'a> {
    open spec fn spec_parse(data: Seq<u8>) -> ParseOutcome<Seq<u8>> {
        <Vector<'a, ServerName<'a>, 1, 65535> as TryParse<'de>>::spec_parse(data)
    }

    open spec fn spec_skip(data: Seq<u8>) -> Result<nat, Alert> {
        <Vector<'a, ServerName<'a>, 1, 65535> as TryParse<'de>>::spec_skip(data)
    }

    proof fn lemma_parse_bounds(data: Seq<u8>) {
        <Vector<'a, ServerName<'a>, 1, 65535> as TryParse<'de>>::lemma_parse_bounds(data);
    }

    fn try_parse(data: &'de [u8]) -> (r: Result<(ServerNameList<'a>, &'de [u8]), Error>) {
        match <Vector<'a, ServerName<'a>, 1, 65535> as TryParse<'de>>::try_parse(data) {
            Ok((data, rest)) => Ok((Self { data }, rest)),
            Err(e) => Err(e),
        }
    }

    fn try_skip(data: &'de [u8]) -> (r: Result<&'de [u8], Error>) {
        <Vector<'a, ServerName<'a>, 1, 65535> as TryParse<'de>>::try_skip(data)
    }
}

impl<'a> TryEncode for ServerNameList<'a> {
    open spec fn spec_encode(v: Seq<u8>, s: EncState) -> (EncState, Result<(), Alert>) {
        <Vector<'a, ServerName<'a>, 1, 65535> as TryEncode>::spec_encode(v, s)
    }

    fn try_encode(&self, out: &mut EncBuf<'_>) -> (r: Result<(), Error>) {
        self.data.try_encode(out)
    }
}

/// A specific server name.
///
/// ```text
/// struct {
///     NameType name_type;
///     select (name_type) {
///         case host_name: HostName;
///     } name;
/// } ServerName;
/// ```
#[derive(Copy, Clone, Debug)]
pub enum ServerName<'a> {
    /// A host name.
    HostName(HostName<'a>),
}

impl<'a> View for ServerName<'a> {
    type V = Seq<u8>;

    open spec fn view(&self) -> Seq<u8> {
        match self {
            ServerName::HostName(name) => name@,
        }
    }
}

impl<'a> Object for ServerName<'a> {
    open spec fn spec_size() -> (nat, nat) {
        <HostName<'a> as Object>::spec_size()
    }

    fn size() -> (r: Size) {
        Size::new(1, 65535)
    }
}

impl<'de: 'a, 'a> TryParse<'de> for ServerName<'a> {
    open spec fn spec_parse(data: Seq<u8>) -> ParseOutcome<Seq<u8>> {
        match <NameType as TryParse<'de>>::spec_parse(data) {
            Ok((ty, n)) => match ty {
                NameType::HostName => match <HostName<'a> as TryParse<'de>>::spec_parse(
                    data.skip(n as int),
                ) {
                    Ok((v, m)) => Ok((v, n + m)),
                    Err(a) => Err(a),
                },
                _ => Err(Alert::spec_decode_error()),
            },
            Err(a) => Err(a),
        }
    }

    open spec fn spec_skip(data: Seq<u8>) -> Result<nat, Alert> {
        match Self::spec_parse(data) {
            Ok((_, n)) => Ok(n),
            Err(a) => Err(a),
        }
    }

    proof fn lemma_parse_bounds(data: Seq<u8>) {
        <NameType as TryParse<'de>>::lemma_parse_bounds(data);
        if let Ok((_, n)) = <NameType as TryParse<'de>>::spec_parse(data) {
            <HostName<'a> as TryParse<'de>>::lemma_parse_bounds(data.skip(n as int));
        }
    }

    fn try_parse(data: &'de [u8]) -> (r: Result<(ServerName<'a>, &'de [u8]), Error>) {
        let (discriminant, rest) = match NameType::try_parse(data) {
            Ok(x) => x,
            Err(e) => return Err(e),
        };
        match discriminant {
            NameType::HostName => {
                let (v, rest2) = match <HostName<'a> as TryParse<'de>>::try_parse(rest) {
                    Ok(x) => x,
                    Err(e) => return Err(e),
                };
                proof {
                    assert(rest2@ =~= data@.skip((data@.len() - rest2@.len()) as int));
                }
                Ok((Self::HostName(v), rest2))
            },
            _ => Err(Error::decode_error("unexpected enum variant")),
        }
    }

    fn try_skip(data: &'de [u8]) -> (r: Result<&'de [u8], Error>) {
        match Self::try_parse(data) {
            Ok((_, rest)) => Ok(rest),
            Err(e) => Err(e),
        }
    }
}

impl<'a> TryEncode for ServerName<'a> {
    open spec fn spec_encode(v: Seq<u8>, s: EncState) -> (EncState, Result<(), Alert>) {
        spec_then(
            <NameType as TryEncode>::spec_encode(NameType::HostName, s),
            |s1: EncState| <HostName<'a> as TryEncode>::spec_encode(v, s1),
        )
    }

    fn try_encode(&self, out: &mut EncBuf<'_>) -> (r: Result<(), Error>) {
        match self {
            Self::HostName(v) => {
                match NameType::HostName.try_encode(out) {
                    Ok(()) => {},
                    Err(e) => return Err(e),
                }
                v.try_encode(out)
            },
        }
    }
}

/// The type of [`ServerName`].
#[derive(Copy, Clone, Debug, PartialEq, Eq, Structural)]
pub enum NameType {
    HostName,
    /// An unrecognized value.
    Unknown(u8),
}

impl View for NameType {
    type V = NameType;

    open spec fn view(&self) -> NameType {
        *self
    }
}

impl NameType {
    /// The wire code of each variant, as the registry assigns it, and
    /// the variant that each of these codes is read as.
    pub proof fn lemma_wire_codes()
        ensures
            NameType::HostName.spec_to_repr() == 0,
            NameType::spec_from_repr(0) == NameType::HostName,
    {
    }

    /// The value that stands for the enumeration on the wire.
    pub open spec fn spec_to_repr(self) -> u8 {
        match self {
            NameType::HostName => 0,
            NameType::Unknown(v) => v,
        }
    }

    /// The enumeration that a wire value stands for.
    pub open spec fn spec_from_repr(repr: u8) -> NameType {
        match repr {
            0 => NameType::HostName,
            _ => NameType::Unknown(repr),
        }
    }

    /// A value is canonical unless it is `Unknown` with a recognized
    /// value.
    pub open spec fn is_canonical(self) -> bool {
        self is Unknown ==> NameType::spec_from_repr(self.spec_to_repr()) is Unknown
    }

    /// The name of the enumeration's variant.
    pub open spec fn spec_name(self) -> Seq<char> {
        match self {
            NameType::HostName => "HostName"@,
            NameType::Unknown(_) => "unknown"@,
        }
    }

    /// Returns the enumeration as a string.
    pub fn to_str(self) -> (r: &'static str)
        ensures
            r@ == self.spec_name(),
    {
        match self {
            NameType::HostName => "HostName",
            NameType::Unknown(_) => "unknown",
        }
    }

    /// Converts the enumeration to its repr.
    pub fn to_repr(self) -> (r: u8)
        ensures
            r == self.spec_to_repr(),
    {
        match self {
            NameType::HostName => 0,
            NameType::Unknown(v) => v,
        }
    }

    /// Attempts to create the enumeration from its repr.
    pub fn try_from_repr(repr: u8) -> (r: Result<NameType, Infallible>)
        ensures
            r == Ok::<NameType, Infallible>(NameType::spec_from_repr(repr)),
    {
        let v = match repr {
            0 => NameType::HostName,
            _ => NameType::Unknown(repr),
        };
        Ok(v)
    }

    /// Reading back the wire value of an enumeration gives the
    /// same wire value.
    pub proof fn lemma_repr_roundtrip(repr: u8)
        ensures
            NameType::spec_from_repr(repr).spec_to_repr() == repr,
            NameType::spec_from_repr(repr).is_canonical(),
    {
    }

    /// A canonical enumeration is given back by the wire value it
    /// stands for.
    pub proof fn lemma_value_roundtrip(v: NameType)
        requires
            v.is_canonical(),
        ensures
            NameType::spec_from_repr(v.spec_to_repr()) == v,
    {
    }
}

impl Object for NameType {
    open spec fn spec_size() -> (nat, nat) {
        (1, 1)
    }

    fn size() -> (r: Size) {
        u8::size()
    }
}

impl<'de> TryParse<'de> for NameType {
    open spec fn spec_parse(data: Seq<u8>) -> Result<(NameType, nat), Alert> {
        match <u8 as TryParse<'de>>::spec_parse(data) {
            Ok((repr, n)) => Ok((NameType::spec_from_repr(repr), n)),
            Err(a) => Err(a),
        }
    }

    open spec fn spec_skip(data: Seq<u8>) -> Result<nat, Alert> {
        match Self::spec_parse(data) {
            Ok((_, n)) => Ok(n),
            Err(a) => Err(a),
        }
    }

    proof fn lemma_parse_bounds(data: Seq<u8>) {
        <u8 as TryParse<'de>>::lemma_parse_bounds(data);
    }

    fn try_parse(data: &'de [u8]) -> (r: Result<(NameType, &'de [u8]), Error>) {
        let (repr, rest) = match <u8 as TryParse<'de>>::try_parse(data) {
            Ok(x) => x,
            Err(e) => return Err(e),
        };
        let v = match NameType::try_from_repr(repr) {
            Ok(v) => v,
            Err(_) => NameType::Unknown(repr),
        };
        Ok((v, rest))
    }

    fn try_skip(data: &'de [u8]) -> (r: Result<&'de [u8], Error>) {
        match Self::try_parse(data) {
            Ok((_, rest)) => Ok(rest),
            Err(e) => Err(e),
        }
    }
}

impl TryEncode for NameType {
    open spec fn spec_encode(v: Self::V, s: (Seq<u8>, nat)) -> ((Seq<u8>, nat), Result<(), Alert>) {
        <u8 as TryEncode>::spec_encode(v.spec_to_repr(), s)
    }

    fn try_encode(&self, out: &mut EncBuf<'_>) -> (r: Result<(), Error>) {
        self.to_repr().try_encode(out)
    }
}

} // verus!
