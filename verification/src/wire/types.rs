//! Core types.

use vstd::prelude::*;

use crate::wire::{
    alert::Alert,
    encode::{spec_write_fixed, EncBuf, TryEncode},
    error::Error,
    parse::{spec_be24, split_prefix, ParseOutcome, TryParse},
    size::{Object, Size},
};

verus! {

#[allow(non_camel_case_types)]
/// An unsigned 16-bit integer.
pub type uint16 = u16;

/// An unsigned 24-bit integer.
#[allow(non_camel_case_types)]
pub type uint24 = u24;

/// An unsigned 32-bit integer.
#[allow(non_camel_case_types)]
pub type uint32 = u32;

/// An unsigned 8-bit integer.
#[allow(non_camel_case_types)]
pub type uint8 = u8;

/// Uninterpreted data.
#[allow(non_camel_case_types)]
pub type opaque = u8;

/// The largest value of a 24-bit integer.
pub const U24_MAX: u32 = 0xff_ffff;

/// An unsigned 24-bit integer.
#[derive(Copy, Clone, Debug, PartialEq, Eq, Structural)]
#[allow(non_camel_case_types)]
pub struct u24(u32);

impl View for u24 {
    type V = nat;

    closed spec fn view(&self) -> nat {
        self.0 as nat
    }
}

/// The three big-endian bytes of a 24-bit value.
pub open spec fn spec_be24_bytes(x: nat) -> Seq<u8> {
    seq![(x / 0x1_0000) as u8, ((x / 0x100) % 0x100) as u8, (x % 0x100) as u8]
}

impl u24 {
    /// A 24-bit value is below 2^24.
    pub closed spec fn wf(self) -> bool {
        self.0 <= U24_MAX
    }

    /// Every 24-bit value is below 2^24.
    #[verifier::type_invariant]
    closed spec fn inv(self) -> bool {
        self.wf()
    }

    /// The largest 24-bit value.
    pub fn max_value() -> (r: Self)
        ensures
            r@ == U24_MAX,
    {
        Self(U24_MAX)
    }

    /// Creates a value from its three big-endian bytes.
    pub fn from_be_bytes(bytes: [u8; 3]) -> (r: Self)
        ensures
            r@ == spec_be24(bytes@),
            r@ <= U24_MAX,
    {
        let v: u32 = (bytes[0] as u32) * 0x1_0000 + (bytes[1] as u32) * 0x100 + (bytes[2] as u32);
        Self(v)
    }

    /// Returns the three big-endian bytes of the value.
    pub fn to_be_bytes(self) -> (r: [u8; 3])
        ensures
            r@ == spec_be24_bytes(self@),
    {
        proof {
            use_type_invariant(self);
        }
        let x = self.0;
        let r = [(x / 0x1_0000) as u8, ((x / 0x100) % 0x100) as u8, (x % 0x100) as u8];
        proof {
            assert(r@ =~= spec_be24_bytes(self@));
        }
        r
    }

    /// Converts a `usize` to a 24-bit value, if it fits.
    pub fn try_from_usize(value: usize) -> (r: Option<Self>)
        ensures
            r matches Some(v) ==> v@ == value,
            r is None <==> value > U24_MAX,
    {
        if value > U24_MAX as usize {
            None
        } else {
            Some(Self(value as u32))
        }
    }

    /// Converts the value to a `usize`.
    pub fn to_usize(self) -> (r: usize)
        ensures
            r == self@,
            r <= U24_MAX,
    {
        proof {
            use_type_invariant(self);
        }
        self.0 as usize
    }

    /// Reading the bytes of a 24-bit value gives the value back.
    pub proof fn lemma_bytes_roundtrip(x: nat)
        requires
            x <= U24_MAX,
        ensures
            spec_be24(spec_be24_bytes(x)) == x,
    {
        assert(x == (x / 0x1_0000) * 0x1_0000 + ((x / 0x100) % 0x100) * 0x100 + x % 0x100)
            by (nonlinear_arith)
            requires
                x <= 0xff_ffff,
        ;
    }
}

impl Object for u24 {
    open spec fn spec_size() -> (nat, nat) {
        (3, 3)
    }

    fn size() -> (r: Size) {
        Size::new(3, 3)
    }
}

impl<'de> TryParse<'de> for u24 {
    open spec fn spec_parse(data: Seq<u8>) -> ParseOutcome<nat> {
        if data.len() >= 3 {
            Ok((spec_be24(data) as nat, 3))
        } else {
            Err(Alert::spec_decode_error())
        }
    }

    open spec fn spec_skip(data: Seq<u8>) -> core::result::Result<nat, Alert> {
        if data.len() >= 3 {
            Ok(3)
        } else {
            Err(Alert::spec_decode_error())
        }
    }

    proof fn lemma_parse_bounds(data: Seq<u8>) {
    }

    fn try_parse(data: &'de [u8]) -> (r: core::result::Result<(u24, &'de [u8]), Error>) {
        if data.len() < 3 {
            return Err(Error::unexpected_eof());
        }
        let v: u32 = (data[0] as u32) * 0x1_0000 + (data[1] as u32) * 0x100 + (data[2] as u32);
        let (_, rest) = split_prefix(data, 3);
        Ok((u24(v), rest))
    }

    fn try_skip(data: &'de [u8]) -> (r: core::result::Result<&'de [u8], Error>) {
        match Self::try_parse(data) {
            Ok((_, rest)) => Ok(rest),
            Err(e) => Err(e),
        }
    }
}

impl TryEncode for u24 {
    open spec fn spec_encode(v: nat, s: (Seq<u8>, nat)) -> (
        (Seq<u8>, nat),
        core::result::Result<(), Alert>,
    ) {
        spec_write_fixed(s, spec_be24_bytes(v))
    }

    fn try_encode(&self, out: &mut EncBuf<'_>) -> (r: core::result::Result<(), Error>) {
        let bytes = self.to_be_bytes();
        out.write_fixed(&bytes)
    }
}

} // verus!
