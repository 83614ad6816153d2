use vstd::prelude::*;

use crate::wire::{alert::Alert, error::Error, size::Object};

verus! {

/// The outcome of a parse, in terms of the input bytes: the value that
/// was parsed and the number of bytes that it took, or the alert that
/// the input warrants.
pub type ParseOutcome<V> = Result<(V, nat), Alert>;

/// `r` is the exec counterpart of the spec outcome `spec` on `data`.
pub open spec fn parsed_as<T: View>(
    spec: ParseOutcome<T::V>,
    data: Seq<u8>,
    r: Result<(T, &[u8]), Error>,
) -> bool {
    match r {
        Ok((v, rest)) => match spec {
            Ok((sv, n)) => v@ == sv && n <= data.len() && rest@ == data.skip(n as int),
            Err(_) => false,
        },
        Err(e) => match spec {
            Ok(_) => false,
            Err(a) => e@ == a,
        },
    }
}

/// `r` is the exec counterpart of the spec outcome `spec` of skipping
/// over an object at the start of `data`.
pub open spec fn skipped_as(spec: Result<nat, Alert>, data: Seq<u8>, r: Result<&[u8], Error>) -> bool {
    match r {
        Ok(rest) => match spec {
            Ok(n) => n <= data.len() && rest@ == data.skip(n as int),
            Err(_) => false,
        },
        Err(e) => match spec {
            Ok(_) => false,
            Err(a) => e@ == a,
        },
    }
}

/// The outcome of parsing an object that must take up all of `data`.
pub open spec fn parse_all_outcome<V>(spec: ParseOutcome<V>, data: Seq<u8>) -> Result<V, Alert> {
    match spec {
        Ok((v, n)) => if n == data.len() {
            Ok(v)
        } else {
            Err(Alert::spec_decode_error())
        },
        Err(a) => Err(a),
    }
}

/// Parses the TLS wire format.
///
/// `'de` is the lifetime of the data that can be borrowed by `Self`.
pub trait TryParse<'de>: Object + View + Sized {
    /// What parsing `Self` from the start of `data` gives.
    spec fn spec_parse(data: Seq<u8>) -> ParseOutcome<<Self as View>::V>;

    /// How many bytes skipping over `Self` at the start of `data` takes.
    spec fn spec_skip(data: Seq<u8>) -> Result<nat, Alert>;

    /// A parse never takes more bytes than it is given, an object that
    /// can take up any room takes up some, and the size bounds of the
    /// object are in order.
    proof fn lemma_parse_bounds(data: Seq<u8>)
        ensures
            Self::spec_size().0 <= Self::spec_size().1,
            Self::spec_parse(data) matches Ok((_, n)) ==> n <= data.len() && (Self::spec_size().1
                > 0 ==> n > 0),
            Self::spec_skip(data) matches Ok(n) ==> n <= data.len() && (Self::spec_size().1 > 0
                ==> n > 0),
    ;

    /// Parses `Self` from `data` and returns `Self` and the remaining
    /// data, if any.
    fn try_parse(data: &'de [u8]) -> (r: Result<(Self, &'de [u8]), Error>)
        ensures
            parsed_as::<Self>(Self::spec_parse(data@), data@, r),
    ;

    /// Like [`try_parse`][Self::try_parse], but there cannot be any
    /// remaining data.
    fn try_parse_all(data: &'de [u8]) -> (r: Result<Self, Error>)
        ensures
            match r {
                Ok(v) => parse_all_outcome(Self::spec_parse(data@), data@) == Ok::<
                    <Self as View>::V,
                    Alert,
                >(v@),
                Err(e) => parse_all_outcome(Self::spec_parse(data@), data@) == Err::<
                    <Self as View>::V,
                    Alert,
                >(e@),
            },
    {
        let (v, rest) = match Self::try_parse(data) {
            Ok(x) => x,
            Err(e) => return Err(e),
        };
        if rest.len() != 0 {
            Err(Error::decode_error("unexpected trailing data"))
        } else {
            Ok(v)
        }
    }

    /// Skips past the current object and returns the remaining data.
    fn try_skip(data: &'de [u8]) -> (r: Result<&'de [u8], Error>)
        ensures
            skipped_as(Self::spec_skip(data@), data@, r),
    ;
}

/// The value of two bytes in big-endian order.
pub open spec fn spec_be16(s: Seq<u8>) -> int {
    s[0] * 0x100 + s[1]
}

/// The value of three bytes in big-endian order.
pub open spec fn spec_be24(s: Seq<u8>) -> int {
    s[0] * 0x1_0000 + s[1] * 0x100 + s[2]
}

/// The value of four bytes in big-endian order.
pub open spec fn spec_be32(s: Seq<u8>) -> int {
    s[0] * 0x100_0000 + s[1] * 0x1_0000 + s[2] * 0x100 + s[3]
}

/// The value of eight bytes in big-endian order.
pub open spec fn spec_be64(s: Seq<u8>) -> int {
    s[0] * 0x100_0000_0000_0000 + s[1] * 0x1_0000_0000_0000 + s[2] * 0x100_0000_0000 + s[3]
        * 0x1_0000_0000 + s[4] * 0x100_0000 + s[5] * 0x1_0000 + s[6] * 0x100 + s[7]
}

/// Splits `data` after its first `n` bytes.
pub fn split_prefix<'a>(data: &'a [u8], n: usize) -> (r: (&'a [u8], &'a [u8]))
    requires
        n <= data@.len(),
    ensures
        r.0@ == data@.take(n as int),
        r.1@ == data@.skip(n as int),
{
    let (a, b) = data.split_at(n);
    proof {
        assert(a@ =~= data@.take(n as int));
        assert(b@ =~= data@.skip(n as int));
    }
    (a, b)
}

impl<'de> TryParse<'de> for () {
    open spec fn spec_parse(data: Seq<u8>) -> ParseOutcome<()> {
        Ok(((), 0))
    }

    open spec fn spec_skip(data: Seq<u8>) -> Result<nat, Alert> {
        Ok(0)
    }

    proof fn lemma_parse_bounds(data: Seq<u8>) {
    }

    fn try_parse(data: &'de [u8]) -> (r: Result<((), &'de [u8]), Error>) {
        proof {
            assert(data@.skip(0) =~= data@);
        }
        Ok(((), data))
    }

    fn try_skip(data: &'de [u8]) -> (r: Result<&'de [u8], Error>) {
        proof {
            assert(data@.skip(0) =~= data@);
        }
        Ok(data)
    }
}

impl<'de> TryParse<'de> for u8 {
    open spec fn spec_parse(data: Seq<u8>) -> ParseOutcome<u8> {
        if data.len() >= 1 {
            Ok((data[0], 1))
        } else {
            Err(Alert::spec_decode_error())
        }
    }

    open spec fn spec_skip(data: Seq<u8>) -> Result<nat, Alert> {
        if data.len() >= 1 {
            Ok(1)
        } else {
            Err(Alert::spec_decode_error())
        }
    }

    proof fn lemma_parse_bounds(data: Seq<u8>) {
    }

    fn try_parse(data: &'de [u8]) -> (r: Result<(u8, &'de [u8]), Error>) {
        if data.len() < 1 {
            return Err(Error::unexpected_eof());
        }
        let (_, rest) = split_prefix(data, 1);
        Ok((data[0], rest))
    }

    fn try_skip(data: &'de [u8]) -> (r: Result<&'de [u8], Error>) {
        match Self::try_parse(data) {
            Ok((_, rest)) => Ok(rest),
            Err(e) => Err(e),
        }
    }
}

impl<'de> TryParse<'de> for u16 {
    open spec fn spec_parse(data: Seq<u8>) -> ParseOutcome<u16> {
        if data.len() >= 2 {
            Ok((spec_be16(data) as u16, 2))
        } else {
            Err(Alert::spec_decode_error())
        }
    }

    open spec fn spec_skip(data: Seq<u8>) -> Result<nat, Alert> {
        if data.len() >= 2 {
            Ok(2)
        } else {
            Err(Alert::spec_decode_error())
        }
    }

    proof fn lemma_parse_bounds(data: Seq<u8>) {
    }

    fn try_parse(data: &'de [u8]) -> (r: Result<(u16, &'de [u8]), Error>) {
        if data.len() < 2 {
            return Err(Error::unexpected_eof());
        }
        let v: u16 = (data[0] as u16) * 0x100 + (data[1] as u16);
        let (_, rest) = split_prefix(data, 2);
        Ok((v, rest))
    }

    fn try_skip(data: &'de [u8]) -> (r: Result<&'de [u8], Error>) {
        match Self::try_parse(data) {
            Ok((_, rest)) => Ok(rest),
            Err(e) => Err(e),
        }
    }
}

impl<'de> TryParse<'de> for u32 {
    open spec fn spec_parse(data: Seq<u8>) -> ParseOutcome<u32> {
        if data.len() >= 4 {
            Ok((spec_be32(data) as u32, 4))
        } else {
            Err(Alert::spec_decode_error())
        }
    }

    open spec fn spec_skip(data: Seq<u8>) -> Result<nat, Alert> {
        if data.len() >= 4 {
            Ok(4)
        } else {
            Err(Alert::spec_decode_error())
        }
    }

    proof fn lemma_parse_bounds(data: Seq<u8>) {
    }

    fn try_parse(data: &'de [u8]) -> (r: Result<(u32, &'de [u8]), Error>) {
        if data.len() < 4 {
            return Err(Error::unexpected_eof());
        }
        let v: u32 = (data[0] as u32) * 0x100_0000 + (data[1] as u32) * 0x1_0000 + (data[2] as u32)
            * 0x100 + (data[3] as u32);
        let (_, rest) = split_prefix(data, 4);
        Ok((v, rest))
    }

    fn try_skip(data: &'de [u8]) -> (r: Result<&'de [u8], Error>) {
        match Self::try_parse(data) {
            Ok((_, rest)) => Ok(rest),
            Err(e) => Err(e),
        }
    }
}

impl<'de> TryParse<'de> for u64 {
    open spec fn spec_parse(data: Seq<u8>) -> ParseOutcome<u64> {
        if data.len() >= 8 {
            Ok((spec_be64(data) as u64, 8))
        } else {
            Err(Alert::spec_decode_error())
        }
    }

    open spec fn spec_skip(data: Seq<u8>) -> Result<nat, Alert> {
        if data.len() >= 8 {
            Ok(8)
        } else {
            Err(Alert::spec_decode_error())
        }
    }

    proof fn lemma_parse_bounds(data: Seq<u8>) {
    }

    fn try_parse(data: &'de [u8]) -> (r: Result<(u64, &'de [u8]), Error>) {
        if data.len() < 8 {
            return Err(Error::unexpected_eof());
        }
        let v: u64 = be_prefix_of(data, 8);
        proof {
            lemma_be_prefix_8(data@);
        }
        let (_, rest) = split_prefix(data, 8);
        Ok((v, rest))
    }

    fn try_skip(data: &'de [u8]) -> (r: Result<&'de [u8], Error>) {
        match Self::try_parse(data) {
            Ok((_, rest)) => Ok(rest),
            Err(e) => Err(e),
        }
    }
}

/// The value of the first `k` bytes of `data` in big-endian order.
pub fn be_prefix_of(data: &[u8], k: usize) -> (r: u64)
    requires
        k <= 8,
        data@.len() >= k,
    ensures
        r == spec_be_prefix(data@, k as int),
{
    let mut v: u64 = 0;
    let mut i: usize = 0;
    proof {
        lemma_pow256_mono(0, 8);
    }
    while i < k
        invariant
            i <= k,
            k <= 8,
            data@.len() >= k,
            v == spec_be_prefix(data@, i as int),
            v < spec_pow256(i as int),
            spec_pow256(i as int) <= spec_pow256(8),
        decreases k - i,
    {
        proof {
            lemma_pow256_mono(i as int + 1, 8);
            reveal_with_fuel(spec_pow256, 9);
        }
        v = v * 0x100 + data[i] as u64;
        i += 1;
    }
    v
}

/// `256^i <= 256^j` when `i <= j`.
pub proof fn lemma_pow256_mono(i: int, j: int)
    requires
        0 <= i <= j,
    ensures
        spec_pow256(i) <= spec_pow256(j),
        spec_pow256(i) >= 1,
    decreases j,
{
    if j > 0 && i < j {
        lemma_pow256_mono(i, j - 1);
    }
    if j > 0 {
        lemma_pow256_mono(0, j - 1);
    }
}

/// The eight-byte value read by the generic reader is the big-endian
/// value of the bytes.
pub proof fn lemma_be_prefix_8(s: Seq<u8>)
    requires
        s.len() >= 8,
    ensures
        spec_be_prefix(s, 8) == spec_be64(s),
{
    reveal_with_fuel(spec_be_prefix, 9);
}

/// `256` to the power `k`.
pub open spec fn spec_pow256(k: int) -> int
    decreases k,
{
    if k <= 0 {
        1
    } else {
        256 * spec_pow256(k - 1)
    }
}

/// The value of the first `k` bytes of `s` in big-endian order.
pub open spec fn spec_be_prefix(s: Seq<u8>, k: int) -> int
    decreases k,
{
    if k <= 0 {
        0
    } else {
        spec_be_prefix(s, k - 1) * 256 + s[k - 1]
    }
}

impl<'de, const N: usize> TryParse<'de> for [u8; N] {
    open spec fn spec_parse(data: Seq<u8>) -> ParseOutcome<Seq<u8>> {
        if data.len() >= N {
            Ok((data.take(N as int), N as nat))
        } else {
            Err(Alert::spec_decode_error())
        }
    }

    open spec fn spec_skip(data: Seq<u8>) -> Result<nat, Alert> {
        if data.len() >= N {
            Ok(N as nat)
        } else {
            Err(Alert::spec_decode_error())
        }
    }

    proof fn lemma_parse_bounds(data: Seq<u8>) {
    }

    fn try_parse(data: &'de [u8]) -> (r: Result<([u8; N], &'de [u8]), Error>) {
        if data.len() < N {
            return Err(Error::unexpected_eof());
        }
        let (head, rest) = split_prefix(data, N);
        Ok((copy_array(head), rest))
    }

    fn try_skip(data: &'de [u8]) -> (r: Result<&'de [u8], Error>) {
        if data.len() < N {
            return Err(Error::unexpected_eof());
        }
        let (_, rest) = split_prefix(data, N);
        Ok(rest)
    }
}

/// Copies `data` into an array of the same length.
pub fn copy_array<const N: usize>(data: &[u8]) -> (r: [u8; N])
    requires
        data@.len() == N,
    ensures
        r@ == data@,
{
    let mut out = [0u8; N];
    let mut i: usize = 0;
    while i < N
        invariant
            i <= N,
            data@.len() == N,
            out@.len() == N,
            forall|j: int| 0 <= j < i ==> out@[j] == data@[j],
        decreases N - i,
    {
        out[i] = data[i];
        i += 1;
    }
    proof {
        assert(out@ =~= data@);
    }
    out
}

} // verus!
