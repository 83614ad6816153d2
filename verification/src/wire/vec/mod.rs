//! Variable length vectors.

mod large;
mod small;

use vstd::prelude::*;

pub use crate::wire::vec::{
    large::{
        lemma_iter_items_len, spec_advance_by, spec_iter_empty, spec_iter_items, spec_size_hint, lemma_items_count, lemma_try_count_len, lemma_iter_valid_encodings, spec_concat,
        spec_try_count, spec_try_last, spec_try_len, spec_try_next, spec_try_next_rest, Iter,
        TryIter, Vector, slice_eq,
    },
    small::{IntoIter, SmallVec, TryIntoIter},
};
use crate::wire::{
    alert::Alert,
    encode::{spec_write_fixed, EncBuf, EncState},
    error::Error,
    parse::{be_prefix_of, spec_be_prefix, spec_pow256, split_prefix, ParseOutcome},
};

verus! {

/// The number of bytes of the length that precedes a vector whose
/// length is at most `max`: the fewest bytes that can hold `max`.
pub open spec fn spec_length_size(max: nat) -> nat {
    if max == 0 {
        0
    } else if max < 0x100 {
        1
    } else if max < 0x1_0000 {
        2
    } else if max < 0x100_0000 {
        3
    } else if max < 0x1_0000_0000 {
        4
    } else if max < 0x100_0000_0000 {
        5
    } else if max < 0x1_0000_0000_0000 {
        6
    } else if max < 0x100_0000_0000_0000 {
        7
    } else {
        8
    }
}

/// Returns the number of bytes of the length that precedes a vector
/// whose length is at most `max`.
pub fn length_size(max: usize) -> (r: usize)
    ensures
        r == spec_length_size(max as nat),
        r <= 8,
{
    let m = max as u64;
    if m == 0 {
        0
    } else if m < 0x100 {
        1
    } else if m < 0x1_0000 {
        2
    } else if m < 0x100_0000 {
        3
    } else if m < 0x1_0000_0000 {
        4
    } else if m < 0x100_0000_0000 {
        5
    } else if m < 0x1_0000_0000_0000 {
        6
    } else if m < 0x100_0000_0000_0000 {
        7
    } else {
        8
    }
}

/// What reading the length of a vector whose length is at most `max`
/// from the start of `data` gives: the length and the number of bytes
/// it took.
///
/// Lengths of one, two, four or eight bytes can be read; a length that
/// does not fit in a `usize` cannot.
pub open spec fn spec_read_length(data: Seq<u8>, max: nat) -> ParseOutcome<nat> {
    let k = spec_length_size(max);
    if data.len() < k {
        Err(Alert::spec_decode_error())
    } else if !(k == 1 || k == 2 || k == 4 || k == 8) {
        Err(Alert::spec_internal_error())
    } else if spec_be_prefix(data, k as int) > usize::MAX {
        Err(Alert::spec_internal_error())
    } else {
        Ok((spec_be_prefix(data, k as int) as nat, k))
    }
}

/// What parsing a vector whose length lies in `[min, max]` from the
/// start of `data` gives, given the minimum and maximum size of an
/// element: its bytes and the number of bytes it took, length included.
pub open spec fn spec_vector_parse(data: Seq<u8>, min: nat, max: nat, elem: (nat, nat)) -> ParseOutcome<
    Seq<u8>,
> {
    match spec_read_length(data, max) {
        Err(a) => Err(a),
        Ok((len, k)) => if len < min {
            Err(Alert::spec_decode_error())
        } else if len > max {
            Err(Alert::spec_decode_error())
        } else if elem.0 == elem.1 && elem.0 != 0 && len % elem.0 != 0 {
            Err(Alert::spec_decode_error())
        } else if data.len() - k < len {
            Err(Alert::spec_decode_error())
        } else if len != 0 && len < elem.0 {
            Err(Alert::spec_decode_error())
        } else {
            Ok((data.subrange(k as int, (k + len) as int), k + len))
        },
    }
}

/// Reads the length of a vector whose length is at most `max` and
/// returns it and the data after it.
pub(crate) fn read_length(data: &[u8], max: usize) -> (r: Result<(usize, &[u8]), Error>)
    ensures
        match r {
            Ok((len, rest)) => spec_read_length(data@, max as nat) matches Ok((l, k)) && len == l
                && k <= data@.len() && rest@ == data@.skip(k as int),
            Err(e) => spec_read_length(data@, max as nat) matches Err(a) && e@ == a,
        },
{
    let k = length_size(max);
    if data.len() < k {
        return Err(Error::unexpected_eof());
    }
    if !(k == 1 || k == 2 || k == 4 || k == 8) {
        return Err(Error::internal_error("unreachable pattern"));
    }
    let len64 = be_prefix_of(data, k);
    if len64 > usize::MAX as u64 {
        return Err(Error::internal_error("`len64` should not overflow"));
    }
    let (_, rest) = split_prefix(data, k);
    Ok((len64 as usize, rest))
}

/// The big-endian bytes of `n` in `k` bytes.
pub open spec fn spec_be_bytes(n: nat, k: nat) -> Seq<u8>
    decreases k,
{
    if k == 0 {
        seq![]
    } else {
        spec_be_bytes(n / 256, (k - 1) as nat).push((n % 256) as u8)
    }
}

/// Returns the big-endian bytes of `n` in `k` bytes.
pub fn be_bytes(n: u64, k: usize) -> (r: Vec<u8>)
    ensures
        r@ == spec_be_bytes(n as nat, k as nat),
    decreases k,
{
    if k == 0 {
        Vec::new()
    } else {
        let mut v = be_bytes(n / 256, k - 1);
        v.push((n % 256) as u8);
        v
    }
}

/// What writing the length `n` of a vector whose length is at most
/// `max` does to an output buffer in state `s`.
///
/// Lengths of one, two, three, four or eight bytes can be written; a
/// length that does not fit in its bytes cannot.
pub open spec fn spec_write_length(s: EncState, max: nat, n: nat) -> (EncState, Result<(), Alert>) {
    let k = spec_length_size(max);
    if !(k == 1 || k == 2 || k == 3 || k == 4 || k == 8) {
        (s, Err(Alert::spec_internal_error()))
    } else if n >= spec_pow256(k as int) {
        (s, Err(Alert::spec_internal_error()))
    } else {
        spec_write_fixed(s, spec_be_bytes(n, k))
    }
}

/// Writes the length `n` of a vector whose length lies in `[MIN, MAX]`.
pub(crate) fn write_length<const MIN: usize, const MAX: usize>(out: &mut EncBuf<'_>, n: usize) -> (r:
    Result<(), Error>)
    requires
        crate::wire::encode::enc_wf(old(out)@),
    ensures
        crate::wire::encode::enc_wf(final(out)@),
        final(out)@.0.len() == old(out)@.0.len(),
        spec_write_length(old(out)@, MAX as nat, n as nat) == (
            final(out)@,
            crate::wire::encode::enc_result(r),
        ),
{
    let k = length_size(MAX);
    if !(k == 1 || k == 2 || k == 3 || k == 4 || k == 8) {
        return Err(Error::internal_error("unreachable pattern"));
    }
    proof {
        reveal_with_fuel(spec_pow256, 9);
    }
    let limit: u128 = if k == 1 {
        0x100
    } else if k == 2 {
        0x1_0000
    } else if k == 3 {
        0x100_0000
    } else if k == 4 {
        0x1_0000_0000
    } else {
        0x1_0000_0000_0000_0000
    };
    if n as u128 >= limit {
        return Err(Error::internal_error("`len` is an invalid length"));
    }
    let bytes = be_bytes(n as u64, k);
    out.write_exact(bytes.as_slice())
}

/// Reading back the bytes of a value that fits in them gives the value.
pub proof fn lemma_be_bytes_roundtrip(n: nat, k: nat)
    requires
        n < spec_pow256(k as int),
    ensures
        spec_be_bytes(n, k).len() == k,
        spec_be_prefix(spec_be_bytes(n, k), k as int) == n,
    decreases k,
{
    if k > 0 {
        assert(n / 256 < spec_pow256(k - 1));
        lemma_be_bytes_roundtrip(n / 256, (k - 1) as nat);
        let b = spec_be_bytes(n / 256, (k - 1) as nat);
        lemma_be_prefix_push(b, (n % 256) as u8, (k - 1) as int);
    } else {
        assert(n == 0);
    }
}

/// The value of a prefix does not depend on what comes after it.
pub proof fn lemma_be_prefix_push(s: Seq<u8>, b: u8, k: int)
    requires
        0 <= k <= s.len(),
    ensures
        spec_be_prefix(s.push(b), k) == spec_be_prefix(s, k),
    decreases k,
{
    if k > 0 {
        lemma_be_prefix_push(s, b, k - 1);
    }
}

} // verus!
