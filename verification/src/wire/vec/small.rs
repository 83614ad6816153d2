use core::marker::PhantomData;

use vstd::prelude::*;

use crate::{
    util::ct_eq_bytes,
    wire::{
        alert::Alert,
        encode::{spec_then, spec_write_fixed, EncBuf, EncState, TryEncode},
        error::Error,
        parse::{split_prefix, ParseOutcome, TryParse},
        size::{Object, Size},
        vec::{
            large::{
                slice_eq, spec_advance_by, spec_size_hint, spec_try_count, spec_try_last,
                spec_try_len, spec_try_next, spec_try_next_rest, spec_try_nth, spec_vector_max,
            },
            read_length, spec_vector_parse, spec_write_length, write_length,
        },
    },
};

verus! {

/// A small variable-length vector, held inline.
///
/// - `T` is the type of data stored in the vector.
/// - `MIN` is the minimum length in bytes of the vector.
/// - `MAX` is the maximum length in bytes of the vector.
#[derive(Debug)]
pub struct SmallVec<T, const MIN: usize, const MAX: usize> {
    data: [u8; MAX],
    len: usize,
    _marker: PhantomData<T>,
}

impl<T, const MIN: usize, const MAX: usize> Clone for SmallVec<T, MIN, MAX> {
    fn clone(&self) -> (r: Self)
        ensures
            r@ == self@,
    {
        proof {
            use_type_invariant(self);
        }
        Self { data: self.data, len: self.len, _marker: PhantomData }
    }
}

impl<T, const MIN: usize, const MAX: usize> Copy for SmallVec<T, MIN, MAX> {

}

impl<T, const MIN: usize, const MAX: usize> View for SmallVec<T, MIN, MAX> {
    type V = Seq<u8>;

    closed spec fn view(&self) -> Seq<u8> {
        self.data@.take(self.len as int)
    }
}

impl<T, const MIN: usize, const MAX: usize> SmallVec<T, MIN, MAX> {
    /// The length lies within the inline storage.
    #[verifier::type_invariant]
    closed spec fn inv(self) -> bool {
        self.len <= MAX
    }

    /// Creates a vector from inline storage of which the first `len`
    /// bytes are used.
    pub(crate) fn new(data: [u8; MAX], len: usize) -> (r: Self)
        requires
            MIN <= MAX,
            len <= MAX,
        ensures
            r@ == data@.take(len as int),
    {
        Self { data, len, _marker: PhantomData }
    }

    /// Returns the bytes of the vector.
    pub fn as_slice(&self) -> (r: &[u8])
        ensures
            r@ == self@,
    {
        proof {
            use_type_invariant(self);
        }
        let r = self.data.as_slice();
        let (head, _) = split_prefix(r, self.len);
        head
    }

    /// Reports whether the vector's bytes are `other`.
    pub fn eq_bytes(&self, other: &[u8]) -> (r: bool)
        ensures
            r == (self@ == other@),
    {
        slice_eq(self.as_slice(), other)
    }

    /// Reports in constant time whether two vectors hold the same bytes.
    pub fn ct_eq(&self, other: &Self) -> (r: bool)
        ensures
            r == (self@ == other@),
    {
        ct_eq_bytes(self.as_slice(), other.as_slice())
    }
}

impl<const MIN: usize, const MAX: usize> SmallVec<u8, MIN, MAX> {
    /// Returns an iterator over the vector's bytes.
    pub(crate) fn iter(&self) -> (r: IntoIter<u8, MAX>)
        ensures
            r@ == self@,
    {
        proof {
            use_type_invariant(self);
        }
        IntoIter::new(self.data, self.len)
    }

    /// Returns an iterator over the vector's bytes that reports bytes
    /// that do not parse.
    pub(crate) fn try_iter(&self) -> (r: TryIntoIter<u8, MAX>)
        ensures
            r@ == self@,
    {
        proof {
            use_type_invariant(self);
        }
        TryIntoIter::new(self.data, self.len)
    }

    /// Turns the vector into an iterator over its bytes.
    pub fn into_iter(self) -> (r: IntoIter<u8, MAX>)
        ensures
            r@ == self@,
    {
        self.iter()
    }
}

impl<T, const MIN: usize, const MAX: usize> Object for SmallVec<T, MIN, MAX> {
    open spec fn spec_size() -> (nat, nat) {
        (MIN as nat, spec_vector_max(MIN as nat, MAX as nat))
    }

    fn size() -> (r: Size) {
        Size::new(
            MIN,
            if MAX < MIN {
                MIN
            } else {
                MAX
            },
        )
    }
}

impl<'de, T: Object, const MIN: usize, const MAX: usize> TryParse<'de> for SmallVec<T, MIN, MAX> {
    open spec fn spec_parse(data: Seq<u8>) -> ParseOutcome<Seq<u8>> {
        spec_vector_parse(data, MIN as nat, MAX as nat, T::spec_size())
    }

    open spec fn spec_skip(data: Seq<u8>) -> Result<nat, Alert> {
        match Self::spec_parse(data) {
            Ok((_, n)) => Ok(n),
            Err(a) => Err(a),
        }
    }

    proof fn lemma_parse_bounds(data: Seq<u8>) {
    }

    fn try_parse(data: &'de [u8]) -> (r: Result<(Self, &'de [u8]), Error>) {
        let (len, rest) = match read_length(data, MAX) {
            Ok(x) => x,
            Err(e) => return Err(e),
        };
        if len < MIN {
            return Err(Error::unexpected_eof());
        }
        if len > MAX {
            return Err(Error::decode_error("vector length too large"));
        }
        // RFC 8446: "The length of an encoded vector must be an exact
        // multiple of the length of a single element."
        let elem = T::size();
        match elem.fixed() {
            Some(size) => {
                if size != 0 && len % size != 0 {
                    return Err(Error::decode_error("length must be a multiple of the element size"));
                }
            },
            None => {},
        }
        if rest.len() < len {
            return Err(Error::unexpected_eof());
        }
        let (data2, rest2) = split_prefix(rest, len);
        if data2.len() != 0 && data2.len() < elem.min() {
            // Not enough data for at least one element.
            return Err(Error::unexpected_eof());
        }
        let mut inline = [0u8; MAX];
        let mut i: usize = 0;
        while i < len
            invariant
                i <= len,
                len <= MAX,
                data2@.len() == len,
                inline@.len() == MAX,
                forall|j: int| 0 <= j < i ==> inline@[j] == data2@[j],
            decreases len - i,
        {
            inline[i] = data2[i];
            i += 1;
        }
        proof {
            let k = data@.len() - rest@.len();
            assert(data2@ =~= data@.subrange(k, k + len));
            assert(inline@.take(len as int) =~= data2@);
            assert(rest2@ =~= data@.skip(k + len));
        }
        Ok((Self::new(inline, len), rest2))
    }

    fn try_skip(data: &'de [u8]) -> (r: Result<&'de [u8], Error>) {
        match Self::try_parse(data) {
            Ok((_, rest)) => Ok(rest),
            Err(e) => Err(e),
        }
    }
}

impl<T, const MIN: usize, const MAX: usize> TryEncode for SmallVec<T, MIN, MAX> {
    open spec fn spec_encode(v: Seq<u8>, s: EncState) -> (EncState, Result<(), Alert>) {
        spec_then(
            spec_write_length(s, MAX as nat, v.len()),
            |s1: EncState| spec_write_fixed(s1, v),
        )
    }

    fn try_encode(&self, out: &mut EncBuf<'_>) -> (r: Result<(), Error>) {
        let bytes = self.as_slice();
        match write_length::<MIN, MAX>(out, bytes.len()) {
            Ok(()) => {},
            Err(e) => return Err(e),
        }
        out.write(bytes)
    }
}

/// An iterator over the bytes of a [`SmallVec`].
#[derive(Debug)]
pub struct IntoIter<T, const MAX: usize> {
    iter: TryIntoIter<T, MAX>,
}

impl<T, const MAX: usize> View for IntoIter<T, MAX> {
    type V = Seq<u8>;

    closed spec fn view(&self) -> Seq<u8> {
        self.iter@
    }
}

impl<T, const MAX: usize> IntoIter<T, MAX> {
    /// Creates an iterator over the first `len` bytes of `data`.
    pub(crate) fn new(data: [u8; MAX], len: usize) -> (r: Self)
        requires
            len <= MAX,
        ensures
            r@ == data@.take(len as int),
    {
        Self { iter: TryIntoIter::new(data, len) }
    }

    /// [`Clone`], but for iterators over elements of any type.
    pub(crate) fn const_clone(&self) -> (r: Self)
        ensures
            r@ == self@,
    {
        Self { iter: self.iter.const_clone() }
    }
}

impl<const MAX: usize> IntoIter<u8, MAX> {
    /// Returns the next byte, or `None` at the end.
    pub fn next(&mut self) -> (r: Option<u8>)
        ensures
            old(self)@.len() == 0 ==> r is None && final(self)@ == old(self)@,
            old(self)@.len() > 0 ==> r == Some(old(self)@[0]) && final(self)@ == old(self)@.drop_first(),
    {
        match self.iter.next() {
            Some(Ok(v)) => Some(v),
            _ => None,
        }
    }

    /// Returns the number of bytes left.
    pub fn count(self) -> (r: usize)
        ensures
            r == self@.len(),
    {
        self.iter.count()
    }

    /// Returns the last byte.
    pub fn last(self) -> (r: Option<u8>)
        ensures
            self@.len() == 0 ==> r is None,
            self@.len() > 0 ==> r == Some(self@.last()),
    {
        match self.iter.last() {
            Some(Ok(v)) => Some(v),
            _ => None,
        }
    }

    /// Returns the bounds on the number of bytes left.
    pub fn size_hint(&self) -> (r: (usize, Option<usize>))
        ensures
            r == (self@.len() as usize, Some(self@.len() as usize)),
    {
        self.iter.size_hint()
    }
}

/// An iterator over the bytes of a [`SmallVec`] that reports bytes that
/// do not parse.
#[derive(Debug)]
pub struct TryIntoIter<T, const MAX: usize> {
    data: [u8; MAX],
    start: usize,
    end: usize,
    _marker: PhantomData<T>,
}

impl<T, const MAX: usize> View for TryIntoIter<T, MAX> {
    type V = Seq<u8>;

    closed spec fn view(&self) -> Seq<u8> {
        if self.end > MAX || self.start > self.end {
            Seq::empty()
        } else {
            self.data@.subrange(self.start as int, self.end as int)
        }
    }
}

impl<T, const MAX: usize> TryIntoIter<T, MAX> {
    /// Creates an iterator over the first `len` bytes of `data`.
    pub(crate) fn new(data: [u8; MAX], len: usize) -> (r: Self)
        requires
            len <= MAX,
        ensures
            r@ == data@.take(len as int),
    {
        let r = Self { data, start: 0, end: len, _marker: PhantomData };
        proof {
            assert(r@ =~= data@.take(len as int));
        }
        r
    }

    /// [`Clone`], but for iterators over elements of any type.
    pub(crate) fn const_clone(&self) -> (r: Self)
        ensures
            r@ == self@,
    {
        Self { data: self.data, start: self.start, end: self.end, _marker: PhantomData }
    }

    /// Returns the bytes left.
    fn as_slice(&self) -> (r: &[u8])
        ensures
            r@ == self@,
    {
        if self.end > MAX || self.start > self.end {
            let e: &[u8] = &[];
            proof {
                assert(e@ =~= Seq::<u8>::empty());
            }
            return e;
        }
        let all = self.data.as_slice();
        let (head, _) = split_prefix(all, self.end);
        let (_, rest) = split_prefix(head, self.start);
        proof {
            assert(rest@ =~= self@);
        }
        rest
    }

    /// Moves the start past `n` more bytes.
    fn bump(&mut self, n: usize)
        requires
            n <= old(self)@.len(),
        ensures
            final(self)@ == old(self)@.skip(n as int),
    {
        if self.end > MAX || self.start > self.end {
            proof {
                assert(n == 0);
                assert(old(self)@.skip(0) =~= old(self)@);
            }
            return ;
        }
        self.start = self.start + n;
        proof {
            assert(final(self)@ =~= old(self)@.skip(n as int));
        }
    }
}

/// An iterator over bytes yields each byte left.
proof fn lemma_u8_count(data: Seq<u8>)
    ensures
        spec_try_count::<u8>(data) == data.len(),
    decreases data.len(),
{
    if data.len() > 0 {
        lemma_u8_count(data.skip(1));
    }
}

impl<const MAX: usize> TryIntoIter<u8, MAX> {
    /// Returns the number of bytes left.
    fn len(&self) -> (r: Option<usize>)
        ensures
            r == Some(self@.len() as usize),
            spec_try_len::<u8>(self@) == Some(self@.len()),
    {
        Some(self.as_slice().len())
    }

    /// Reports whether no bytes are left.
    fn is_empty(&self) -> (r: bool)
        ensures
            r == (self@.len() == 0),
    {
        self.as_slice().len() == 0
    }

    /// Advances the iterator by `n` bytes; see `Iterator::advance_by`.
    fn advance_by(&mut self, n: usize) -> (r: Result<(), usize>)
        ensures
            (final(self)@, r) == spec_advance_by::<u8>(old(self)@, n as nat),
    {
        let remaining = self.as_slice().len();
        if n > remaining {
            // Out of range; the iterator is now empty.
            self.start = MAX;
            self.end = MAX;
            proof {
                assert(final(self)@ =~= Seq::<u8>::empty());
            }
            return Err(n - remaining);
        }
        self.bump(n);
        Ok(())
    }

    /// Like `next`, but skips the byte instead of reading it.
    fn skip_next(&mut self) -> (r: Option<Result<(), Error>>)
        ensures
            old(self)@.len() == 0 ==> r is None && final(self)@ == old(self)@,
            old(self)@.len() > 0 ==> r == Some(Ok::<(), Error>(())) && final(self)@ == old(self)@.drop_first(),
    {
        if self.is_empty() {
            return None;
        }
        self.bump(1);
        Some(Ok(()))
    }

    /// Returns the next byte, or `None` at the end.
    pub fn next(&mut self) -> (r: Option<Result<u8, Error>>)
        ensures
            match spec_try_next::<u8>(old(self)@) {
                None => r is None,
                Some(Ok(v)) => r matches Some(Ok(x)) && x == v,
                Some(Err(a)) => r matches Some(Err(e)) && e@ == a,
            },
            final(self)@ == spec_try_next_rest::<u8>(old(self)@),
            old(self)@.len() == 0 ==> r is None && final(self)@ == old(self)@,
            old(self)@.len() > 0 ==> (r matches Some(Ok(x)) && x == old(self)@[0] && final(self)@
                == old(self)@.drop_first()),
    {
        let s = self.as_slice();
        if s.len() == 0 {
            return None;
        }
        let b = s[0];
        self.bump(1);
        Some(Ok(b))
    }

    /// Returns the number of bytes left.
    pub fn count(self) -> (r: usize)
        ensures
            r == spec_try_count::<u8>(self@),
            r == self@.len(),
    {
        proof {
            lemma_u8_count(self@);
        }
        match self.len() {
            Some(n) => n,
            None => 0,
        }
    }

    /// Returns the last byte, or `None` if there is none.
    pub fn last(self) -> (r: Option<Result<u8, Error>>)
        ensures
            match spec_try_last::<u8>(self@) {
                None => r is None,
                Some(Ok(v)) => r matches Some(Ok(x)) && x == v,
                Some(Err(a)) => r matches Some(Err(e)) && e@ == a,
            },
            self@.len() == 0 ==> r is None,
            self@.len() > 0 ==> (r matches Some(Ok(x)) && x == self@.last()),
    {
        let mut it = self.const_clone();
        let n = it.as_slice().len();
        if n == 0 {
            return None;
        }
        proof {
            assert(it@.skip(n - 1)[0] == it@.last());
        }
        it.nth(n - 1)
    }

    /// Returns the `n`th byte.
    pub fn nth(&mut self, n: usize) -> (r: Option<Result<u8, Error>>)
        ensures
            match spec_try_nth::<u8>(old(self)@, n as nat) {
                None => r is None,
                Some(Ok(v)) => r matches Some(Ok(x)) && x == v,
                Some(Err(a)) => r matches Some(Err(e)) && e@ == a,
            },
            n < old(self)@.len() ==> (r matches Some(Ok(x)) && x == old(self)@[n as int]),
            n >= old(self)@.len() ==> r is None,
    {
        match self.advance_by(n) {
            Ok(()) => {},
            Err(_) => return None,
        }
        self.next()
    }

    /// Returns the bounds on the number of bytes left.
    pub fn size_hint(&self) -> (r: (usize, Option<usize>))
        ensures
            r == spec_size_hint::<u8>(self@),
            r == (self@.len() as usize, Some(self@.len() as usize)),
    {
        let n = self.as_slice().len();
        (n, Some(n))
    }
}

} // verus!
