use core::marker::PhantomData;

use vstd::prelude::*;

use crate::{
    util::ct_eq_bytes,
    wire::{
        alert::Alert,
        encode::{enc_wf, spec_then, spec_write_fixed, EncBuf, EncState, TryEncode},
        error::Error,
        parse::{split_prefix, ParseOutcome, TryParse},
        size::{Object, Size},
        vec::{read_length, spec_vector_parse, spec_write_length, write_length},
    },
};

verus! {

/// A variable-length vector.
///
/// - `T` is the type of data stored in the vector.
/// - `MIN` is the minimum length in bytes of the vector.
/// - `MAX` is the maximum length in bytes of the vector.
#[derive(Debug)]
pub struct Vector<'a, T, const MIN: usize, const MAX: usize> {
    data: &'a [u8],
    _marker: PhantomData<T>,
}

impl<'a, T, const MIN: usize, const MAX: usize> Clone for Vector<'a, T, MIN, MAX> {
    fn clone(&self) -> (r: Self)
        ensures
            r@ == self@,
    {
        proof {
            use_type_invariant(self);
        }
        Self { data: self.data, _marker: PhantomData }
    }
}

impl<'a, T, const MIN: usize, const MAX: usize> Copy for Vector<'a, T, MIN, MAX> {

}

impl<'a, T, const MIN: usize, const MAX: usize> View for Vector<'a, T, MIN, MAX> {
    type V = Seq<u8>;

    closed spec fn view(&self) -> Seq<u8> {
        self.data@
    }
}

/// The upper bound of a vector's size; a vector type whose bounds are
/// reversed can hold only vectors of length `MIN`.
pub open spec fn spec_vector_max(min: nat, max: nat) -> nat {
    if max < min {
        min
    } else {
        max
    }
}

impl<'a, T, const MIN: usize, const MAX: usize> Vector<'a, T, MIN, MAX> {
    /// A vector holds between `MIN` and `MAX` bytes.
    #[verifier::type_invariant]
    closed spec fn inv(self) -> bool {
        MIN <= self.data@.len() <= MAX
    }

    /// Returns the bytes of the vector.
    pub fn as_slice(&self) -> (r: &[u8])
        ensures
            r@ == self@,
            MIN <= r@.len() <= MAX,
    {
        proof {
            use_type_invariant(self);
        }
        self.data
    }

    /// Returns an iterator over the vector's elements.
    pub fn iter(&self) -> (r: Iter<'_, T>)
        ensures
            r@ == self@,
    {
        Iter::new(self.data)
    }

    /// Returns an iterator over the vector's elements that reports
    /// elements that do not parse.
    pub fn try_iter(&self) -> (r: TryIter<'_, T>)
        ensures
            r@ == self@,
    {
        TryIter::new(self.data)
    }

    /// Creates a vector from its bytes.
    pub(crate) fn new(data: &'a [u8]) -> (r: Self)
        requires
            MIN <= data@.len() <= MAX,
        ensures
            r@ == data@,
    {
        Self { data, _marker: PhantomData }
    }

    /// Creates a vector from its bytes, which must number between `MIN`
    /// and `MAX`.
    pub(crate) fn try_new(data: &'a [u8]) -> (r: Result<Self, Error>)
        ensures
            match r {
                Ok(v) => v@ == data@,
                Err(e) => e@ == Alert::spec_internal_error(),
            },
            r is Ok <==> MIN <= data@.len() <= MAX,
    {
        if data.len() < MIN || data.len() > MAX {
            Err(Error::internal_error("invalid vector length"))
        } else {
            Ok(Self::new(data))
        }
    }

    /// Returns the bytes of the vector.
    pub(crate) fn into_slice(self) -> (r: &'a [u8])
        ensures
            r@ == self@,
            MIN <= r@.len() <= MAX,
    {
        proof {
            use_type_invariant(self);
        }
        self.data
    }

    /// Turns the vector into an iterator over its elements.
    pub fn into_iter(self) -> (r: Iter<'a, T>)
        ensures
            r@ == self@,
    {
        Iter::new(self.data)
    }

    /// Reinterprets the vector's bytes as elements of another type.
    pub(crate) fn map<U>(self) -> (r: Vector<'a, U, MIN, MAX>)
        ensures
            r@ == self@,
    {
        proof {
            use_type_invariant(self);
        }
        Vector::new(self.data)
    }

    /// Reports whether the vector's bytes are `other`.
    pub fn eq_bytes(&self, other: &[u8]) -> (r: bool)
        ensures
            r == (self@ == other@),
    {
        slice_eq(self.data, other)
    }

    /// Reports in constant time whether two vectors hold the same bytes.
    pub fn ct_eq(&self, other: &Self) -> (r: bool)
        ensures
            r == (self@ == other@),
    {
        ct_eq_bytes(self.data, other.data)
    }
}

impl<'a, T, const MAX: usize> Vector<'a, T, 0, MAX> {
    /// Returns an empty vector.
    pub(crate) fn empty() -> (r: Self)
        ensures
            r@ == Seq::<u8>::empty(),
    {
        let data: &'a [u8] = &[];
        proof {
            assert(data@ =~= Seq::<u8>::empty());
        }
        Self::new(data)
    }
}

/// Reports whether two byte strings are equal.
pub fn slice_eq(a: &[u8], b: &[u8]) -> (r: bool)
    ensures
        r == (a@ == b@),
{
    if a.len() != b.len() {
        return false;
    }
    let mut i: usize = 0;
    while i < a.len()
        invariant
            i <= a@.len(),
            a@.len() == b@.len(),
            forall|j: int| 0 <= j < i ==> a@[j] == b@[j],
        decreases a@.len() - i,
    {
        if a[i] != b[i] {
            return false;
        }
        i += 1;
    }
    proof {
        assert(a@ =~= b@);
    }
    true
}

impl<'a, T: Object, const MIN: usize, const MAX: usize> Object for Vector<'a, T, MIN, MAX> {
    open spec fn spec_size() -> (nat, nat) {
        (MIN as nat, spec_vector_max(MIN as nat, MAX as nat))
    }

    fn size() -> (r: Size) {
        Size::new(
            MIN,
            if MAX < MIN {
                MIN
            } else {
                MAX
            },
        )
    }
}

impl<'de: 'a, 'a, T: Object, const MIN: usize, const MAX: usize> TryParse<'de> for Vector<
    'a,
    T,
    MIN,
    MAX,
> {
    open spec fn spec_parse(data: Seq<u8>) -> ParseOutcome<Seq<u8>> {
        spec_vector_parse(data, MIN as nat, MAX as nat, T::spec_size())
    }

    open spec fn spec_skip(data: Seq<u8>) -> Result<nat, Alert> {
        match Self::spec_parse(data) {
            Ok((_, n)) => Ok(n),
            Err(a) => Err(a),
        }
    }

    proof fn lemma_parse_bounds(data: Seq<u8>) {
    }

    fn try_parse(data: &'de [u8]) -> (r: Result<(Self, &'de [u8]), Error>) {
        let (len, rest) = match read_length(data, MAX) {
            Ok(x) => x,
            Err(e) => return Err(e),
        };
        if len < MIN {
            return Err(Error::unexpected_eof());
        }
        if len > MAX {
            return Err(Error::decode_error("vector length too large"));
        }
        // RFC 8446: "The length of an encoded vector must be an exact
        // multiple of the length of a single element (e.g., a 17-byte
        // vector of uint16 would be illegal)."
        let elem = T::size();
        match elem.fixed() {
            Some(size) => {
                if size != 0 && len % size != 0 {
                    return Err(Error::decode_error("length must be a multiple of the element size"));
                }
            },
            None => {},
        }
        if rest.len() < len {
            return Err(Error::unexpected_eof());
        }
        let (data2, rest2) = split_prefix(rest, len);
        if data2.len() != 0 && data2.len() < elem.min() {
            // Not enough data for at least one element.
            return Err(Error::unexpected_eof());
        }
        proof {
            let k = data@.len() - rest@.len();
            assert(data2@ =~= data@.subrange(k, k + len));
            assert(rest2@ =~= data@.skip(k + len));
        }
        Ok((Self::new(data2), rest2))
    }

    fn try_skip(data: &'de [u8]) -> (r: Result<&'de [u8], Error>) {
        match Self::try_parse(data) {
            Ok((_, rest)) => Ok(rest),
            Err(e) => Err(e),
        }
    }
}

impl<'a, T, const MIN: usize, const MAX: usize> TryEncode for Vector<'a, T, MIN, MAX> {
    open spec fn spec_encode(v: Seq<u8>, s: EncState) -> (EncState, Result<(), Alert>) {
        spec_then(
            spec_write_length(s, MAX as nat, v.len()),
            |s1: EncState| spec_write_fixed(s1, v),
        )
    }

    fn try_encode(&self, out: &mut EncBuf<'_>) -> (r: Result<(), Error>) {
        match write_length::<MIN, MAX>(out, self.data.len()) {
            Ok(()) => {},
            Err(e) => return Err(e),
        }
        out.write(self.data)
    }
}

/// The number of elements left in an iterator over `data`, if the
/// elements have a fixed size.
pub open spec fn spec_try_len<'a, T: TryParse<'a>>(data: Seq<u8>) -> Option<nat> {
    let (min, max) = T::spec_size();
    if min == max {
        if min == 0 {
            Some(0)
        } else {
            Some(data.len() / min)
        }
    } else {
        None
    }
}

/// An iterator over `data` is empty: no bytes are left, or no whole
/// element of a fixed size fits in what is left.
pub open spec fn spec_iter_empty<'a, T: TryParse<'a>>(data: Seq<u8>) -> bool {
    data.len() == 0 || spec_try_len::<T>(data) == Some(0nat)
}

/// The elements that an iterator over `data` yields, up to the end or
/// to the first element that does not parse.
pub open spec fn spec_iter_items<'a, T: TryParse<'a>>(data: Seq<u8>) -> Seq<<T as View>::V>
    decreases data.len(),
{
    if spec_iter_empty::<T>(data) {
        seq![]
    } else {
        match T::spec_parse(data) {
            Ok((v, n)) => if 0 < n <= data.len() {
                seq![v] + spec_iter_items::<T>(data.skip(n as int))
            } else {
                seq![v]
            },
            Err(_) => seq![],
        }
    }
}

/// An iterator over elements that take up some room yields no more
/// elements than there are bytes.
pub proof fn lemma_iter_items_len<'a, T: TryParse<'a>>(data: Seq<u8>)
    requires
        T::spec_size().1 > 0,
    ensures
        spec_iter_items::<T>(data).len() <= data.len(),
    decreases data.len(),
{
    T::lemma_parse_bounds(data);
    if !spec_iter_empty::<T>(data) {
        if let Ok((_, n)) = T::spec_parse(data) {
            lemma_iter_items_len::<T>(data.skip(n as int));
        }
    }
}

/// What skipping up to `n` elements of variable size from `data` gives:
/// the data left and, if the elements ran out first, how many were
/// missing. An element that cannot be skipped is the last one.
pub open spec fn spec_skip_steps<'a, T: TryParse<'a>>(data: Seq<u8>, n: nat) -> (
    Seq<u8>,
    Result<(), usize>,
)
    decreases n,
{
    if n == 0 {
        (data, Ok(()))
    } else if spec_iter_empty::<T>(data) {
        (data, Err(n as usize))
    } else {
        match T::spec_skip(data) {
            Ok(m) => if m <= data.len() {
                spec_skip_steps::<T>(data.skip(m as int), (n - 1) as nat)
            } else {
                spec_skip_steps::<T>(Seq::empty(), (n - 1) as nat)
            },
            Err(_) => spec_skip_steps::<T>(Seq::empty(), (n - 1) as nat),
        }
    }
}

/// What advancing an iterator over `data` by `n` elements gives: the
/// data left and, if fewer than `n` elements were there, how many were
/// missing.
pub open spec fn spec_advance_by<'a, T: TryParse<'a>>(data: Seq<u8>, n: nat) -> (
    Seq<u8>,
    Result<(), usize>,
) {
    let (min, max) = T::spec_size();
    if min == max {
        if min == 0 {
            (data, Err(n as usize))
        } else if n * min > data.len() {
            (Seq::empty(), Err((n - data.len() / min) as usize))
        } else {
            (data.skip((n * min) as int), Ok(()))
        }
    } else {
        spec_skip_steps::<T>(data, n)
    }
}

/// What the next call of `next` on an iterator over `data` yields.
pub open spec fn spec_try_next<'a, T: TryParse<'a>>(data: Seq<u8>) -> Option<
    Result<<T as View>::V, Alert>,
> {
    if spec_iter_empty::<T>(data) {
        None
    } else {
        match T::spec_parse(data) {
            Ok((v, _)) => Some(Ok(v)),
            Err(a) => Some(Err(a)),
        }
    }
}

/// The data left after a call of `next` on an iterator over `data`: an
/// element that does not parse ends the iteration.
pub open spec fn spec_try_next_rest<'a, T: TryParse<'a>>(data: Seq<u8>) -> Seq<u8> {
    if spec_iter_empty::<T>(data) {
        data
    } else {
        match T::spec_parse(data) {
            Ok((_, n)) => data.skip(n as int),
            Err(_) => Seq::empty(),
        }
    }
}

/// The data from which the last element of an iterator over `data` of
/// elements of variable size is parsed, if every element before it can
/// be skipped.
pub open spec fn spec_last_start<'a, T: TryParse<'a>>(data: Seq<u8>) -> Option<Seq<u8>>
    decreases data.len(),
{
    match T::spec_skip(data) {
        Ok(n) => if n == data.len() || n == 0 || n > data.len() {
            Some(data)
        } else {
            spec_last_start::<T>(data.skip(n as int))
        },
        Err(_) => None,
    }
}

/// What `last` on an iterator over `data` yields.
pub open spec fn spec_try_last<'a, T: TryParse<'a>>(data: Seq<u8>) -> Option<
    Result<<T as View>::V, Alert>,
> {
    match spec_try_len::<T>(data) {
        Some(k) => if k == 0 {
            None
        } else {
            spec_try_next::<T>(spec_advance_by::<T>(data, (k - 1) as nat).0)
        },
        None => match spec_last_start::<T>(data) {
            Some(d) => spec_try_next::<T>(d),
            None => None,
        },
    }
}

/// What `nth(n)` on an iterator over `data` yields.
pub open spec fn spec_try_nth<'a, T: TryParse<'a>>(data: Seq<u8>, n: nat) -> Option<
    Result<<T as View>::V, Alert>,
> {
    let (d, res) = spec_advance_by::<T>(data, n);
    match res {
        Ok(()) => spec_try_next::<T>(d),
        Err(_) => None,
    }
}

/// The bounds on the number of elements left in an iterator over
/// `data`.
pub open spec fn spec_size_hint<'a, T: TryParse<'a>>(data: Seq<u8>) -> (usize, Option<usize>) {
    match spec_try_len::<T>(data) {
        Some(k) => (k as usize, Some(k as usize)),
        None => {
            let (min, max) = T::spec_size();
            let lower = if min == 0 {
                0
            } else {
                data.len() / min
            };
            let upper = if max == 0 {
                0
            } else {
                data.len() / max
            };
            (lower as usize, Some(upper as usize))
        },
    }
}

/// The number of items that an iterator over `data` yields before it
/// ends: the elements that parse, one after the other, and then the
/// error of an element that does not parse, if there is one.
pub open spec fn spec_try_count<'a, T: TryParse<'a>>(data: Seq<u8>) -> nat
    decreases data.len(),
{
    if spec_iter_empty::<T>(data) {
        0
    } else {
        match T::spec_parse(data) {
            Ok((_, n)) => if 0 < n <= data.len() {
                1 + spec_try_count::<T>(data.skip(n as int))
            } else {
                1
            },
            Err(_) => 1,
        }
    }
}

/// The concatenation of a list of byte strings, in order.
pub open spec fn spec_concat(encs: Seq<Seq<u8>>) -> Seq<u8>
    decreases encs.len(),
{
    if encs.len() == 0 {
        Seq::empty()
    } else {
        encs[0] + spec_concat(encs.drop_first())
    }
}

/// An iterator over elements of variable size, over `k` encodings one
/// after the other, each of which parses as its value and takes up all
/// of its bytes whatever follows, yields the `k` values in order and no
/// error, and then ends.
pub proof fn lemma_iter_valid_encodings<'a, T: TryParse<'a>>(
    encs: Seq<Seq<u8>>,
    vals: Seq<<T as View>::V>,
)
    requires
        T::spec_size().0 != T::spec_size().1,
        encs.len() == vals.len(),
        forall|i: int| 0 <= i < encs.len() ==> (#[trigger] encs[i]).len() > 0,
        forall|i: int, rest: Seq<u8>|
            0 <= i < encs.len() ==> T::spec_parse(#[trigger] (encs[i] + rest)) == Ok::<
                (<T as View>::V, nat),
                Alert,
            >((vals[i], encs[i].len())),
    ensures
        spec_iter_items::<T>(spec_concat(encs)) == vals,
        spec_try_count::<T>(spec_concat(encs)) == vals.len(),
        spec_try_next::<T>(spec_concat(encs).skip(spec_concat(encs).len() as int)) is None,
    decreases encs.len(),
{
    let data = spec_concat(encs);
    assert(data.skip(data.len() as int) =~= Seq::<u8>::empty());
    if encs.len() > 0 {
        let tail = spec_concat(encs.drop_first());
        assert(T::spec_parse(encs[0] + tail) == Ok::<(<T as View>::V, nat), Alert>(
            (vals[0], encs[0].len()),
        ));
        assert(encs[0].len() > 0);
        assert(data.skip(encs[0].len() as int) =~= tail);
        assert forall|i: int, rest: Seq<u8>|
            0 <= i < encs.drop_first().len() implies T::spec_parse(
            #[trigger] (encs.drop_first()[i] + rest),
        ) == Ok::<(<T as View>::V, nat), Alert>((vals.drop_first()[i], encs.drop_first()[i].len())) by {
            assert(encs.drop_first()[i] == encs[i + 1]);
            assert(T::spec_parse(encs[i + 1] + rest) == Ok::<(<T as View>::V, nat), Alert>(
                (vals[i + 1], encs[i + 1].len()),
            ));
        }
        assert forall|i: int| 0 <= i < encs.drop_first().len() implies (
        #[trigger] encs.drop_first()[i]).len() > 0 by {
            assert(encs.drop_first()[i] == encs[i + 1]);
        }
        lemma_iter_valid_encodings::<T>(encs.drop_first(), vals.drop_first());
        assert(vals =~= seq![vals[0]] + vals.drop_first());
    } else {
        assert(vals =~= Seq::<<T as View>::V>::empty());
    }
}

/// An iterator yields no more items than there are bytes left.
pub proof fn lemma_try_count_len<'a, T: TryParse<'a>>(data: Seq<u8>)
    ensures
        spec_try_count::<T>(data) <= data.len(),
    decreases data.len(),
{
    if !spec_iter_empty::<T>(data) {
        if let Ok((_, n)) = T::spec_parse(data) {
            if 0 < n <= data.len() {
                lemma_try_count_len::<T>(data.skip(n as int));
            }
        }
    }
}

/// The elements that parse are the items that an iterator yields, but
/// for an error at the end.
pub proof fn lemma_items_count<'a, T: TryParse<'a>>(data: Seq<u8>)
    ensures
        spec_iter_items::<T>(data).len() <= spec_try_count::<T>(data) <= spec_iter_items::<T>(
            data,
        ).len() + 1,
    decreases data.len(),
{
    if !spec_iter_empty::<T>(data) {
        if let Ok((_, n)) = T::spec_parse(data) {
            if 0 < n <= data.len() {
                lemma_items_count::<T>(data.skip(n as int));
            }
        }
    }
}

/// An iterator over elements in a [`Vector`].
#[derive(Debug)]
pub struct Iter<'a, T> {
    iter: TryIter<'a, T>,
}

impl<'a, T> Clone for Iter<'a, T> {
    fn clone(&self) -> (r: Self)
        ensures
            r@ == self@,
    {
        self.const_clone()
    }
}

impl<'a, T> View for Iter<'a, T> {
    type V = Seq<u8>;

    closed spec fn view(&self) -> Seq<u8> {
        self.iter@
    }
}

impl<'a, T> Iter<'a, T> {
    /// Creates an iterator over the elements in `data`.
    pub(crate) fn new(data: &'a [u8]) -> (r: Self)
        ensures
            r@ == data@,
    {
        Self { iter: TryIter::new(data) }
    }

    /// Creates an iterator over no elements.
    pub(crate) fn empty() -> (r: Self)
        ensures
            r@ == Seq::<u8>::empty(),
    {
        let data: &'a [u8] = &[];
        proof {
            assert(data@ =~= Seq::<u8>::empty());
        }
        Self::new(data)
    }

    /// [`Clone`], but for iterators over elements of any type.
    pub(crate) fn const_clone(&self) -> (r: Self)
        ensures
            r@ == self@,
    {
        Self { iter: self.iter.const_clone() }
    }

    /// The bytes left to iterate over fit in memory.
    pub proof fn lemma_len(&self)
        ensures
            self@.len() <= usize::MAX,
    {
        self.iter.lemma_len();
    }
}

impl<'a, T: TryParse<'a>> Iter<'a, T> {
    /// Returns the next element, or `None` at the end or at an element
    /// that does not parse.
    pub fn next(&mut self) -> (r: Option<T>)
        ensures
            spec_iter_items::<T>(old(self)@).len() == 0 ==> r is None && spec_iter_items::<T>(
                final(self)@,
            ).len() == 0,
            spec_iter_items::<T>(old(self)@).len() > 0 ==> (r matches Some(v) && v@
                == spec_iter_items::<T>(old(self)@)[0] && spec_iter_items::<T>(final(self)@)
                == spec_iter_items::<T>(old(self)@).drop_first()),
            final(self)@.len() <= old(self)@.len(),
    {
        match self.iter.next() {
            Some(Ok(v)) => Some(v),
            _ => None,
        }
    }

    /// Counts the elements that the iterator yields.
    pub fn count(self) -> (r: usize)
        ensures
            r == spec_iter_items::<T>(self@).len(),
    {
        let ghost start = self@;
        let mut it = self.const_clone();
        let mut n: usize = 0;
        proof {
            lemma_items_count::<T>(start);
            lemma_try_count_len::<T>(start);
            self.lemma_len();
        }
        loop
            invariant
                n + spec_iter_items::<T>(it@).len() == spec_iter_items::<T>(start).len(),
                spec_iter_items::<T>(start).len() <= start.len(),
                start.len() <= usize::MAX,
                start == self@,
            decreases spec_iter_items::<T>(it@).len(),
        {
            match it.next() {
                Some(_) => {
                    n += 1;
                },
                None => return n,
            }
        }
    }

    /// Returns the last element, if it parses.
    pub fn last(self) -> (r: Option<T>)
        ensures
            match spec_try_last::<T>(self@) {
                Some(Ok(v)) => r matches Some(x) && x@ == v,
                _ => r is None,
            },
    {
        match self.iter.last() {
            Some(Ok(v)) => Some(v),
            _ => None,
        }
    }

    /// Returns the bounds on the number of elements left.
    pub fn size_hint(&self) -> (r: (usize, Option<usize>))
        ensures
            r == spec_size_hint::<T>(self@),
    {
        self.iter.size_hint()
    }
}

/// An iterator over elements in a [`Vector`] that reports elements that
/// do not parse.
#[derive(Debug)]
pub struct TryIter<'a, T> {
    data: &'a [u8],
    _marker: PhantomData<T>,
}

impl<'a, T> Clone for TryIter<'a, T> {
    fn clone(&self) -> (r: Self)
        ensures
            r@ == self@,
    {
        self.const_clone()
    }
}

impl<'a, T> View for TryIter<'a, T> {
    type V = Seq<u8>;

    closed spec fn view(&self) -> Seq<u8> {
        self.data@
    }
}

impl<'a, T> TryIter<'a, T> {
    /// Creates an iterator over the elements in `data`.
    pub(crate) fn new(data: &'a [u8]) -> (r: Self)
        ensures
            r@ == data@,
    {
        Self { data, _marker: PhantomData }
    }

    /// The bytes left to iterate over fit in memory.
    pub proof fn lemma_len(&self)
        ensures
            self@.len() <= usize::MAX,
    {
        assert(self.data@.len() == self.data.len());
    }

    /// [`Clone`], but for iterators over elements of any type.
    pub(crate) fn const_clone(&self) -> (r: Self)
        ensures
            r@ == self@,
    {
        Self { data: self.data, _marker: PhantomData }
    }
}

impl<'a, T: TryParse<'a>> TryIter<'a, T> {
    /// Returns the number of remaining items in the iterator, or
    /// `None` if the items are not fixed size.
    fn len(&self) -> (r: Option<usize>)
        ensures
            match r {
                Some(k) => spec_try_len::<T>(self@) == Some(k as nat),
                None => spec_try_len::<T>(self@) is None,
            },
    {
        match T::size().fixed() {
            // `T` has a variable length, so it's unclear how many
            // items are left.
            None => None,
            // `T` has a fixed length of zero, so the iterator is always
            // empty.
            Some(0) => Some(0),
            Some(size) => Some(self.data.len() / size),
        }
    }

    /// Reports whether the iterator is empty.
    fn is_empty(&self) -> (r: bool)
        ensures
            r == spec_iter_empty::<T>(self@),
    {
        if self.data.len() == 0 {
            return true;
        }
        match self.len() {
            Some(0) => true,
            _ => false,
        }
    }

    /// Advances the iterator by `n` elements; see
    /// `Iterator::advance_by`.
    fn advance_by(&mut self, n: usize) -> (r: Result<(), usize>)
        ensures
            (final(self)@, r) == spec_advance_by::<T>(old(self)@, n as nat),
    {
        let size = T::size();
        match size.fixed() {
            // `T` has a fixed length of zero, so the iterator is empty.
            Some(0) => Err(n),
            // `T` has a fixed length, so advance directly.
            Some(size) => {
                let remaining = self.data.len() / size;
                if n > remaining {
                    // Out of range; the iterator is now empty.
                    proof {
                        assert(n * size > self.data@.len()) by (nonlinear_arith)
                            requires
                                n > remaining,
                                remaining == self.data@.len() / (size as nat),
                                size > 0,
                        ;
                    }
                    let data: &'a [u8] = &[];
                    self.data = data;
                    proof {
                        assert(self.data@ =~= Seq::<u8>::empty());
                    }
                    return Err(n - remaining);
                }
                proof {
                    assert(n * size <= self.data@.len()) by (nonlinear_arith)
                        requires
                            n <= remaining,
                            remaining == self.data@.len() / (size as nat),
                            size > 0,
                    ;
                }
                let (_, rest) = split_prefix(self.data, n * size);
                self.data = rest;
                Ok(())
            },
            // `T` is variable length, so we have to skip each item.
            None => {
                let ghost start = self@;
                let mut i: usize = 0;
                while i < n
                    invariant
                        i <= n,
                        T::spec_size().0 != T::spec_size().1,
                        spec_advance_by::<T>(start, n as nat) == spec_skip_steps::<T>(start, n as nat),
                        start == old(self)@,
                        spec_skip_steps::<T>(start, n as nat) == spec_skip_steps::<T>(
                            self@,
                            (n - i) as nat,
                        ),
                    decreases n - i,
                {
                    let ghost before = self@;
                    proof {
                        T::lemma_parse_bounds(before);
                    }
                    match self.skip_next() {
                        None => {
                            proof {
                                assert(spec_skip_steps::<T>(before, (n - i) as nat) == (
                                    before,
                                    Err::<(), usize>((n - i) as usize),
                                ));
                            }
                            return Err(n - i);
                        },
                        Some(_) => {
                            proof {
                                assert(spec_skip_steps::<T>(before, (n - i) as nat)
                                    == spec_skip_steps::<T>(self@, (n - i - 1) as nat));
                            }
                        },
                    }
                    i += 1;
                }
                Ok(())
            },
        }
    }

    /// Like `next`, but skips the item instead of parsing it.
    fn skip_next(&mut self) -> (r: Option<Result<(), Error>>)
        ensures
            spec_iter_empty::<T>(old(self)@) ==> r is None && final(self)@ == old(self)@,
            !spec_iter_empty::<T>(old(self)@) ==> match T::spec_skip(old(self)@) {
                Ok(n) => r == Some(Ok::<(), Error>(())) && final(self)@ == old(self)@.skip(n as int),
                Err(a) => r matches Some(Err(e)) && e@ == a && final(self)@ == Seq::<u8>::empty(),
            },
    {
        if self.is_empty() {
            return None;
        }
        match T::try_skip(self.data) {
            Ok(rest) => {
                self.data = rest;
                Some(Ok(()))
            },
            Err(e) => {
                // An element that cannot be skipped is the last one.
                let data: &'a [u8] = &[];
                self.data = data;
                proof {
                    assert(self@ =~= Seq::<u8>::empty());
                }
                Some(Err(e))
            },
        }
    }

    /// Returns the next element, or an error for an element that does
    /// not parse, or `None` at the end.
    pub fn next(&mut self) -> (r: Option<Result<T, Error>>)
        ensures
            match spec_try_next::<T>(old(self)@) {
                None => r is None,
                Some(Ok(v)) => r matches Some(Ok(x)) && x@ == v,
                Some(Err(a)) => r matches Some(Err(e)) && e@ == a,
            },
            final(self)@ == spec_try_next_rest::<T>(old(self)@),
            spec_iter_items::<T>(old(self)@).len() > 0 ==> spec_iter_items::<T>(final(self)@)
                == spec_iter_items::<T>(old(self)@).drop_first(),
            spec_iter_items::<T>(old(self)@).len() == 0 ==> spec_iter_items::<T>(final(self)@).len()
                == 0,
            r is None ==> spec_try_count::<T>(old(self)@) == 0,
            r is Some ==> spec_try_count::<T>(old(self)@) == 1 + spec_try_count::<T>(final(self)@),
            final(self)@.len() <= old(self)@.len(),
    {
        let ghost before = self@;
        proof {
            T::lemma_parse_bounds(before);
        }
        if self.is_empty() {
            return None;
        }
        match T::try_parse(self.data) {
            Ok((item, rest)) => {
                self.data = rest;
                proof {
                    lemma_size_wf_nonempty::<T>(before);
                    let items = spec_iter_items::<T>(before);
                    assert(items.drop_first() =~= spec_iter_items::<T>(self@));
                }
                Some(Ok(item))
            },
            Err(e) => {
                // An element that does not parse ends the iteration.
                let data: &'a [u8] = &[];
                self.data = data;
                proof {
                    assert(self@ =~= Seq::<u8>::empty());
                }
                Some(Err(e))
            },
        }
    }

    /// Counts the items that the iterator yields before it ends.
    pub fn count(self) -> (r: usize)
        ensures
            r == spec_try_count::<T>(self@),
    {
        let ghost start = self@;
        let mut it = self.const_clone();
        let mut n: usize = 0;
        proof {
            lemma_try_count_len::<T>(start);
            self.lemma_len();
        }
        loop
            invariant
                n + spec_try_count::<T>(it@) == spec_try_count::<T>(start),
                spec_try_count::<T>(start) <= start.len(),
                start.len() <= usize::MAX,
                start == self@,
            decreases spec_try_count::<T>(it@),
        {
            match it.next() {
                Some(_) => {
                    n += 1;
                },
                None => return n,
            }
        }
    }

    /// Returns the last element, or an error if it does not parse, or
    /// `None` if there is none or an element before it cannot be
    /// skipped over.
    pub fn last(self) -> (r: Option<Result<T, Error>>)
        ensures
            match spec_try_last::<T>(self@) {
                None => r is None,
                Some(Ok(v)) => r matches Some(Ok(x)) && x@ == v,
                Some(Err(a)) => r matches Some(Err(e)) && e@ == a,
            },
    {
        let mut it = self.const_clone();
        match it.len() {
            Some(0) => return None,
            Some(n) => return it.nth(n - 1),
            None => {},
        }
        // We don't know how many items are in the iterator, so fall back
        // to manually skipping each item.
        loop
            invariant
                spec_try_len::<T>(it@) is None,
                T::spec_size().0 != T::spec_size().1,
                spec_last_start::<T>(it@) == spec_last_start::<T>(self@),
            decreases it@.len(),
        {
            let ghost before = it@;
            proof {
                T::lemma_parse_bounds(before);
            }
            match T::try_skip(it.data) {
                Ok(rest) => {
                    if rest.len() == 0 {
                        return it.next();
                    }
                    it.data = rest;
                },
                Err(_) => return None,
            }
        }
    }

    /// Returns the `n`th element.
    pub fn nth(&mut self, n: usize) -> (r: Option<Result<T, Error>>)
        ensures
            match spec_try_nth::<T>(old(self)@, n as nat) {
                None => r is None,
                Some(Ok(v)) => r matches Some(Ok(x)) && x@ == v,
                Some(Err(a)) => r matches Some(Err(e)) && e@ == a,
            },
    {
        match self.advance_by(n) {
            Ok(()) => {},
            Err(_) => return None,
        }
        self.next()
    }

    /// Returns the bounds on the number of elements left.
    pub fn size_hint(&self) -> (r: (usize, Option<usize>))
        ensures
            r == spec_size_hint::<T>(self@),
    {
        match self.len() {
            Some(n) => (n, Some(n)),
            None => {
                let size = T::size();
                let lower = match self.data.len().checked_div(size.min()) {
                    Some(x) => x,
                    None => 0,
                };
                let upper = match self.data.len().checked_div(size.max()) {
                    Some(x) => x,
                    None => 0,
                };
                (lower, Some(upper))
            },
        }
    }
}

/// An element of variable size that parses takes up some bytes.
pub proof fn lemma_size_wf_nonempty<'a, T: TryParse<'a>>(data: Seq<u8>)
    ensures
        !spec_iter_empty::<T>(data) ==> (T::spec_parse(data) matches Ok((_, n)) ==> 0 < n
            <= data.len()),
{
    T::lemma_parse_bounds(data);
    if !spec_iter_empty::<T>(data) {
        if let Ok((_, n)) = T::spec_parse(data) {
            let (min, max) = T::spec_size();
            if max == 0 {
                assert(min == max);
            }
        }
    }
}

} // verus!
