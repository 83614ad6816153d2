use vstd::prelude::*;

use crate::{
    error::{Error, ErrorKind},
    wire::{
        self,
        encode::{EncBuf, TryEncode},
        parse::{split_prefix, TryParse},
        size::Object,
    },
};

verus! {

/// Reports in constant time whether two byte strings are equal.
///
/// Calls `subtle::ConstantTimeEq::ct_eq` on the two slices, which
/// compares the lengths first and then every byte without branching on
/// their values; the result is true exactly when the byte strings are
/// equal.
#[verifier::external_body]
pub(crate) fn ct_eq_bytes(a: &[u8], b: &[u8]) -> (r: bool)
    ensures
        r == (a@ == b@),
{
    bool::from(subtle::ConstantTimeEq::ct_eq(a, b))
}

/// Reports in constant time whether two integers are equal.
///
/// Calls `subtle::ConstantTimeEq::ct_eq` on two `u32`s, which is true
/// exactly when they are equal.
#[verifier::external_body]
pub(crate) fn ct_eq_u32(a: u32, b: u32) -> (r: bool)
    ensures
        r == (a == b),
{
    bool::from(subtle::ConstantTimeEq::ct_eq(&a, &b))
}

/// Sensitive, but not secret data.
#[derive(Copy, Clone, Debug)]
pub struct Sensitive<'a>(pub(crate) &'a [u8]);

impl<'a> View for Sensitive<'a> {
    type V = Seq<u8>;

    closed spec fn view(&self) -> Seq<u8> {
        self.0@
    }
}

impl<'a> Sensitive<'a> {
    pub(crate) fn new(data: &'a [u8]) -> (r: Self)
        ensures
            r@ == data@,
    {
        Sensitive(data)
    }

    /// Returns the data.
    pub fn as_slice(&self) -> (r: &'a [u8])
        ensures
            r@ == self@,
    {
        self.0
    }

    /// Reports in constant time whether two byte strings are equal.
    pub fn ct_eq(&self, other: &Self) -> (r: bool)
        ensures
            r == (self@ == other@),
    {
        ct_eq_bytes(self.0, other.0)
    }
}

impl<'a> core::ops::Deref for Sensitive<'a> {
    type Target = [u8];

    fn deref(&self) -> (r: &[u8])
        ensures
            r@ == self@,
    {
        self.0
    }
}

impl<'a> AsRef<[u8]> for Sensitive<'a> {
    fn as_ref(&self) -> (r: &[u8])
        ensures
            r@ == self@,
    {
        self.0
    }
}

impl<'a> PartialEq for Sensitive<'a> {
    fn eq(&self, other: &Self) -> (r: bool) {
        self.ct_eq(other)
    }
}

impl<'a> vstd::std_specs::cmp::PartialEqSpecImpl for Sensitive<'a> {
    open spec fn obeys_eq_spec() -> bool {
        true
    }

    open spec fn eq_spec(&self, other: &Self) -> bool {
        self@ == other@
    }
}

impl<'a> Eq for Sensitive<'a> {

}

/// Returned when a buffer has no room for a write.
#[derive(Copy, Clone, Debug, PartialEq, Eq, Structural)]
pub struct OutOfSpace;

/// A fixed-size buffer that is written at one end and read at the
/// other.
#[derive(Clone, Debug)]
pub struct Buffer<const N: usize> {
    data: Vec<u8>,
    read: usize,
    write: usize,
}

impl<const N: usize> View for Buffer<N> {
    /// The bytes written so far and the number of them read.
    type V = (Seq<u8>, nat);

    closed spec fn view(&self) -> (Seq<u8>, nat) {
        (self.data@.take(self.write as int), self.read as nat)
    }
}

impl<const N: usize> Buffer<N> {
    /// The backing storage holds `N` bytes, and nothing is read that
    /// was not written.
    pub closed spec fn wf(&self) -> bool {
        &&& self.data@.len() == N
        &&& self.read <= self.write <= N
    }

    /// The unread bytes.
    pub open spec fn unread(self) -> Seq<u8> {
        self@.0.skip(self@.1 as int)
    }

    /// A well-formed buffer holds at most `N` bytes and has read no
    /// more than it holds.
    pub proof fn lemma_wf(&self)
        requires
            self.wf(),
        ensures
            self@.0.len() <= N,
            self@.1 <= self@.0.len(),
    {
    }

    /// Creates an empty buffer.
    pub fn new() -> (r: Self)
        ensures
            r@ == (Seq::<u8>::empty(), 0nat),
            r.wf(),
    {
        let data = vec![0u8; N];
        let r = Self { data, read: 0, write: 0 };
        proof {
            assert(r@.0 =~= Seq::<u8>::empty());
        }
        r
    }

    /// Returns the length of the unread portion of the buffer.
    pub fn len(&self) -> (r: usize)
        requires
            self.wf(),
        ensures
            r == self.unread().len(),
    {
        self.write - self.read
    }

    /// Reports whether the unread portion of the buffer is
    /// empty.
    pub fn is_empty(&self) -> (r: bool)
        requires
            self.wf(),
        ensures
            r == (self.unread().len() == 0),
    {
        self.len() == 0
    }

    /// Returns the unread portion of the buffer.
    pub fn as_bytes(&self) -> (r: &[u8])
        requires
            self.wf(),
        ensures
            r@ == self.unread(),
    {
        let (written, _) = split_prefix(self.data.as_slice(), self.write);
        let (_, unread) = split_prefix(written, self.read);
        proof {
            assert(unread@ =~= self.unread());
        }
        unread
    }

    /// Returns the number of bytes that can still be written.
    fn unused_len(&self) -> (r: usize)
        requires
            self.wf(),
        ensures
            r == N - self@.0.len(),
    {
        N - self.write
    }

    /// Writes `data` to the buffer.
    ///
    /// It fails, and writes nothing, if `data` does not fit.
    pub fn write(&mut self, data: &[u8]) -> (r: Result<(), OutOfSpace>)
        requires
            old(self).wf(),
        ensures
            r is Ok <==> old(self)@.0.len() + data@.len() <= N,
            r is Ok ==> final(self)@ == (old(self)@.0 + data@, old(self)@.1),
            r is Ok ==> final(self)@ == spec_buffer_step(old(self)@, BufferStep::Write(data@)),
            r is Err ==> final(self)@ == old(self)@,
            final(self).wf(),
    {
        if data.len() > self.unused_len() {
            return Err(OutOfSpace);
        }
        let ghost before = self.data@;
        let ghost read0 = self.read;
        let start = self.write;
        let n = data.len();
        let mut i: usize = 0;
        while i < n
            invariant
                i <= n,
                n == data@.len(),
                start + n <= N,
                self.data@.len() == N,
                self.read == read0,
                read0 <= start,
                self.write == start,
                start <= N,
                before.len() == N,
                forall|j: int| 0 <= j < start ==> self.data@[j] == before[j],
                forall|j: int| start <= j < start + i ==> self.data@[j] == data@[j - start],
            decreases n - i,
        {
            self.data.set(start + i, data[i]);
            i += 1;
        }
        self.write = start + n;
        proof {
            assert(self@.0 =~= before.take(start as int) + data@);
        }
        Ok(())
    }

    /// Writes `data` to the buffer.
    ///
    /// It fails, and writes nothing, if `data` does not fit.
    pub fn write_fixed<const M: usize>(&mut self, data: &[u8; M]) -> (r: Result<(), OutOfSpace>)
        requires
            old(self).wf(),
        ensures
            r is Ok <==> old(self)@.0.len() + M <= N,
            r is Ok ==> final(self)@ == (old(self)@.0 + data@, old(self)@.1),
            r is Ok ==> final(self)@ == spec_buffer_step(old(self)@, BufferStep::Write(data@)),
            r is Err ==> final(self)@ == old(self)@,
            final(self).wf(),
    {
        self.write(data.as_slice())
    }

    /// Writes the encoding of `data` to the buffer.
    ///
    /// The encoding goes into the room left in the buffer; it fails,
    /// and the buffer keeps what it held, if the encoding fails there.
    pub fn write_type<T: TryEncode>(&mut self, data: T) -> (r: Result<(), Error>)
        requires
            old(self).wf(),
        ensures
            ({
                let (s, res) = T::spec_encode(
                    data@,
                    (Seq::new((N - old(self)@.0.len()) as nat, |_i: int| 0u8), 0nat),
                );
                &&& r is Ok <==> res is Ok
                &&& r is Ok ==> final(self)@ == (old(self)@.0 + s.0.take(s.1 as int), old(self)@.1)
                &&& r is Err ==> final(self)@ == old(self)@
            }),
            final(self).wf(),
    {
        let mut room = vec![0u8; self.unused_len()];
        let ghost zeros = room@;
        proof {
            assert(zeros =~= Seq::new((N - self@.0.len()) as nat, |_i: int| 0u8));
        }
        let mut buf = EncBuf::new(room.as_mut_slice());
        match data.try_encode(&mut buf) {
            Ok(()) => {},
            Err(e) => return Err(Error::wire(e)),
        }
        let written = buf.written();
        match self.write(written) {
            Ok(()) => Ok(()),
            Err(_) => Err(Error::new(ErrorKind::Bug)),
        }
    }

    /// Reads a `T` from the buffer without advancing the read
    /// index.
    ///
    /// `T` is parsed from at most as many unread bytes as it can take
    /// up.
    pub fn peek_type<'a, T: TryParse<'a>>(&'a self) -> (r: Result<T, Error>)
        requires
            self.wf(),
        ensures
            ({
                let unread = self.unread();
                let size = if T::spec_size().1 <= unread.len() {
                    T::spec_size().1
                } else {
                    unread.len()
                };
                match T::spec_parse(unread.take(size as int)) {
                    Ok((v, _)) => r matches Ok(x) && x@ == v,
                    Err(_) => r matches Err(e) && e@ == ErrorKind::Wire,
                }
            }),
    {
        let bytes = self.as_bytes();
        let max = T::size().max();
        let size = if max <= bytes.len() {
            max
        } else {
            bytes.len()
        };
        let (buf, _) = split_prefix(bytes, size);
        match T::try_parse(buf) {
            Ok((v, _)) => Ok(v),
            Err(e) => Err(Error::wire(e)),
        }
    }

    /// Reads a `T` from the buffer.
    ///
    /// `T` is parsed from at most as many unread bytes as it can take
    /// up, and the bytes it took up are read.
    pub fn read_type<'a, T: TryParse<'a>>(&'a mut self) -> (r: Result<T, Error>)
        requires
            old(self).wf(),
        ensures
            ({
                let unread = old(self).unread();
                let size = if T::spec_size().1 <= unread.len() {
                    T::spec_size().1
                } else {
                    unread.len()
                };
                match T::spec_parse(unread.take(size as int)) {
                    Ok((v, n)) => {
                        &&& r matches Ok(x) && x@ == v
                        &&& final(self)@ == (old(self)@.0, old(self)@.1 + n)
                        &&& final(self)@ == spec_buffer_step(old(self)@, BufferStep::Read(n))
                    },
                    Err(_) => {
                        &&& r matches Err(e) && e@ == ErrorKind::Wire
                        &&& final(self)@ == old(self)@
                    },
                }
            }),
            final(self).wf(),
    {
        let ghost unread = self.unread();
        let max = T::size().max();
        let len = self.len();
        let size = if max <= len {
            max
        } else {
            len
        };
        let (written, _) = split_prefix(self.data.as_slice(), self.write);
        let (_, rest) = split_prefix(written, self.read);
        let (buf, _) = split_prefix(rest, size);
        proof {
            assert(rest@ =~= unread);
        }
        let (v, left) = match T::try_parse(buf) {
            Ok(x) => x,
            Err(e) => return Err(Error::wire(e)),
        };
        let nr = buf.len() - left.len();
        self.read = self.read + nr;
        Ok(v)
    }

    /// Empties the buffer.
    pub fn clear(&mut self)
        requires
            old(self).wf(),
        ensures
            final(self)@ == (Seq::<u8>::empty(), 0nat),
            final(self).wf(),
    {
        self.read = 0;
        self.write = 0;
        proof {
            assert(self@.0 =~= Seq::<u8>::empty());
        }
    }
}

/// A step on a buffer: a write of bytes, or a read of a number of them.
pub enum BufferStep {
    Write(Seq<u8>),
    Read(nat),
}

/// The view of a buffer after one step from `s`: a write appends its
/// bytes to those written, a read moves the read position on. These are
/// what `Buffer::write`, `write_fixed`, `write_type` and `read_type` do to
/// the view when they succeed.
pub open spec fn spec_buffer_step(s: (Seq<u8>, nat), op: BufferStep) -> (Seq<u8>, nat) {
    match op {
        BufferStep::Write(d) => (s.0 + d, s.1),
        BufferStep::Read(n) => (s.0, s.1 + n),
    }
}

/// The view of a buffer after the steps `ops`, one after the other, from
/// `s`.
pub open spec fn spec_buffer_steps(s: (Seq<u8>, nat), ops: Seq<BufferStep>) -> (Seq<u8>, nat)
    decreases ops.len(),
{
    if ops.len() == 0 {
        s
    } else {
        spec_buffer_step(spec_buffer_steps(s, ops.drop_last()), ops.last())
    }
}

/// The bytes that the writes among `ops` write, in order.
pub open spec fn spec_bytes_written(ops: Seq<BufferStep>) -> Seq<u8>
    decreases ops.len(),
{
    if ops.len() == 0 {
        Seq::empty()
    } else {
        spec_bytes_written(ops.drop_last()) + match ops.last() {
            BufferStep::Write(d) => d,
            BufferStep::Read(_) => Seq::empty(),
        }
    }
}

/// The number of bytes that the reads among `ops` read.
pub open spec fn spec_bytes_read(ops: Seq<BufferStep>) -> nat
    decreases ops.len(),
{
    if ops.len() == 0 {
        0
    } else {
        spec_bytes_read(ops.drop_last()) + match ops.last() {
            BufferStep::Write(_) => 0nat,
            BufferStep::Read(n) => n,
        }
    }
}

/// After any sequence of writes and reads on a new buffer, the bytes the
/// buffer holds are the bytes written, in order, and what is left to
/// read (`as_bytes`) is those bytes without the ones read; its length
/// (`len`) is the number written less the number read.
pub proof fn lemma_buffer_steps(ops: Seq<BufferStep>)
    ensures
        spec_buffer_steps((Seq::empty(), 0), ops) == (spec_bytes_written(ops), spec_bytes_read(ops)),
        spec_bytes_read(ops) <= spec_bytes_written(ops).len() ==> ({
            let s = spec_buffer_steps((Seq::empty(), 0), ops);
            &&& s.0.skip(s.1 as int) == spec_bytes_written(ops).skip(spec_bytes_read(ops) as int)
            &&& s.0.skip(s.1 as int).len() == spec_bytes_written(ops).len() - spec_bytes_read(ops)
        }),
    decreases ops.len(),
{
    if ops.len() > 0 {
        lemma_buffer_steps(ops.drop_last());
        match ops.last() {
            BufferStep::Write(d) => {},
            BufferStep::Read(n) => {
                assert(spec_bytes_written(ops) =~= spec_bytes_written(ops.drop_last()));
            },
        }
    } else {
        assert(spec_bytes_written(ops) =~= Seq::<u8>::empty());
    }
}

/// The lower-case hexadecimal digit of a value below 16.
pub open spec fn spec_hex_digit(c: u8) -> u8 {
    if c < 10 {
        (0x30 + c) as u8
    } else {
        (0x61 + c - 10) as u8
    }
}

/// The lower-case hexadecimal encoding of `data`, two digits per byte,
/// the high half first.
pub open spec fn spec_hex(data: Seq<u8>) -> Seq<u8>
    decreases data.len(),
{
    if data.len() == 0 {
        seq![]
    } else {
        spec_hex(data.drop_last()) + seq![
            spec_hex_digit(data.last() / 16),
            spec_hex_digit(data.last() % 16),
        ]
    }
}

/// The hexadecimal encoding has two digits for each byte: that of its
/// high half, then that of its low half.
pub proof fn lemma_hex_digits(data: Seq<u8>)
    ensures
        spec_hex(data).len() == 2 * data.len(),
        forall|i: int|
            0 <= i < data.len() ==> spec_hex(data)[2 * i] == spec_hex_digit(#[trigger] data[i] / 16)
                && spec_hex(data)[2 * i + 1] == spec_hex_digit(data[i] % 16),
    decreases data.len(),
{
    if data.len() > 0 {
        let p = data.drop_last();
        lemma_hex_digits(p);
        assert forall|i: int| 0 <= i < data.len() implies spec_hex(data)[2 * i] == spec_hex_digit(
            #[trigger] data[i] / 16,
        ) && spec_hex(data)[2 * i + 1] == spec_hex_digit(data[i] % 16) by {
            if i < p.len() {
                assert(p[i] == data[i]);
            }
        }
    }
}

/// Encodes a value below 16 as a lower-case hexadecimal digit without
/// branching on the value.
pub fn enc_nibble(c: u8) -> (r: u8)
    requires
        c < 16,
    ensures
        r == spec_hex_digit(c),
{
    let c = c as u16;
    let r = c.wrapping_add(87).wrapping_add((c.wrapping_sub(10) >> 8) & !38) as u8;
    assert(r == spec_hex_digit(c as u8)) by (bit_vector)
        requires
            c < 16,
            r == (c.wrapping_add(87).wrapping_add((c.wrapping_sub(10) >> 8) & !38)) as u8,
    ;
    r
}

/// Constant time hexadecimal encoding of bytes.
pub struct Hex<'a>(pub &'a [u8]);

impl<'a> Hex<'a> {
    /// Returns the lower-case hexadecimal encoding of the bytes.
    pub fn encode(&self) -> (r: Vec<u8>)
        ensures
            r@ == spec_hex(self.0@),
    {
        let data = self.0;
        let mut out: Vec<u8> = Vec::new();
        let mut i: usize = 0;
        while i < data.len()
            invariant
                i <= data@.len(),
                out@ == spec_hex(data@.take(i as int)),
            decreases data@.len() - i,
        {
            let v = data[i];
            assert(v >> 4 == v / 16 && v & 0x0f == v % 16 && v / 16 < 16) by (bit_vector);
            out.push(enc_nibble(v >> 4));
            out.push(enc_nibble(v & 0x0f));
            proof {
                let next = data@.take(i + 1);
                assert(next.drop_last() =~= data@.take(i as int));
                assert(next.last() == v);
            }
            i += 1;
        }
        proof {
            assert(data@.take(data@.len() as int) =~= data@);
        }
        out
    }
}

} // verus!
