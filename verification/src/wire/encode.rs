use vstd::prelude::*;

use crate::wire::{alert::Alert, error::Error};

verus! {

/// The state of an output buffer: its contents and the number of bytes
/// written so far.
pub type EncState = (Seq<u8>, nat);

/// The write position of an output buffer lies within the buffer.
pub open spec fn enc_wf(s: EncState) -> bool {
    s.1 <= s.0.len()
}

/// `s` after `data` was copied in at the write position, which then
/// moves past it.
pub open spec fn spec_put(s: EncState, data: Seq<u8>) -> EncState {
    (s.0.take(s.1 as int) + data + s.0.skip((s.1 + data.len()) as int), s.1 + data.len())
}

/// `s` after a write of `data` that must fit whole: if it does not,
/// nothing is written and the write fails.
pub open spec fn spec_write_fixed(s: EncState, data: Seq<u8>) -> (EncState, Result<(), Alert>) {
    if s.1 + data.len() <= s.0.len() {
        (spec_put(s, data), Ok(()))
    } else {
        (s, Err(Alert::spec_internal_error()))
    }
}

/// The spec counterpart of an exec encoding result.
pub open spec fn enc_result(r: Result<(), Error>) -> Result<(), Alert> {
    match r {
        Ok(()) => Ok(()),
        Err(e) => Err(e@),
    }
}

/// Runs the encoding `next` after `first`, unless `first` failed.
pub open spec fn spec_then(
    first: (EncState, Result<(), Alert>),
    next: spec_fn(EncState) -> (EncState, Result<(), Alert>),
) -> (EncState, Result<(), Alert>) {
    match first.1 {
        Ok(()) => next(first.0),
        Err(a) => (first.0, Err(a)),
    }
}

/// Encodes the TLS wire format.
pub trait TryEncode: View {
    /// What encoding `v` into an output buffer in state `s` does to it.
    spec fn spec_encode(v: Self::V, s: EncState) -> (EncState, Result<(), Alert>);

    /// Writes its encoding to `out`.
    fn try_encode(&self, out: &mut EncBuf<'_>) -> (r: Result<(), Error>)
        requires
            enc_wf(old(out)@),
        ensures
            enc_wf(final(out)@),
            final(out)@.0.len() == old(out)@.0.len(),
            Self::spec_encode(self@, old(out)@) == (final(out)@, enc_result(r)),
    ;
}

/// An output buffer for writing the TLS wire format.
pub struct EncBuf<'a> {
    buf: &'a mut [u8],
    idx: usize,
}

impl View for EncBuf<'_> {
    type V = EncState;

    closed spec fn view(&self) -> EncState {
        (self.buf@, self.idx as nat)
    }
}

impl<'a> EncBuf<'a> {
    /// Creates a buffer with backing data.
    pub fn new(buf: &'a mut [u8]) -> (r: Self)
        ensures
            r@ == (old(buf)@, 0nat),
    {
        Self { buf, idx: 0 }
    }
}

impl EncBuf<'_> {
    /// Returns the number of bytes written so far.
    pub(crate) fn len(&self) -> (r: usize)
        ensures
            r == self@.1,
    {
        self.idx
    }

    /// Returns the bytes written so far.
    pub(crate) fn written(&self) -> (r: &[u8])
        requires
            enc_wf(self@),
        ensures
            r@ == self@.0.take(self@.1 as int),
    {
        let (w, _) = crate::wire::parse::split_prefix(self.buf, self.idx);
        w
    }

    /// Returns the number of bytes that can still be written.
    fn unused_len(&self) -> (r: usize)
        requires
            enc_wf(self@),
        ensures
            r == self@.0.len() - self@.1,
    {
        self.buf.len() - self.idx
    }

    /// Copies the first `n` bytes of `data` in at the write position.
    fn put(&mut self, data: &[u8], n: usize)
        requires
            enc_wf(old(self)@),
            n <= data@.len(),
            old(self)@.1 + n <= old(self)@.0.len(),
        ensures
            final(self)@ == spec_put(old(self)@, data@.take(n as int)),
            enc_wf(final(self)@),
            final(self)@.0.len() == old(self)@.0.len(),
    {
        let ghost s = self@;
        let buf_len = self.buf.len();
        let start = self.idx;
        let mut i: usize = 0;
        while i < n
            invariant
                i <= n,
                n <= data@.len(),
                start == s.1,
                start + n <= s.0.len(),
                buf_len == s.0.len(),
                self.idx == start,
                self.buf@.len() == s.0.len(),
                forall|j: int| 0 <= j < start ==> self.buf@[j] == s.0[j],
                forall|j: int| start <= j < start + i ==> self.buf@[j] == data@[j - start],
                forall|j: int| start + i <= j < s.0.len() ==> self.buf@[j] == s.0[j],
            decreases n - i,
        {
            self.buf[start + i] = data[i];
            i += 1;
        }
        self.idx = start + n;
        proof {
            assert(self.buf@ =~= spec_put(s, data@.take(n as int)).0);
        }
    }

    /// Writes `data` to the buffer.
    ///
    /// If `data` does not fit in the room left, nothing is written and
    /// the write fails with `buffer_too_short`.
    pub fn write(&mut self, data: &[u8]) -> (r: Result<(), Error>)
        requires
            enc_wf(old(self)@),
        ensures
            spec_write_fixed(old(self)@, data@) == (final(self)@, enc_result(r)),
            r matches Err(e) ==> e.spec_context() == "buffer too short"@,
            enc_wf(final(self)@),
            final(self)@.0.len() == old(self)@.0.len(),
    {
        self.write_exact(data)
    }

    /// Writes fixed-size data to the buffer.
    pub fn write_fixed<const N: usize>(&mut self, data: &[u8; N]) -> (r: Result<(), Error>)
        requires
            enc_wf(old(self)@),
        ensures
            spec_write_fixed(old(self)@, data@) == (final(self)@, enc_result(r)),
            r matches Err(e) ==> e.spec_context() == "buffer too short"@,
            enc_wf(final(self)@),
            final(self)@.0.len() == old(self)@.0.len(),
    {
        self.write_exact(data.as_slice())
    }

    /// Writes all of `data` to the buffer, or nothing if it does not
    /// fit.
    pub(crate) fn write_exact(&mut self, data: &[u8]) -> (r: Result<(), Error>)
        requires
            enc_wf(old(self)@),
        ensures
            spec_write_fixed(old(self)@, data@) == (final(self)@, enc_result(r)),
            r matches Err(e) ==> e.spec_context() == "buffer too short"@,
            enc_wf(final(self)@),
            final(self)@.0.len() == old(self)@.0.len(),
    {
        if self.unused_len() < data.len() {
            return Err(Error::buffer_too_short());
        }
        self.put(data, data.len());
        proof {
            assert(data@.take(data@.len() as int) =~= data@);
        }
        Ok(())
    }
}

/// The big-endian bytes of a 16-bit value.
pub open spec fn spec_be16_bytes(x: u16) -> Seq<u8> {
    seq![(x / 0x100) as u8, (x % 0x100) as u8]
}

/// The big-endian bytes of a 32-bit value.
pub open spec fn spec_be32_bytes(x: u32) -> Seq<u8> {
    seq![
        (x / 0x100_0000) as u8,
        ((x / 0x1_0000) % 0x100) as u8,
        ((x / 0x100) % 0x100) as u8,
        (x % 0x100) as u8,
    ]
}

/// The big-endian bytes of a 64-bit value.
pub open spec fn spec_be64_bytes(x: u64) -> Seq<u8> {
    seq![
        (x / 0x100_0000_0000_0000) as u8,
        ((x / 0x1_0000_0000_0000) % 0x100) as u8,
        ((x / 0x100_0000_0000) % 0x100) as u8,
        ((x / 0x1_0000_0000) % 0x100) as u8,
        ((x / 0x100_0000) % 0x100) as u8,
        ((x / 0x1_0000) % 0x100) as u8,
        ((x / 0x100) % 0x100) as u8,
        (x % 0x100) as u8,
    ]
}

impl TryEncode for u8 {
    open spec fn spec_encode(v: u8, s: EncState) -> (EncState, Result<(), Alert>) {
        spec_write_fixed(s, seq![v])
    }

    fn try_encode(&self, out: &mut EncBuf<'_>) -> (r: Result<(), Error>) {
        let bytes = [*self];
        proof {
            assert(bytes@ =~= seq![*self]);
        }
        out.write_fixed(&bytes)
    }
}

impl TryEncode for u16 {
    open spec fn spec_encode(v: u16, s: EncState) -> (EncState, Result<(), Alert>) {
        spec_write_fixed(s, spec_be16_bytes(v))
    }

    fn try_encode(&self, out: &mut EncBuf<'_>) -> (r: Result<(), Error>) {
        let x = *self;
        let bytes = [(x / 0x100) as u8, (x % 0x100) as u8];
        proof {
            assert(bytes@ =~= spec_be16_bytes(x));
        }
        out.write_fixed(&bytes)
    }
}

impl TryEncode for u32 {
    open spec fn spec_encode(v: u32, s: EncState) -> (EncState, Result<(), Alert>) {
        spec_write_fixed(s, spec_be32_bytes(v))
    }

    fn try_encode(&self, out: &mut EncBuf<'_>) -> (r: Result<(), Error>) {
        let x = *self;
        let bytes = [
            (x / 0x100_0000) as u8,
            ((x / 0x1_0000) % 0x100) as u8,
            ((x / 0x100) % 0x100) as u8,
            (x % 0x100) as u8,
        ];
        proof {
            assert(bytes@ =~= spec_be32_bytes(x));
        }
        out.write_fixed(&bytes)
    }
}

impl TryEncode for u64 {
    open spec fn spec_encode(v: u64, s: EncState) -> (EncState, Result<(), Alert>) {
        spec_write_fixed(s, spec_be64_bytes(v))
    }

    fn try_encode(&self, out: &mut EncBuf<'_>) -> (r: Result<(), Error>) {
        let x = *self;
        let bytes = [
            (x / 0x100_0000_0000_0000) as u8,
            ((x / 0x1_0000_0000_0000) % 0x100) as u8,
            ((x / 0x100_0000_0000) % 0x100) as u8,
            ((x / 0x1_0000_0000) % 0x100) as u8,
            ((x / 0x100_0000) % 0x100) as u8,
            ((x / 0x1_0000) % 0x100) as u8,
            ((x / 0x100) % 0x100) as u8,
            (x % 0x100) as u8,
        ];
        proof {
            assert(bytes@ =~= spec_be64_bytes(x));
        }
        out.write_fixed(&bytes)
    }
}

impl<const N: usize> TryEncode for [u8; N] {
    open spec fn spec_encode(v: Seq<u8>, s: EncState) -> (EncState, Result<(), Alert>) {
        spec_write_fixed(s, v)
    }

    fn try_encode(&self, out: &mut EncBuf<'_>) -> (r: Result<(), Error>) {
        out.write_fixed(self)
    }
}

} // verus!
