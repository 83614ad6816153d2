//! What a parse gives back of an encoding.
//!
//! Each law here says that encoding a value into a buffer with room for
//! it succeeds, and that parsing from where the encoding started, with
//! whatever follows the encoding in the buffer, gives the value back and
//! takes exactly the bytes that were written.

use vstd::prelude::*;

use crate::wire::{
    alert::{Alert, AlertDesc, AlertLevel},
    ext::{Extension, ExtensionType},
    tls13::{
        ext::{
            spec_key_share_from, KeyShare, KeyShareEntry, NamedGroup, NamedGroupList,
            PskKexMode, PskKexModesList, SupportedVersionsList,
        },
        ClientHello, ServerHello,
    },
    ContentType, HandshakeHeader, HandshakeType, ProtocolVersion, TLSPlaintext,
    encode::{enc_wf, spec_be16_bytes, spec_be32_bytes, spec_be64_bytes, spec_put, EncState, TryEncode},
    parse::{spec_be16, spec_be24, spec_be32, spec_be64, spec_be_prefix, spec_pow256, TryParse},
    size::Object,
    types::{spec_be24_bytes, u24},
    vec::{lemma_be_bytes_roundtrip, spec_be_bytes, spec_length_size, SmallVec, Vector},
};

verus! {

/// Encoding `v` in state `s` succeeds, and parsing from the position
/// where it started gives `v` back after taking exactly the bytes
/// written.
pub open spec fn spec_roundtrips<'a, T: TryEncode + TryParse<'a>>(v: <T as View>::V, s: EncState) -> bool {
    let (t, r) = T::spec_encode(v, s);
    &&& r is Ok
    &&& s.1 <= t.1 <= t.0.len()
    &&& T::spec_parse(t.0.skip(s.1 as int)) == Ok::<(<T as View>::V, nat), Alert>(
        (v, (t.1 - s.1) as nat),
    )
}

/// The value of a big-endian prefix depends on the prefix alone.
pub proof fn lemma_be_prefix_append(s: Seq<u8>, t: Seq<u8>, k: int)
    requires
        0 <= k <= s.len(),
    ensures
        spec_be_prefix(s + t, k) == spec_be_prefix(s, k),
    decreases k,
{
    if k > 0 {
        lemma_be_prefix_append(s, t, k - 1);
        assert((s + t)[k - 1] == s[k - 1]);
    }
}

/// After `data` is put at the write position, the buffer from that
/// position on starts with `data`.
proof fn lemma_put_then_skip(s: EncState, data: Seq<u8>)
    requires
        enc_wf(s),
        s.1 + data.len() <= s.0.len(),
    ensures
        spec_put(s, data).0.len() == s.0.len(),
        spec_put(s, data).0.skip(s.1 as int) =~= data + s.0.skip((s.1 + data.len()) as int),
        spec_put(s, data).0.skip(s.1 as int).take(data.len() as int) =~= data,
{
}

/// A byte comes back as it was written.
pub proof fn lemma_u8_roundtrip(v: u8, s: EncState)
    requires
        enc_wf(s),
        s.1 + 1 <= s.0.len(),
    ensures
        spec_roundtrips::<u8>(v, s),
{
    lemma_put_then_skip(s, seq![v]);
    let t = spec_put(s, seq![v]).0.skip(s.1 as int);
    assert(t[0] == v);
}

/// A 16-bit integer comes back as it was written.
pub proof fn lemma_u16_roundtrip(v: u16, s: EncState)
    requires
        enc_wf(s),
        s.1 + 2 <= s.0.len(),
    ensures
        spec_roundtrips::<u16>(v, s),
{
    let b = spec_be16_bytes(v);
    lemma_put_then_skip(s, b);
    let t = spec_put(s, b).0.skip(s.1 as int);
    assert(t[0] == b[0] && t[1] == b[1]);
    assert(spec_be16(t) == v);
}

/// A 32-bit integer comes back as it was written.
pub proof fn lemma_u32_roundtrip(v: u32, s: EncState)
    requires
        enc_wf(s),
        s.1 + 4 <= s.0.len(),
    ensures
        spec_roundtrips::<u32>(v, s),
{
    let b = spec_be32_bytes(v);
    lemma_put_then_skip(s, b);
    let t = spec_put(s, b).0.skip(s.1 as int);
    assert(t[0] == b[0] && t[1] == b[1] && t[2] == b[2] && t[3] == b[3]);
    assert(spec_be32(t) == v);
}

/// The big-endian bytes of a 64-bit integer make the integer again.
proof fn lemma_be64_bytes(v: u64)
    ensures
        spec_be64(spec_be64_bytes(v)) == v,
{
    let x = v as int;
    let d1 = x / 0x100;
    let d2 = x / 0x1_0000;
    let d3 = x / 0x100_0000;
    let d4 = x / 0x1_0000_0000;
    let d5 = x / 0x100_0000_0000;
    let d6 = x / 0x1_0000_0000_0000;
    let d7 = x / 0x100_0000_0000_0000;
    vstd::arithmetic::div_mod::lemma_div_denominator(x, 0x100, 0x100);
    vstd::arithmetic::div_mod::lemma_div_denominator(x, 0x1_0000, 0x100);
    vstd::arithmetic::div_mod::lemma_div_denominator(x, 0x100_0000, 0x100);
    vstd::arithmetic::div_mod::lemma_div_denominator(x, 0x1_0000_0000, 0x100);
    vstd::arithmetic::div_mod::lemma_div_denominator(x, 0x100_0000_0000, 0x100);
    vstd::arithmetic::div_mod::lemma_div_denominator(x, 0x1_0000_0000_0000, 0x100);
    assert(d2 == d1 / 0x100);
    assert(d3 == d2 / 0x100);
    assert(d4 == d3 / 0x100);
    assert(d5 == d4 / 0x100);
    assert(d6 == d5 / 0x100);
    assert(d7 == d6 / 0x100);
    vstd::arithmetic::div_mod::lemma_fundamental_div_mod(x, 0x100);
    vstd::arithmetic::div_mod::lemma_fundamental_div_mod(d1, 0x100);
    vstd::arithmetic::div_mod::lemma_fundamental_div_mod(d2, 0x100);
    vstd::arithmetic::div_mod::lemma_fundamental_div_mod(d3, 0x100);
    vstd::arithmetic::div_mod::lemma_fundamental_div_mod(d4, 0x100);
    vstd::arithmetic::div_mod::lemma_fundamental_div_mod(d5, 0x100);
    vstd::arithmetic::div_mod::lemma_fundamental_div_mod(d6, 0x100);
    assert(d7 < 0x100);
    let b = spec_be64_bytes(v);
    assert(b[0] == d7 && b[1] == d6 % 0x100 && b[2] == d5 % 0x100 && b[3] == d4 % 0x100);
    assert(b[4] == d3 % 0x100 && b[5] == d2 % 0x100 && b[6] == d1 % 0x100 && b[7] == x % 0x100);
}

/// A 64-bit integer comes back as it was written.
pub proof fn lemma_u64_roundtrip(v: u64, s: EncState)
    requires
        enc_wf(s),
        s.1 + 8 <= s.0.len(),
    ensures
        spec_roundtrips::<u64>(v, s),
{
    let b = spec_be64_bytes(v);
    lemma_put_then_skip(s, b);
    lemma_be64_bytes(v);
    let t = spec_put(s, b).0.skip(s.1 as int);
    assert(t[0] == b[0] && t[1] == b[1] && t[2] == b[2] && t[3] == b[3]);
    assert(t[4] == b[4] && t[5] == b[5] && t[6] == b[6] && t[7] == b[7]);
    assert(spec_be64(t) == spec_be64(b));
}

/// An array of bytes comes back as it was written.
pub proof fn lemma_array_roundtrip<const N: usize>(v: Seq<u8>, s: EncState)
    requires
        enc_wf(s),
        v.len() == N,
        s.1 + N <= s.0.len(),
    ensures
        spec_roundtrips::<[u8; N]>(v, s),
{
    lemma_put_then_skip(s, v);
}

/// The length of a vector fits in the bytes that precede it.
pub proof fn lemma_length_fits(n: nat, max: nat)
    requires
        n <= max,
        0 < max <= 0xffff_ffff_ffff_ffff,
    ensures
        n < spec_pow256(spec_length_size(max) as int),
{
    reveal_with_fuel(spec_pow256, 9);
}

/// A vector whose length lies within its bounds and whose bytes can
/// hold its elements comes back as it was written, when its length is
/// written in one, two, four or eight bytes.
pub proof fn lemma_vector_roundtrip<'a, T: TryParse<'a>, const MIN: usize, const MAX: usize>(
    v: Seq<u8>,
    s: EncState,
)
    requires
        enc_wf(s),
        MIN <= v.len() <= MAX,
        spec_length_size(MAX as nat) == 1 || spec_length_size(MAX as nat) == 2 || spec_length_size(
            MAX as nat,
        ) == 4 || spec_length_size(MAX as nat) == 8,
        s.1 + spec_length_size(MAX as nat) + v.len() <= s.0.len(),
        !(T::spec_size().0 == T::spec_size().1 && T::spec_size().0 != 0 && v.len() % T::spec_size().0
            != 0),
        !(v.len() != 0 && v.len() < T::spec_size().0),
    ensures
        spec_roundtrips::<Vector<'a, T, MIN, MAX>>(v, s),
{
    let k = spec_length_size(MAX as nat);
    lemma_length_fits(v.len(), MAX as nat);
    lemma_be_bytes_roundtrip(v.len(), k);
    let be = spec_be_bytes(v.len(), k);
    let s1 = spec_put(s, be);
    lemma_put_then_skip(s, be);
    assert(v.take(v.len() as int) =~= v);
    let t = spec_put(s1, v);
    lemma_put_then_skip(s1, v);
    let data = t.0.skip(s.1 as int);
    assert(data =~= be + (v + s.0.skip((s.1 + k + v.len()) as int))) by {
        assert(s1.0.skip(s.1 as int) =~= be + s.0.skip((s.1 + k) as int));
        assert(s1.0.take(s1.1 as int) =~= s.0.take(s.1 as int) + be);
    }
    lemma_be_prefix_append(be, v + s.0.skip((s.1 + k + v.len()) as int), k as int);
    assert(data.subrange(k as int, (k + v.len()) as int) =~= v);
}

/// A small vector whose length lies within its bounds and whose bytes
/// can hold its elements comes back as it was written, when its length
/// is written in one, two, four or eight bytes.
pub proof fn lemma_small_vec_roundtrip<T: Object, const MIN: usize, const MAX: usize>(
    v: Seq<u8>,
    s: EncState,
)
    requires
        enc_wf(s),
        MIN <= v.len() <= MAX,
        spec_length_size(MAX as nat) == 1 || spec_length_size(MAX as nat) == 2 || spec_length_size(
            MAX as nat,
        ) == 4 || spec_length_size(MAX as nat) == 8,
        s.1 + spec_length_size(MAX as nat) + v.len() <= s.0.len(),
        !(T::spec_size().0 == T::spec_size().1 && T::spec_size().0 != 0 && v.len() % T::spec_size().0
            != 0),
        !(v.len() != 0 && v.len() < T::spec_size().0),
    ensures
        spec_roundtrips::<SmallVec<T, MIN, MAX>>(v, s),
{
    let k = spec_length_size(MAX as nat);
    lemma_length_fits(v.len(), MAX as nat);
    lemma_be_bytes_roundtrip(v.len(), k);
    let be = spec_be_bytes(v.len(), k);
    let s1 = spec_put(s, be);
    lemma_put_then_skip(s, be);
    assert(v.take(v.len() as int) =~= v);
    let t = spec_put(s1, v);
    lemma_put_then_skip(s1, v);
    let data = t.0.skip(s.1 as int);
    assert(data =~= be + (v + s.0.skip((s.1 + k + v.len()) as int))) by {
        assert(s1.0.skip(s.1 as int) =~= be + s.0.skip((s.1 + k) as int));
        assert(s1.0.take(s1.1 as int) =~= s.0.take(s.1 as int) + be);
    }
    lemma_be_prefix_append(be, v + s.0.skip((s.1 + k + v.len()) as int), k as int);
    assert(data.subrange(k as int, (k + v.len()) as int) =~= v);
}

/// Two puts one after the other are one put of both.
pub proof fn lemma_put_put(s: EncState, a: Seq<u8>, b: Seq<u8>)
    requires
        enc_wf(s),
        s.1 + a.len() + b.len() <= s.0.len(),
    ensures
        spec_put(spec_put(s, a), b) == spec_put(s, a + b),
{
    let t = spec_put(spec_put(s, a), b);
    let u = spec_put(s, a + b);
    assert(t.0 =~= u.0);
}

/// A byte encodes as itself and parses back from its byte.
proof fn lemma_u8_bytes(v: u8, s: EncState, rest: Seq<u8>)
    requires
        enc_wf(s),
        s.1 + 1 <= s.0.len(),
    ensures
        <u8 as TryEncode>::spec_encode(v, s) == (spec_put(s, seq![v]), Ok::<(), Alert>(())),
        <u8 as TryParse<'static>>::spec_parse(seq![v] + rest) == Ok::<(u8, nat), Alert>((v, 1)),
{
    assert((seq![v] + rest)[0] == v);
}

/// A 16-bit integer encodes as its two big-endian bytes and parses back
/// from them.
proof fn lemma_u16_bytes(v: u16, s: EncState, rest: Seq<u8>)
    requires
        enc_wf(s),
        s.1 + 2 <= s.0.len(),
    ensures
        <u16 as TryEncode>::spec_encode(v, s) == (spec_put(s, spec_be16_bytes(v)), Ok::<(), Alert>(())),
        <u16 as TryParse<'static>>::spec_parse(spec_be16_bytes(v) + rest) == Ok::<(u16, nat), Alert>(
            (v, 2),
        ),
{
    let d = spec_be16_bytes(v) + rest;
    assert(d[0] == spec_be16_bytes(v)[0] && d[1] == spec_be16_bytes(v)[1]);
}

/// A vector whose length lies within its bounds and whose bytes can hold
/// its elements encodes as its length and its bytes, and parses back
/// from them, when its length takes one, two, four or eight bytes.
proof fn lemma_vector_bytes<'a, T: TryParse<'a>, const MIN: usize, const MAX: usize>(
    v: Seq<u8>,
    s: EncState,
    rest: Seq<u8>,
)
    requires
        enc_wf(s),
        MIN <= v.len() <= MAX,
        spec_length_size(MAX as nat) == 1 || spec_length_size(MAX as nat) == 2 || spec_length_size(
            MAX as nat,
        ) == 4 || spec_length_size(MAX as nat) == 8,
        s.1 + spec_length_size(MAX as nat) + v.len() <= s.0.len(),
        !(T::spec_size().0 == T::spec_size().1 && T::spec_size().0 != 0 && v.len() % T::spec_size().0
            != 0),
        !(v.len() != 0 && v.len() < T::spec_size().0),
    ensures
        <Vector<'a, T, MIN, MAX> as TryEncode>::spec_encode(v, s) == (
            spec_put(s, spec_be_bytes(v.len(), spec_length_size(MAX as nat)) + v),
            Ok::<(), Alert>(()),
        ),
        <Vector<'a, T, MIN, MAX> as TryParse<'a>>::spec_parse(
            spec_be_bytes(v.len(), spec_length_size(MAX as nat)) + v + rest,
        ) == Ok::<(Seq<u8>, nat), Alert>((v, spec_length_size(MAX as nat) + v.len())),
{
    let k = spec_length_size(MAX as nat);
    lemma_length_fits(v.len(), MAX as nat);
    lemma_be_bytes_roundtrip(v.len(), k);
    let be = spec_be_bytes(v.len(), k);
    lemma_put_then_skip(s, be);
    assert(v.take(v.len() as int) =~= v);
    lemma_put_put(s, be, v);
    let data = be + v + rest;
    assert(data =~= be + (v + rest));
    lemma_be_prefix_append(be, v + rest, k as int);
    assert(data.subrange(k as int, (k + v.len()) as int) =~= v);
}

/// An extension type that is its own canonical form encodes as its
/// two-byte value and parses back from it.
proof fn lemma_ext_type_bytes(ty: ExtensionType, s: EncState, rest: Seq<u8>)
    requires
        enc_wf(s),
        s.1 + 2 <= s.0.len(),
        ty.is_canonical(),
    ensures
        <ExtensionType as TryEncode>::spec_encode(ty, s) == (
            spec_put(s, spec_be16_bytes(ty.spec_to_repr())),
            Ok::<(), Alert>(()),
        ),
        <ExtensionType as TryParse<'static>>::spec_parse(spec_be16_bytes(ty.spec_to_repr()) + rest)
            == Ok::<(ExtensionType, nat), Alert>((ty, 2)),
{
    lemma_u16_bytes(ty.spec_to_repr(), s, rest);
    ExtensionType::lemma_value_roundtrip(ty);
}

/// An extension comes back as it was written, when its type is in
/// canonical form and its body is at most (2^16)-1 bytes long.
pub proof fn lemma_extension_roundtrip(ty: ExtensionType, body: Seq<u8>, s: EncState)
    requires
        enc_wf(s),
        ty.is_canonical(),
        body.len() <= 65535,
        s.1 + 4 + body.len() <= s.0.len(),
    ensures
        spec_roundtrips::<Extension<'static>>((ty, body), s),
{
    let tb = spec_be16_bytes(ty.spec_to_repr());
    let lb = spec_be_bytes(body.len(), 2);
    lemma_length_fits(body.len(), 65535);
    lemma_be_bytes_roundtrip(body.len(), 2);
    assert(tb.len() == 2 && lb.len() == 2);
    lemma_ext_type_bytes(ty, s, lb + body + Seq::<u8>::empty());
    let s0 = spec_put(s, tb);
    lemma_put_then_skip(s, tb);
    lemma_vector_bytes::<'static, u8, 0, 65535>(body, s0, s.0.skip((s.1 + 4 + body.len()) as int));
    lemma_put_put(s, tb, lb + body);
    let t = spec_put(s, tb + (lb + body));
    lemma_put_then_skip(s, tb + (lb + body));
    let rest = s.0.skip((s.1 + 4 + body.len()) as int);
    let data = t.0.skip(s.1 as int);
    assert(data =~= tb + (lb + body + rest));
    lemma_ext_type_bytes(ty, s, lb + body + rest);
    assert(data.skip(2) =~= lb + body + rest);
}

/// A named group that is its own canonical form encodes as its two-byte
/// value and parses back from it.
proof fn lemma_group_bytes(g: NamedGroup, s: EncState, rest: Seq<u8>)
    requires
        enc_wf(s),
        s.1 + 2 <= s.0.len(),
        g.is_canonical(),
    ensures
        <NamedGroup as TryEncode>::spec_encode(g, s) == (
            spec_put(s, spec_be16_bytes(g.spec_to_repr())),
            Ok::<(), Alert>(()),
        ),
        <NamedGroup as TryParse<'static>>::spec_parse(spec_be16_bytes(g.spec_to_repr()) + rest)
            == Ok::<(NamedGroup, nat), Alert>((g, 2)),
{
    lemma_u16_bytes(g.spec_to_repr(), s, rest);
    NamedGroup::lemma_value_roundtrip(g);
}

/// A key share entry comes back as it was written, when its group is in
/// canonical form and its key exchange data is 1 to (2^16)-1 bytes long.
pub proof fn lemma_key_share_entry_roundtrip(g: NamedGroup, kex: Seq<u8>, s: EncState)
    requires
        enc_wf(s),
        g.is_canonical(),
        1 <= kex.len() <= 65535,
        s.1 + 4 + kex.len() <= s.0.len(),
    ensures
        spec_roundtrips::<KeyShareEntry<'static>>((g, kex), s),
{
    let gb = spec_be16_bytes(g.spec_to_repr());
    let lb = spec_be_bytes(kex.len(), 2);
    lemma_length_fits(kex.len(), 65535);
    lemma_be_bytes_roundtrip(kex.len(), 2);
    assert(gb.len() == 2 && lb.len() == 2);
    lemma_group_bytes(g, s, lb + kex + Seq::<u8>::empty());
    let s0 = spec_put(s, gb);
    lemma_put_then_skip(s, gb);
    lemma_vector_bytes::<'static, u8, 1, 65535>(kex, s0, s.0.skip((s.1 + 4 + kex.len()) as int));
    lemma_put_put(s, gb, lb + kex);
    let t = spec_put(s, gb + (lb + kex));
    lemma_put_then_skip(s, gb + (lb + kex));
    let rest = s.0.skip((s.1 + 4 + kex.len()) as int);
    let data = t.0.skip(s.1 as int);
    assert(data =~= gb + (lb + kex + rest));
    lemma_group_bytes(g, s, lb + kex + rest);
    assert(data.skip(2) =~= lb + kex + rest);
}

/// A key share comes back as it was written, when its group is in
/// canonical form and its key exchange data is what a key share of that
/// group holds: a point of the right form for a known group, 1 to
/// (2^16)-1 bytes for another.
pub proof fn lemma_key_share_roundtrip(v: (NamedGroup, Seq<u8>), s: EncState)
    requires
        enc_wf(s),
        v.0.is_canonical(),
        1 <= v.1.len() <= 65535,
        spec_key_share_from(v.0, v.1) == Ok::<(NamedGroup, Seq<u8>), Alert>(v),
        s.1 + 4 + v.1.len() <= s.0.len(),
    ensures
        spec_roundtrips::<KeyShare<'static>>(v, s),
{
    lemma_key_share_entry_roundtrip(v.0, v.1, s);
}

/// An alert whose level and description are in canonical form comes
/// back as it was written.
pub proof fn lemma_alert_roundtrip(v: Alert, s: EncState)
    requires
        enc_wf(s),
        v.level.is_canonical(),
        v.desc.is_canonical(),
        s.1 + 2 <= s.0.len(),
    ensures
        spec_roundtrips::<Alert>(v, s),
{
    let l = v.level.spec_to_repr();
    let d = v.desc.spec_to_repr();
    AlertLevel::lemma_value_roundtrip(v.level);
    AlertDesc::lemma_value_roundtrip(v.desc);
    lemma_u8_bytes(l, s, Seq::empty());
    let s0 = spec_put(s, seq![l]);
    lemma_put_then_skip(s, seq![l]);
    lemma_u8_bytes(d, s0, Seq::empty());
    lemma_put_put(s, seq![l], seq![d]);
    let t = spec_put(s, seq![l] + seq![d]);
    lemma_put_then_skip(s, seq![l] + seq![d]);
    let data = t.0.skip(s.1 as int);
    assert(data[0] == l && data[1] == d);
    assert(data.skip(1)[0] == d);
}

/// A 24-bit integer comes back as it was written.
pub proof fn lemma_u24_roundtrip(v: nat, s: EncState)
    requires
        enc_wf(s),
        v < 0x100_0000,
        s.1 + 3 <= s.0.len(),
    ensures
        spec_roundtrips::<u24>(v, s),
{
    let b = spec_be24_bytes(v);
    lemma_put_then_skip(s, b);
    let t = spec_put(s, b).0.skip(s.1 as int);
    assert(t[0] == b[0] && t[1] == b[1] && t[2] == b[2]);
    assert(spec_be24(t) == v);
}

/// Every record header comes back as it was written.
pub proof fn lemma_record_header_roundtrip(v: (ContentType, ProtocolVersion, u16), s: EncState)
    requires
        enc_wf(s),
        s.1 + 5 <= s.0.len(),
    ensures
        spec_roundtrips::<TLSPlaintext>(v, s),
{
    let ct = v.0.spec_to_repr();
    let pv = spec_be16_bytes(v.1.spec_to_repr());
    let len = spec_be16_bytes(v.2);
    ContentType::lemma_repr_roundtrip(v.0, 0);
    ProtocolVersion::lemma_repr_roundtrip(v.1, 0);
    lemma_u8_bytes(ct, s, Seq::empty());
    let s0 = spec_put(s, seq![ct]);
    lemma_put_then_skip(s, seq![ct]);
    lemma_u16_bytes(v.1.spec_to_repr(), s0, Seq::empty());
    let s1 = spec_put(s0, pv);
    lemma_put_then_skip(s0, pv);
    lemma_u16_bytes(v.2, s1, Seq::empty());
    lemma_put_put(s, seq![ct], pv);
    lemma_put_put(s, seq![ct] + pv, len);
    let all = seq![ct] + pv + len;
    let t = spec_put(s, all);
    lemma_put_then_skip(s, all);
    let rest = s.0.skip((s.1 + 5) as int);
    let data = t.0.skip(s.1 as int);
    assert(data =~= seq![ct] + (pv + (len + rest)));
    lemma_u8_bytes(ct, s, pv + (len + rest));
    assert(data.skip(1) =~= pv + (len + rest));
    lemma_u16_bytes(v.1.spec_to_repr(), s, len + rest);
    assert(data.skip(3) =~= len + rest);
    lemma_u16_bytes(v.2, s, rest);
}

/// Every handshake message header whose length fits in 24 bits comes
/// back as it was written.
pub proof fn lemma_handshake_header_roundtrip(v: (HandshakeType, nat), s: EncState)
    requires
        enc_wf(s),
        v.1 < 0x100_0000,
        s.1 + 4 <= s.0.len(),
    ensures
        spec_roundtrips::<HandshakeHeader>(v, s),
{
    let ty = v.0.spec_to_repr();
    let len = spec_be24_bytes(v.1);
    HandshakeType::lemma_repr_roundtrip(v.0, 0);
    lemma_u8_bytes(ty, s, Seq::empty());
    let s0 = spec_put(s, seq![ty]);
    lemma_put_then_skip(s, seq![ty]);
    lemma_put_put(s, seq![ty], len);
    let all = seq![ty] + len;
    let t = spec_put(s, all);
    lemma_put_then_skip(s, all);
    let rest = s.0.skip((s.1 + 4) as int);
    let data = t.0.skip(s.1 as int);
    assert(data =~= seq![ty] + (len + rest));
    lemma_u8_bytes(ty, s, len + rest);
    let d3 = data.skip(1);
    assert(d3 =~= len + rest);
    assert(d3[0] == len[0] && d3[1] == len[1] && d3[2] == len[2]);
}

/// The lists of fixed-size items that extensions carry come back as
/// they were written, when their length lies within their bounds and is
/// a whole number of items: supported versions (2 to 254 bytes, two per
/// version), named groups (2 to (2^16)-1 bytes, two per group) and PSK
/// key exchange modes (1 to 255 bytes, one per mode).
pub proof fn lemma_item_lists_roundtrip(v: Seq<u8>, s: EncState)
    requires
        enc_wf(s),
        s.1 + 2 + v.len() <= s.0.len(),
    ensures
        2 <= v.len() <= 254 && v.len() % 2 == 0 ==> spec_roundtrips::<SupportedVersionsList<'static>>(
            v,
            s,
        ),
        2 <= v.len() <= 65535 && v.len() % 2 == 0 ==> spec_roundtrips::<NamedGroupList<'static>>(
            v,
            s,
        ),
        1 <= v.len() <= 255 ==> spec_roundtrips::<PskKexModesList<'static>>(v, s),
{
    if 2 <= v.len() <= 254 && v.len() % 2 == 0 {
        lemma_vector_roundtrip::<'static, ProtocolVersion, 2, 254>(v, s);
    }
    if 2 <= v.len() <= 65535 && v.len() % 2 == 0 {
        lemma_vector_roundtrip::<'static, NamedGroup, 2, 65535>(v, s);
    }
    if 1 <= v.len() <= 255 {
        lemma_vector_roundtrip::<'static, PskKexMode, 1, 255>(v, s);
    }
}

#[verifier::spinoff_prover]
/// A `ServerHello` comes back as it was written, when it has the fixed
/// legacy version and compression method, a 32-byte random and a
/// legacy session ID of at most 32 bytes.
pub proof fn lemma_server_hello_roundtrip(v: (u16, Seq<u8>, Seq<u8>, Seq<u8>, u8), s: EncState)
    requires
        enc_wf(s),
        v.0 == 0x0303,
        v.1.len() == 32,
        v.2.len() <= 32,
        v.3.len() == 2,
        v.4 == 0,
        s.1 + 38 + v.2.len() <= s.0.len(),
    ensures
        spec_roundtrips::<ServerHello>(v, s),
{
    let b0 = spec_be16_bytes(v.0);
    let b2 = spec_be_bytes(v.2.len(), 1);
    lemma_length_fits(v.2.len(), 32);
    lemma_be_bytes_roundtrip(v.2.len(), 1);
    lemma_u16_bytes(v.0, s, Seq::empty());
    let s0 = spec_put(s, b0);
    lemma_put_then_skip(s, b0);
    let s1 = spec_put(s0, v.1);
    lemma_put_then_skip(s0, v.1);
    lemma_small_vec_bytes::<u8, 0, 32>(v.2, s1, Seq::empty());
    let s2 = spec_put(s1, b2 + v.2);
    lemma_put_then_skip(s1, b2 + v.2);
    let s3 = spec_put(s2, v.3);
    lemma_put_then_skip(s2, v.3);
    lemma_u8_bytes(v.4, s3, Seq::empty());
    lemma_put_put(s, b0, v.1);
    lemma_put_put(s, b0 + v.1, b2 + v.2);
    lemma_put_put(s, b0 + v.1 + (b2 + v.2), v.3);
    lemma_put_put(s, b0 + v.1 + (b2 + v.2) + v.3, seq![v.4]);
    let all = b0 + v.1 + (b2 + v.2) + v.3 + seq![v.4];
    let t = spec_put(s, all);
    lemma_put_then_skip(s, all);
    let n = 38 + v.2.len();
    let rest = s.0.skip((s.1 + n) as int);
    let data = t.0.skip(s.1 as int);
    let r4 = seq![v.4] + rest;
    let r3 = v.3 + r4;
    let r2 = b2 + v.2 + r3;
    let r1 = v.1 + r2;
    assert(data =~= b0 + r1);
    lemma_u16_bytes(v.0, s, r1);
    assert(data.skip(2) =~= r1);
    assert(r1.take(32) =~= v.1);
    assert(data.skip(34) =~= r2);
    lemma_small_vec_bytes::<u8, 0, 32>(v.2, s1, r3);
    assert(data.skip((35 + v.2.len()) as int) =~= r3);
    assert(r3.take(2) =~= v.3);
    assert(data.skip((37 + v.2.len()) as int) =~= r4);
    lemma_u8_bytes(v.4, s, rest);
}

/// The bytes of a `ClientHello`, field by field.
pub open spec fn spec_client_hello_bytes(v: (u16, Seq<u8>, Seq<u8>, Seq<u8>, Seq<u8>, Seq<u8>)) -> Seq<
    u8,
> {
    spec_be16_bytes(v.0) + v.1 + (spec_be_bytes(v.2.len(), 1) + v.2) + (spec_be_bytes(v.3.len(), 2)
        + v.3) + (spec_be_bytes(v.4.len(), 1) + v.4) + (spec_be_bytes(v.5.len(), 2) + v.5)
}

/// The fields of a `ClientHello` that can be written and read back.
pub open spec fn spec_client_hello_ok(v: (u16, Seq<u8>, Seq<u8>, Seq<u8>, Seq<u8>, Seq<u8>)) -> bool {
    &&& v.0 == 0x0303
    &&& v.1.len() == 32
    &&& v.2.len() <= 32
    &&& 2 <= v.3.len() <= 65534
    &&& v.3.len() % 2 == 0
    &&& v.4 == seq![0u8]
    &&& 8 <= v.5.len() <= 65535
}

/// The lengths of a `ClientHello` fit in their bytes.
proof fn lemma_client_hello_lengths(v: (u16, Seq<u8>, Seq<u8>, Seq<u8>, Seq<u8>, Seq<u8>))
    requires
        spec_client_hello_ok(v),
    ensures
        spec_be_bytes(v.2.len(), 1).len() == 1,
        spec_be_bytes(v.3.len(), 2).len() == 2,
        spec_be_bytes(v.4.len(), 1).len() == 1,
        spec_be_bytes(v.5.len(), 2).len() == 2,
        spec_client_hello_bytes(v).len() == 41 + v.2.len() + v.3.len() + v.5.len(),
{
    lemma_length_fits(v.2.len(), 32);
    lemma_be_bytes_roundtrip(v.2.len(), 1);
    lemma_length_fits(v.3.len(), 65534);
    lemma_be_bytes_roundtrip(v.3.len(), 2);
    lemma_length_fits(v.4.len(), 255);
    lemma_be_bytes_roundtrip(v.4.len(), 1);
    lemma_length_fits(v.5.len(), 65535);
    lemma_be_bytes_roundtrip(v.5.len(), 2);
}

/// A `ClientHello` encodes as its bytes.
#[verifier::spinoff_prover]
proof fn lemma_client_hello_encode(v: (u16, Seq<u8>, Seq<u8>, Seq<u8>, Seq<u8>, Seq<u8>), s: EncState)
    requires
        enc_wf(s),
        spec_client_hello_ok(v),
        s.1 + 41 + v.2.len() + v.3.len() + v.5.len() <= s.0.len(),
    ensures
        <ClientHello<'static> as TryEncode>::spec_encode(v, s) == (
            spec_put(s, spec_client_hello_bytes(v)),
            Ok::<(), Alert>(()),
        ),
{
    lemma_client_hello_lengths(v);
    let b0 = spec_be16_bytes(v.0);
    let f2 = spec_be_bytes(v.2.len(), 1) + v.2;
    let f3 = spec_be_bytes(v.3.len(), 2) + v.3;
    let f4 = spec_be_bytes(v.4.len(), 1) + v.4;
    let f5 = spec_be_bytes(v.5.len(), 2) + v.5;
    lemma_u16_bytes(v.0, s, Seq::empty());
    let s0 = spec_put(s, b0);
    lemma_put_then_skip(s, b0);
    let s1 = spec_put(s0, v.1);
    lemma_put_then_skip(s0, v.1);
    lemma_small_vec_bytes::<u8, 0, 32>(v.2, s1, Seq::empty());
    let s2 = spec_put(s1, f2);
    lemma_put_then_skip(s1, f2);
    lemma_vector_bytes::<'static, [u8; 2], 2, 65534>(v.3, s2, Seq::empty());
    let s3 = spec_put(s2, f3);
    lemma_put_then_skip(s2, f3);
    lemma_vector_bytes::<'static, u8, 1, 255>(v.4, s3, Seq::empty());
    let s4 = spec_put(s3, f4);
    lemma_put_then_skip(s3, f4);
    lemma_vector_bytes::<'static, Extension<'static>, 8, 65535>(v.5, s4, Seq::empty());
    lemma_put_put(s, b0, v.1);
    lemma_put_put(s, b0 + v.1, f2);
    lemma_put_put(s, b0 + v.1 + f2, f3);
    lemma_put_put(s, b0 + v.1 + f2 + f3, f4);
    lemma_put_put(s, b0 + v.1 + f2 + f3 + f4, f5);
}

/// A `ClientHello` parses back from its bytes, whatever follows them.
#[verifier::spinoff_prover]
#[verifier::rlimit(100)]
proof fn lemma_client_hello_parse(v: (u16, Seq<u8>, Seq<u8>, Seq<u8>, Seq<u8>, Seq<u8>), rest: Seq<u8>)
    requires
        spec_client_hello_ok(v),
    ensures
        <ClientHello<'static> as TryParse<'static>>::spec_parse(spec_client_hello_bytes(v) + rest)
            == Ok::<((u16, Seq<u8>, Seq<u8>, Seq<u8>, Seq<u8>, Seq<u8>), nat), Alert>(
            (v, 41 + v.2.len() + v.3.len() + v.5.len()),
        ),
{
    lemma_client_hello_lengths(v);
    let s = (Seq::new(0x30000, |_i: int| 0u8), 0nat);
    let b0 = spec_be16_bytes(v.0);
    let b2 = spec_be_bytes(v.2.len(), 1);
    let b3 = spec_be_bytes(v.3.len(), 2);
    let b4 = spec_be_bytes(v.4.len(), 1);
    let b5 = spec_be_bytes(v.5.len(), 2);
    let data = spec_client_hello_bytes(v) + rest;
    let r5 = b5 + v.5 + rest;
    let r4 = b4 + v.4 + r5;
    let r3 = b3 + v.3 + r4;
    let r2 = b2 + v.2 + r3;
    let r1 = v.1 + r2;
    assert(data =~= b0 + r1);
    lemma_u16_bytes(v.0, s, r1);
    assert(data.skip(2) =~= r1);
    assert(r1.take(32) =~= v.1);
    assert(data.skip(34) =~= r2);
    lemma_small_vec_bytes::<u8, 0, 32>(v.2, s, r3);
    assert(data.skip((35 + v.2.len()) as int) =~= r3);
    lemma_vector_bytes::<'static, [u8; 2], 2, 65534>(v.3, s, r4);
    assert(data.skip((37 + v.2.len() + v.3.len()) as int) =~= r4);
    lemma_vector_bytes::<'static, u8, 1, 255>(v.4, s, r5);
    assert(data.skip((39 + v.2.len() + v.3.len()) as int) =~= r5);
    lemma_vector_bytes::<'static, Extension<'static>, 8, 65535>(v.5, s, rest);
}

/// A `ClientHello` comes back as it was written, when it has the fixed
/// legacy version and compression methods, a 32-byte random, a legacy
/// session ID of at most 32 bytes, between 2 and (2^16)-2 bytes of
/// whole cipher suites and between 8 and (2^16)-1 bytes of extensions.
#[verifier::spinoff_prover]
#[verifier::rlimit(50)]
pub proof fn lemma_client_hello_roundtrip(
    v: (u16, Seq<u8>, Seq<u8>, Seq<u8>, Seq<u8>, Seq<u8>),
    s: EncState,
)
    requires
        enc_wf(s),
        v.0 == 0x0303,
        v.1.len() == 32,
        v.2.len() <= 32,
        2 <= v.3.len() <= 65534,
        v.3.len() % 2 == 0,
        v.4 == seq![0u8],
        8 <= v.5.len() <= 65535,
        s.1 + 41 + v.2.len() + v.3.len() + v.5.len() <= s.0.len(),
    ensures
        spec_roundtrips::<ClientHello<'static>>(v, s),
{
    lemma_client_hello_lengths(v);
    lemma_client_hello_encode(v, s);
    let bytes = spec_client_hello_bytes(v);
    let t = spec_put(s, bytes);
    lemma_put_then_skip(s, bytes);
    let rest = s.0.skip((s.1 + bytes.len()) as int);
    lemma_client_hello_parse(v, rest);
    assert(t.0.skip(s.1 as int) == bytes + rest);
    assert(t.1 - s.1 == bytes.len());
}

/// A short vector encodes as its one-byte length and its bytes, and
/// parses back from them.
proof fn lemma_small_vec_bytes<T: Object, const MIN: usize, const MAX: usize>(
    v: Seq<u8>,
    s: EncState,
    rest: Seq<u8>,
)
    requires
        enc_wf(s),
        MIN <= v.len() <= MAX,
        0 < MAX < 0x100,
        s.1 + 1 + v.len() <= s.0.len(),
        !(T::spec_size().0 == T::spec_size().1 && T::spec_size().0 != 0 && v.len() % T::spec_size().0
            != 0),
        !(v.len() != 0 && v.len() < T::spec_size().0),
    ensures
        <SmallVec<T, MIN, MAX> as TryEncode>::spec_encode(v, s) == (
            spec_put(s, spec_be_bytes(v.len(), 1) + v),
            Ok::<(), Alert>(()),
        ),
        <SmallVec<T, MIN, MAX> as TryParse<'static>>::spec_parse(spec_be_bytes(v.len(), 1) + v + rest)
            == Ok::<(Seq<u8>, nat), Alert>((v, 1 + v.len())),
{
    lemma_length_fits(v.len(), MAX as nat);
    lemma_be_bytes_roundtrip(v.len(), 1);
    let be = spec_be_bytes(v.len(), 1);
    lemma_put_then_skip(s, be);
    assert(v.take(v.len() as int) =~= v);
    lemma_put_put(s, be, v);
    let data = be + v + rest;
    assert(data =~= be + (v + rest));
    lemma_be_prefix_append(be, v + rest, 1);
    assert(data.subrange(1, (1 + v.len()) as int) =~= v);
}

} // verus!
