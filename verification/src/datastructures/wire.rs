//! Big-endian encodings of integers and byte-level helpers shared by all
//! wire formats.

use vstd::prelude::*;

verus! {

/// `s` with the bytes from `at` on replaced by `data`.
pub open spec fn splice(s: Seq<u8>, at: int, data: Seq<u8>) -> Seq<u8> {
    s.take(at) + data + s.skip(at + data.len())
}

/// Writing `a` and then `b` right after it is writing `a + b`.
pub proof fn lemma_splice_twice(s: Seq<u8>, at: int, a: Seq<u8>, b: Seq<u8>)
    requires
        0 <= at,
        at + a.len() + b.len() <= s.len(),
    ensures
        splice(splice(s, at, a), at + a.len(), b) == splice(s, at, a + b),
{
    assert(splice(splice(s, at, a), at + a.len(), b) =~= splice(s, at, a + b));
}

/// A part of a written range: if `b` holds `w` at `at`, it holds the part
/// of `w` from `k` to `k + m` at `at + k`.
pub proof fn lemma_part(b: Seq<u8>, at: int, w: Seq<u8>, k: int, m: int)
    requires
        0 <= at,
        0 <= k,
        0 <= m,
        k + m <= w.len(),
        at + w.len() <= b.len(),
        b.subrange(at, at + w.len()) == w,
    ensures
        b.subrange(at + k, at + k + m) == w.subrange(k, k + m),
{
    assert forall|j: int| at <= j < at + w.len() implies #[trigger] b[j] == w[j - at] by {
        assert(b[j] == b.subrange(at, at + w.len())[j - at]);
    }
    assert(b.subrange(at + k, at + k + m) =~= w.subrange(k, k + m));
}

/// A single byte as a boolean flag written as `0` or `1`.
pub open spec fn flag_byte(b: bool) -> u8 {
    if b {
        1u8
    } else {
        0u8
    }
}

/// Big-endian bytes of a `u16`.
pub open spec fn be_u16(x: u16) -> Seq<u8> {
    seq![(x >> 8u16) as u8, x as u8]
}

/// The `u16` stored big-endian at `at`.
pub open spec fn u16_at(b: Seq<u8>, at: int) -> u16 {
    ((b[at] as u16) << 8u16) | (b[at + 1] as u16)
}

/// Big-endian bytes of a `u32`.
pub open spec fn be_u32(x: u32) -> Seq<u8> {
    seq![(x >> 24u32) as u8, (x >> 16u32) as u8, (x >> 8u32) as u8, x as u8]
}

/// The `u32` stored big-endian at `at`.
pub open spec fn u32_at(b: Seq<u8>, at: int) -> u32 {
    ((b[at] as u32) << 24u32) | ((b[at + 1] as u32) << 16u32) | ((b[at + 2] as u32) << 8u32) | (
    b[at + 3] as u32)
}

/// Big-endian bytes of the low 48 bits of a `u64`.
pub open spec fn be_u48(x: u64) -> Seq<u8> {
    seq![
        (x >> 40u64) as u8,
        (x >> 32u64) as u8,
        (x >> 24u64) as u8,
        (x >> 16u64) as u8,
        (x >> 8u64) as u8,
        x as u8,
    ]
}

/// The 48-bit unsigned integer stored big-endian at `at`.
pub open spec fn u48_at(b: Seq<u8>, at: int) -> u64 {
    ((b[at] as u64) << 40u64) | ((b[at + 1] as u64) << 32u64) | ((b[at + 2] as u64) << 24u64) | ((
    b[at + 3] as u64) << 16u64) | ((b[at + 4] as u64) << 8u64) | (b[at + 5] as u64)
}

/// Big-endian two's complement bytes of an `i16`.
pub open spec fn be_i16(x: i16) -> Seq<u8> {
    be_u16(x as u16)
}

/// The `i16` stored big-endian at `at`.
pub open spec fn i16_at(b: Seq<u8>, at: int) -> i16 {
    u16_at(b, at) as i16
}

/// Big-endian two's complement bytes of an `i32`.
pub open spec fn be_i32(x: i32) -> Seq<u8> {
    be_u32(x as u32)
}

/// The `i32` stored big-endian at `at`.
pub open spec fn i32_at(b: Seq<u8>, at: int) -> i32 {
    u32_at(b, at) as i32
}

/// Big-endian bytes of a `u64`.
pub open spec fn be_u64(x: u64) -> Seq<u8> {
    seq![
        (x >> 56u64) as u8,
        (x >> 48u64) as u8,
        (x >> 40u64) as u8,
        (x >> 32u64) as u8,
        (x >> 24u64) as u8,
        (x >> 16u64) as u8,
        (x >> 8u64) as u8,
        x as u8,
    ]
}

/// The `u64` stored big-endian at `at`.
pub open spec fn u64_at(b: Seq<u8>, at: int) -> u64 {
    ((b[at] as u64) << 56u64) | ((b[at + 1] as u64) << 48u64) | ((b[at + 2] as u64) << 40u64) | ((
    b[at + 3] as u64) << 32u64) | ((b[at + 4] as u64) << 24u64) | ((b[at + 5] as u64) << 16u64) | ((
    b[at + 6] as u64) << 8u64) | (b[at + 7] as u64)
}

/// Big-endian two's complement bytes of an `i64`.
pub open spec fn be_i64(x: i64) -> Seq<u8> {
    be_u64(x as u64)
}

/// The `i64` stored big-endian at `at`.
pub open spec fn i64_at(b: Seq<u8>, at: int) -> i64 {
    u64_at(b, at) as i64
}

/// Reading back a written `u16` gives the value.
pub proof fn lemma_u16_roundtrip(x: u16, b: Seq<u8>, at: int)
    requires
        0 <= at,
        at + 2 <= b.len(),
        b.subrange(at, at + 2) == be_u16(x),
    ensures
        u16_at(b, at) == x,
{
    let b0 = b[at];
    let b1 = b[at + 1];
    assert(b0 == b.subrange(at, at + 2)[0]);
    assert(b1 == b.subrange(at, at + 2)[1]);
    assert(((b0 as u16) << 8u16) | (b1 as u16) == x) by (bit_vector)
        requires
            b0 == (x >> 8u16) as u8,
            b1 == x as u8,
    ;
}

/// Writing a read `u16` gives back the bytes.
pub proof fn lemma_u16_bytes(b: Seq<u8>, at: int)
    requires
        0 <= at,
        at + 2 <= b.len(),
    ensures
        be_u16(u16_at(b, at)) == b.subrange(at, at + 2),
{
    let b0 = b[at];
    let b1 = b[at + 1];
    let v = u16_at(b, at);
    assert((v >> 8u16) as u8 == b0 && v as u8 == b1) by (bit_vector)
        requires
            v == ((b0 as u16) << 8u16) | (b1 as u16),
    ;
    assert(be_u16(v) =~= b.subrange(at, at + 2));
}

/// Reading back a written `u32` gives the value.
pub proof fn lemma_u32_roundtrip(x: u32, b: Seq<u8>, at: int)
    requires
        0 <= at,
        at + 4 <= b.len(),
        b.subrange(at, at + 4) == be_u32(x),
    ensures
        u32_at(b, at) == x,
{
    let s = b.subrange(at, at + 4);
    let b0 = b[at];
    let b1 = b[at + 1];
    let b2 = b[at + 2];
    let b3 = b[at + 3];
    assert(b0 == s[0] && b1 == s[1] && b2 == s[2] && b3 == s[3]);
    assert(((b0 as u32) << 24u32) | ((b1 as u32) << 16u32) | ((b2 as u32) << 8u32) | (b3 as u32)
        == x) by (bit_vector)
        requires
            b0 == (x >> 24u32) as u8,
            b1 == (x >> 16u32) as u8,
            b2 == (x >> 8u32) as u8,
            b3 == x as u8,
    ;
}

/// Writing a read `u32` gives back the bytes.
pub proof fn lemma_u32_bytes(b: Seq<u8>, at: int)
    requires
        0 <= at,
        at + 4 <= b.len(),
    ensures
        be_u32(u32_at(b, at)) == b.subrange(at, at + 4),
{
    let b0 = b[at];
    let b1 = b[at + 1];
    let b2 = b[at + 2];
    let b3 = b[at + 3];
    let v = u32_at(b, at);
    assert((v >> 24u32) as u8 == b0 && (v >> 16u32) as u8 == b1 && (v >> 8u32) as u8 == b2 && v as u8
        == b3) by (bit_vector)
        requires
            v == ((b0 as u32) << 24u32) | ((b1 as u32) << 16u32) | ((b2 as u32) << 8u32) | (
            b3 as u32),
    ;
    assert(be_u32(v) =~= b.subrange(at, at + 4));
}

/// Reading back the written low 48 bits of a `u64` gives those bits.
pub proof fn lemma_u48_roundtrip(x: u64, b: Seq<u8>, at: int)
    requires
        0 <= at,
        at + 6 <= b.len(),
        b.subrange(at, at + 6) == be_u48(x),
    ensures
        u48_at(b, at) == x % 0x1_0000_0000_0000,
{
    let s = b.subrange(at, at + 6);
    let b0 = b[at];
    let b1 = b[at + 1];
    let b2 = b[at + 2];
    let b3 = b[at + 3];
    let b4 = b[at + 4];
    let b5 = b[at + 5];
    assert(b0 == s[0] && b1 == s[1] && b2 == s[2] && b3 == s[3] && b4 == s[4] && b5 == s[5]);
    assert(((b0 as u64) << 40u64) | ((b1 as u64) << 32u64) | ((b2 as u64) << 24u64) | ((
    b3 as u64) << 16u64) | ((b4 as u64) << 8u64) | (b5 as u64) == x % 0x1_0000_0000_0000)
        by (bit_vector)
        requires
            b0 == (x >> 40u64) as u8,
            b1 == (x >> 32u64) as u8,
            b2 == (x >> 24u64) as u8,
            b3 == (x >> 16u64) as u8,
            b4 == (x >> 8u64) as u8,
            b5 == x as u8,
    ;
}

/// Writing read 48-bit value gives back the bytes.
pub proof fn lemma_u48_bytes(b: Seq<u8>, at: int)
    requires
        0 <= at,
        at + 6 <= b.len(),
    ensures
        be_u48(u48_at(b, at)) == b.subrange(at, at + 6),
        u48_at(b, at) < 0x1_0000_0000_0000,
{
    let b0 = b[at];
    let b1 = b[at + 1];
    let b2 = b[at + 2];
    let b3 = b[at + 3];
    let b4 = b[at + 4];
    let b5 = b[at + 5];
    let v = u48_at(b, at);
    assert((v >> 40u64) as u8 == b0 && (v >> 32u64) as u8 == b1 && (v >> 24u64) as u8 == b2 && (v
        >> 16u64) as u8 == b3 && (v >> 8u64) as u8 == b4 && v as u8 == b5 && v
        < 0x1_0000_0000_0000) by (bit_vector)
        requires
            v == ((b0 as u64) << 40u64) | ((b1 as u64) << 32u64) | ((b2 as u64) << 24u64) | ((
            b3 as u64) << 16u64) | ((b4 as u64) << 8u64) | (b5 as u64),
    ;
    assert(be_u48(v) =~= b.subrange(at, at + 6));
}

/// Reading back a written `i16` gives the value.
pub proof fn lemma_i16_roundtrip(x: i16, b: Seq<u8>, at: int)
    requires
        0 <= at,
        at + 2 <= b.len(),
        b.subrange(at, at + 2) == be_i16(x),
    ensures
        i16_at(b, at) == x,
{
    lemma_u16_roundtrip(x as u16, b, at);
    assert((x as u16) as i16 == x) by (bit_vector);
}

/// Reading back a written `i32` gives the value.
pub proof fn lemma_i32_roundtrip(x: i32, b: Seq<u8>, at: int)
    requires
        0 <= at,
        at + 4 <= b.len(),
        b.subrange(at, at + 4) == be_i32(x),
    ensures
        i32_at(b, at) == x,
{
    lemma_u32_roundtrip(x as u32, b, at);
    assert((x as u32) as i32 == x) by (bit_vector);
}

/// Reading back a written `u64` gives the value.
pub proof fn lemma_u64_roundtrip(x: u64, b: Seq<u8>, at: int)
    requires
        0 <= at,
        at + 8 <= b.len(),
        b.subrange(at, at + 8) == be_u64(x),
    ensures
        u64_at(b, at) == x,
{
    let s = b.subrange(at, at + 8);
    let b0 = b[at];
    let b1 = b[at + 1];
    let b2 = b[at + 2];
    let b3 = b[at + 3];
    let b4 = b[at + 4];
    let b5 = b[at + 5];
    let b6 = b[at + 6];
    let b7 = b[at + 7];
    assert(b0 == s[0] && b1 == s[1] && b2 == s[2] && b3 == s[3] && b4 == s[4] && b5 == s[5]
        && b6 == s[6] && b7 == s[7]);
    assert(((b0 as u64) << 56u64) | ((b1 as u64) << 48u64) | ((b2 as u64) << 40u64) | ((
    b3 as u64) << 32u64) | ((b4 as u64) << 24u64) | ((b5 as u64) << 16u64) | ((b6 as u64)
        << 8u64) | (b7 as u64) == x) by (bit_vector)
        requires
            b0 == (x >> 56u64) as u8,
            b1 == (x >> 48u64) as u8,
            b2 == (x >> 40u64) as u8,
            b3 == (x >> 32u64) as u8,
            b4 == (x >> 24u64) as u8,
            b5 == (x >> 16u64) as u8,
            b6 == (x >> 8u64) as u8,
            b7 == x as u8,
    ;
}

/// Reading back a written `i64` gives the value.
pub proof fn lemma_i64_roundtrip(x: i64, b: Seq<u8>, at: int)
    requires
        0 <= at,
        at + 8 <= b.len(),
        b.subrange(at, at + 8) == be_i64(x),
    ensures
        i64_at(b, at) == x,
{
    lemma_u64_roundtrip(x as u64, b, at);
    assert((x as u64) as i64 == x) by (bit_vector);
}

/// Writes one byte at `at`.
pub fn put_u8(buffer: &mut [u8], at: usize, x: u8)
    requires
        at < old(buffer)@.len(),
    ensures
        final(buffer)@ == splice(old(buffer)@, at as int, seq![x]),
{
    buffer[at] = x;
    assert(buffer@ =~= splice(old(buffer)@, at as int, seq![x]));
}

/// Writes `x` big-endian at `at`.
pub fn put_u16(buffer: &mut [u8], at: usize, x: u16)
    requires
        at + 2 <= old(buffer).len(),
    ensures
        final(buffer)@ == splice(old(buffer)@, at as int, be_u16(x)),
{
    buffer[at] = (x >> 8u16) as u8;
    buffer[at + 1] = x as u8;
    assert(buffer@ =~= splice(old(buffer)@, at as int, be_u16(x)));
}

/// Writes `x` big-endian at `at`.
pub fn put_u32(buffer: &mut [u8], at: usize, x: u32)
    requires
        at + 4 <= old(buffer).len(),
    ensures
        final(buffer)@ == splice(old(buffer)@, at as int, be_u32(x)),
{
    buffer[at] = (x >> 24u32) as u8;
    buffer[at + 1] = (x >> 16u32) as u8;
    buffer[at + 2] = (x >> 8u32) as u8;
    buffer[at + 3] = x as u8;
    assert(buffer@ =~= splice(old(buffer)@, at as int, be_u32(x)));
}

/// Writes the low 48 bits of `x` big-endian at `at`.
pub fn put_u48(buffer: &mut [u8], at: usize, x: u64)
    requires
        at + 6 <= old(buffer).len(),
    ensures
        final(buffer)@ == splice(old(buffer)@, at as int, be_u48(x)),
{
    buffer[at] = (x >> 40u64) as u8;
    buffer[at + 1] = (x >> 32u64) as u8;
    buffer[at + 2] = (x >> 24u64) as u8;
    buffer[at + 3] = (x >> 16u64) as u8;
    buffer[at + 4] = (x >> 8u64) as u8;
    buffer[at + 5] = x as u8;
    assert(buffer@ =~= splice(old(buffer)@, at as int, be_u48(x)));
}

/// Writes `x` big-endian at `at`.
pub fn put_u64(buffer: &mut [u8], at: usize, x: u64)
    requires
        at + 8 <= old(buffer).len(),
    ensures
        final(buffer)@ == splice(old(buffer)@, at as int, be_u64(x)),
{
    buffer[at] = (x >> 56u64) as u8;
    buffer[at + 1] = (x >> 48u64) as u8;
    buffer[at + 2] = (x >> 40u64) as u8;
    buffer[at + 3] = (x >> 32u64) as u8;
    buffer[at + 4] = (x >> 24u64) as u8;
    buffer[at + 5] = (x >> 16u64) as u8;
    buffer[at + 6] = (x >> 8u64) as u8;
    buffer[at + 7] = x as u8;
    assert(buffer@ =~= splice(old(buffer)@, at as int, be_u64(x)));
}

/// Copies `data` into the buffer at `at`.
pub fn put_bytes(buffer: &mut [u8], at: usize, data: &[u8])
    requires
        at + data@.len() <= old(buffer).len(),
    ensures
        final(buffer)@ == splice(old(buffer)@, at as int, data@),
{
    let n: usize = buffer.len();
    let mut i: usize = 0;
    while i < data.len()
        invariant
            n == buffer@.len(),
            i <= data@.len(),
            at + data@.len() <= old(buffer).len(),
            buffer@.len() == old(buffer)@.len(),
            buffer@ == splice(old(buffer)@, at as int, data@.take(i as int)),
        decreases data@.len() - i,
    {
        buffer[at + i] = data[i];
        assert(buffer@ =~= splice(old(buffer)@, at as int, data@.take(i + 1)));
        i = i + 1;
    }
    assert(data@.take(i as int) =~= data@);
}

/// Reads the `u16` stored big-endian at `at`.
pub fn get_u16(buffer: &[u8], at: usize) -> (r: u16)
    requires
        at + 2 <= buffer.len(),
    ensures
        r == u16_at(buffer@, at as int),
{
    ((buffer[at] as u16) << 8u16) | (buffer[at + 1] as u16)
}

/// Reads the `u32` stored big-endian at `at`.
pub fn get_u32(buffer: &[u8], at: usize) -> (r: u32)
    requires
        at + 4 <= buffer.len(),
    ensures
        r == u32_at(buffer@, at as int),
{
    ((buffer[at] as u32) << 24u32) | ((buffer[at + 1] as u32) << 16u32) | ((buffer[at + 2] as u32)
        << 8u32) | (buffer[at + 3] as u32)
}

/// Reads the 48-bit unsigned integer stored big-endian at `at`.
pub fn get_u48(buffer: &[u8], at: usize) -> (r: u64)
    requires
        at + 6 <= buffer.len(),
    ensures
        r == u48_at(buffer@, at as int),
{
    ((buffer[at] as u64) << 40u64) | ((buffer[at + 1] as u64) << 32u64) | ((buffer[at + 2] as u64)
        << 24u64) | ((buffer[at + 3] as u64) << 16u64) | ((buffer[at + 4] as u64) << 8u64) | (
    buffer[at + 5] as u64)
}

/// Reads the `u64` stored big-endian at `at`.
pub fn get_u64(buffer: &[u8], at: usize) -> (r: u64)
    requires
        at + 8 <= buffer.len(),
    ensures
        r == u64_at(buffer@, at as int),
{
    ((buffer[at] as u64) << 56u64) | ((buffer[at + 1] as u64) << 48u64) | ((buffer[at + 2] as u64)
        << 40u64) | ((buffer[at + 3] as u64) << 32u64) | ((buffer[at + 4] as u64) << 24u64) | ((
    buffer[at + 5] as u64) << 16u64) | ((buffer[at + 6] as u64) << 8u64) | (buffer[at + 7] as u64)
}

} // verus!
