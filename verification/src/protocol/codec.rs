//! Big-endian integer encodings used throughout the wire format.

use vstd::prelude::*;

verus! {

/// Unsigned value of the two bytes at `i`, most significant first.
pub open spec fn be2(s: Seq<u8>, i: int) -> int {
    s[i] * 256 + s[i + 1]
}

/// Unsigned value of the four bytes at `i`, most significant first.
pub open spec fn be4(s: Seq<u8>, i: int) -> int {
    s[i] * 16777216 + s[i + 1] * 65536 + s[i + 2] * 256 + s[i + 3]
}

/// Unsigned value of the eight bytes at `i`, most significant first.
pub open spec fn be8(s: Seq<u8>, i: int) -> int {
    be4(s, i) * 4294967296 + be4(s, i + 4)
}

pub open spec fn i8_at(s: Seq<u8>, i: int) -> i8 {
    (if s[i] >= 128 { s[i] - 256 } else { s[i] as int }) as i8
}

pub open spec fn u16_at(s: Seq<u8>, i: int) -> u16 {
    be2(s, i) as u16
}

pub open spec fn i16_at(s: Seq<u8>, i: int) -> i16 {
    let u = be2(s, i);
    (if u >= 0x8000 { u - 0x10000 } else { u }) as i16
}

pub open spec fn u32_at(s: Seq<u8>, i: int) -> u32 {
    be4(s, i) as u32
}

pub open spec fn i32_at(s: Seq<u8>, i: int) -> i32 {
    let u = be4(s, i);
    (if u >= 0x8000_0000 { u - 0x1_0000_0000 } else { u }) as i32
}

pub open spec fn i64_at(s: Seq<u8>, i: int) -> i64 {
    let u = be8(s, i);
    (if u >= 0x8000_0000_0000_0000 { u - 0x1_0000_0000_0000_0000 } else { u }) as i64
}

pub open spec fn i8_bytes(x: i8) -> Seq<u8> {
    seq![(if x < 0 { x + 256 } else { x as int }) as u8]
}

pub open spec fn u16_bytes(u: u16) -> Seq<u8> {
    seq![(u / 256) as u8, (u % 256) as u8]
}

pub open spec fn i16_bytes(x: i16) -> Seq<u8> {
    u16_bytes((if x < 0 { x + 0x10000 } else { x as int }) as u16)
}

pub open spec fn u32_bytes(u: u32) -> Seq<u8> {
    seq![
        (u / 16777216) as u8,
        ((u / 65536) % 256) as u8,
        ((u / 256) % 256) as u8,
        (u % 256) as u8,
    ]
}

pub open spec fn i32_bytes(x: i32) -> Seq<u8> {
    u32_bytes((if x < 0 { x + 0x1_0000_0000 } else { x as int }) as u32)
}

pub open spec fn u64_bytes(u: u64) -> Seq<u8> {
    u32_bytes((u / 4294967296) as u32) + u32_bytes((u % 4294967296) as u32)
}

pub open spec fn i64_bytes(x: i64) -> Seq<u8> {
    u64_bytes(
        (if x < 0 { x + 0x1_0000_0000_0000_0000 } else { x as int }) as u64,
    )
}

/// Reading back what was written gives the value, whatever follows it.
pub proof fn lemma_i8_roundtrip(x: i8, rest: Seq<u8>)
    ensures
        i8_bytes(x).len() == 1,
        i8_at(i8_bytes(x) + rest, 0) == x,
{
}

pub proof fn lemma_u16_roundtrip(x: u16, rest: Seq<u8>)
    ensures
        u16_bytes(x).len() == 2,
        u16_at(u16_bytes(x) + rest, 0) == x,
{
}

pub proof fn lemma_i16_roundtrip(x: i16, rest: Seq<u8>)
    ensures
        i16_bytes(x).len() == 2,
        i16_at(i16_bytes(x) + rest, 0) == x,
{
}

pub proof fn lemma_u32_roundtrip(x: u32, rest: Seq<u8>)
    ensures
        u32_bytes(x).len() == 4,
        u32_at(u32_bytes(x) + rest, 0) == x,
{
}

pub proof fn lemma_i32_roundtrip(x: i32, rest: Seq<u8>)
    ensures
        i32_bytes(x).len() == 4,
        i32_at(i32_bytes(x) + rest, 0) == x,
{
}

pub proof fn lemma_i64_roundtrip(x: i64, rest: Seq<u8>)
    ensures
        i64_bytes(x).len() == 8,
        i64_at(i64_bytes(x) + rest, 0) == x,
{
    let u = (if x < 0 { x + 0x1_0000_0000_0000_0000 } else { x as int }) as u64;
    let hi = (u / 4294967296) as u32;
    let lo = (u % 4294967296) as u32;
    let s = i64_bytes(x) + rest;
    assert(s == u32_bytes(hi) + (u32_bytes(lo) + rest));
    lemma_u32_roundtrip(hi, u32_bytes(lo) + rest);
    lemma_u32_roundtrip(lo, rest);
    assert((u32_bytes(lo) + rest) =~= s.subrange(4, s.len() as int));
    assert(be4(s, 4) == be4(u32_bytes(lo) + rest, 0));
}

/// Bytes read as a value and written again are the bytes that were read.
pub proof fn lemma_i8_bytes_of(s: Seq<u8>, i: int)
    requires
        0 <= i < s.len(),
    ensures
        i8_bytes(i8_at(s, i)) == s.subrange(i, i + 1),
{
    assert(i8_bytes(i8_at(s, i)) =~= s.subrange(i, i + 1));
}

pub proof fn lemma_u16_bytes_of(s: Seq<u8>, i: int)
    requires
        0 <= i && i + 2 <= s.len(),
    ensures
        u16_bytes(u16_at(s, i)) == s.subrange(i, i + 2),
{
    assert(u16_bytes(u16_at(s, i)) =~= s.subrange(i, i + 2));
}

pub proof fn lemma_i16_bytes_of(s: Seq<u8>, i: int)
    requires
        0 <= i && i + 2 <= s.len(),
    ensures
        i16_bytes(i16_at(s, i)) == s.subrange(i, i + 2),
{
    assert(i16_bytes(i16_at(s, i)) =~= s.subrange(i, i + 2));
}

pub proof fn lemma_u32_bytes_of(s: Seq<u8>, i: int)
    requires
        0 <= i && i + 4 <= s.len(),
    ensures
        u32_bytes(u32_at(s, i)) == s.subrange(i, i + 4),
{
    assert(u32_bytes(u32_at(s, i)) =~= s.subrange(i, i + 4));
}

pub proof fn lemma_i32_bytes_of(s: Seq<u8>, i: int)
    requires
        0 <= i && i + 4 <= s.len(),
    ensures
        i32_bytes(i32_at(s, i)) == s.subrange(i, i + 4),
{
    let x = i32_at(s, i);
    assert((if x < 0 { x + 0x1_0000_0000 } else { x as int }) as u32 == u32_at(s, i));
    lemma_u32_bytes_of(s, i);
}

pub proof fn lemma_i64_bytes_of(s: Seq<u8>, i: int)
    requires
        0 <= i && i + 8 <= s.len(),
    ensures
        i64_bytes(i64_at(s, i)) == s.subrange(i, i + 8),
{
    let u = be8(s, i);
    let hi = be4(s, i);
    let lo = be4(s, i + 4);
    assert(u / 4294967296 == hi);
    assert(u % 4294967296 == lo);
    lemma_u32_bytes_of(s, i);
    lemma_u32_bytes_of(s, i + 4);
    assert(i64_bytes(i64_at(s, i)) =~= s.subrange(i, i + 8));
}

pub fn push_i8(out: &mut Vec<u8>, x: i8)
    ensures
        final(out)@ == old(out)@ + i8_bytes(x),
{
    let u: u8 = if x < 0 {
        (x as i16 + 256) as u8
    } else {
        x as u8
    };
    out.push(u);
    assert(final(out)@ =~= old(out)@ + i8_bytes(x));
}

pub fn push_u16(out: &mut Vec<u8>, x: u16)
    ensures
        final(out)@ == old(out)@ + u16_bytes(x),
{
    out.push((x / 256) as u8);
    out.push((x % 256) as u8);
    assert(final(out)@ =~= old(out)@ + u16_bytes(x));
}

pub fn push_i16(out: &mut Vec<u8>, x: i16)
    ensures
        final(out)@ == old(out)@ + i16_bytes(x),
{
    let u: u16 = if x < 0 {
        (x as i32 + 65536) as u16
    } else {
        x as u16
    };
    push_u16(out, u);
}

pub fn push_u32(out: &mut Vec<u8>, x: u32)
    ensures
        final(out)@ == old(out)@ + u32_bytes(x),
{
    out.push((x / 16777216) as u8);
    out.push(((x / 65536) % 256) as u8);
    out.push(((x / 256) % 256) as u8);
    out.push((x % 256) as u8);
    assert(final(out)@ =~= old(out)@ + u32_bytes(x));
}

pub fn push_i32(out: &mut Vec<u8>, x: i32)
    ensures
        final(out)@ == old(out)@ + i32_bytes(x),
{
    let u: u32 = if x < 0 {
        (x as i64 + 0x1_0000_0000) as u32
    } else {
        x as u32
    };
    push_u32(out, u);
}

pub fn push_u64(out: &mut Vec<u8>, x: u64)
    ensures
        final(out)@ == old(out)@ + u64_bytes(x),
{
    push_u32(out, (x / 4294967296) as u32);
    push_u32(out, (x % 4294967296) as u32);
    assert(final(out)@ =~= old(out)@ + u64_bytes(x));
}

pub fn push_i64(out: &mut Vec<u8>, x: i64)
    ensures
        final(out)@ == old(out)@ + i64_bytes(x),
{
    let u: u64 = if x < 0 {
        (x as i128 + 0x1_0000_0000_0000_0000) as u64
    } else {
        x as u64
    };
    push_u64(out, u);
}

/// Appends every byte of `bytes` to `out`.
pub fn push_bytes(out: &mut Vec<u8>, bytes: &[u8])
    ensures
        final(out)@ == old(out)@ + bytes@,
{
    let mut i: usize = 0;
    while i < bytes.len()
        invariant
            0 <= i <= bytes@.len(),
            out@ == old(out)@ + bytes@.subrange(0, i as int),
        decreases bytes@.len() - i,
    {
        out.push(bytes[i]);
        i = i + 1;
        assert(out@ =~= old(out)@ + bytes@.subrange(0, i as int));
    }
    assert(bytes@.subrange(0, bytes@.len() as int) =~= bytes@);
}

pub fn read_i8(s: &[u8], i: usize) -> (r: i8)
    requires
        i < s@.len(),
    ensures
        r == i8_at(s@, i as int),
{
    let b = s[i];
    if b >= 128 {
        (b as i16 - 256) as i8
    } else {
        b as i8
    }
}

pub fn read_u16(s: &[u8], i: usize) -> (r: u16)
    requires
        i + 2 <= s@.len(),
    ensures
        r == u16_at(s@, i as int),
{
    s[i] as u16 * 256 + s[i + 1] as u16
}

pub fn read_i16(s: &[u8], i: usize) -> (r: i16)
    requires
        i + 2 <= s@.len(),
    ensures
        r == i16_at(s@, i as int),
{
    let u: i32 = s[i] as i32 * 256 + s[i + 1] as i32;
    if u >= 0x8000 {
        (u - 0x10000) as i16
    } else {
        u as i16
    }
}

pub fn read_u32(s: &[u8], i: usize) -> (r: u32)
    requires
        i + 4 <= s@.len(),
    ensures
        r == u32_at(s@, i as int),
{
    s[i] as u32 * 16777216 + s[i + 1] as u32 * 65536 + s[i + 2] as u32 * 256 + s[i + 3] as u32
}

pub fn read_i32(s: &[u8], i: usize) -> (r: i32)
    requires
        i + 4 <= s@.len(),
    ensures
        r == i32_at(s@, i as int),
{
    let u: i64 = read_u32(s, i) as i64;
    if u >= 0x8000_0000 {
        (u - 0x1_0000_0000) as i32
    } else {
        u as i32
    }
}

pub fn read_i64(s: &[u8], i: usize) -> (r: i64)
    requires
        i + 8 <= s@.len(),
    ensures
        r == i64_at(s@, i as int),
{
    let n = s.len();
    assert(i + 4 <= n);
    let hi: i128 = read_u32(s, i) as i128;
    let lo: i128 = read_u32(s, i + 4) as i128;
    let u: i128 = hi * 4294967296 + lo;
    if u >= 0x8000_0000_0000_0000 {
        (u - 0x1_0000_0000_0000_0000) as i64
    } else {
        u as i64
    }
}

/// A copy of `s[start..end]` as a vector.
pub fn copy_range(s: &[u8], start: usize, end: usize) -> (r: Vec<u8>)
    requires
        start <= end <= s@.len(),
    ensures
        r@ == s@.subrange(start as int, end as int),
{
    let mut r: Vec<u8> = Vec::new();
    let mut i = start;
    while i < end
        invariant
            start <= i <= end,
            end <= s@.len(),
            r@ == s@.subrange(start as int, i as int),
        decreases end - i,
    {
        r.push(s[i]);
        i = i + 1;
        assert(r@ =~= s@.subrange(start as int, i as int));
    }
    r
}

/// Whether two byte strings are equal.
pub fn bytes_eq(a: &[u8], b: &[u8]) -> (r: bool)
    ensures
        r == (a@ == b@),
{
    if a.len() != b.len() {
        return false;
    }
    let mut i: usize = 0;
    while i < a.len()
        invariant
            a@.len() == b@.len(),
            0 <= i <= a@.len(),
            forall|j: int| 0 <= j < i ==> a@[j] == b@[j],
        decreases a@.len() - i,
    {
        if a[i] != b[i] {
            return false;
        }
        i = i + 1;
    }
    assert(a@ =~= b@);
    true
}

/// A copy of a byte vector.
pub fn copy_vec(v: &Vec<u8>) -> (r: Vec<u8>)
    ensures
        r@ == v@,
{
    let r = copy_range(v.as_slice(), 0, v.len());
    assert(r@ =~= v@);
    r
}

} // verus!
