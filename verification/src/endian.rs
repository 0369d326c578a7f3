//! Fixed-width integers as bytes.
//!
//! The protocol writes every integer most significant byte first. The layout
//! is stated by division and remainder, so that the code that writes a number
//! and the specification that describes the bytes read the same way.

use vstd::prelude::*;

verus! {

/// The two bytes of `x`, most significant first.
pub open spec fn be_bytes_u16(x: u16) -> Seq<u8> {
    seq![(x / 0x100) as u8, (x % 0x100) as u8]
}

/// The four bytes of `x`, most significant first.
pub open spec fn be_bytes_u32(x: u32) -> Seq<u8> {
    seq![
        (x / 0x100_0000) as u8,
        (x / 0x1_0000 % 0x100) as u8,
        (x / 0x100 % 0x100) as u8,
        (x % 0x100) as u8,
    ]
}

/// The four bytes of `x`, least significant first.
pub open spec fn le_bytes_u32(x: u32) -> Seq<u8> {
    seq![
        (x % 0x100) as u8,
        (x / 0x100 % 0x100) as u8,
        (x / 0x1_0000 % 0x100) as u8,
        (x / 0x100_0000) as u8,
    ]
}

/// The eight bytes of `x`, most significant first.
pub open spec fn be_bytes_u64(x: u64) -> Seq<u8> {
    seq![
        (x / 0x100_0000_0000_0000) as u8,
        (x / 0x1_0000_0000_0000 % 0x100) as u8,
        (x / 0x100_0000_0000 % 0x100) as u8,
        (x / 0x1_0000_0000 % 0x100) as u8,
        (x / 0x100_0000 % 0x100) as u8,
        (x / 0x1_0000 % 0x100) as u8,
        (x / 0x100 % 0x100) as u8,
        (x % 0x100) as u8,
    ]
}

/// The number whose big-endian bytes are the first two of `s`.
pub open spec fn be_u16(s: Seq<u8>) -> u16
    recommends
        s.len() >= 2,
{
    (s[0] * 0x100 + s[1]) as u16
}

/// The number whose big-endian bytes are the first four of `s`.
pub open spec fn be_u32(s: Seq<u8>) -> u32
    recommends
        s.len() >= 4,
{
    (s[0] * 0x100_0000 + s[1] * 0x1_0000 + s[2] * 0x100 + s[3]) as u32
}

/// The number whose big-endian bytes are the first eight of `s`.
pub open spec fn be_u64(s: Seq<u8>) -> u64
    recommends
        s.len() >= 8,
{
    (s[0] * 0x100_0000_0000_0000 + s[1] * 0x1_0000_0000_0000 + s[2] * 0x100_0000_0000 + s[3]
        * 0x1_0000_0000 + s[4] * 0x100_0000 + s[5] * 0x1_0000 + s[6] * 0x100 + s[7]) as u64
}

/// The unsigned 32-bit number with the bit pattern of `x` in two's complement.
pub open spec fn twos_complement_u32(x: i32) -> u32 {
    if x >= 0 {
        x as u32
    } else {
        (x + 0x1_0000_0000) as u32
    }
}

/// Reading back what was written gives the number that was written.
pub proof fn lemma_be_roundtrip(a: u16, b: u32, c: u64)
    ensures
        be_bytes_u16(a).len() == 2,
        be_bytes_u32(b).len() == 4,
        le_bytes_u32(b).len() == 4,
        be_bytes_u64(c).len() == 8,
        be_u16(be_bytes_u16(a)) == a,
        be_u32(be_bytes_u32(b)) == b,
        be_u64(be_bytes_u64(c)) == c,
{
    assert(((a / 0x100) as u8) * 0x100 + ((a % 0x100) as u8) == a) by (bit_vector);
    assert(((b / 0x100_0000) as u8) * 0x100_0000 + ((b / 0x1_0000 % 0x100) as u8) * 0x1_0000 + ((b
        / 0x100 % 0x100) as u8) * 0x100 + ((b % 0x100) as u8) == b) by (bit_vector);
    assert(((c / 0x100_0000_0000_0000) as u8) * 0x100_0000_0000_0000 + ((c / 0x1_0000_0000_0000
        % 0x100) as u8) * 0x1_0000_0000_0000 + ((c / 0x100_0000_0000 % 0x100) as u8)
        * 0x100_0000_0000 + ((c / 0x1_0000_0000 % 0x100) as u8) * 0x1_0000_0000 + ((c / 0x100_0000
        % 0x100) as u8) * 0x100_0000 + ((c / 0x1_0000 % 0x100) as u8) * 0x1_0000 + ((c / 0x100
        % 0x100) as u8) * 0x100 + ((c % 0x100) as u8) == c) by (bit_vector);
}

/// Writing what was read gives the bytes that were read: the encodings are
/// one to one on sequences of the right length.
pub proof fn lemma_be_bytes_of_read(s: Seq<u8>)
    ensures
        s.len() == 2 ==> be_bytes_u16(be_u16(s)) == s,
        s.len() == 4 ==> be_bytes_u32(be_u32(s)) == s,
        s.len() == 8 ==> be_bytes_u64(be_u64(s)) == s,
{
    if s.len() == 2 {
        let (b0, b1) = (s[0], s[1]);
        let x = (b0 * 0x100 + b1) as u16;
        assert(x == b0 * 0x100 + b1);
        assert(x == b0 * 0x100 + b1 ==> (x / 0x100) as u8 == b0 && (x % 0x100) as u8 == b1)
            by (bit_vector);
        assert(be_bytes_u16(be_u16(s)) =~= s);
    }
    if s.len() == 4 {
        let (b0, b1, b2, b3) = (s[0], s[1], s[2], s[3]);
        let x = (b0 * 0x100_0000 + b1 * 0x1_0000 + b2 * 0x100 + b3) as u32;
        assert(x == b0 * 0x100_0000 + b1 * 0x1_0000 + b2 * 0x100 + b3);
        assert(x == b0 * 0x100_0000 + b1 * 0x1_0000 + b2 * 0x100 + b3 ==> (x / 0x100_0000) as u8
            == b0 && (x / 0x1_0000 % 0x100) as u8 == b1 && (x / 0x100 % 0x100) as u8 == b2 && (x
            % 0x100) as u8 == b3) by (bit_vector);
        assert(be_bytes_u32(be_u32(s)) =~= s);
    }
    if s.len() == 8 {
        let (b0, b1, b2, b3) = (s[0], s[1], s[2], s[3]);
        let (b4, b5, b6, b7) = (s[4], s[5], s[6], s[7]);
        let x = (b0 * 0x100_0000_0000_0000 + b1 * 0x1_0000_0000_0000 + b2 * 0x100_0000_0000 + b3
            * 0x1_0000_0000 + b4 * 0x100_0000 + b5 * 0x1_0000 + b6 * 0x100 + b7) as u64;
        assert(x == b0 * 0x100_0000_0000_0000 + b1 * 0x1_0000_0000_0000 + b2 * 0x100_0000_0000
            + b3 * 0x1_0000_0000 + b4 * 0x100_0000 + b5 * 0x1_0000 + b6 * 0x100 + b7);
        assert(x == b0 * 0x100_0000_0000_0000 + b1 * 0x1_0000_0000_0000 + b2 * 0x100_0000_0000
            + b3 * 0x1_0000_0000 + b4 * 0x100_0000 + b5 * 0x1_0000 + b6 * 0x100 + b7 ==> (x
            / 0x100_0000_0000_0000) as u8 == b0 && (x / 0x1_0000_0000_0000 % 0x100) as u8 == b1
            && (x / 0x100_0000_0000 % 0x100) as u8 == b2 && (x / 0x1_0000_0000 % 0x100) as u8
            == b3 && (x / 0x100_0000 % 0x100) as u8 == b4 && (x / 0x1_0000 % 0x100) as u8 == b5
            && (x / 0x100 % 0x100) as u8 == b6 && (x % 0x100) as u8 == b7) by (bit_vector);
        assert(be_bytes_u64(be_u64(s)) =~= s);
    }
}

/// Appends `x`, most significant byte first.
pub fn put_be_u16(out: &mut Vec<u8>, x: u16)
    ensures
        final(out)@ == old(out)@ + be_bytes_u16(x),
{
    out.push((x / 0x100) as u8);
    out.push((x % 0x100) as u8);
    assert(out@ =~= old(out)@ + be_bytes_u16(x));
}

/// Appends `x`, most significant byte first.
pub fn put_be_u32(out: &mut Vec<u8>, x: u32)
    ensures
        final(out)@ == old(out)@ + be_bytes_u32(x),
{
    out.push((x / 0x100_0000) as u8);
    out.push((x / 0x1_0000 % 0x100) as u8);
    out.push((x / 0x100 % 0x100) as u8);
    out.push((x % 0x100) as u8);
    assert(out@ =~= old(out)@ + be_bytes_u32(x));
}

/// Appends `x`, most significant byte first.
pub fn put_be_u64(out: &mut Vec<u8>, x: u64)
    ensures
        final(out)@ == old(out)@ + be_bytes_u64(x),
{
    out.push((x / 0x100_0000_0000_0000) as u8);
    out.push((x / 0x1_0000_0000_0000 % 0x100) as u8);
    out.push((x / 0x100_0000_0000 % 0x100) as u8);
    out.push((x / 0x1_0000_0000 % 0x100) as u8);
    out.push((x / 0x100_0000 % 0x100) as u8);
    out.push((x / 0x1_0000 % 0x100) as u8);
    out.push((x / 0x100 % 0x100) as u8);
    out.push((x % 0x100) as u8);
    assert(out@ =~= old(out)@ + be_bytes_u64(x));
}

/// Appends the two's complement of `x`, most significant byte first.
pub fn put_be_i32(out: &mut Vec<u8>, x: i32)
    ensures
        final(out)@ == old(out)@ + be_bytes_u32(twos_complement_u32(x)),
{
    let u: u32 = if x >= 0 {
        x as u32
    } else {
        (x as i64 + 0x1_0000_0000i64) as u32
    };
    put_be_u32(out, u);
}

/// Appends every byte of `src`.
pub fn put_bytes(out: &mut Vec<u8>, src: &[u8])
    ensures
        final(out)@ == old(out)@ + src@,
{
    let mut i: usize = 0;
    while i < src.len()
        invariant
            i <= src.len(),
            out@ == old(out)@ + src@.subrange(0, i as int),
        decreases src.len() - i,
    {
        out.push(src[i]);
        i += 1;
        assert(out@ =~= old(out)@ + src@.subrange(0, i as int));
    }
    assert(src@.subrange(0, src.len() as int) =~= src@);
}

/// Appends `n` zero bytes.
pub fn put_zeros(out: &mut Vec<u8>, n: usize)
    ensures
        final(out)@ == old(out)@ + Seq::new(n as nat, |i: int| 0u8),
{
    let mut i: usize = 0;
    while i < n
        invariant
            i <= n,
            out@ == old(out)@ + Seq::new(i as nat, |i: int| 0u8),
        decreases n - i,
    {
        out.push(0u8);
        i += 1;
        assert(out@ =~= old(out)@ + Seq::new(i as nat, |i: int| 0u8));
    }
}

/// The number written big-endian at `at`.
pub fn get_be_u16(bytes: &[u8], at: usize) -> (r: u16)
    requires
        at + 2 <= bytes.len(),
    ensures
        r == be_u16(bytes@.subrange(at as int, at + 2)),
{
    (bytes[at] as u16) * 0x100 + (bytes[at + 1] as u16)
}

/// The number written big-endian at `at`.
pub fn get_be_u32(bytes: &[u8], at: usize) -> (r: u32)
    requires
        at + 4 <= bytes.len(),
    ensures
        r == be_u32(bytes@.subrange(at as int, at + 4)),
{
    (bytes[at] as u32) * 0x100_0000 + (bytes[at + 1] as u32) * 0x1_0000 + (bytes[at + 2] as u32)
        * 0x100 + (bytes[at + 3] as u32)
}

/// The number written big-endian at `at`.
pub fn get_be_u64(bytes: &[u8], at: usize) -> (r: u64)
    requires
        at + 8 <= bytes.len(),
    ensures
        r == be_u64(bytes@.subrange(at as int, at + 8)),
{
    (bytes[at] as u64) * 0x100_0000_0000_0000 + (bytes[at + 1] as u64) * 0x1_0000_0000_0000 + (
    bytes[at + 2] as u64) * 0x100_0000_0000 + (bytes[at + 3] as u64) * 0x1_0000_0000 + (bytes[at
        + 4] as u64) * 0x100_0000 + (bytes[at + 5] as u64) * 0x1_0000 + (bytes[at + 6] as u64)
        * 0x100 + (bytes[at + 7] as u64)
}

} // verus!
