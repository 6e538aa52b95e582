//! Fixed-width little-endian integers in byte buffers.

use vstd::prelude::*;

verus! {

/// The eight bytes that hold `x`, least significant byte first.
pub open spec fn u64_le_bytes(x: u64) -> Seq<u8> {
    seq![
        (x % 0x100) as u8,
        ((x / 0x100) % 0x100) as u8,
        ((x / 0x1_0000) % 0x100) as u8,
        ((x / 0x100_0000) % 0x100) as u8,
        ((x / 0x1_0000_0000) % 0x100) as u8,
        ((x / 0x100_0000_0000) % 0x100) as u8,
        ((x / 0x1_0000_0000_0000) % 0x100) as u8,
        ((x / 0x100_0000_0000_0000) % 0x100) as u8,
    ]
}

/// The number that eight bytes hold, least significant byte first.
pub open spec fn le_u64(s: Seq<u8>) -> int
    recommends
        s.len() == 8,
{
    s[0] + s[1] * 0x100 + s[2] * 0x1_0000 + s[3] * 0x100_0000 + s[4] * 0x1_0000_0000 + s[5]
        * 0x100_0000_0000 + s[6] * 0x1_0000_0000_0000 + s[7] * 0x100_0000_0000_0000
}

/// Eight bytes always hold a number that fits in 64 bits.
pub proof fn lemma_le_u64_in_range(s: Seq<u8>)
    requires
        s.len() == 8,
    ensures
        0 <= le_u64(s) <= u64::MAX,
{
}

/// Reading back the bytes of a number gives the number.
pub proof fn lemma_le_u64_of_bytes(x: u64)
    ensures
        u64_le_bytes(x).len() == 8,
        le_u64(u64_le_bytes(x)) == x,
{
    assert(x == (x % 0x100) + ((x / 0x100) % 0x100) * 0x100 + ((x / 0x1_0000) % 0x100) * 0x1_0000
        + ((x / 0x100_0000) % 0x100) * 0x100_0000 + ((x / 0x1_0000_0000) % 0x100) * 0x1_0000_0000
        + ((x / 0x100_0000_0000) % 0x100) * 0x100_0000_0000 + ((x / 0x1_0000_0000_0000) % 0x100)
        * 0x1_0000_0000_0000 + ((x / 0x100_0000_0000_0000) % 0x100) * 0x100_0000_0000_0000)
        by (bit_vector);
}

/// Writing the number that eight bytes hold gives the same bytes.
pub proof fn lemma_bytes_of_le_u64(s: Seq<u8>)
    requires
        s.len() == 8,
    ensures
        u64_le_bytes(le_u64(s) as u64) == s,
{
    let x = le_u64(s) as u64;
    let s0 = s[0] as u64;
    let s1 = s[1] as u64;
    let s2 = s[2] as u64;
    let s3 = s[3] as u64;
    let s4 = s[4] as u64;
    let s5 = s[5] as u64;
    let s6 = s[6] as u64;
    let s7 = s[7] as u64;
    assert((s0 < 0x100 && s1 < 0x100 && s2 < 0x100 && s3 < 0x100 && s4 < 0x100 && s5 < 0x100 && s6
        < 0x100 && s7 < 0x100 && x == s0 + s1 * 0x100 + s2 * 0x1_0000 + s3 * 0x100_0000 + s4
        * 0x1_0000_0000 + s5 * 0x100_0000_0000 + s6 * 0x1_0000_0000_0000 + s7
        * 0x100_0000_0000_0000) ==> (x % 0x100 == s0 && (x / 0x100) % 0x100 == s1 && (x / 0x1_0000)
        % 0x100 == s2 && (x / 0x100_0000) % 0x100 == s3 && (x / 0x1_0000_0000) % 0x100 == s4 && (x
        / 0x100_0000_0000) % 0x100 == s5 && (x / 0x1_0000_0000_0000) % 0x100 == s6 && (x
        / 0x100_0000_0000_0000) % 0x100 == s7)) by (bit_vector);
}

/// Reads the little-endian number held by the eight bytes of `data` that
/// start at `at`.
pub fn read_u64_le(data: &[u8], at: usize) -> (r: u64)
    requires
        at + 8 <= data.len(),
    ensures
        r == le_u64(data@.subrange(at as int, at + 8)),
{
    let b0: u64 = data[at] as u64;
    let b1: u64 = data[at + 1] as u64;
    let b2: u64 = data[at + 2] as u64;
    let b3: u64 = data[at + 3] as u64;
    let b4: u64 = data[at + 4] as u64;
    let b5: u64 = data[at + 5] as u64;
    let b6: u64 = data[at + 6] as u64;
    let b7: u64 = data[at + 7] as u64;
    b0 + b1 * 0x100 + b2 * 0x1_0000 + b3 * 0x100_0000 + b4 * 0x1_0000_0000 + b5 * 0x100_0000_0000
        + b6 * 0x1_0000_0000_0000 + b7 * 0x100_0000_0000_0000
}

/// Appends the eight little-endian bytes of `x` to `out`.
pub fn push_u64_le(out: &mut Vec<u8>, x: u64)
    ensures
        final(out)@ == old(out)@ + u64_le_bytes(x),
{
    out.push((x % 0x100) as u8);
    out.push(((x / 0x100) % 0x100) as u8);
    out.push(((x / 0x1_0000) % 0x100) as u8);
    out.push(((x / 0x100_0000) % 0x100) as u8);
    out.push(((x / 0x1_0000_0000) % 0x100) as u8);
    out.push(((x / 0x100_0000_0000) % 0x100) as u8);
    out.push(((x / 0x1_0000_0000_0000) % 0x100) as u8);
    out.push(((x / 0x100_0000_0000_0000) % 0x100) as u8);
}

/// The eight little-endian bytes of `x`.
pub fn u64_to_le_vec(x: u64) -> (r: Vec<u8>)
    ensures
        r@ == u64_le_bytes(x),
{
    let mut out: Vec<u8> = Vec::new();
    push_u64_le(&mut out, x);
    out
}

} // verus!
