//! Big-endian byte helpers shared by every telegram of the protocol.

use vstd::prelude::*;

verus! {

/// Value of two bytes read big-endian.
pub open spec fn be16(hi: u8, lo: u8) -> nat {
    hi as nat * 256 + lo as nat
}

/// Value of four bytes read big-endian.
pub open spec fn be32(b0: u8, b1: u8, b2: u8, b3: u8) -> nat {
    ((b0 as nat * 256 + b1 as nat) * 256 + b2 as nat) * 256 + b3 as nat
}

/// Second least significant byte of `x` (bits 8..15).
pub open spec fn hi_byte(x: nat) -> u8 {
    ((x / 256) % 256) as u8
}

/// Least significant byte of `x` (bits 0..7).
pub open spec fn lo_byte(x: nat) -> u8 {
    (x % 256) as u8
}

/// Third least significant byte of `x` (bits 16..23).
pub open spec fn top_byte(x: nat) -> u8 {
    ((x / 65536) % 256) as u8
}

/// Big-endian encoding of the low 16 bits of `x`.
pub open spec fn be16_bytes(x: nat) -> Seq<u8> {
    seq![hi_byte(x), lo_byte(x)]
}

/// Reads two bytes as a big-endian `u16`.
pub fn make_u16(hi: u8, lo: u8) -> (r: u16)
    ensures
        r == be16(hi, lo),
{
    (hi as u16) * 256 + (lo as u16)
}

/// Reads four bytes as a big-endian `u32`.
pub fn make_u32(b0: u8, b1: u8, b2: u8, b3: u8) -> (r: u32)
    ensures
        r == be32(b0, b1, b2, b3),
{
    (((b0 as u32) * 256 + (b1 as u32)) * 256 + (b2 as u32)) * 256 + (b3 as u32)
}

/// Bits 8..15 of `x`.
pub fn hi_part(x: usize) -> (r: u8)
    ensures
        r == hi_byte(x as nat),
{
    ((x / 256) % 256) as u8
}

/// Bits 0..7 of `x`.
pub fn lo_part(x: usize) -> (r: u8)
    ensures
        r == lo_byte(x as nat),
{
    (x % 256) as u8
}

/// Bits 16..23 of `x`.
pub fn top_part(x: u32) -> (r: u8)
    ensures
        r == top_byte(x as nat),
{
    ((x / 65536) % 256) as u8
}

/// Splitting a 16-bit value into its two bytes and reading them back gives the value.
pub proof fn lemma_be16_roundtrip(x: nat)
    requires
        x < 65536,
    ensures
        be16(hi_byte(x), lo_byte(x)) == x,
{
}

} // verus!

verus! {

/// Appends `data` at the end of `v`.
pub fn append_bytes(v: &mut Vec<u8>, data: &[u8])
    ensures
        final(v)@ == old(v)@ + data@,
{
    let ghost start = v@;
    let mut i: usize = 0;
    while i < data.len()
        invariant
            i <= data@.len(),
            v@ == start + data@.subrange(0, i as int),
        decreases data@.len() - i,
    {
        v.push(data[i]);
        i = i + 1;
        assert(v@ =~= start + data@.subrange(0, i as int));
    }
    assert(data@.subrange(0, data@.len() as int) =~= data@);
}

} // verus!
