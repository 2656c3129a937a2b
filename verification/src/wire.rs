//! Big-endian byte encoding of the integers that cross the wire.
//!
//! All multi-byte integers in the protocol are big-endian. These helpers
//! state the encoding exactly at the specification level and prove the
//! executable readers and writers against it.

use vstd::arithmetic::div_mod::{lemma_div_denominator, lemma_fundamental_div_mod};
use vstd::prelude::*;

verus! {

/// The integer a big-endian byte pair denotes.
pub open spec fn be16(b0: u8, b1: u8) -> int {
    (b0 as int) * 0x100 + (b1 as int)
}

/// The integer a big-endian byte quadruple denotes.
pub open spec fn be32(b0: u8, b1: u8, b2: u8, b3: u8) -> int {
    (b0 as int) * 0x1000000 + (b1 as int) * 0x10000 + (b2 as int) * 0x100 + (b3 as int)
}

/// The integer eight big-endian bytes denote.
pub open spec fn be64(b0: u8, b1: u8, b2: u8, b3: u8, b4: u8, b5: u8, b6: u8, b7: u8) -> int {
    be32(b0, b1, b2, b3) * 0x100000000 + be32(b4, b5, b6, b7)
}

/// The two big-endian bytes of a 16-bit value.
pub open spec fn u16_bytes(v: u16) -> Seq<u8> {
    seq![((v as int) / 0x100) as u8, ((v as int) % 0x100) as u8]
}

/// The four big-endian bytes of a 32-bit value.
pub open spec fn u32_bytes(v: u32) -> Seq<u8> {
    seq![
        ((v as int) / 0x1000000) as u8,
        (((v as int) / 0x10000) % 0x100) as u8,
        (((v as int) / 0x100) % 0x100) as u8,
        ((v as int) % 0x100) as u8,
    ]
}

/// The unsigned 32-bit value that carries a signed one in two's complement.
pub open spec fn to_u32_wrapping(v: i32) -> u32 {
    if v >= 0 {
        v as u32
    } else {
        ((v as int) + 0x100000000) as u32
    }
}

/// The four big-endian bytes of a signed 32-bit value, two's complement.
pub open spec fn i32_bytes(v: i32) -> Seq<u8> {
    u32_bytes(to_u32_wrapping(v))
}

/// Reading back the two bytes of a 16-bit value yields the value.
pub proof fn lemma_be16_roundtrip(v: u16)
    ensures
        be16(u16_bytes(v)[0], u16_bytes(v)[1]) == v as int,
{
    lemma_fundamental_div_mod(v as int, 0x100);
}

/// Reading back the four bytes of a 32-bit value yields the value.
pub proof fn lemma_be32_roundtrip(v: u32)
    ensures
        be32(u32_bytes(v)[0], u32_bytes(v)[1], u32_bytes(v)[2], u32_bytes(v)[3]) == v as int,
{
    let x = v as int;
    let q1 = x / 0x100;
    let q2 = q1 / 0x100;
    let q3 = q2 / 0x100;
    lemma_fundamental_div_mod(x, 0x100);
    lemma_fundamental_div_mod(q1, 0x100);
    lemma_fundamental_div_mod(q2, 0x100);
    lemma_div_denominator(x, 0x100, 0x100);
    lemma_div_denominator(x, 0x10000, 0x100);
    lemma_div_denominator(q1, 0x100, 0x100);
    assert(q2 == x / 0x10000);
    assert(q3 == x / 0x1000000);
}

/// Appends the two big-endian bytes of `v`.
pub fn push_u16_be(out: &mut Vec<u8>, v: u16)
    ensures
        final(out)@ == old(out)@ + u16_bytes(v),
{
    out.push((v / 0x100) as u8);
    out.push((v % 0x100) as u8);
    assert(final(out)@ =~= old(out)@ + u16_bytes(v));
}

/// Appends the four big-endian bytes of `v`.
pub fn push_u32_be(out: &mut Vec<u8>, v: u32)
    ensures
        final(out)@ == old(out)@ + u32_bytes(v),
{
    out.push((v / 0x1000000) as u8);
    out.push(((v / 0x10000) % 0x100) as u8);
    out.push(((v / 0x100) % 0x100) as u8);
    out.push((v % 0x100) as u8);
    assert(final(out)@ =~= old(out)@ + u32_bytes(v));
}

/// Appends the four big-endian bytes of a signed value, two's complement.
pub fn push_i32_be(out: &mut Vec<u8>, v: i32)
    ensures
        final(out)@ == old(out)@ + i32_bytes(v),
{
    let w: u32 = if v >= 0 {
        v as u32
    } else {
        let wide: i64 = (v as i64) + 0x100000000;
        wide as u32
    };
    assert(w == to_u32_wrapping(v));
    push_u32_be(out, w);
}

/// Reads the 16-bit value two big-endian bytes denote.
pub fn read_u16_be(b0: u8, b1: u8) -> (r: u16)
    ensures
        r as int == be16(b0, b1),
{
    (b0 as u16) * 0x100 + (b1 as u16)
}

/// Reads the 32-bit value four big-endian bytes denote.
pub fn read_u32_be(b0: u8, b1: u8, b2: u8, b3: u8) -> (r: u32)
    ensures
        r as int == be32(b0, b1, b2, b3),
{
    (b0 as u32) * 0x1000000 + (b1 as u32) * 0x10000 + (b2 as u32) * 0x100 + (b3 as u32)
}

/// Reads the 64-bit value eight big-endian bytes denote.
pub fn read_u64_be(b0: u8, b1: u8, b2: u8, b3: u8, b4: u8, b5: u8, b6: u8, b7: u8) -> (r: u64)
    ensures
        r as int == be64(b0, b1, b2, b3, b4, b5, b6, b7),
{
    let hi = read_u32_be(b0, b1, b2, b3);
    let lo = read_u32_be(b4, b5, b6, b7);
    (hi as u64) * 0x100000000 + (lo as u64)
}

} // verus!
