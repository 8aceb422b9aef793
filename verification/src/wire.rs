//! Big-endian field encoding shared by the frame codec and the control
//! messages. Everything on the wire is big-endian.

use vstd::prelude::*;

verus! {

/// The two big-endian bytes of a 16-bit value.
pub open spec fn spec_be16(x: u16) -> Seq<u8> {
    seq![(x / 0x100) as u8, (x % 0x100) as u8]
}

/// The four big-endian bytes of a 32-bit value.
pub open spec fn spec_be32(x: u32) -> Seq<u8> {
    seq![
        (x / 0x1000000) as u8,
        ((x / 0x10000) % 0x100) as u8,
        ((x / 0x100) % 0x100) as u8,
        (x % 0x100) as u8,
    ]
}

/// The 16-bit value read from two big-endian bytes.
pub open spec fn spec_be16_value(b0: u8, b1: u8) -> int {
    b0 * 0x100 + b1
}

/// The 32-bit value read from four big-endian bytes.
pub open spec fn spec_be32_value(b0: u8, b1: u8, b2: u8, b3: u8) -> int {
    b0 * 0x1000000 + b1 * 0x10000 + b2 * 0x100 + b3
}

/// Reading back the two big-endian bytes of `x` yields `x`.
pub proof fn lemma_be16_round_trip(x: u16)
    ensures
        spec_be16_value(spec_be16(x)[0], spec_be16(x)[1]) == x,
{
    assert(x / 0x100 < 0x100) by (nonlinear_arith);
    assert((x / 0x100) * 0x100 + x % 0x100 == x) by (nonlinear_arith);
}

/// Reading back the four big-endian bytes of `x` yields `x`.
pub proof fn lemma_be32_round_trip(x: u32)
    ensures
        spec_be32_value(spec_be32(x)[0], spec_be32(x)[1], spec_be32(x)[2], spec_be32(x)[3]) == x,
{
    assert(x / 0x1000000 < 0x100) by (nonlinear_arith);
    assert((x / 0x10000) % 0x100 < 0x100) by (nonlinear_arith);
    assert((x / 0x100) % 0x100 < 0x100) by (nonlinear_arith);
    assert((x / 0x1000000) * 0x1000000 + ((x / 0x10000) % 0x100) * 0x10000 + ((x / 0x100) % 0x100)
        * 0x100 + x % 0x100 == x) by (nonlinear_arith);
}

/// Append the big-endian bytes of a 16-bit value to a buffer.
pub fn push_u16_be(buf: &mut Vec<u8>, x: u16)
    ensures
        final(buf)@ == old(buf)@ + spec_be16(x),
{
    proof {
        assert(x / 0x100 < 0x100) by (nonlinear_arith);
    }
    buf.push((x / 0x100) as u8);
    buf.push((x % 0x100) as u8);
    assert(buf@ =~= old(buf)@ + spec_be16(x));
}

/// Append the big-endian bytes of a 32-bit value to a buffer.
pub fn push_u32_be(buf: &mut Vec<u8>, x: u32)
    ensures
        final(buf)@ == old(buf)@ + spec_be32(x),
{
    proof {
        assert(x / 0x1000000 < 0x100) by (nonlinear_arith);
    }
    buf.push((x / 0x1000000) as u8);
    buf.push(((x / 0x10000) % 0x100) as u8);
    buf.push(((x / 0x100) % 0x100) as u8);
    buf.push((x % 0x100) as u8);
    assert(buf@ =~= old(buf)@ + spec_be32(x));
}

/// Read a 16-bit value from two big-endian bytes.
pub fn read_u16_be(b0: u8, b1: u8) -> (r: u16)
    ensures
        r == spec_be16_value(b0, b1),
{
    (b0 as u16) * 0x100 + (b1 as u16)
}

/// Read a 32-bit value from four big-endian bytes.
pub fn read_u32_be(b0: u8, b1: u8, b2: u8, b3: u8) -> (r: u32)
    ensures
        r == spec_be32_value(b0, b1, b2, b3),
{
    (b0 as u32) * 0x1000000 + (b1 as u32) * 0x10000 + (b2 as u32) * 0x100 + (b3 as u32)
}

} // verus!
