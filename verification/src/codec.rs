use vstd::prelude::*;

verus! {

/// Little-endian encoding of a 32-bit value.
pub open spec fn le_u32(x: u32) -> Seq<u8> {
    seq![
        (x as int % 0x100) as u8,
        (x as int / 0x100 % 0x100) as u8,
        (x as int / 0x1_0000 % 0x100) as u8,
        (x as int / 0x100_0000 % 0x100) as u8,
    ]
}

/// Little-endian encoding of a 16-bit value.
pub open spec fn le_u16(x: u16) -> Seq<u8> {
    seq![(x as int % 0x100) as u8, (x as int / 0x100 % 0x100) as u8]
}

/// The 32-bit value whose little-endian encoding is `b0 b1 b2 b3`.
pub open spec fn u32_of_le(b0: u8, b1: u8, b2: u8, b3: u8) -> u32 {
    (b0 as int + 0x100 * b1 as int + 0x1_0000 * b2 as int + 0x100_0000 * b3 as int) as u32
}

/// The 16-bit value whose little-endian encoding is `b0 b1`.
pub open spec fn u16_of_le(b0: u8, b1: u8) -> u16 {
    (b0 as int + 0x100 * b1 as int) as u16
}

/// `u32::to_le_bytes`.
pub fn u32_to_le(x: u32) -> (b: [u8; 4])
    ensures
        b@ == le_u32(x),
{
    let b0 = (x & 0xff) as u8;
    let b1 = ((x >> 8) & 0xff) as u8;
    let b2 = ((x >> 16) & 0xff) as u8;
    let b3 = ((x >> 24) & 0xff) as u8;
    assert(b0 == (x as int % 0x100) as u8 && b1 == (x as int / 0x100 % 0x100) as u8 && b2 == (
    x as int / 0x1_0000 % 0x100) as u8 && b3 == (x as int / 0x100_0000 % 0x100) as u8)
        by (bit_vector)
        requires
            b0 == (x & 0xff) as u8,
            b1 == ((x >> 8) & 0xff) as u8,
            b2 == ((x >> 16) & 0xff) as u8,
            b3 == ((x >> 24) & 0xff) as u8,
    ;
    let b = [b0, b1, b2, b3];
    assert(b@ =~= le_u32(x));
    b
}

/// `u16::to_le_bytes`.
pub fn u16_to_le(x: u16) -> (b: [u8; 2])
    ensures
        b@ == le_u16(x),
{
    let b0 = (x & 0xff) as u8;
    let b1 = ((x >> 8) & 0xff) as u8;
    assert(b0 == (x as int % 0x100) as u8 && b1 == (x as int / 0x100 % 0x100) as u8)
        by (bit_vector)
        requires
            b0 == (x & 0xff) as u8,
            b1 == ((x >> 8) & 0xff) as u8,
    ;
    let b = [b0, b1];
    assert(b@ =~= le_u16(x));
    b
}

/// `u32::from_le_bytes([b0, b1, b2, b3])`.
pub fn u32_from_le(b0: u8, b1: u8, b2: u8, b3: u8) -> (x: u32)
    ensures
        x == u32_of_le(b0, b1, b2, b3),
        x as int == b0 as int + 0x100 * b1 as int + 0x1_0000 * b2 as int + 0x100_0000 * b3 as int,
{
    let x = (b0 as u32) | ((b1 as u32) << 8) | ((b2 as u32) << 16) | ((b3 as u32) << 24);
    assert(x as int == b0 as int + 0x100 * b1 as int + 0x1_0000 * b2 as int + 0x100_0000
        * b3 as int) by (bit_vector)
        requires
            x == (b0 as u32) | ((b1 as u32) << 8) | ((b2 as u32) << 16) | ((b3 as u32) << 24),
    ;
    x
}

/// `u16::from_le_bytes([b0, b1])`.
pub fn u16_from_le(b0: u8, b1: u8) -> (x: u16)
    ensures
        x == u16_of_le(b0, b1),
        x as int == b0 as int + 0x100 * b1 as int,
{
    let x = (b0 as u16) | ((b1 as u16) << 8);
    assert(x as int == b0 as int + 0x100 * b1 as int) by (bit_vector)
        requires
            x == (b0 as u16) | ((b1 as u16) << 8),
    ;
    x
}

/// Decoding a little-endian encoding gives the encoded value back.
pub proof fn lemma_le_u32_roundtrip(x: u32)
    ensures
        u32_of_le(le_u32(x)[0], le_u32(x)[1], le_u32(x)[2], le_u32(x)[3]) == x,
{
    let b = le_u32(x);
    assert(b[0] as int + 0x100 * b[1] as int + 0x1_0000 * b[2] as int + 0x100_0000 * b[3] as int
        == x as int) by (nonlinear_arith)
        requires
            b[0] as int == x as int % 0x100,
            b[1] as int == x as int / 0x100 % 0x100,
            b[2] as int == x as int / 0x1_0000 % 0x100,
            b[3] as int == x as int / 0x100_0000 % 0x100,
            0 <= x < 0x1_0000_0000,
    ;
}

/// Decoding a little-endian 16-bit encoding gives the encoded value back.
pub proof fn lemma_le_u16_roundtrip(x: u16)
    ensures
        u16_of_le(le_u16(x)[0], le_u16(x)[1]) == x,
{
    let b = le_u16(x);
    assert(b[0] as int + 0x100 * b[1] as int == x as int) by (nonlinear_arith)
        requires
            b[0] as int == x as int % 0x100,
            b[1] as int == x as int / 0x100 % 0x100,
            0 <= x < 0x1_0000,
    ;
}

} // verus!

verus! {

/// Appends the bytes of `s` to `v`.
pub fn extend_bytes(v: &mut Vec<u8>, s: &[u8])
    ensures
        final(v)@ == old(v)@ + s@,
{
    let mut i: usize = 0;
    while i < s.len()
        invariant
            0 <= i <= s@.len(),
            v@ == old(v)@ + s@.subrange(0, i as int),
        decreases s@.len() - i,
    {
        v.push(s[i]);
        i = i + 1;
        assert(v@ =~= old(v)@ + s@.subrange(0, i as int));
    }
    assert(s@.subrange(0, s@.len() as int) =~= s@);
}

/// `n` zero bytes.
pub open spec fn zeros(n: nat) -> Seq<u8> {
    Seq::new(n, |i: int| 0u8)
}

} // verus!
