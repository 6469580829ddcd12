use vstd::prelude::*;

verus! {

/// Big-endian encoding of a `u16`: most significant byte first.
pub open spec fn be_u16(x: u16) -> Seq<u8> {
    seq![(x >> 8u16) as u8, (x & 0xffu16) as u8]
}

/// Value of the first two bytes of `b` read in big-endian order.
pub open spec fn u16_from_be(b: Seq<u8>) -> u16 {
    ((b[0] as u16) << 8u16) | (b[1] as u16)
}

/// Big-endian encoding of a `u32`.
pub open spec fn be_u32(x: u32) -> Seq<u8> {
    seq![
        (x >> 24u32) as u8,
        ((x >> 16u32) & 0xffu32) as u8,
        ((x >> 8u32) & 0xffu32) as u8,
        (x & 0xffu32) as u8,
    ]
}

/// Value of the first four bytes of `b` read in big-endian order.
pub open spec fn u32_from_be(b: Seq<u8>) -> u32 {
    ((b[0] as u32) << 24u32) | ((b[1] as u32) << 16u32) | ((b[2] as u32) << 8u32) | (b[3] as u32)
}

/// Big-endian encoding of a `u64`.
pub open spec fn be_u64(x: u64) -> Seq<u8> {
    seq![
        (x >> 56u64) as u8,
        ((x >> 48u64) & 0xffu64) as u8,
        ((x >> 40u64) & 0xffu64) as u8,
        ((x >> 32u64) & 0xffu64) as u8,
        ((x >> 24u64) & 0xffu64) as u8,
        ((x >> 16u64) & 0xffu64) as u8,
        ((x >> 8u64) & 0xffu64) as u8,
        (x & 0xffu64) as u8,
    ]
}

/// Value of the first eight bytes of `b` read in big-endian order.
pub open spec fn u64_from_be(b: Seq<u8>) -> u64 {
    ((b[0] as u64) << 56u64) | ((b[1] as u64) << 48u64) | ((b[2] as u64) << 40u64) | ((
    b[3] as u64) << 32u64) | ((b[4] as u64) << 24u64) | ((b[5] as u64) << 16u64) | ((
    b[6] as u64) << 8u64) | (b[7] as u64)
}

/// Reading back the big-endian encoding of a `u16` gives the value that was encoded.
pub proof fn lemma_u16_roundtrip(x: u16)
    ensures
        u16_from_be(be_u16(x)) == x,
{
    assert((((x >> 8u16) as u8 as u16) << 8u16) | ((x & 0xffu16) as u8 as u16) == x)
        by (bit_vector);
}

/// Encoding the value of two bytes gives back those two bytes.
pub proof fn lemma_u16_bytes_roundtrip(b: Seq<u8>)
    requires
        b.len() == 2,
    ensures
        be_u16(u16_from_be(b)) == b,
{
    let b0 = b[0];
    let b1 = b[1];
    assert(((((b0 as u16) << 8u16) | (b1 as u16)) >> 8u16) as u8 == b0) by (bit_vector);
    assert(((((b0 as u16) << 8u16) | (b1 as u16)) & 0xffu16) as u8 == b1) by (bit_vector);
    assert(be_u16(u16_from_be(b)) =~= b);
}

/// Reading back the big-endian encoding of a `u32` gives the value that was encoded.
pub proof fn lemma_u32_roundtrip(x: u32)
    ensures
        u32_from_be(be_u32(x)) == x,
{
    assert(((((x >> 24u32) as u8) as u32) << 24u32) | (((((x >> 16u32) & 0xffu32) as u8) as u32)
        << 16u32) | (((((x >> 8u32) & 0xffu32) as u8) as u32) << 8u32) | (((x & 0xffu32) as u8)
        as u32) == x) by (bit_vector);
}

/// Encoding the value of four bytes gives back those four bytes.
pub proof fn lemma_u32_bytes_roundtrip(b: Seq<u8>)
    requires
        b.len() == 4,
    ensures
        be_u32(u32_from_be(b)) == b,
{
    let (b0, b1, b2, b3) = (b[0], b[1], b[2], b[3]);
    let v: u32 = ((b0 as u32) << 24u32) | ((b1 as u32) << 16u32) | ((b2 as u32) << 8u32) | (
    b3 as u32);
    assert(v == u32_from_be(b));
    assert((v >> 24u32) as u8 == b0 && ((v >> 16u32) & 0xffu32) as u8 == b1 && ((v >> 8u32)
        & 0xffu32) as u8 == b2 && (v & 0xffu32) as u8 == b3) by (bit_vector)
        requires
            v == ((b0 as u32) << 24u32) | ((b1 as u32) << 16u32) | ((b2 as u32) << 8u32) | (
            b3 as u32),
    ;
    assert(be_u32(u32_from_be(b)) =~= b);
}

/// Reading back the big-endian encoding of a `u64` gives the value that was encoded.
pub proof fn lemma_u64_roundtrip(x: u64)
    ensures
        u64_from_be(be_u64(x)) == x,
{
    assert(((((x >> 56u64) as u8) as u64) << 56u64) | (((((x >> 48u64) & 0xffu64) as u8) as u64)
        << 48u64) | (((((x >> 40u64) & 0xffu64) as u8) as u64) << 40u64) | (((((x >> 32u64)
        & 0xffu64) as u8) as u64) << 32u64) | (((((x >> 24u64) & 0xffu64) as u8) as u64)
        << 24u64) | (((((x >> 16u64) & 0xffu64) as u8) as u64) << 16u64) | (((((x >> 8u64)
        & 0xffu64) as u8) as u64) << 8u64) | (((x & 0xffu64) as u8) as u64) == x) by (bit_vector);
}

/// Encoding the value of eight bytes gives back those eight bytes.
pub proof fn lemma_u64_bytes_roundtrip(b: Seq<u8>)
    requires
        b.len() == 8,
    ensures
        be_u64(u64_from_be(b)) == b,
{
    let (b0, b1, b2, b3, b4, b5, b6, b7) = (b[0], b[1], b[2], b[3], b[4], b[5], b[6], b[7]);
    let v: u64 = ((b0 as u64) << 56u64) | ((b1 as u64) << 48u64) | ((b2 as u64) << 40u64) | ((
    b3 as u64) << 32u64) | ((b4 as u64) << 24u64) | ((b5 as u64) << 16u64) | ((b6 as u64)
        << 8u64) | (b7 as u64);
    assert(v == u64_from_be(b));
    assert((v >> 56u64) as u8 == b0 && ((v >> 48u64) & 0xffu64) as u8 == b1 && ((v >> 40u64)
        & 0xffu64) as u8 == b2 && ((v >> 32u64) & 0xffu64) as u8 == b3 && ((v >> 24u64)
        & 0xffu64) as u8 == b4 && ((v >> 16u64) & 0xffu64) as u8 == b5 && ((v >> 8u64)
        & 0xffu64) as u8 == b6 && (v & 0xffu64) as u8 == b7) by (bit_vector)
        requires
            v == ((b0 as u64) << 56u64) | ((b1 as u64) << 48u64) | ((b2 as u64) << 40u64) | ((
            b3 as u64) << 32u64) | ((b4 as u64) << 24u64) | ((b5 as u64) << 16u64) | ((
            b6 as u64) << 8u64) | (b7 as u64),
    ;
    assert(be_u64(u64_from_be(b)) =~= b);
}

/// Big-endian bytes of a `u16`.
pub fn u16_to_be(x: u16) -> (v: Vec<u8>)
    ensures
        v@ == be_u16(x),
{
    let v = vec![(x >> 8u16) as u8, (x & 0xffu16) as u8];
    assert(v@ =~= be_u16(x));
    v
}

/// Big-endian bytes of a `u32`.
pub fn u32_to_be(x: u32) -> (v: Vec<u8>)
    ensures
        v@ == be_u32(x),
{
    let v = vec![
        (x >> 24u32) as u8,
        ((x >> 16u32) & 0xffu32) as u8,
        ((x >> 8u32) & 0xffu32) as u8,
        (x & 0xffu32) as u8,
    ];
    assert(v@ =~= be_u32(x));
    v
}

/// Big-endian bytes of a `u64`.
pub fn u64_to_be(x: u64) -> (v: Vec<u8>)
    ensures
        v@ == be_u64(x),
{
    let v = vec![
        (x >> 56u64) as u8,
        ((x >> 48u64) & 0xffu64) as u8,
        ((x >> 40u64) & 0xffu64) as u8,
        ((x >> 32u64) & 0xffu64) as u8,
        ((x >> 24u64) & 0xffu64) as u8,
        ((x >> 16u64) & 0xffu64) as u8,
        ((x >> 8u64) & 0xffu64) as u8,
        (x & 0xffu64) as u8,
    ];
    assert(v@ =~= be_u64(x));
    v
}

/// Reads the first two bytes of `b` as a big-endian `u16`.
pub fn u16_of_be(b: &[u8]) -> (x: u16)
    requires
        b@.len() >= 2,
    ensures
        x == u16_from_be(b@),
{
    ((b[0] as u16) << 8u16) | (b[1] as u16)
}

/// Reads the first four bytes of `b` as a big-endian `u32`.
pub fn u32_of_be(b: &[u8]) -> (x: u32)
    requires
        b@.len() >= 4,
    ensures
        x == u32_from_be(b@),
{
    ((b[0] as u32) << 24u32) | ((b[1] as u32) << 16u32) | ((b[2] as u32) << 8u32) | (b[3] as u32)
}

/// Reads the first eight bytes of `b` as a big-endian `u64`.
pub fn u64_of_be(b: &[u8]) -> (x: u64)
    requires
        b@.len() >= 8,
    ensures
        x == u64_from_be(b@),
{
    ((b[0] as u64) << 56u64) | ((b[1] as u64) << 48u64) | ((b[2] as u64) << 40u64) | ((
    b[3] as u64) << 32u64) | ((b[4] as u64) << 24u64) | ((b[5] as u64) << 16u64) | ((
    b[6] as u64) << 8u64) | (b[7] as u64)
}

} // verus!
