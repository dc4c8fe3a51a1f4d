//! Big-endian byte encodings shared by the protocol layers.
//!
//! KNX transmits every multi-byte integer most significant byte first.  The
//! spec functions below say what the bytes of a value are; the executable
//! helpers compute them and are proved against those statements.

use vstd::prelude::*;

verus! {

/// The value of the big-endian pair `hi`, `lo`.
pub open spec fn be_u16(hi: u8, lo: u8) -> int {
    hi * 256 + lo
}

/// The two big-endian bytes of `x`.
pub open spec fn be_bytes_u16(x: u16) -> Seq<u8> {
    seq![(x / 256) as u8, (x % 256) as u8]
}

/// The value of the four big-endian bytes `b0 .. b3`.
pub open spec fn be_u32(b0: u8, b1: u8, b2: u8, b3: u8) -> int {
    b0 * 16777216 + b1 * 65536 + b2 * 256 + b3
}

/// The four big-endian bytes of `x`.
pub open spec fn be_bytes_u32(x: u32) -> Seq<u8> {
    seq![
        (x / 16777216) as u8,
        ((x / 65536) % 256) as u8,
        ((x / 256) % 256) as u8,
        (x % 256) as u8,
    ]
}

/// The two's complement bit pattern of a 32-bit signed value.
pub open spec fn twos_complement_u32(v: i32) -> u32 {
    if v >= 0 {
        v as u32
    } else {
        (v + 4294967296) as u32
    }
}

/// The signed value of a 32-bit two's complement bit pattern.
pub open spec fn signed_of_u32(x: u32) -> i32 {
    if x < 2147483648 {
        x as i32
    } else {
        (x - 4294967296) as i32
    }
}

/// `seq` with its first `data.len()` elements replaced by `data`.
pub open spec fn overwrite_prefix(seq: Seq<u8>, data: Seq<u8>) -> Seq<u8>
    recommends
        data.len() <= seq.len(),
{
    data + seq.skip(data.len() as int)
}

/// Combine two bytes into a big-endian `u16`.
pub fn u16_from_be(hi: u8, lo: u8) -> (r: u16)
    ensures
        r == be_u16(hi, lo),
{
    let r = ((hi as u16) << 8) | (lo as u16);
    assert(((hi as u16) << 8) | (lo as u16) == hi * 256 + lo) by (bit_vector);
    r
}

/// The most significant byte of `x`.
pub fn u16_hi(x: u16) -> (r: u8)
    ensures
        r == x / 256,
{
    let r = (x >> 8) as u8;
    assert((x >> 8) as u8 == x / 256) by (bit_vector);
    r
}

/// The least significant byte of `x`.
pub fn u16_lo(x: u16) -> (r: u8)
    ensures
        r == x % 256,
{
    let r = (x & 0xFF) as u8;
    assert((x & 0xFF) as u8 == x % 256) by (bit_vector);
    r
}

/// Combine four bytes into a big-endian `u32`.
pub fn u32_from_be(b0: u8, b1: u8, b2: u8, b3: u8) -> (r: u32)
    ensures
        r == be_u32(b0, b1, b2, b3),
{
    let r = ((b0 as u32) << 24) | ((b1 as u32) << 16) | ((b2 as u32) << 8) | (b3 as u32);
    assert(((b0 as u32) << 24) | ((b1 as u32) << 16) | ((b2 as u32) << 8) | (b3 as u32)
        == b0 * 16777216 + b1 * 65536 + b2 * 256 + b3) by (bit_vector);
    r
}

/// The four big-endian bytes of `x`.
pub fn u32_to_be(x: u32) -> (r: [u8; 4])
    ensures
        r@ == be_bytes_u32(x),
{
    let b0 = (x >> 24) as u8;
    let b1 = ((x >> 16) & 0xFF) as u8;
    let b2 = ((x >> 8) & 0xFF) as u8;
    let b3 = (x & 0xFF) as u8;
    assert((x >> 24) as u8 == x / 16777216 && ((x >> 16) & 0xFF) as u8 == (x / 65536) % 256 && ((x
        >> 8) & 0xFF) as u8 == (x / 256) % 256 && (x & 0xFF) as u8 == x % 256) by (bit_vector);
    let r = [b0, b1, b2, b3];
    assert(r@ =~= be_bytes_u32(x));
    r
}

/// The bit pattern of a signed 32-bit value.
pub fn i32_bits(v: i32) -> (r: u32)
    ensures
        r == twos_complement_u32(v),
{
    let r = v as u32;
    assert((v >= 0 ==> (v as u32) == v) && (v < 0 ==> (v as u32) == v + 4294967296))
        by (bit_vector);
    r
}

/// The signed 32-bit value of a bit pattern.
pub fn i32_of_bits(x: u32) -> (r: i32)
    ensures
        r == signed_of_u32(x),
{
    let r = x as i32;
    assert((x < 2147483648 ==> (x as i32) == x) && (x >= 2147483648 ==> (x as i32) == x
        - 4294967296)) by (bit_vector);
    r
}

/// The decoding of a 32-bit pattern gives back the signed value it encodes.
pub proof fn lemma_signed_roundtrip(v: i32)
    ensures
        signed_of_u32(twos_complement_u32(v)) == v,
{
}

/// Four bytes decode to the value whose encoding they are.
pub proof fn lemma_be_u32_roundtrip(x: u32)
    ensures
        be_u32(be_bytes_u32(x)[0], be_bytes_u32(x)[1], be_bytes_u32(x)[2], be_bytes_u32(x)[3])
            == x,
{
    let b = be_bytes_u32(x);
    assert(b[0] == x / 16777216);
    assert(b[1] == (x / 65536) % 256);
    assert(b[2] == (x / 256) % 256);
    assert(b[3] == x % 256);
}

/// Two bytes decode to the value whose encoding they are.
pub proof fn lemma_be_u16_roundtrip(x: u16)
    ensures
        be_u16(be_bytes_u16(x)[0], be_bytes_u16(x)[1]) == x,
{
}

/// The encoding of the value of two bytes is those two bytes.
pub proof fn lemma_be_bytes_u16_of_value(hi: u8, lo: u8)
    ensures
        be_bytes_u16(be_u16(hi, lo) as u16) == seq![hi, lo],
{
    assert(be_bytes_u16(be_u16(hi, lo) as u16) =~= seq![hi, lo]);
}

} // verus!
