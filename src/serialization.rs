//! Little-endian encoding of the 32-bit signed integers of the wire format.
use vstd::prelude::*;

verus! {

/// The four little-endian bytes of `v`, in two's complement.
pub open spec fn i32_le_bytes(v: i32) -> Seq<u8> {
    let u = #[verifier::truncate] (v as u32);
    seq![(u & 0xff) as u8, ((u >> 8) & 0xff) as u8, ((u >> 16) & 0xff) as u8, (u >> 24) as u8]
}

/// The integer whose little-endian two's complement bytes are the first four of `b`.
pub open spec fn i32_from_le_bytes(b: Seq<u8>) -> i32
    recommends
        b.len() >= 4,
{
    #[verifier::truncate] ((b[0] as u32 | (b[1] as u32) << 8 | (b[2] as u32) << 16 | (b[3] as u32)
        << 24) as i32)
}

/// Serializes an `i32` to its four little-endian bytes.
pub fn serialize_i32(val: i32) -> (r: [u8; 4])
    ensures
        r@ == i32_le_bytes(val),
{
    let u = val as u32;
    let r: [u8; 4] = [(u & 0xff) as u8, ((u >> 8) & 0xff) as u8, ((u >> 16) & 0xff) as u8, (u >> 24) as u8];
    assert(r@ =~= i32_le_bytes(val));
    r
}

/// Deserializes four little-endian bytes to an `i32`.
pub fn deserialize_i32(val: [u8; 4]) -> (r: i32)
    ensures
        r == i32_from_le_bytes(val@),
{
    (val[0] as u32 | (val[1] as u32) << 8 | (val[2] as u32) << 16 | (val[3] as u32) << 24) as i32
}

proof fn lemma_u32_bytes_round_trip(u: u32)
    ensures
        ((u & 0xff) as u8 as u32 | (((u >> 8) & 0xff) as u8 as u32) << 8
            | (((u >> 16) & 0xff) as u8 as u32) << 16 | ((u >> 24) as u8 as u32) << 24) == u,
{
    assert(((u & 0xff) as u8 as u32 | (((u >> 8) & 0xff) as u8 as u32) << 8
        | (((u >> 16) & 0xff) as u8 as u32) << 16 | ((u >> 24) as u8 as u32) << 24) == u)
        by (bit_vector);
}

/// Decoding the encoding of an integer gives the integer back.
pub proof fn lemma_i32_round_trip(v: i32)
    ensures
        i32_le_bytes(v).len() == 4,
        i32_from_le_bytes(i32_le_bytes(v)) == v,
{
    let u = #[verifier::truncate] (v as u32);
    lemma_u32_bytes_round_trip(u);
    assert((#[verifier::truncate] ((#[verifier::truncate] (v as u32)) as i32)) == v) by (bit_vector);
}

} // verus!
