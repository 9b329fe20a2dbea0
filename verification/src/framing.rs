//! Length-prefixed framing: every message on the sensor-to-gateway link is a
//! four-byte big-endian length followed by that many payload bytes.
use vstd::prelude::*;

verus! {

/// Number of bytes in a frame header.
pub const HEADER_LEN: usize = 4;

/// The four big-endian (network order) bytes of `x`, most significant first.
pub open spec fn be_bytes(x: u32) -> Seq<u8> {
    seq![
        ((x >> 24u32) & 0xffu32) as u8,
        ((x >> 16u32) & 0xffu32) as u8,
        ((x >> 8u32) & 0xffu32) as u8,
        (x & 0xffu32) as u8,
    ]
}

/// The number whose big-endian bytes are `b[0..4]`.
pub open spec fn be_value(b: Seq<u8>) -> u32
    recommends
        b.len() == 4,
{
    ((b[0] as u32) << 24u32) | ((b[1] as u32) << 16u32) | ((b[2] as u32) << 8u32) | (b[3] as u32)
}

/// The length that a header announces for a payload of `len` bytes: the low
/// 32 bits of the length, as a cast to `u32` keeps them.
pub open spec fn announced_len(len: usize) -> u32 {
    len as u32
}

/// `u32::to_be_bytes` from std: the bytes of `x` in big-endian order.
#[verifier::external_body]
fn u32_to_be_bytes(x: u32) -> (bytes: [u8; 4])
    ensures
        bytes@ == be_bytes(x),
{
    x.to_be_bytes()
}

/// `u32::from_be_bytes` from std: the number whose big-endian bytes are given.
#[verifier::external_body]
fn u32_from_be_bytes(bytes: [u8; 4]) -> (x: u32)
    ensures
        x == be_value(bytes@),
{
    u32::from_be_bytes(bytes)
}

/// The header that precedes a payload of `payload_len` bytes. A length that
/// does not fit in 32 bits is cut to its low 32 bits, as the sender does.
pub fn frame_header(payload_len: usize) -> (header: [u8; 4])
    ensures
        header@ == be_bytes(announced_len(payload_len)),
{
    let len: u32 = #[verifier::truncate] (payload_len as u32);
    u32_to_be_bytes(len)
}

/// The payload length that a received header announces.
pub fn frame_len(header: [u8; 4]) -> (len: u32)
    ensures
        len == be_value(header@),
{
    u32_from_be_bytes(header)
}

/// Reading a header back gives the length that was written, for every
/// payload length that fits in 32 bits.
pub proof fn lemma_header_roundtrip(len: u32)
    ensures
        be_value(be_bytes(len)) == len,
{
    let b0 = ((len >> 24u32) & 0xffu32) as u8;
    let b1 = ((len >> 16u32) & 0xffu32) as u8;
    let b2 = ((len >> 8u32) & 0xffu32) as u8;
    let b3 = (len & 0xffu32) as u8;
    assert((((b0 as u32) << 24u32) | ((b1 as u32) << 16u32) | ((b2 as u32) << 8u32) | (b3 as u32)) == len) by (bit_vector)
        requires
            b0 == ((len >> 24u32) & 0xffu32) as u8,
            b1 == ((len >> 16u32) & 0xffu32) as u8,
            b2 == ((len >> 8u32) & 0xffu32) as u8,
            b3 == (len & 0xffu32) as u8,
    ;
}

/// Big-endian order in numbers: the first header byte counts 2^24 times,
/// the second 2^16, the third 2^8 and the last once; and the bytes of a
/// length are its base-256 digits, most significant first.
pub proof fn lemma_big_endian_weights(b: Seq<u8>, x: u32)
    requires
        b.len() == 4,
    ensures
        be_value(b) as int == b[0] as int * 0x100_0000 + b[1] as int * 0x1_0000 + b[2] as int * 0x100
            + b[3] as int,
        be_bytes(x)[0] as int == x as int / 0x100_0000,
        be_bytes(x)[1] as int == (x as int / 0x1_0000) % 0x100,
        be_bytes(x)[2] as int == (x as int / 0x100) % 0x100,
        be_bytes(x)[3] as int == x as int % 0x100,
{
    let b0 = b[0];
    let b1 = b[1];
    let b2 = b[2];
    let b3 = b[3];
    assert((((b0 as u32) << 24u32) | ((b1 as u32) << 16u32) | ((b2 as u32) << 8u32) | (b3 as u32))
        == b0 as u32 * 0x100_0000u32 + b1 as u32 * 0x1_0000u32 + b2 as u32 * 0x100u32 + b3 as u32)
        by (bit_vector);
    assert(((x >> 24u32) & 0xffu32) == x / 0x100_0000u32) by (bit_vector);
    assert(((x >> 16u32) & 0xffu32) == (x / 0x1_0000u32) % 0x100u32) by (bit_vector);
    assert(((x >> 8u32) & 0xffu32) == (x / 0x100u32) % 0x100u32) by (bit_vector);
    assert((x & 0xffu32) == x % 0x100u32) by (bit_vector);
}

/// Writing the bytes of a received header gives back the same header.
pub proof fn lemma_header_bytes_roundtrip(b: Seq<u8>)
    requires
        b.len() == 4,
    ensures
        be_bytes(be_value(b)) == b,
{
    let b0 = b[0];
    let b1 = b[1];
    let b2 = b[2];
    let b3 = b[3];
    let x = be_value(b);
    assert(x == (((b0 as u32) << 24u32) | ((b1 as u32) << 16u32) | ((b2 as u32) << 8u32) | (b3 as u32)));
    assert(((x >> 24u32) & 0xffu32) as u8 == b0 && ((x >> 16u32) & 0xffu32) as u8 == b1
        && ((x >> 8u32) & 0xffu32) as u8 == b2 && (x & 0xffu32) as u8 == b3) by (bit_vector)
        requires
            x == (((b0 as u32) << 24u32) | ((b1 as u32) << 16u32) | ((b2 as u32) << 8u32) | (b3 as u32)),
    ;
    assert(be_bytes(x) =~= b);
}

/// A receiver that reads the header written for a payload learns the
/// payload's length, for every payload of at most `u32::MAX` bytes.
pub proof fn lemma_frame_len_of_header(payload_len: usize)
    requires
        payload_len <= u32::MAX,
    ensures
        be_value(be_bytes(announced_len(payload_len))) == payload_len,
{
    lemma_header_roundtrip(payload_len as u32);
}

} // verus!
