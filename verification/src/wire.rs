//! The wire format, stated mathematically: for each width, the mapping from
//! a signed integer to its big-endian two's-complement byte sequence, the
//! mapping back, and the proof that the two compose to the identity.
//!
//! Byte `i` (0-indexed from the front) of an `n`-byte encoding holds bits
//! `[8*(n-1-i), 8*(n-1-i)+7]` of the value's two's-complement bit pattern;
//! the sign is carried entirely by that pattern.

use vstd::arithmetic::div_mod::{lemma_div_denominator, lemma_fundamental_div_mod};
use vstd::prelude::*;

verus! {

/// The unsigned integer whose 8-bit pattern is the two's-complement
/// representation of `v`.
pub open spec fn unsigned8(v: i8) -> int {
    if v >= 0 {
        v as int
    } else {
        v + 0x100
    }
}

/// The unsigned integer whose 16-bit pattern is the two's-complement
/// representation of `v`.
pub open spec fn unsigned16(v: i16) -> int {
    if v >= 0 {
        v as int
    } else {
        v + 0x1_0000
    }
}

/// The unsigned integer whose 32-bit pattern is the two's-complement
/// representation of `v`.
pub open spec fn unsigned32(v: i32) -> int {
    if v >= 0 {
        v as int
    } else {
        v + 0x1_0000_0000
    }
}

/// The unsigned integer whose 64-bit pattern is the two's-complement
/// representation of `v`.
pub open spec fn unsigned64(v: i64) -> int {
    if v >= 0 {
        v as int
    } else {
        v + 0x1_0000_0000_0000_0000
    }
}

/// The signed value whose 8-bit two's-complement pattern is `u`.
pub open spec fn signed8(u: int) -> int
    recommends
        0 <= u < 0x100,
{
    if u < 0x80 {
        u
    } else {
        u - 0x100
    }
}

/// The signed value whose 16-bit two's-complement pattern is `u`.
pub open spec fn signed16(u: int) -> int
    recommends
        0 <= u < 0x1_0000,
{
    if u < 0x8000 {
        u
    } else {
        u - 0x1_0000
    }
}

/// The signed value whose 32-bit two's-complement pattern is `u`.
pub open spec fn signed32(u: int) -> int
    recommends
        0 <= u < 0x1_0000_0000,
{
    if u < 0x8000_0000 {
        u
    } else {
        u - 0x1_0000_0000
    }
}

/// The signed value whose 64-bit two's-complement pattern is `u`.
pub open spec fn signed64(u: int) -> int
    recommends
        0 <= u < 0x1_0000_0000_0000_0000,
{
    if u < 0x8000_0000_0000_0000 {
        u
    } else {
        u - 0x1_0000_0000_0000_0000
    }
}

/// The single-byte encoding of an 8-bit value.
pub open spec fn be_bytes8(v: i8) -> Seq<u8> {
    seq![unsigned8(v) as u8]
}

/// The 2-byte big-endian encoding of a 16-bit value, most significant
/// byte first.
pub open spec fn be_bytes16(v: i16) -> Seq<u8> {
    let u = unsigned16(v);
    seq![(u / 0x100) as u8, (u % 0x100) as u8]
}

/// The 4-byte big-endian encoding of a 32-bit value, most significant
/// byte first.
pub open spec fn be_bytes32(v: i32) -> Seq<u8> {
    let u = unsigned32(v);
    seq![
        (u / 0x100_0000) as u8,
        ((u / 0x1_0000) % 0x100) as u8,
        ((u / 0x100) % 0x100) as u8,
        (u % 0x100) as u8,
    ]
}

/// The 8-byte big-endian encoding of a 64-bit value, most significant
/// byte first.
pub open spec fn be_bytes64(v: i64) -> Seq<u8> {
    let u = unsigned64(v);
    seq![
        (u / 0x100_0000_0000_0000) as u8,
        ((u / 0x1_0000_0000_0000) % 0x100) as u8,
        ((u / 0x100_0000_0000) % 0x100) as u8,
        ((u / 0x1_0000_0000) % 0x100) as u8,
        ((u / 0x100_0000) % 0x100) as u8,
        ((u / 0x1_0000) % 0x100) as u8,
        ((u / 0x100) % 0x100) as u8,
        (u % 0x100) as u8,
    ]
}

/// The 8-bit value encoded by a single byte.
pub open spec fn decode8(b: Seq<u8>) -> int
    recommends
        b.len() == 1,
{
    signed8(b[0] as int)
}

/// The 16-bit value encoded big-endian by two bytes.
pub open spec fn decode16(b: Seq<u8>) -> int
    recommends
        b.len() == 2,
{
    signed16(b[0] * 0x100 + b[1])
}

/// The 32-bit value encoded big-endian by four bytes.
pub open spec fn decode32(b: Seq<u8>) -> int
    recommends
        b.len() == 4,
{
    signed32(b[0] * 0x100_0000 + b[1] * 0x1_0000 + b[2] * 0x100 + b[3])
}

/// The 64-bit value encoded big-endian by eight bytes.
pub open spec fn decode64(b: Seq<u8>) -> int
    recommends
        b.len() == 8,
{
    signed64(
        b[0] * 0x100_0000_0000_0000 + b[1] * 0x1_0000_0000_0000 + b[2] * 0x100_0000_0000 + b[3]
            * 0x1_0000_0000 + b[4] * 0x100_0000 + b[5] * 0x1_0000 + b[6] * 0x100 + b[7],
    )
}

/// A 16-bit pattern is the sum of its two base-256 digits.
proof fn lemma_digits16(u: int)
    requires
        0 <= u < 0x1_0000,
    ensures
        (u / 0x100) * 0x100 + u % 0x100 == u,
{
    lemma_fundamental_div_mod(u, 0x100);
}

/// A 32-bit pattern is the sum of its four base-256 digits.
proof fn lemma_digits32(u: int)
    requires
        0 <= u < 0x1_0000_0000,
    ensures
        (u / 0x100_0000) * 0x100_0000 + ((u / 0x1_0000) % 0x100) * 0x1_0000 + ((u / 0x100) % 0x100)
            * 0x100 + u % 0x100 == u,
{
    lemma_fundamental_div_mod(u, 0x100);
    lemma_fundamental_div_mod(u / 0x100, 0x100);
    lemma_fundamental_div_mod(u / 0x1_0000, 0x100);
    lemma_div_denominator(u, 0x100, 0x100);
    lemma_div_denominator(u, 0x1_0000, 0x100);
}

/// A 64-bit pattern is the sum of its eight base-256 digits.
proof fn lemma_digits64(u: int)
    requires
        0 <= u < 0x1_0000_0000_0000_0000,
    ensures
        (u / 0x100_0000_0000_0000) * 0x100_0000_0000_0000 + ((u / 0x1_0000_0000_0000) % 0x100)
            * 0x1_0000_0000_0000 + ((u / 0x100_0000_0000) % 0x100) * 0x100_0000_0000 + ((u
            / 0x1_0000_0000) % 0x100) * 0x1_0000_0000 + ((u / 0x100_0000) % 0x100) * 0x100_0000 + ((
        u / 0x1_0000) % 0x100) * 0x1_0000 + ((u / 0x100) % 0x100) * 0x100 + u % 0x100 == u,
{
    lemma_fundamental_div_mod(u, 0x100);
    lemma_fundamental_div_mod(u / 0x100, 0x100);
    lemma_fundamental_div_mod(u / 0x1_0000, 0x100);
    lemma_fundamental_div_mod(u / 0x100_0000, 0x100);
    lemma_fundamental_div_mod(u / 0x1_0000_0000, 0x100);
    lemma_fundamental_div_mod(u / 0x100_0000_0000, 0x100);
    lemma_fundamental_div_mod(u / 0x1_0000_0000_0000, 0x100);
    lemma_div_denominator(u, 0x100, 0x100);
    lemma_div_denominator(u, 0x1_0000, 0x100);
    lemma_div_denominator(u, 0x100_0000, 0x100);
    lemma_div_denominator(u, 0x1_0000_0000, 0x100);
    lemma_div_denominator(u, 0x100_0000_0000, 0x100);
    lemma_div_denominator(u, 0x1_0000_0000_0000, 0x100);
}

/// Byte-count exactness: for every width and every value of that width,
/// the encoding is exactly w/8 bytes long.
pub proof fn lemma_byte_counts(v8: i8, v16: i16, v32: i32, v64: i64)
    ensures
        be_bytes8(v8).len() == 1,
        be_bytes16(v16).len() == 2,
        be_bytes32(v32).len() == 4,
        be_bytes64(v64).len() == 8,
{
}

/// Round trip, 8-bit width: decoding the encoding of any 8-bit value
/// yields that value.
pub proof fn lemma_round_trip8(v: i8)
    ensures
        decode8(be_bytes8(v)) == v as int,
{
}

/// Round trip, 16-bit width: decoding the encoding of any 16-bit value
/// yields that value.
pub proof fn lemma_round_trip16(v: i16)
    ensures
        decode16(be_bytes16(v)) == v as int,
{
    lemma_digits16(unsigned16(v));
}

/// Round trip, 32-bit width: decoding the encoding of any 32-bit value
/// yields that value.
pub proof fn lemma_round_trip32(v: i32)
    ensures
        decode32(be_bytes32(v)) == v as int,
{
    lemma_digits32(unsigned32(v));
}

/// Round trip, 64-bit width: decoding the encoding of any 64-bit value
/// yields that value.
pub proof fn lemma_round_trip64(v: i64)
    ensures
        decode64(be_bytes64(v)) == v as int,
{
    lemma_digits64(unsigned64(v));
}

} // verus!
