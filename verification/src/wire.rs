//! Little-endian wire representation of the primitive values.
//!
//! Everything on the wire is built from fixed-width little-endian integers
//! and raw byte runs.  The specification functions here give each primitive
//! a mathematical byte image and a mathematical reading, and the lemmas show
//! the two are inverse to each other.

use vstd::arithmetic::div_mod::lemma_div_denominator;
use vstd::arithmetic::div_mod::lemma_fundamental_div_mod;
use vstd::prelude::*;

verus! {

/// Value of four bytes read little-endian.
pub open spec fn le32(b0: u8, b1: u8, b2: u8, b3: u8) -> int {
    b0 + b1 * 0x100 + b2 * 0x1_0000 + b3 * 0x100_0000
}

/// Value of eight bytes read little-endian.
pub open spec fn le64(b0: u8, b1: u8, b2: u8, b3: u8, b4: u8, b5: u8, b6: u8, b7: u8) -> int {
    le32(b0, b1, b2, b3) + le32(b4, b5, b6, b7) * 0x1_0000_0000
}

/// Byte image of a `u32`, least significant byte first.
pub open spec fn enc_u32(v: u32) -> Seq<u8> {
    seq![
        (v % 0x100) as u8,
        ((v / 0x100) % 0x100) as u8,
        ((v / 0x1_0000) % 0x100) as u8,
        ((v / 0x100_0000) % 0x100) as u8,
    ]
}

/// Byte image of a `u64`, least significant byte first.
pub open spec fn enc_u64(v: u64) -> Seq<u8> {
    enc_u32((v % 0x1_0000_0000) as u32) + enc_u32((v / 0x1_0000_0000) as u32)
}

/// Two's-complement carrier of an `i32` on the wire.
pub open spec fn u32_of_i32(v: i32) -> u32 {
    if v >= 0 {
        v as u32
    } else {
        (v + 0x1_0000_0000) as u32
    }
}

/// Signed reading of a wire `u32`.
pub open spec fn i32_of_u32(u: u32) -> i32 {
    if u < 0x8000_0000 {
        u as i32
    } else {
        (u - 0x1_0000_0000) as i32
    }
}

/// Two's-complement carrier of an `i64` on the wire.
pub open spec fn u64_of_i64(v: i64) -> u64 {
    if v >= 0 {
        v as u64
    } else {
        (v + 0x1_0000_0000_0000_0000) as u64
    }
}

/// Signed reading of a wire `u64`.
pub open spec fn i64_of_u64(u: u64) -> i64 {
    if u < 0x8000_0000_0000_0000 {
        u as i64
    } else {
        (u - 0x1_0000_0000_0000_0000) as i64
    }
}

/// Byte image of an `i32`: the image of its two's-complement carrier.
pub open spec fn enc_i32(v: i32) -> Seq<u8> {
    enc_u32(u32_of_i32(v))
}

/// Byte image of an `i64`: the image of its two's-complement carrier.
pub open spec fn enc_i64(v: i64) -> Seq<u8> {
    enc_u64(u64_of_i64(v))
}

/// The `u32` found at offset `i` of a byte stream.
pub open spec fn u32_at(b: Seq<u8>, i: int) -> u32
    recommends
        0 <= i,
        i + 4 <= b.len(),
{
    le32(b[i], b[i + 1], b[i + 2], b[i + 3]) as u32
}

/// The `i32` found at offset `i` of a byte stream.
pub open spec fn i32_at(b: Seq<u8>, i: int) -> i32 {
    i32_of_u32(u32_at(b, i))
}

/// The `u64` found at offset `i` of a byte stream.
pub open spec fn u64_at(b: Seq<u8>, i: int) -> u64
    recommends
        0 <= i,
        i + 8 <= b.len(),
{
    le64(b[i], b[i + 1], b[i + 2], b[i + 3], b[i + 4], b[i + 5], b[i + 6], b[i + 7]) as u64
}

/// The `i64` found at offset `i` of a byte stream.
pub open spec fn i64_at(b: Seq<u8>, i: int) -> i64 {
    i64_of_u64(u64_at(b, i))
}

/// Reading back the byte image of a `u32` yields the value again.
pub proof fn lemma_u32_round_trip(v: u32)
    ensures
        enc_u32(v).len() == 4,
        u32_at(enc_u32(v), 0) == v,
{
    lemma_fundamental_div_mod(v as int, 0x100);
    lemma_fundamental_div_mod(v as int / 0x100, 0x100);
    lemma_fundamental_div_mod(v as int / 0x1_0000, 0x100);
    lemma_div_denominator(v as int, 0x100, 0x100);
    lemma_div_denominator(v as int, 0x1_0000, 0x100);
    assert(v as int / 0x100_0000 < 0x100);
}

/// Reading back the byte image of a `u64` yields the value again.
pub proof fn lemma_u64_round_trip(v: u64)
    ensures
        enc_u64(v).len() == 8,
        u64_at(enc_u64(v), 0) == v,
{
    let lo = (v % 0x1_0000_0000) as u32;
    let hi = (v / 0x1_0000_0000) as u32;
    lemma_u32_round_trip(lo);
    lemma_u32_round_trip(hi);
    lemma_fundamental_div_mod(v as int, 0x1_0000_0000);
    assert(enc_u64(v)[0] == enc_u32(lo)[0]);
    assert(enc_u64(v)[1] == enc_u32(lo)[1]);
    assert(enc_u64(v)[2] == enc_u32(lo)[2]);
    assert(enc_u64(v)[3] == enc_u32(lo)[3]);
    assert(enc_u64(v)[4] == enc_u32(hi)[0]);
    assert(enc_u64(v)[5] == enc_u32(hi)[1]);
    assert(enc_u64(v)[6] == enc_u32(hi)[2]);
    assert(enc_u64(v)[7] == enc_u32(hi)[3]);
}

/// The signed carriers are inverse to their readings.
pub proof fn lemma_i32_round_trip(v: i32)
    ensures
        i32_of_u32(u32_of_i32(v)) == v,
{
}

/// The signed carriers are inverse to their readings.
pub proof fn lemma_i64_round_trip(v: i64)
    ensures
        i64_of_u64(u64_of_i64(v)) == v,
{
}

/// Reading a `u32` at `p` from a stream whose bytes at `p` are the image of
/// `v` yields `v`.
pub proof fn lemma_u32_at(b: Seq<u8>, p: int, v: u32)
    requires
        0 <= p,
        p + 4 <= b.len(),
        b.subrange(p, p + 4) == enc_u32(v),
    ensures
        u32_at(b, p) == v,
{
    assert(b[p] == b.subrange(p, p + 4)[0]);
    assert(b[p + 1] == b.subrange(p, p + 4)[1]);
    assert(b[p + 2] == b.subrange(p, p + 4)[2]);
    assert(b[p + 3] == b.subrange(p, p + 4)[3]);
    lemma_u32_round_trip(v);
}

/// Reading an `i32` at `p` from a stream whose bytes at `p` are the image of
/// `v` yields `v`.
pub proof fn lemma_i32_at(b: Seq<u8>, p: int, v: i32)
    requires
        0 <= p,
        p + 4 <= b.len(),
        b.subrange(p, p + 4) == enc_i32(v),
    ensures
        i32_at(b, p) == v,
{
    lemma_u32_at(b, p, u32_of_i32(v));
    lemma_i32_round_trip(v);
}

/// Reading a `u64` at `p` from a stream whose bytes at `p` are the image of
/// `v` yields `v`.
pub proof fn lemma_u64_at(b: Seq<u8>, p: int, v: u64)
    requires
        0 <= p,
        p + 8 <= b.len(),
        b.subrange(p, p + 8) == enc_u64(v),
    ensures
        u64_at(b, p) == v,
{
    assert forall|k: int| 0 <= k < 8 implies b[p + k] == enc_u64(v)[k] by {
        assert(b[p + k] == b.subrange(p, p + 8)[k]);
    }
    lemma_u64_round_trip(v);
    assert(u64_at(b, p) == u64_at(enc_u64(v), 0));
}

/// Reading an `i64` at `p` from a stream whose bytes at `p` are the image of
/// `v` yields `v`.
pub proof fn lemma_i64_at(b: Seq<u8>, p: int, v: i64)
    requires
        0 <= p,
        p + 8 <= b.len(),
        b.subrange(p, p + 8) == enc_i64(v),
    ensures
        i64_at(b, p) == v,
{
    lemma_u64_at(b, p, u64_of_i64(v));
    lemma_i64_round_trip(v);
}

} // verus!
