//! How numbers lie in a record: least significant byte first.

use vstd::prelude::*;
use vstd::arithmetic::div_mod::{
    lemma_div_denominator, lemma_fundamental_div_mod, lemma_fundamental_div_mod_converse,
};

verus! {

/// The four bytes of `x`, least significant first.
pub open spec fn u32_bytes(x: u32) -> Seq<u8> {
    seq![
        (x % 256) as u8,
        ((x / 256) % 256) as u8,
        ((x / 65536) % 256) as u8,
        ((x / 16777216) % 256) as u8,
    ]
}

/// The number whose four bytes, least significant first, are the bytes of
/// `bytes` from `at` on.
pub open spec fn u32_at(bytes: Seq<u8>, at: int) -> u32
    recommends
        0 <= at,
        at + 4 <= bytes.len(),
{
    (bytes[at] as int + 256 * (bytes[at + 1] as int) + 65536 * (bytes[at + 2] as int) + 16777216
        * (bytes[at + 3] as int)) as u32
}

/// The eight bytes of `x`, least significant first.
pub open spec fn u64_bytes(x: u64) -> Seq<u8> {
    u32_bytes((x % 0x1_0000_0000) as u32) + u32_bytes((x / 0x1_0000_0000) as u32)
}

/// The number whose eight bytes, least significant first, are the bytes of
/// `bytes` from `at` on.
pub open spec fn u64_at(bytes: Seq<u8>, at: int) -> u64
    recommends
        0 <= at,
        at + 8 <= bytes.len(),
{
    (u32_at(bytes, at) as int + 0x1_0000_0000 * (u32_at(bytes, at + 4) as int)) as u64
}

/// The four bytes of `x` in two's complement, least significant first.
pub open spec fn i32_bytes(x: i32) -> Seq<u8> {
    u32_bytes(
        if x >= 0 {
            x as u32
        } else {
            (x + 0x1_0000_0000) as u32
        },
    )
}

/// The signed number whose four bytes in two's complement, least
/// significant first, are the bytes of `bytes` from `at` on.
pub open spec fn i32_at(bytes: Seq<u8>, at: int) -> i32
    recommends
        0 <= at,
        at + 4 <= bytes.len(),
{
    let u = u32_at(bytes, at);
    if u < 0x8000_0000 {
        u as i32
    } else {
        (u - 0x1_0000_0000) as i32
    }
}

/// Appends the four bytes of `x` to `out`.
pub fn put_u32(out: &mut Vec<u8>, x: u32)
    ensures
        final(out)@ == old(out)@ + u32_bytes(x),
{
    out.push((x % 256) as u8);
    out.push(((x / 256) % 256) as u8);
    out.push(((x / 65536) % 256) as u8);
    out.push(((x / 16777216) % 256) as u8);
    assert(out@ =~= old(out)@ + u32_bytes(x));
}

/// Appends the eight bytes of `x` to `out`.
pub fn put_u64(out: &mut Vec<u8>, x: u64)
    ensures
        final(out)@ == old(out)@ + u64_bytes(x),
{
    let low: u32 = (x % 0x1_0000_0000) as u32;
    let high: u32 = (x / 0x1_0000_0000) as u32;
    put_u32(out, low);
    put_u32(out, high);
    assert(out@ =~= old(out)@ + u64_bytes(x));
}

/// Appends the four bytes of `x` to `out`.
pub fn put_i32(out: &mut Vec<u8>, x: i32)
    ensures
        final(out)@ == old(out)@ + i32_bytes(x),
{
    let unsigned: u32 = if x >= 0 {
        x as u32
    } else {
        ((x as i64) + 0x1_0000_0000) as u32
    };
    put_u32(out, unsigned);
}

/// Reads the number that lies at `at`.
pub fn get_u32(bytes: &[u8], at: usize) -> (x: u32)
    requires
        at + 4 <= bytes@.len(),
    ensures
        x == u32_at(bytes@, at as int),
{
    let b0: u32 = bytes[at] as u32;
    let b1: u32 = bytes[at + 1] as u32;
    let b2: u32 = bytes[at + 2] as u32;
    let b3: u32 = bytes[at + 3] as u32;
    b0 + 256 * b1 + 65536 * b2 + 16777216 * b3
}

/// Reads the number that lies at `at`.
pub fn get_u64(bytes: &[u8], at: usize) -> (x: u64)
    requires
        at + 8 <= bytes@.len(),
    ensures
        x == u64_at(bytes@, at as int),
{
    let len: usize = bytes.len();
    assert(at + 8 <= len);
    let low: u64 = get_u32(bytes, at) as u64;
    let high: u64 = get_u32(bytes, at + 4) as u64;
    low + 0x1_0000_0000 * high
}

/// Reads the signed number that lies at `at`.
pub fn get_i32(bytes: &[u8], at: usize) -> (x: i32)
    requires
        at + 4 <= bytes@.len(),
    ensures
        x == i32_at(bytes@, at as int),
{
    let u: u32 = get_u32(bytes, at);
    if u < 0x8000_0000 {
        u as i32
    } else {
        ((u as i64) - 0x1_0000_0000) as i32
    }
}

/// A number below 2^32 is the sum of its digits to base 256, each times its
/// place value.
proof fn lemma_sum_of_digits(x: int)
    requires
        0 <= x < 0x1_0000_0000,
    ensures
        x == x % 256 + 256 * ((x / 256) % 256) + 65536 * ((x / 65536) % 256) + 16777216 * ((x
            / 16777216) % 256),
{
    let q1 = x / 256;
    let q2 = q1 / 256;
    let q3 = q2 / 256;
    lemma_fundamental_div_mod(x, 256);
    lemma_fundamental_div_mod(q1, 256);
    lemma_fundamental_div_mod(q2, 256);
    lemma_div_denominator(x, 256, 256);
    lemma_div_denominator(x, 65536, 256);
    assert(q2 == x / 65536);
    assert(q3 == x / 16777216);
    assert(0 <= q3 < 256);
    assert(q3 % 256 == q3) by {
        lemma_fundamental_div_mod_converse(q3, 256, 0, q3);
    }
}

/// Reading back the bytes of a number gives the number, wherever in a record
/// the bytes lie.
pub proof fn lemma_u32_round_trip(before: Seq<u8>, x: u32, after: Seq<u8>)
    ensures
        u32_at(before + u32_bytes(x) + after, before.len() as int) == x,
{
    let all = before + u32_bytes(x) + after;
    let at = before.len() as int;
    assert(all[at] == u32_bytes(x)[0]);
    assert(all[at + 1] == u32_bytes(x)[1]);
    assert(all[at + 2] == u32_bytes(x)[2]);
    assert(all[at + 3] == u32_bytes(x)[3]);
    lemma_sum_of_digits(x as int);
}

/// Reading back the bytes of a number gives the number.
pub proof fn lemma_u64_round_trip(before: Seq<u8>, x: u64, after: Seq<u8>)
    ensures
        u64_at(before + u64_bytes(x) + after, before.len() as int) == x,
{
    let low = (x % 0x1_0000_0000) as u32;
    let high = (x / 0x1_0000_0000) as u32;
    let all = before + u64_bytes(x) + after;
    lemma_fundamental_div_mod(x as int, 0x1_0000_0000);
    assert(all =~= before + u32_bytes(low) + (u32_bytes(high) + after));
    assert(all =~= (before + u32_bytes(low)) + u32_bytes(high) + after);
    lemma_u32_round_trip(before, low, u32_bytes(high) + after);
    lemma_u32_round_trip(before + u32_bytes(low), high, after);
}

/// Reading back the bytes of a signed number gives the number.
pub proof fn lemma_i32_round_trip(before: Seq<u8>, x: i32, after: Seq<u8>)
    ensures
        i32_at(before + i32_bytes(x) + after, before.len() as int) == x,
{
    let unsigned: u32 = if x >= 0 {
        x as u32
    } else {
        (x + 0x1_0000_0000) as u32
    };
    lemma_u32_round_trip(before, unsigned, after);
}

/// The digits to base 256 of a number below 2^32 are what division and
/// remainder take it apart into.
proof fn lemma_digits(b0: int, b1: int, b2: int, b3: int)
    requires
        0 <= b0 < 256,
        0 <= b1 < 256,
        0 <= b2 < 256,
        0 <= b3 < 256,
    ensures
        ({
            let v = b0 + 256 * b1 + 65536 * b2 + 16777216 * b3;
            &&& 0 <= v < 0x1_0000_0000
            &&& v % 256 == b0
            &&& (v / 256) % 256 == b1
            &&& (v / 65536) % 256 == b2
            &&& (v / 16777216) % 256 == b3
        }),
{
    let v = b0 + 256 * b1 + 65536 * b2 + 16777216 * b3;
    let r1 = b1 + 256 * b2 + 65536 * b3;
    let r2 = b2 + 256 * b3;
    lemma_fundamental_div_mod_converse(v, 256, r1, b0);
    lemma_fundamental_div_mod_converse(r1, 256, r2, b1);
    lemma_fundamental_div_mod_converse(v, 65536, r2, b0 + 256 * b1);
    lemma_fundamental_div_mod_converse(r2, 256, b3, b2);
    lemma_fundamental_div_mod_converse(v, 16777216, b3, b0 + 256 * b1 + 65536 * b2);
    lemma_fundamental_div_mod_converse(b3, 256, 0, b3);
}

/// The bytes of the number that a run of four bytes stands for are those
/// four bytes.
pub proof fn lemma_u32_bytes_of_value(bytes: Seq<u8>, at: int)
    requires
        0 <= at,
        at + 4 <= bytes.len(),
    ensures
        u32_bytes(u32_at(bytes, at)) == bytes.subrange(at, at + 4),
{
    lemma_digits(
        bytes[at] as int,
        bytes[at + 1] as int,
        bytes[at + 2] as int,
        bytes[at + 3] as int,
    );
    assert(u32_bytes(u32_at(bytes, at)) =~= bytes.subrange(at, at + 4));
}

/// The bytes of the number that a run of eight bytes stands for are those
/// eight bytes.
pub proof fn lemma_u64_bytes_of_value(bytes: Seq<u8>, at: int)
    requires
        0 <= at,
        at + 8 <= bytes.len(),
    ensures
        u64_bytes(u64_at(bytes, at)) == bytes.subrange(at, at + 8),
{
    let low = u32_at(bytes, at);
    let high = u32_at(bytes, at + 4);
    let x = u64_at(bytes, at);
    lemma_fundamental_div_mod_converse(x as int, 0x1_0000_0000, high as int, low as int);
    assert(u32_bytes(low) == bytes.subrange(at, at + 4)) by {
        lemma_u32_bytes_of_value(bytes, at);
    }
    assert(u32_bytes(high) == bytes.subrange(at + 4, at + 8)) by {
        lemma_u32_bytes_of_value(bytes, at + 4);
    }
    assert(bytes.subrange(at, at + 4) + bytes.subrange(at + 4, at + 8) =~= bytes.subrange(
        at,
        at + 8,
    ));
}

/// The bytes of the signed number that a run of four bytes stands for are
/// those four bytes.
pub proof fn lemma_i32_bytes_of_value(bytes: Seq<u8>, at: int)
    requires
        0 <= at,
        at + 4 <= bytes.len(),
    ensures
        i32_bytes(i32_at(bytes, at)) == bytes.subrange(at, at + 4),
{
    lemma_u32_bytes_of_value(bytes, at);
}

} // verus!
