//! Byte order of `u64` and `i64`.

use vstd::prelude::*;
use crate::order::host_is_little;

verus! {

/// `x` with its eight bytes in reverse order.
pub open spec fn u64_swap(x: u64) -> u64 {
    ((x & 0xff) << 56)
        | ((x & 0xff00) << 40)
        | ((x & 0xff0000) << 24)
        | ((x & 0xff000000) << 8)
        | ((x >> 8) & 0xff000000)
        | ((x >> 24) & 0xff0000)
        | ((x >> 40) & 0xff00)
        | (x >> 56)
}

/// The integer that holds `x` least significant byte first when it is stored.
/// The map is its own inverse, so it also reads such an integer back.
pub open spec fn u64_to_le(x: u64) -> u64 {
    if host_is_little() {
        x
    } else {
        u64_swap(x)
    }
}

/// The integer that holds `x` most significant byte first when it is stored.
/// The map is its own inverse, so it also reads such an integer back.
pub open spec fn u64_to_be(x: u64) -> u64 {
    if host_is_little() {
        u64_swap(x)
    } else {
        x
    }
}

/// The bytes of `x`, least significant first.
pub open spec fn u64_le_bytes(x: u64) -> Seq<u8> {
    seq![
        x as u8, (x >> 8) as u8, (x >> 16) as u8, (x >> 24) as u8, (x >> 32) as u8,
        (x >> 40) as u8, (x >> 48) as u8, (x >> 56) as u8,
    ]
}

/// The bytes of `x`, most significant first.
pub open spec fn u64_be_bytes(x: u64) -> Seq<u8> {
    seq![
        (x >> 56) as u8, (x >> 48) as u8, (x >> 40) as u8, (x >> 32) as u8,
        (x >> 24) as u8, (x >> 16) as u8, (x >> 8) as u8, x as u8,
    ]
}

/// The bytes that a stored `x` occupies, lowest address first.
pub open spec fn u64_stored_bytes(x: u64) -> Seq<u8> {
    if host_is_little() {
        u64_le_bytes(x)
    } else {
        u64_be_bytes(x)
    }
}

/// Trusted: `u64::to_le` returns its argument on a little-endian machine and the
/// argument with its bytes reversed on a big-endian one.
pub assume_specification[ u64::to_le ](x: u64) -> (r: u64)
    ensures
        r == u64_to_le(x),
;

/// Trusted: `u64::from_le` is the same map as `u64::to_le`.
pub assume_specification[ u64::from_le ](x: u64) -> (r: u64)
    ensures
        r == u64_to_le(x),
;

/// Trusted: `u64::to_be` returns its argument with its bytes reversed on a
/// little-endian machine and the argument itself on a big-endian one.
pub assume_specification[ u64::to_be ](x: u64) -> (r: u64)
    ensures
        r == u64_to_be(x),
;

/// Trusted: `u64::from_be` is the same map as `u64::to_be`.
pub assume_specification[ u64::from_be ](x: u64) -> (r: u64)
    ensures
        r == u64_to_be(x),
;

/// Reversing the bytes twice gives the value back; reversing commutes with the
/// bitwise operations and moves each byte to the mirrored place.
pub proof fn lemma_u64_swap(x: u64, y: u64)
    by (bit_vector)
    ensures
        u64_swap(u64_swap(x)) == x,
        u64_swap(x & y) == u64_swap(x) & u64_swap(y),
        u64_swap(x | y) == u64_swap(x) | u64_swap(y),
        u64_swap(x ^ y) == u64_swap(x) ^ u64_swap(y),
        u64_swap(!x) == !u64_swap(x),
        u64_swap(x) as u8 == (x >> 56) as u8,
        (u64_swap(x) >> 8) as u8 == (x >> 48) as u8,
        (u64_swap(x) >> 16) as u8 == (x >> 40) as u8,
        (u64_swap(x) >> 24) as u8 == (x >> 32) as u8,
        (u64_swap(x) >> 32) as u8 == (x >> 24) as u8,
        (u64_swap(x) >> 40) as u8 == (x >> 16) as u8,
        (u64_swap(x) >> 48) as u8 == (x >> 8) as u8,
        (u64_swap(x) >> 56) as u8 == x as u8,
{
}

/// What is stored in little-endian order reads back unchanged, bitwise
/// operations may be done on the stored form, and the stored bytes are those of
/// the value, least significant first.
pub proof fn lemma_u64_to_le(x: u64, y: u64)
    ensures
        u64_to_le(u64_to_le(x)) == x,
        u64_to_le(x & y) == u64_to_le(x) & u64_to_le(y),
        u64_to_le(x | y) == u64_to_le(x) | u64_to_le(y),
        u64_to_le(x ^ y) == u64_to_le(x) ^ u64_to_le(y),
        u64_to_le(!x) == !u64_to_le(x),
        u64_stored_bytes(u64_to_le(x)) == u64_le_bytes(x),
{
    lemma_u64_swap(x, y);
}

/// What is stored in big-endian order reads back unchanged, bitwise operations
/// may be done on the stored form, and the stored bytes are those of the value,
/// most significant first.
pub proof fn lemma_u64_to_be(x: u64, y: u64)
    ensures
        u64_to_be(u64_to_be(x)) == x,
        u64_to_be(x & y) == u64_to_be(x) & u64_to_be(y),
        u64_to_be(x | y) == u64_to_be(x) | u64_to_be(y),
        u64_to_be(x ^ y) == u64_to_be(x) ^ u64_to_be(y),
        u64_to_be(!x) == !u64_to_be(x),
        u64_stored_bytes(u64_to_be(x)) == u64_be_bytes(x),
{
    lemma_u64_swap(x, y);
}

/// `x` with its eight bytes in reverse order: the bytes of a signed integer are
/// those of the unsigned integer with the same bits.
pub open spec fn i64_swap(x: i64) -> i64 {
    u64_swap(x as u64) as i64
}

/// The integer that holds `x` least significant byte first when it is stored.
/// The map is its own inverse, so it also reads such an integer back.
pub open spec fn i64_to_le(x: i64) -> i64 {
    if host_is_little() {
        x
    } else {
        i64_swap(x)
    }
}

/// The integer that holds `x` most significant byte first when it is stored.
/// The map is its own inverse, so it also reads such an integer back.
pub open spec fn i64_to_be(x: i64) -> i64 {
    if host_is_little() {
        i64_swap(x)
    } else {
        x
    }
}

/// The bytes of `x` in two's complement, least significant first.
pub open spec fn i64_le_bytes(x: i64) -> Seq<u8> {
    u64_le_bytes(x as u64)
}

/// The bytes of `x` in two's complement, most significant first.
pub open spec fn i64_be_bytes(x: i64) -> Seq<u8> {
    u64_be_bytes(x as u64)
}

/// The bytes that a stored `x` occupies, lowest address first.
pub open spec fn i64_stored_bytes(x: i64) -> Seq<u8> {
    u64_stored_bytes(x as u64)
}

/// Trusted: `i64::to_le` returns its argument on a little-endian machine and the
/// argument with its bytes reversed on a big-endian one.
pub assume_specification[ i64::to_le ](x: i64) -> (r: i64)
    ensures
        r == i64_to_le(x),
;

/// Trusted: `i64::from_le` is the same map as `i64::to_le`.
pub assume_specification[ i64::from_le ](x: i64) -> (r: i64)
    ensures
        r == i64_to_le(x),
;

/// Trusted: `i64::to_be` returns its argument with its bytes reversed on a
/// little-endian machine and the argument itself on a big-endian one.
pub assume_specification[ i64::to_be ](x: i64) -> (r: i64)
    ensures
        r == i64_to_be(x),
;

/// Trusted: `i64::from_be` is the same map as `i64::to_be`.
pub assume_specification[ i64::from_be ](x: i64) -> (r: i64)
    ensures
        r == i64_to_be(x),
;

/// Reversing the bytes twice gives the value back; reversing commutes with the
/// bitwise operations and with reading the bits as unsigned.
pub proof fn lemma_i64_swap(x: i64, y: i64)
    by (bit_vector)
    ensures
        i64_swap(i64_swap(x)) == x,
        i64_swap(x & y) == i64_swap(x) & i64_swap(y),
        i64_swap(x | y) == i64_swap(x) | i64_swap(y),
        i64_swap(x ^ y) == i64_swap(x) ^ i64_swap(y),
        i64_swap(!x) == !i64_swap(x),
        i64_swap(x) as u64 == u64_swap(x as u64),
{
}

/// What is stored in little-endian order reads back unchanged, bitwise
/// operations may be done on the stored form, and the stored bytes are those of
/// the value, least significant first.
pub proof fn lemma_i64_to_le(x: i64, y: i64)
    ensures
        i64_to_le(i64_to_le(x)) == x,
        i64_to_le(x & y) == i64_to_le(x) & i64_to_le(y),
        i64_to_le(x | y) == i64_to_le(x) | i64_to_le(y),
        i64_to_le(x ^ y) == i64_to_le(x) ^ i64_to_le(y),
        i64_to_le(!x) == !i64_to_le(x),
        i64_stored_bytes(i64_to_le(x)) == i64_le_bytes(x),
{
    lemma_i64_swap(x, y);
    lemma_u64_to_le(x as u64, y as u64);
}

/// What is stored in big-endian order reads back unchanged, bitwise operations
/// may be done on the stored form, and the stored bytes are those of the value,
/// most significant first.
pub proof fn lemma_i64_to_be(x: i64, y: i64)
    ensures
        i64_to_be(i64_to_be(x)) == x,
        i64_to_be(x & y) == i64_to_be(x) & i64_to_be(y),
        i64_to_be(x | y) == i64_to_be(x) | i64_to_be(y),
        i64_to_be(x ^ y) == i64_to_be(x) ^ i64_to_be(y),
        i64_to_be(!x) == !i64_to_be(x),
        i64_stored_bytes(i64_to_be(x)) == i64_be_bytes(x),
{
    lemma_i64_swap(x, y);
    lemma_u64_to_be(x as u64, y as u64);
}

} // verus!
