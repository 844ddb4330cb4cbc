//! Byte order of `u32` and `i32`.

use vstd::prelude::*;
use crate::order::host_is_little;

verus! {

/// `x` with its four bytes in reverse order.
pub open spec fn u32_swap(x: u32) -> u32 {
    ((x & 0xff) << 24) | ((x & 0xff00) << 8) | ((x >> 8) & 0xff00) | (x >> 24)
}

/// The integer that holds `x` least significant byte first when it is stored.
/// The map is its own inverse, so it also reads such an integer back.
pub open spec fn u32_to_le(x: u32) -> u32 {
    if host_is_little() {
        x
    } else {
        u32_swap(x)
    }
}

/// The integer that holds `x` most significant byte first when it is stored.
/// The map is its own inverse, so it also reads such an integer back.
pub open spec fn u32_to_be(x: u32) -> u32 {
    if host_is_little() {
        u32_swap(x)
    } else {
        x
    }
}

/// The bytes of `x`, least significant first.
pub open spec fn u32_le_bytes(x: u32) -> Seq<u8> {
    seq![x as u8, (x >> 8) as u8, (x >> 16) as u8, (x >> 24) as u8]
}

/// The bytes of `x`, most significant first.
pub open spec fn u32_be_bytes(x: u32) -> Seq<u8> {
    seq![(x >> 24) as u8, (x >> 16) as u8, (x >> 8) as u8, x as u8]
}

/// The bytes that a stored `x` occupies, lowest address first.
pub open spec fn u32_stored_bytes(x: u32) -> Seq<u8> {
    if host_is_little() {
        u32_le_bytes(x)
    } else {
        u32_be_bytes(x)
    }
}

/// Trusted: `u32::to_le` returns its argument on a little-endian machine and the
/// argument with its bytes reversed on a big-endian one.
pub assume_specification[ u32::to_le ](x: u32) -> (r: u32)
    ensures
        r == u32_to_le(x),
;

/// Trusted: `u32::from_le` is the same map as `u32::to_le`.
pub assume_specification[ u32::from_le ](x: u32) -> (r: u32)
    ensures
        r == u32_to_le(x),
;

/// Trusted: `u32::to_be` returns its argument with its bytes reversed on a
/// little-endian machine and the argument itself on a big-endian one.
pub assume_specification[ u32::to_be ](x: u32) -> (r: u32)
    ensures
        r == u32_to_be(x),
;

/// Trusted: `u32::from_be` is the same map as `u32::to_be`.
pub assume_specification[ u32::from_be ](x: u32) -> (r: u32)
    ensures
        r == u32_to_be(x),
;

/// Reversing the bytes twice gives the value back; reversing commutes with the
/// bitwise operations and moves each byte to the mirrored place.
pub proof fn lemma_u32_swap(x: u32, y: u32)
    by (bit_vector)
    ensures
        u32_swap(u32_swap(x)) == x,
        u32_swap(x & y) == u32_swap(x) & u32_swap(y),
        u32_swap(x | y) == u32_swap(x) | u32_swap(y),
        u32_swap(x ^ y) == u32_swap(x) ^ u32_swap(y),
        u32_swap(!x) == !u32_swap(x),
        u32_swap(x) as u8 == (x >> 24) as u8,
        (u32_swap(x) >> 8) as u8 == (x >> 16) as u8,
        (u32_swap(x) >> 16) as u8 == (x >> 8) as u8,
        (u32_swap(x) >> 24) as u8 == x as u8,
{
}

/// What is stored in little-endian order reads back unchanged, bitwise
/// operations may be done on the stored form, and the stored bytes are those of
/// the value, least significant first.
pub proof fn lemma_u32_to_le(x: u32, y: u32)
    ensures
        u32_to_le(u32_to_le(x)) == x,
        u32_to_le(x & y) == u32_to_le(x) & u32_to_le(y),
        u32_to_le(x | y) == u32_to_le(x) | u32_to_le(y),
        u32_to_le(x ^ y) == u32_to_le(x) ^ u32_to_le(y),
        u32_to_le(!x) == !u32_to_le(x),
        u32_stored_bytes(u32_to_le(x)) == u32_le_bytes(x),
{
    lemma_u32_swap(x, y);
}

/// What is stored in big-endian order reads back unchanged, bitwise operations
/// may be done on the stored form, and the stored bytes are those of the value,
/// most significant first.
pub proof fn lemma_u32_to_be(x: u32, y: u32)
    ensures
        u32_to_be(u32_to_be(x)) == x,
        u32_to_be(x & y) == u32_to_be(x) & u32_to_be(y),
        u32_to_be(x | y) == u32_to_be(x) | u32_to_be(y),
        u32_to_be(x ^ y) == u32_to_be(x) ^ u32_to_be(y),
        u32_to_be(!x) == !u32_to_be(x),
        u32_stored_bytes(u32_to_be(x)) == u32_be_bytes(x),
{
    lemma_u32_swap(x, y);
}

/// `x` with its four bytes in reverse order: the bytes of a signed integer are
/// those of the unsigned integer with the same bits.
pub open spec fn i32_swap(x: i32) -> i32 {
    u32_swap(x as u32) as i32
}

/// The integer that holds `x` least significant byte first when it is stored.
/// The map is its own inverse, so it also reads such an integer back.
pub open spec fn i32_to_le(x: i32) -> i32 {
    if host_is_little() {
        x
    } else {
        i32_swap(x)
    }
}

/// The integer that holds `x` most significant byte first when it is stored.
/// The map is its own inverse, so it also reads such an integer back.
pub open spec fn i32_to_be(x: i32) -> i32 {
    if host_is_little() {
        i32_swap(x)
    } else {
        x
    }
}

/// The bytes of `x` in two's complement, least significant first.
pub open spec fn i32_le_bytes(x: i32) -> Seq<u8> {
    u32_le_bytes(x as u32)
}

/// The bytes of `x` in two's complement, most significant first.
pub open spec fn i32_be_bytes(x: i32) -> Seq<u8> {
    u32_be_bytes(x as u32)
}

/// The bytes that a stored `x` occupies, lowest address first.
pub open spec fn i32_stored_bytes(x: i32) -> Seq<u8> {
    u32_stored_bytes(x as u32)
}

/// Trusted: `i32::to_le` returns its argument on a little-endian machine and the
/// argument with its bytes reversed on a big-endian one.
pub assume_specification[ i32::to_le ](x: i32) -> (r: i32)
    ensures
        r == i32_to_le(x),
;

/// Trusted: `i32::from_le` is the same map as `i32::to_le`.
pub assume_specification[ i32::from_le ](x: i32) -> (r: i32)
    ensures
        r == i32_to_le(x),
;

/// Trusted: `i32::to_be` returns its argument with its bytes reversed on a
/// little-endian machine and the argument itself on a big-endian one.
pub assume_specification[ i32::to_be ](x: i32) -> (r: i32)
    ensures
        r == i32_to_be(x),
;

/// Trusted: `i32::from_be` is the same map as `i32::to_be`.
pub assume_specification[ i32::from_be ](x: i32) -> (r: i32)
    ensures
        r == i32_to_be(x),
;

/// Reversing the bytes twice gives the value back; reversing commutes with the
/// bitwise operations and with reading the bits as unsigned.
pub proof fn lemma_i32_swap(x: i32, y: i32)
    by (bit_vector)
    ensures
        i32_swap(i32_swap(x)) == x,
        i32_swap(x & y) == i32_swap(x) & i32_swap(y),
        i32_swap(x | y) == i32_swap(x) | i32_swap(y),
        i32_swap(x ^ y) == i32_swap(x) ^ i32_swap(y),
        i32_swap(!x) == !i32_swap(x),
        i32_swap(x) as u32 == u32_swap(x as u32),
{
}

/// What is stored in little-endian order reads back unchanged, bitwise
/// operations may be done on the stored form, and the stored bytes are those of
/// the value, least significant first.
pub proof fn lemma_i32_to_le(x: i32, y: i32)
    ensures
        i32_to_le(i32_to_le(x)) == x,
        i32_to_le(x & y) == i32_to_le(x) & i32_to_le(y),
        i32_to_le(x | y) == i32_to_le(x) | i32_to_le(y),
        i32_to_le(x ^ y) == i32_to_le(x) ^ i32_to_le(y),
        i32_to_le(!x) == !i32_to_le(x),
        i32_stored_bytes(i32_to_le(x)) == i32_le_bytes(x),
{
    lemma_i32_swap(x, y);
    lemma_u32_to_le(x as u32, y as u32);
}

/// What is stored in big-endian order reads back unchanged, bitwise operations
/// may be done on the stored form, and the stored bytes are those of the value,
/// most significant first.
pub proof fn lemma_i32_to_be(x: i32, y: i32)
    ensures
        i32_to_be(i32_to_be(x)) == x,
        i32_to_be(x & y) == i32_to_be(x) & i32_to_be(y),
        i32_to_be(x | y) == i32_to_be(x) | i32_to_be(y),
        i32_to_be(x ^ y) == i32_to_be(x) ^ i32_to_be(y),
        i32_to_be(!x) == !i32_to_be(x),
        i32_stored_bytes(i32_to_be(x)) == i32_be_bytes(x),
{
    lemma_i32_swap(x, y);
    lemma_u32_to_be(x as u32, y as u32);
}

} // verus!
