//! Byte order of `u16` and `i16`.

use vstd::prelude::*;
use crate::order::host_is_little;

verus! {

/// `x` with its two bytes in reverse order.
pub open spec fn u16_swap(x: u16) -> u16 {
    (x << 8) | (x >> 8)
}

/// The integer that holds `x` least significant byte first when it is stored.
/// The map is its own inverse, so it also reads such an integer back.
pub open spec fn u16_to_le(x: u16) -> u16 {
    if host_is_little() {
        x
    } else {
        u16_swap(x)
    }
}

/// The integer that holds `x` most significant byte first when it is stored.
/// The map is its own inverse, so it also reads such an integer back.
pub open spec fn u16_to_be(x: u16) -> u16 {
    if host_is_little() {
        u16_swap(x)
    } else {
        x
    }
}

/// The bytes of `x`, least significant first.
pub open spec fn u16_le_bytes(x: u16) -> Seq<u8> {
    seq![x as u8, (x >> 8) as u8]
}

/// The bytes of `x`, most significant first.
pub open spec fn u16_be_bytes(x: u16) -> Seq<u8> {
    seq![(x >> 8) as u8, x as u8]
}

/// The bytes that a stored `x` occupies, lowest address first.
pub open spec fn u16_stored_bytes(x: u16) -> Seq<u8> {
    if host_is_little() {
        u16_le_bytes(x)
    } else {
        u16_be_bytes(x)
    }
}

/// Trusted: `u16::to_le` returns its argument on a little-endian machine and the
/// argument with its bytes reversed on a big-endian one.
pub assume_specification[ u16::to_le ](x: u16) -> (r: u16)
    ensures
        r == u16_to_le(x),
;

/// Trusted: `u16::from_le` is the same map as `u16::to_le`.
pub assume_specification[ u16::from_le ](x: u16) -> (r: u16)
    ensures
        r == u16_to_le(x),
;

/// Trusted: `u16::to_be` returns its argument with its bytes reversed on a
/// little-endian machine and the argument itself on a big-endian one.
pub assume_specification[ u16::to_be ](x: u16) -> (r: u16)
    ensures
        r == u16_to_be(x),
;

/// Trusted: `u16::from_be` is the same map as `u16::to_be`.
pub assume_specification[ u16::from_be ](x: u16) -> (r: u16)
    ensures
        r == u16_to_be(x),
;

/// Reversing the bytes twice gives the value back; reversing commutes with the
/// bitwise operations and moves each byte to the mirrored place.
pub proof fn lemma_u16_swap(x: u16, y: u16)
    by (bit_vector)
    ensures
        u16_swap(u16_swap(x)) == x,
        u16_swap(x & y) == u16_swap(x) & u16_swap(y),
        u16_swap(x | y) == u16_swap(x) | u16_swap(y),
        u16_swap(x ^ y) == u16_swap(x) ^ u16_swap(y),
        u16_swap(!x) == !u16_swap(x),
        u16_swap(x) as u8 == (x >> 8) as u8,
        (u16_swap(x) >> 8) as u8 == x as u8,
{
}

/// What is stored in little-endian order reads back unchanged, bitwise
/// operations may be done on the stored form, and the stored bytes are those of
/// the value, least significant first.
pub proof fn lemma_u16_to_le(x: u16, y: u16)
    ensures
        u16_to_le(u16_to_le(x)) == x,
        u16_to_le(x & y) == u16_to_le(x) & u16_to_le(y),
        u16_to_le(x | y) == u16_to_le(x) | u16_to_le(y),
        u16_to_le(x ^ y) == u16_to_le(x) ^ u16_to_le(y),
        u16_to_le(!x) == !u16_to_le(x),
        u16_stored_bytes(u16_to_le(x)) == u16_le_bytes(x),
{
    lemma_u16_swap(x, y);
}

/// What is stored in big-endian order reads back unchanged, bitwise operations
/// may be done on the stored form, and the stored bytes are those of the value,
/// most significant first.
pub proof fn lemma_u16_to_be(x: u16, y: u16)
    ensures
        u16_to_be(u16_to_be(x)) == x,
        u16_to_be(x & y) == u16_to_be(x) & u16_to_be(y),
        u16_to_be(x | y) == u16_to_be(x) | u16_to_be(y),
        u16_to_be(x ^ y) == u16_to_be(x) ^ u16_to_be(y),
        u16_to_be(!x) == !u16_to_be(x),
        u16_stored_bytes(u16_to_be(x)) == u16_be_bytes(x),
{
    lemma_u16_swap(x, y);
}

/// `x` with its two bytes in reverse order: the bytes of a signed integer are
/// those of the unsigned integer with the same bits.
pub open spec fn i16_swap(x: i16) -> i16 {
    u16_swap(x as u16) as i16
}

/// The integer that holds `x` least significant byte first when it is stored.
/// The map is its own inverse, so it also reads such an integer back.
pub open spec fn i16_to_le(x: i16) -> i16 {
    if host_is_little() {
        x
    } else {
        i16_swap(x)
    }
}

/// The integer that holds `x` most significant byte first when it is stored.
/// The map is its own inverse, so it also reads such an integer back.
pub open spec fn i16_to_be(x: i16) -> i16 {
    if host_is_little() {
        i16_swap(x)
    } else {
        x
    }
}

/// The bytes of `x` in two's complement, least significant first.
pub open spec fn i16_le_bytes(x: i16) -> Seq<u8> {
    u16_le_bytes(x as u16)
}

/// The bytes of `x` in two's complement, most significant first.
pub open spec fn i16_be_bytes(x: i16) -> Seq<u8> {
    u16_be_bytes(x as u16)
}

/// The bytes that a stored `x` occupies, lowest address first.
pub open spec fn i16_stored_bytes(x: i16) -> Seq<u8> {
    u16_stored_bytes(x as u16)
}

/// Trusted: `i16::to_le` returns its argument on a little-endian machine and the
/// argument with its bytes reversed on a big-endian one.
pub assume_specification[ i16::to_le ](x: i16) -> (r: i16)
    ensures
        r == i16_to_le(x),
;

/// Trusted: `i16::from_le` is the same map as `i16::to_le`.
pub assume_specification[ i16::from_le ](x: i16) -> (r: i16)
    ensures
        r == i16_to_le(x),
;

/// Trusted: `i16::to_be` returns its argument with its bytes reversed on a
/// little-endian machine and the argument itself on a big-endian one.
pub assume_specification[ i16::to_be ](x: i16) -> (r: i16)
    ensures
        r == i16_to_be(x),
;

/// Trusted: `i16::from_be` is the same map as `i16::to_be`.
pub assume_specification[ i16::from_be ](x: i16) -> (r: i16)
    ensures
        r == i16_to_be(x),
;

/// Reversing the bytes twice gives the value back; reversing commutes with the
/// bitwise operations and with reading the bits as unsigned.
pub proof fn lemma_i16_swap(x: i16, y: i16)
    by (bit_vector)
    ensures
        i16_swap(i16_swap(x)) == x,
        i16_swap(x & y) == i16_swap(x) & i16_swap(y),
        i16_swap(x | y) == i16_swap(x) | i16_swap(y),
        i16_swap(x ^ y) == i16_swap(x) ^ i16_swap(y),
        i16_swap(!x) == !i16_swap(x),
        i16_swap(x) as u16 == u16_swap(x as u16),
{
}

/// What is stored in little-endian order reads back unchanged, bitwise
/// operations may be done on the stored form, and the stored bytes are those of
/// the value, least significant first.
pub proof fn lemma_i16_to_le(x: i16, y: i16)
    ensures
        i16_to_le(i16_to_le(x)) == x,
        i16_to_le(x & y) == i16_to_le(x) & i16_to_le(y),
        i16_to_le(x | y) == i16_to_le(x) | i16_to_le(y),
        i16_to_le(x ^ y) == i16_to_le(x) ^ i16_to_le(y),
        i16_to_le(!x) == !i16_to_le(x),
        i16_stored_bytes(i16_to_le(x)) == i16_le_bytes(x),
{
    lemma_i16_swap(x, y);
    lemma_u16_to_le(x as u16, y as u16);
}

/// What is stored in big-endian order reads back unchanged, bitwise operations
/// may be done on the stored form, and the stored bytes are those of the value,
/// most significant first.
pub proof fn lemma_i16_to_be(x: i16, y: i16)
    ensures
        i16_to_be(i16_to_be(x)) == x,
        i16_to_be(x & y) == i16_to_be(x) & i16_to_be(y),
        i16_to_be(x | y) == i16_to_be(x) | i16_to_be(y),
        i16_to_be(x ^ y) == i16_to_be(x) ^ i16_to_be(y),
        i16_to_be(!x) == !i16_to_be(x),
        i16_stored_bytes(i16_to_be(x)) == i16_be_bytes(x),
{
    lemma_i16_swap(x, y);
    lemma_u16_to_be(x as u16, y as u16);
}

} // verus!
