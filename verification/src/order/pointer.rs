//! Byte order of `usize` and `isize`.
//!
//! A pointer-width integer has the bytes of the fixed-width integer of the same
//! size, so everything here is stated through `u32` and `u64`, and `i32` and
//! `i64`.

use vstd::prelude::*;
use crate::order::host_is_little;
use crate::order::bits32::{
    i32_be_bytes, i32_le_bytes, i32_stored_bytes, i32_swap, lemma_i32_to_be, lemma_i32_to_le,
    lemma_u32_to_be, lemma_u32_to_le, u32_be_bytes, u32_le_bytes, u32_stored_bytes, u32_swap,
};
use crate::order::bits64::{
    i64_be_bytes, i64_le_bytes, i64_stored_bytes, i64_swap, lemma_i64_to_be, lemma_i64_to_le,
    lemma_u64_to_be, lemma_u64_to_le, u64_be_bytes, u64_le_bytes, u64_stored_bytes, u64_swap,
};

verus! {

/// `x` with its bytes in reverse order.
pub open spec fn usize_swap(x: usize) -> usize {
    if usize::BITS == 64 {
        u64_swap(x as u64) as usize
    } else {
        u32_swap(x as u32) as usize
    }
}

/// The integer that holds `x` least significant byte first when it is stored.
/// The map is its own inverse, so it also reads such an integer back.
pub open spec fn usize_to_le(x: usize) -> usize {
    if host_is_little() {
        x
    } else {
        usize_swap(x)
    }
}

/// The integer that holds `x` most significant byte first when it is stored.
/// The map is its own inverse, so it also reads such an integer back.
pub open spec fn usize_to_be(x: usize) -> usize {
    if host_is_little() {
        usize_swap(x)
    } else {
        x
    }
}

/// The bytes of `x`, least significant first.
pub open spec fn usize_le_bytes(x: usize) -> Seq<u8> {
    if usize::BITS == 64 {
        u64_le_bytes(x as u64)
    } else {
        u32_le_bytes(x as u32)
    }
}

/// The bytes of `x`, most significant first.
pub open spec fn usize_be_bytes(x: usize) -> Seq<u8> {
    if usize::BITS == 64 {
        u64_be_bytes(x as u64)
    } else {
        u32_be_bytes(x as u32)
    }
}

/// The bytes that a stored `x` occupies, lowest address first.
pub open spec fn usize_stored_bytes(x: usize) -> Seq<u8> {
    if usize::BITS == 64 {
        u64_stored_bytes(x as u64)
    } else {
        u32_stored_bytes(x as u32)
    }
}

/// Trusted: `usize::to_le` returns its argument on a little-endian machine and the
/// argument with its bytes reversed on a big-endian one.
pub assume_specification[ usize::to_le ](x: usize) -> (r: usize)
    ensures
        r == usize_to_le(x),
;

/// Trusted: `usize::from_le` is the same map as `usize::to_le`.
pub assume_specification[ usize::from_le ](x: usize) -> (r: usize)
    ensures
        r == usize_to_le(x),
;

/// Trusted: `usize::to_be` returns its argument with its bytes reversed on a
/// little-endian machine and the argument itself on a big-endian one.
pub assume_specification[ usize::to_be ](x: usize) -> (r: usize)
    ensures
        r == usize_to_be(x),
;

/// Trusted: `usize::from_be` is the same map as `usize::to_be`.
pub assume_specification[ usize::from_be ](x: usize) -> (r: usize)
    ensures
        r == usize_to_be(x),
;

/// What is stored in little-endian order reads back unchanged, bitwise
/// operations may be done on the stored form, and the stored bytes are those of
/// the value, least significant first.
pub proof fn lemma_usize_to_le(x: usize, y: usize)
    ensures
        usize_to_le(usize_to_le(x)) == x,
        usize_to_le(x & y) == usize_to_le(x) & usize_to_le(y),
        usize_to_le(x | y) == usize_to_le(x) | usize_to_le(y),
        usize_to_le(x ^ y) == usize_to_le(x) ^ usize_to_le(y),
        usize_to_le(!x) == !usize_to_le(x),
        usize_stored_bytes(usize_to_le(x)) == usize_le_bytes(x),
{
    if usize::BITS == 64 {
        lemma_u64_to_le(x as u64, y as u64);
    } else {
        lemma_u32_to_le(x as u32, y as u32);
    }
}

/// What is stored in big-endian order reads back unchanged, bitwise operations
/// may be done on the stored form, and the stored bytes are those of the value,
/// most significant first.
pub proof fn lemma_usize_to_be(x: usize, y: usize)
    ensures
        usize_to_be(usize_to_be(x)) == x,
        usize_to_be(x & y) == usize_to_be(x) & usize_to_be(y),
        usize_to_be(x | y) == usize_to_be(x) | usize_to_be(y),
        usize_to_be(x ^ y) == usize_to_be(x) ^ usize_to_be(y),
        usize_to_be(!x) == !usize_to_be(x),
        usize_stored_bytes(usize_to_be(x)) == usize_be_bytes(x),
{
    if usize::BITS == 64 {
        lemma_u64_to_be(x as u64, y as u64);
    } else {
        lemma_u32_to_be(x as u32, y as u32);
    }
}

/// `x` with its bytes in reverse order.
pub open spec fn isize_swap(x: isize) -> isize {
    if usize::BITS == 64 {
        i64_swap(x as i64) as isize
    } else {
        i32_swap(x as i32) as isize
    }
}

/// The integer that holds `x` least significant byte first when it is stored.
/// The map is its own inverse, so it also reads such an integer back.
pub open spec fn isize_to_le(x: isize) -> isize {
    if host_is_little() {
        x
    } else {
        isize_swap(x)
    }
}

/// The integer that holds `x` most significant byte first when it is stored.
/// The map is its own inverse, so it also reads such an integer back.
pub open spec fn isize_to_be(x: isize) -> isize {
    if host_is_little() {
        isize_swap(x)
    } else {
        x
    }
}

/// The bytes of `x` in two's complement, least significant first.
pub open spec fn isize_le_bytes(x: isize) -> Seq<u8> {
    if usize::BITS == 64 {
        i64_le_bytes(x as i64)
    } else {
        i32_le_bytes(x as i32)
    }
}

/// The bytes of `x` in two's complement, most significant first.
pub open spec fn isize_be_bytes(x: isize) -> Seq<u8> {
    if usize::BITS == 64 {
        i64_be_bytes(x as i64)
    } else {
        i32_be_bytes(x as i32)
    }
}

/// The bytes that a stored `x` occupies, lowest address first.
pub open spec fn isize_stored_bytes(x: isize) -> Seq<u8> {
    if usize::BITS == 64 {
        i64_stored_bytes(x as i64)
    } else {
        i32_stored_bytes(x as i32)
    }
}

/// Trusted: `isize::to_le` returns its argument on a little-endian machine and the
/// argument with its bytes reversed on a big-endian one.
pub assume_specification[ isize::to_le ](x: isize) -> (r: isize)
    ensures
        r == isize_to_le(x),
;

/// Trusted: `isize::from_le` is the same map as `isize::to_le`.
pub assume_specification[ isize::from_le ](x: isize) -> (r: isize)
    ensures
        r == isize_to_le(x),
;

/// Trusted: `isize::to_be` returns its argument with its bytes reversed on a
/// little-endian machine and the argument itself on a big-endian one.
pub assume_specification[ isize::to_be ](x: isize) -> (r: isize)
    ensures
        r == isize_to_be(x),
;

/// Trusted: `isize::from_be` is the same map as `isize::to_be`.
pub assume_specification[ isize::from_be ](x: isize) -> (r: isize)
    ensures
        r == isize_to_be(x),
;

/// Complementing the bits commutes with changing between `isize` and the
/// fixed-width signed integers.
proof fn lemma_isize_not(x: isize, v: i64, w: i32)
    by (bit_vector)
    ensures
        (!x) as i64 == !(x as i64),
        (!x) as i32 == !(x as i32),
        (!v) as isize == !(v as isize),
        (!w) as isize == !(w as isize),
{
}

/// What is stored in little-endian order reads back unchanged, bitwise
/// operations may be done on the stored form, and the stored bytes are those of
/// the value, least significant first.
pub proof fn lemma_isize_to_le(x: isize, y: isize)
    ensures
        isize_to_le(isize_to_le(x)) == x,
        isize_to_le(x & y) == isize_to_le(x) & isize_to_le(y),
        isize_to_le(x | y) == isize_to_le(x) | isize_to_le(y),
        isize_to_le(x ^ y) == isize_to_le(x) ^ isize_to_le(y),
        isize_to_le(!x) == !isize_to_le(x),
        isize_stored_bytes(isize_to_le(x)) == isize_le_bytes(x),
{
    lemma_isize_not(x, i64_swap(x as i64), i32_swap(x as i32));
    if usize::BITS == 64 {
        lemma_i64_to_le(x as i64, y as i64);
    } else {
        lemma_i32_to_le(x as i32, y as i32);
    }
}

/// What is stored in big-endian order reads back unchanged, bitwise operations
/// may be done on the stored form, and the stored bytes are those of the value,
/// most significant first.
pub proof fn lemma_isize_to_be(x: isize, y: isize)
    ensures
        isize_to_be(isize_to_be(x)) == x,
        isize_to_be(x & y) == isize_to_be(x) & isize_to_be(y),
        isize_to_be(x | y) == isize_to_be(x) | isize_to_be(y),
        isize_to_be(x ^ y) == isize_to_be(x) ^ isize_to_be(y),
        isize_to_be(!x) == !isize_to_be(x),
        isize_stored_bytes(isize_to_be(x)) == isize_be_bytes(x),
{
    lemma_isize_not(x, i64_swap(x as i64), i32_swap(x as i32));
    if usize::BITS == 64 {
        lemma_i64_to_be(x as i64, y as i64);
    } else {
        lemma_i32_to_be(x as i32, y as i32);
    }
}

} // verus!
