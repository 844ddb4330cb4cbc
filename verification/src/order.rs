//! Byte order of the native integers.
//!
//! A multi-byte integer occupies consecutive addresses, and the machine decides
//! whether the least or the most significant byte comes first. This module says,
//! for each native integer type, what reversing its bytes means, which integer
//! has to be stored so that memory holds a value in a chosen byte order, and
//! which bytes a stored integer occupies.

use vstd::prelude::*;

pub mod bits16;
pub mod bits32;
pub mod bits64;
pub mod pointer;

verus! {

/// Whether the machine that runs the code stores the least significant byte of
/// an integer at the lowest address.
pub open spec fn host_is_little() -> bool {
    vstd::endian::endianness() is Little
}

} // verus!
