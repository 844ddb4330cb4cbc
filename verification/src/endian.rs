//! Integers kept in a fixed byte order.
//!
//! Each type wraps one native integer and keeps it in memory in little-endian or
//! big-endian order, whatever the machine uses. Values go in and come out in
//! native order; arithmetic, comparison and conversion go by the value.
//!
//! Addition, subtraction, multiplication and negation wrap around as the
//! native `wrapping_` methods do, and a shift uses its amount modulo the width.
//! Division and remainder have the native operators' precondition: the divisor
//! is not zero, and a signed least value is not divided by minus one. Every
//! operator takes two wrappers, a wrapper and a native integer, or a native
//! integer and a wrapper, and has its assigning form.

pub mod little_u16;
pub mod little_u32;
pub mod little_u64;
pub mod little_usize;
pub mod little_i16;
pub mod little_i32;
pub mod little_i64;
pub mod little_isize;
pub mod big_u16;
pub mod big_u32;
pub mod big_u64;
pub mod big_usize;
pub mod big_i16;
pub mod big_i32;
pub mod big_i64;
pub mod big_isize;

pub use little_u16::{LittleEndianU16, u16_le};
pub use little_u32::{LittleEndianU32, u32_le};
pub use little_u64::{LittleEndianU64, u64_le};
pub use little_usize::{LittleEndianUsize, usize_le};
pub use little_i16::{LittleEndianI16, i16_le};
pub use little_i32::{LittleEndianI32, i32_le};
pub use little_i64::{LittleEndianI64, i64_le};
pub use little_isize::{LittleEndianIsize, isize_le};
pub use big_u16::{BigEndianU16, u16_be};
pub use big_u32::{BigEndianU32, u32_be};
pub use big_u64::{BigEndianU64, u64_be};
pub use big_usize::{BigEndianUsize, usize_be};
pub use big_i16::{BigEndianI16, i16_be};
pub use big_i32::{BigEndianI32, i32_be};
pub use big_i64::{BigEndianI64, i64_be};
pub use big_isize::{BigEndianIsize, isize_be};
