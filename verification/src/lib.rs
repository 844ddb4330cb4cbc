//! Building blocks for code that talks to hardware and to wire formats.
//!
//! `endian` holds integers that keep a fixed byte order in memory, so that a
//! structure made of them can be copied to a register block, a packet or a
//! file as it is. `volatile` holds a cell that is read and replaced as a
//! whole, and a 64-bit address spread over two 32-bit cells.
//!
//! `order` and `native` state what the contracts of `endian` rest on: how the
//! byte order of the machine relates a value to the integer that is stored for
//! it, and how the machine divides signed integers.

pub mod endian;
pub mod native;
pub mod order;
pub mod volatile;
