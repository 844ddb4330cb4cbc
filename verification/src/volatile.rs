//! A cell that holds one value, and a 64-bit address kept in two 32-bit cells.
//!
//! The cell here is plain memory that the program owns: it holds what was
//! last written to it, a read copies the value out, and a write takes
//! exclusive access. The contracts say what each cell holds after every
//! operation, and so what an address reads back as after it was set.
//!
//! A register pair of a device has the same layout and the same arithmetic,
//! but its accesses must be volatile and its contents may change without a
//! write. Such a cell is built outside this library, on `join` and `split`.

use vstd::prelude::*;

verus! {

/// One value, read by copy and replaced as a whole.
///
/// No reference into the cell is ever handed out. The cell owns its value.
pub struct Volatile<T> {
    value: T,
}

impl<T> Volatile<T> {
    /// What the cell holds.
    pub closed spec fn held(&self) -> T {
        self.value
    }

    /// A cell that holds `value`.
    pub fn new(value: T) -> (cell: Self)
        ensures
            cell.held() == value,
    {
        Volatile { value }
    }

    /// Replaces the whole value.
    pub fn write(&mut self, value: T)
        ensures
            final(self).held() == value,
    {
        self.value = value;
    }
}

impl<T: Copy> Volatile<T> {
    /// Copies the whole value out.
    pub fn read(&self) -> (value: T)
        ensures
            value == self.held(),
    {
        self.value
    }
}

/// The address whose upper 32 bits are `high` and whose lower 32 bits are `low`.
pub open spec fn joined(high: u32, low: u32) -> u64 {
    ((high as u64) << 32) | (low as u64)
}

/// The upper 32 bits of `address`.
pub open spec fn high_half(address: u64) -> u32 {
    (address >> 32) as u32
}

/// The lower 32 bits of `address`.
pub open spec fn low_half(address: u64) -> u32 {
    address as u32
}

/// Puts an address together from its two halves.
pub fn join(high: u32, low: u32) -> (address: u64)
    ensures
        address == joined(high, low),
{
    ((high as u64) << 32) | (low as u64)
}

/// Cuts an address into its two halves, the upper one first.
pub fn split(address: u64) -> (halves: (u32, u32))
    ensures
        halves.0 == high_half(address),
        halves.1 == low_half(address),
{
    ((address >> 32) as u32, address as u32)
}

/// Cutting an address and joining the halves gives the address back, joining
/// two halves and cutting the result gives the halves back, and the upper half
/// counts in units of 2^32.
pub proof fn lemma_halves(address: u64, high: u32, low: u32)
    by (bit_vector)
    ensures
        joined(high_half(address), low_half(address)) == address,
        high_half(joined(high, low)) == high,
        low_half(joined(high, low)) == low,
        joined(high, low) == high * 0x1_0000_0000 + low,
{
}

/// A 64-bit address held in two 32-bit cells, `low` before `high`, as devices
/// expose an address in a pair of 32-bit registers.
///
/// Each half is a native `u32`. `T` is the type of what the address points to;
/// it is a tag only.
pub struct VolatileSplitPtr<T> {
    low: Volatile<u32>,
    high: Volatile<u32>,
    marker: core::marker::PhantomData<T>,
}

impl<T> VolatileSplitPtr<T> {
    /// What the cell of the lower half holds.
    pub closed spec fn low_held(&self) -> u32 {
        self.low.held()
    }

    /// What the cell of the upper half holds.
    pub closed spec fn high_held(&self) -> u32 {
        self.high.held()
    }

    /// The address that the two cells hold between them.
    pub open spec fn address(&self) -> u64 {
        joined(self.high_held(), self.low_held())
    }

    /// A pair of cells that holds the two halves given.
    pub fn new(high: u32, low: u32) -> (pair: Self)
        ensures
            pair.high_held() == high,
            pair.low_held() == low,
            pair.address() == joined(high, low),
    {
        VolatileSplitPtr {
            low: Volatile::new(low),
            high: Volatile::new(high),
            marker: core::marker::PhantomData,
        }
    }

    /// Reads `low`, then `high`, and joins the two. Nothing says that the
    /// address may be dereferenced.
    pub fn get(&self) -> (address: u64)
        ensures
            address == joined(self.high_held(), self.low_held()),
            address == self.address(),
    {
        let low: u32 = self.low.read();
        let high: u32 = self.high.read();
        join(high, low)
    }

    /// Cuts `address` into its halves and writes `low`, then `high`. Every
    /// address is taken, and `get` gives it back.
    pub fn set(&mut self, address: u64)
        ensures
            final(self).high_held() == high_half(address),
            final(self).low_held() == low_half(address),
            final(self).address() == address,
    {
        proof {
            lemma_halves(address, 0, 0);
        }
        let halves = split(address);
        self.set_parts(halves.0, halves.1);
    }

    /// Writes `low`, then `high`.
    pub fn set_parts(&mut self, high: u32, low: u32)
        ensures
            final(self).high_held() == high,
            final(self).low_held() == low,
            final(self).address() == joined(high, low),
    {
        self.low.write(low);
        self.high.write(high);
    }
}

} // verus!
