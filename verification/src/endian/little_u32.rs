//! `LittleEndianU32`: an unsigned 32-bit integer kept in little-endian byte order.

use vstd::prelude::*;
use vstd::std_specs::cmp::{PartialEqSpec, PartialOrdSpec};
use vstd::std_specs::ops::{
    AddSpec, BitAndSpec, BitOrSpec, BitXorSpec, DivSpec, MulSpec, NotSpec, RemSpec, ShlSpec,
    ShrSpec, SubSpec,
};
use vstd::wrapping::u32_specs::{
    wrapping_add, wrapping_mul, wrapping_shl, wrapping_shr, wrapping_sub,
};
use core::cmp::Ordering;
use core::ops::{
    Add, AddAssign, BitAnd, BitAndAssign, BitOr, BitOrAssign, BitXor, BitXorAssign, Div,
    DivAssign, Mul, MulAssign, Not, Rem, RemAssign, Shl, ShlAssign, Shr, ShrAssign, Sub,
    SubAssign,
};
use crate::order::bits32::{lemma_u32_to_le, u32_le_bytes, u32_stored_bytes, u32_to_le};

verus! {

/// An unsigned 32-bit integer whose bytes lie in memory least significant
/// first, whatever the byte order of the machine.
///
/// `raw` is the stored integer: read as a native `u32` it is the value on a
/// little-endian machine and the value with its bytes reversed on the other kind.
/// Every `u32` is the stored form of exactly one value. The view is the value.
#[derive(Clone, Copy, Hash)]
pub struct LittleEndianU32 {
    pub raw: u32,
}

#[allow(non_camel_case_types)]
pub type u32_le = LittleEndianU32;

impl View for LittleEndianU32 {
    type V = u32;

    open spec fn view(&self) -> u32 {
        u32_to_le(self.raw)
    }
}

impl LittleEndianU32 {
    /// The number of bits of a value.
    pub const BITS: u32 = 32;

    /// The wrapper that holds `value`.
    pub open spec fn of(value: u32) -> Self {
        LittleEndianU32 { raw: u32_to_le(value) }
    }

    /// The bytes that the wrapper occupies, lowest address first.
    pub open spec fn stored_bytes(self) -> Seq<u8> {
        u32_stored_bytes(self.raw)
    }

    /// Stores `value`, given in native byte order.
    pub fn new(value: u32) -> (r: Self)
        ensures
            r == Self::of(value),
            r@ == value,
    {
        proof {
            lemma_u32_to_le(value, value);
        }
        LittleEndianU32 { raw: value.to_le() }
    }

    /// The value, in native byte order.
    pub fn get(self) -> (value: u32)
        ensures
            value == self@,
    {
        u32::from_le(self.raw)
    }

    /// Replaces the stored value by `value`, given in native byte order.
    pub fn set(&mut self, value: u32)
        ensures
            *final(self) == Self::of(value),
            final(self)@ == value,
    {
        *self = Self::new(value);
    }

    /// The wrapper of the least value.
    pub fn min_value() -> (r: Self)
        ensures
            r == Self::of(u32::MIN),
            r@ == u32::MIN,
    {
        Self::new(u32::MIN)
    }

    /// The wrapper of the greatest value.
    pub fn max_value() -> (r: Self)
        ensures
            r == Self::of(u32::MAX),
            r@ == u32::MAX,
    {
        Self::new(u32::MAX)
    }

    /// A value that is stored reads back unchanged, and a wrapper is the one
    /// that stores its own value: the two forms determine each other.
    pub proof fn round_trip(value: u32, stored: Self)
        ensures
            Self::of(value)@ == value,
            Self::of(stored@) == stored,
    {
        lemma_u32_to_le(value, stored.raw);
        lemma_u32_to_le(stored.raw, value);
    }

    /// The wrapper of `value` occupies the bytes of `value`, least significant
    /// first, on either kind of machine.
    pub proof fn byte_order(value: u32)
        ensures
            Self::of(value).stored_bytes() == u32_le_bytes(value),
    {
        lemma_u32_to_le(value, value);
    }

    /// Every operator on two wrappers gives the wrapper whose value is what the
    /// native operator gives on their values, with the native wraparound.
    /// Division and remainder are left out for a zero divisor.
    pub proof fn arithmetic_is_native(a: u32, b: u32)
        ensures
            Self::of(a).add_spec(Self::of(b))@ == wrapping_add(a, b),
            Self::of(a).sub_spec(Self::of(b))@ == wrapping_sub(a, b),
            Self::of(a).mul_spec(Self::of(b))@ == wrapping_mul(a, b),
            b != 0 ==> Self::of(a).div_spec(Self::of(b))@ == a / b,
            b != 0 ==> Self::of(a).rem_spec(Self::of(b))@ == a % b,
            Self::of(a).bitand_spec(Self::of(b))@ == a & b,
            Self::of(a).bitor_spec(Self::of(b))@ == a | b,
            Self::of(a).bitxor_spec(Self::of(b))@ == a ^ b,
            Self::of(a).shl_spec(Self::of(b))@ == wrapping_shl(a, b),
            Self::of(a).shr_spec(Self::of(b))@ == wrapping_shr(a, b),
            Self::of(a).not_spec()@ == !a,
    {
        Self::round_trip(a, Self::of(b));
        Self::round_trip(b, Self::of(a));
        Self::round_trip(wrapping_add(a, b), Self::of(a));
        Self::round_trip(wrapping_sub(a, b), Self::of(a));
        Self::round_trip(wrapping_mul(a, b), Self::of(a));
        Self::round_trip(a / b, Self::of(a));
        Self::round_trip(a % b, Self::of(a));
        Self::round_trip(a & b, Self::of(a));
        Self::round_trip(a | b, Self::of(a));
        Self::round_trip(a ^ b, Self::of(a));
        Self::round_trip(wrapping_shl(a, b), Self::of(a));
        Self::round_trip(wrapping_shr(a, b), Self::of(a));
        Self::round_trip(!a, Self::of(a));
    }

    /// Two wrappers compare as their values do, whatever their stored forms.
    pub proof fn comparison_is_native(a: u32, b: u32)
        ensures
            Self::of(a).eq_spec(&Self::of(b)) == (a == b),
            Self::of(a) == Self::of(b) <==> a == b,
            Self::of(a).partial_cmp_spec(&Self::of(b)) == a.partial_cmp_spec(&b),
    {
        Self::round_trip(a, Self::of(b));
        Self::round_trip(b, Self::of(a));
    }
}

impl Default for LittleEndianU32 {
    /// The wrapper of zero.
    fn default() -> (r: Self)
        ensures
            r == Self::of(0),
            r@ == 0,
    {
        Self::new(0)
    }
}

impl From<u32> for LittleEndianU32 {
    fn from(value: u32) -> (r: Self)
        ensures
            r@ == value,
    {
        Self::new(value)
    }
}

impl vstd::std_specs::convert::FromSpecImpl<u32> for LittleEndianU32 {
    open spec fn obeys_from_spec() -> bool {
        true
    }

    open spec fn from_spec(value: u32) -> Self {
        Self::of(value)
    }
}

impl From<LittleEndianU32> for u32 {
    fn from(value: LittleEndianU32) -> (r: u32) {
        value.get()
    }
}

impl vstd::std_specs::convert::FromSpecImpl<LittleEndianU32> for u32 {
    open spec fn obeys_from_spec() -> bool {
        true
    }

    open spec fn from_spec(value: LittleEndianU32) -> u32 {
        value@
    }
}

// Equality and order go by the values, never by the stored integers.

impl PartialEq for LittleEndianU32 {
    fn eq(&self, other: &Self) -> (r: bool) {
        self.get() == other.get()
    }
}

impl vstd::std_specs::cmp::PartialEqSpecImpl for LittleEndianU32 {
    open spec fn obeys_eq_spec() -> bool {
        true
    }

    open spec fn eq_spec(&self, other: &Self) -> bool {
        self@ == other@
    }
}

impl Eq for LittleEndianU32 {
}

impl PartialEq<u32> for LittleEndianU32 {
    fn eq(&self, other: &u32) -> (r: bool) {
        self.get() == *other
    }
}

impl vstd::std_specs::cmp::PartialEqSpecImpl<u32> for LittleEndianU32 {
    open spec fn obeys_eq_spec() -> bool {
        true
    }

    open spec fn eq_spec(&self, other: &u32) -> bool {
        self@ == *other
    }
}

impl PartialEq<LittleEndianU32> for u32 {
    fn eq(&self, other: &LittleEndianU32) -> (r: bool) {
        *self == other.get()
    }
}

impl vstd::std_specs::cmp::PartialEqSpecImpl<LittleEndianU32> for u32 {
    open spec fn obeys_eq_spec() -> bool {
        true
    }

    open spec fn eq_spec(&self, other: &LittleEndianU32) -> bool {
        *self == other@
    }
}

impl PartialOrd for LittleEndianU32 {
    fn partial_cmp(&self, other: &Self) -> (r: Option<Ordering>) {
        let a: u32 = self.get();
        let b: u32 = other.get();
        if a < b {
            Some(Ordering::Less)
        } else if a > b {
            Some(Ordering::Greater)
        } else {
            Some(Ordering::Equal)
        }
    }
}

impl vstd::std_specs::cmp::PartialOrdSpecImpl for LittleEndianU32 {
    open spec fn obeys_partial_cmp_spec() -> bool {
        true
    }

    open spec fn partial_cmp_spec(&self, other: &Self) -> Option<Ordering> {
        if self@ < other@ {
            Some(Ordering::Less)
        } else if self@ > other@ {
            Some(Ordering::Greater)
        } else {
            Some(Ordering::Equal)
        }
    }
}

impl PartialOrd<u32> for LittleEndianU32 {
    fn partial_cmp(&self, other: &u32) -> (r: Option<Ordering>) {
        let a: u32 = self.get();
        let b: u32 = *other;
        if a < b {
            Some(Ordering::Less)
        } else if a > b {
            Some(Ordering::Greater)
        } else {
            Some(Ordering::Equal)
        }
    }
}

impl vstd::std_specs::cmp::PartialOrdSpecImpl<u32> for LittleEndianU32 {
    open spec fn obeys_partial_cmp_spec() -> bool {
        true
    }

    open spec fn partial_cmp_spec(&self, other: &u32) -> Option<Ordering> {
        if self@ < *other {
            Some(Ordering::Less)
        } else if self@ > *other {
            Some(Ordering::Greater)
        } else {
            Some(Ordering::Equal)
        }
    }
}

impl PartialOrd<LittleEndianU32> for u32 {
    fn partial_cmp(&self, other: &LittleEndianU32) -> (r: Option<Ordering>) {
        let a: u32 = *self;
        let b: u32 = other.get();
        if a < b {
            Some(Ordering::Less)
        } else if a > b {
            Some(Ordering::Greater)
        } else {
            Some(Ordering::Equal)
        }
    }
}

impl vstd::std_specs::cmp::PartialOrdSpecImpl<LittleEndianU32> for u32 {
    open spec fn obeys_partial_cmp_spec() -> bool {
        true
    }

    open spec fn partial_cmp_spec(&self, other: &LittleEndianU32) -> Option<Ordering> {
        if *self < other@ {
            Some(Ordering::Less)
        } else if *self > other@ {
            Some(Ordering::Greater)
        } else {
            Some(Ordering::Equal)
        }
    }
}

// Wrapper with wrapper. The arithmetic is done on the values; the bitwise
// operations are done on the stored integers, which gives the same wrapper.

impl Add for LittleEndianU32 {
    type Output = Self;

    fn add(self, rhs: Self) -> (r: Self)
        ensures
            r@ == wrapping_add(self@, rhs@),
    {
        Self::new(self.get().wrapping_add(rhs.get()))
    }
}

impl vstd::std_specs::ops::AddSpecImpl for LittleEndianU32 {
    open spec fn obeys_add_spec() -> bool {
        true
    }

    open spec fn add_req(self, rhs: Self) -> bool {
        true
    }

    open spec fn add_spec(self, rhs: Self) -> Self {
        Self::of(wrapping_add(self@, rhs@))
    }
}

impl Sub for LittleEndianU32 {
    type Output = Self;

    fn sub(self, rhs: Self) -> (r: Self)
        ensures
            r@ == wrapping_sub(self@, rhs@),
    {
        Self::new(self.get().wrapping_sub(rhs.get()))
    }
}

impl vstd::std_specs::ops::SubSpecImpl for LittleEndianU32 {
    open spec fn obeys_sub_spec() -> bool {
        true
    }

    open spec fn sub_req(self, rhs: Self) -> bool {
        true
    }

    open spec fn sub_spec(self, rhs: Self) -> Self {
        Self::of(wrapping_sub(self@, rhs@))
    }
}

impl Mul for LittleEndianU32 {
    type Output = Self;

    fn mul(self, rhs: Self) -> (r: Self)
        ensures
            r@ == wrapping_mul(self@, rhs@),
    {
        Self::new(self.get().wrapping_mul(rhs.get()))
    }
}

impl vstd::std_specs::ops::MulSpecImpl for LittleEndianU32 {
    open spec fn obeys_mul_spec() -> bool {
        true
    }

    open spec fn mul_req(self, rhs: Self) -> bool {
        true
    }

    open spec fn mul_spec(self, rhs: Self) -> Self {
        Self::of(wrapping_mul(self@, rhs@))
    }
}

impl Div for LittleEndianU32 {
    type Output = Self;

    fn div(self, rhs: Self) -> (r: Self)
        ensures
            r@ == self@ / rhs@,
    {
        Self::new(self.get() / rhs.get())
    }
}

impl vstd::std_specs::ops::DivSpecImpl for LittleEndianU32 {
    open spec fn obeys_div_spec() -> bool {
        true
    }

    open spec fn div_req(self, rhs: Self) -> bool {
        rhs@ != 0
    }

    open spec fn div_spec(self, rhs: Self) -> Self {
        Self::of(self@ / rhs@)
    }
}

impl Rem for LittleEndianU32 {
    type Output = Self;

    fn rem(self, rhs: Self) -> (r: Self)
        ensures
            r@ == self@ % rhs@,
    {
        Self::new(self.get() % rhs.get())
    }
}

impl vstd::std_specs::ops::RemSpecImpl for LittleEndianU32 {
    open spec fn obeys_rem_spec() -> bool {
        true
    }

    open spec fn rem_req(self, rhs: Self) -> bool {
        rhs@ != 0
    }

    open spec fn rem_spec(self, rhs: Self) -> Self {
        Self::of(self@ % rhs@)
    }
}

impl BitAnd for LittleEndianU32 {
    type Output = Self;

    fn bitand(self, rhs: Self) -> (r: Self)
        ensures
            r@ == self@ & rhs@,
    {
        proof {
            lemma_u32_to_le(self@, rhs@);
            lemma_u32_to_le(self.raw, rhs.raw);
            lemma_u32_to_le(rhs.raw, self.raw);
        }
        LittleEndianU32 { raw: self.raw & rhs.raw }
    }
}

impl vstd::std_specs::ops::BitAndSpecImpl for LittleEndianU32 {
    open spec fn obeys_bitand_spec() -> bool {
        true
    }

    open spec fn bitand_req(self, rhs: Self) -> bool {
        true
    }

    open spec fn bitand_spec(self, rhs: Self) -> Self {
        Self::of(self@ & rhs@)
    }
}

impl BitOr for LittleEndianU32 {
    type Output = Self;

    fn bitor(self, rhs: Self) -> (r: Self)
        ensures
            r@ == self@ | rhs@,
    {
        proof {
            lemma_u32_to_le(self@, rhs@);
            lemma_u32_to_le(self.raw, rhs.raw);
            lemma_u32_to_le(rhs.raw, self.raw);
        }
        LittleEndianU32 { raw: self.raw | rhs.raw }
    }
}

impl vstd::std_specs::ops::BitOrSpecImpl for LittleEndianU32 {
    open spec fn obeys_bitor_spec() -> bool {
        true
    }

    open spec fn bitor_req(self, rhs: Self) -> bool {
        true
    }

    open spec fn bitor_spec(self, rhs: Self) -> Self {
        Self::of(self@ | rhs@)
    }
}

impl BitXor for LittleEndianU32 {
    type Output = Self;

    fn bitxor(self, rhs: Self) -> (r: Self)
        ensures
            r@ == self@ ^ rhs@,
    {
        proof {
            lemma_u32_to_le(self@, rhs@);
            lemma_u32_to_le(self.raw, rhs.raw);
            lemma_u32_to_le(rhs.raw, self.raw);
        }
        LittleEndianU32 { raw: self.raw ^ rhs.raw }
    }
}

impl vstd::std_specs::ops::BitXorSpecImpl for LittleEndianU32 {
    open spec fn obeys_bitxor_spec() -> bool {
        true
    }

    open spec fn bitxor_req(self, rhs: Self) -> bool {
        true
    }

    open spec fn bitxor_spec(self, rhs: Self) -> Self {
        Self::of(self@ ^ rhs@)
    }
}

impl Shl for LittleEndianU32 {
    type Output = Self;

    fn shl(self, rhs: Self) -> (r: Self)
        ensures
            r@ == wrapping_shl(self@, rhs@),
    {
        Self::new(self.get().wrapping_shl(rhs.get()))
    }
}

impl vstd::std_specs::ops::ShlSpecImpl for LittleEndianU32 {
    open spec fn obeys_shl_spec() -> bool {
        true
    }

    open spec fn shl_req(self, rhs: Self) -> bool {
        true
    }

    open spec fn shl_spec(self, rhs: Self) -> Self {
        Self::of(wrapping_shl(self@, rhs@))
    }
}

impl Shr for LittleEndianU32 {
    type Output = Self;

    fn shr(self, rhs: Self) -> (r: Self)
        ensures
            r@ == wrapping_shr(self@, rhs@),
    {
        Self::new(self.get().wrapping_shr(rhs.get()))
    }
}

impl vstd::std_specs::ops::ShrSpecImpl for LittleEndianU32 {
    open spec fn obeys_shr_spec() -> bool {
        true
    }

    open spec fn shr_req(self, rhs: Self) -> bool {
        true
    }

    open spec fn shr_spec(self, rhs: Self) -> Self {
        Self::of(wrapping_shr(self@, rhs@))
    }
}

impl Not for LittleEndianU32 {
    type Output = Self;

    fn not(self) -> (r: Self)
        ensures
            r@ == !self@,
    {
        proof {
            lemma_u32_to_le(self@, self@);
            lemma_u32_to_le(self.raw, self.raw);
        }
        LittleEndianU32 { raw: !self.raw }
    }
}

impl vstd::std_specs::ops::NotSpecImpl for LittleEndianU32 {
    open spec fn obeys_not_spec() -> bool {
        true
    }

    open spec fn not_req(self) -> bool {
        true
    }

    open spec fn not_spec(self) -> Self {
        Self::of(!self@)
    }
}

impl AddAssign for LittleEndianU32 {
    fn add_assign(&mut self, rhs: Self)
        ensures
            *final(self) == Self::of(wrapping_add(old(self)@, rhs@)),
            final(self)@ == wrapping_add(old(self)@, rhs@),
    {
        *self = *self + rhs;
    }
}

impl SubAssign for LittleEndianU32 {
    fn sub_assign(&mut self, rhs: Self)
        ensures
            *final(self) == Self::of(wrapping_sub(old(self)@, rhs@)),
            final(self)@ == wrapping_sub(old(self)@, rhs@),
    {
        *self = *self - rhs;
    }
}

impl MulAssign for LittleEndianU32 {
    fn mul_assign(&mut self, rhs: Self)
        ensures
            *final(self) == Self::of(wrapping_mul(old(self)@, rhs@)),
            final(self)@ == wrapping_mul(old(self)@, rhs@),
    {
        *self = *self * rhs;
    }
}

impl DivAssign for LittleEndianU32 {
    fn div_assign(&mut self, rhs: Self)
        requires
            rhs@ != 0,
        ensures
            *final(self) == Self::of(old(self)@ / rhs@),
            final(self)@ == old(self)@ / rhs@,
    {
        *self = *self / rhs;
    }
}

impl RemAssign for LittleEndianU32 {
    fn rem_assign(&mut self, rhs: Self)
        requires
            rhs@ != 0,
        ensures
            *final(self) == Self::of(old(self)@ % rhs@),
            final(self)@ == old(self)@ % rhs@,
    {
        *self = *self % rhs;
    }
}

impl BitAndAssign for LittleEndianU32 {
    fn bitand_assign(&mut self, rhs: Self)
        ensures
            *final(self) == Self::of(old(self)@ & rhs@),
            final(self)@ == old(self)@ & rhs@,
    {
        *self = *self & rhs;
    }
}

impl BitOrAssign for LittleEndianU32 {
    fn bitor_assign(&mut self, rhs: Self)
        ensures
            *final(self) == Self::of(old(self)@ | rhs@),
            final(self)@ == old(self)@ | rhs@,
    {
        *self = *self | rhs;
    }
}

impl BitXorAssign for LittleEndianU32 {
    fn bitxor_assign(&mut self, rhs: Self)
        ensures
            *final(self) == Self::of(old(self)@ ^ rhs@),
            final(self)@ == old(self)@ ^ rhs@,
    {
        *self = *self ^ rhs;
    }
}

impl ShlAssign for LittleEndianU32 {
    fn shl_assign(&mut self, rhs: Self)
        ensures
            *final(self) == Self::of(wrapping_shl(old(self)@, rhs@)),
            final(self)@ == wrapping_shl(old(self)@, rhs@),
    {
        *self = *self << rhs;
    }
}

impl ShrAssign for LittleEndianU32 {
    fn shr_assign(&mut self, rhs: Self)
        ensures
            *final(self) == Self::of(wrapping_shr(old(self)@, rhs@)),
            final(self)@ == wrapping_shr(old(self)@, rhs@),
    {
        *self = *self >> rhs;
    }
}

// Wrapper with native integer: the result is a wrapper.

impl Add<u32> for LittleEndianU32 {
    type Output = Self;

    fn add(self, rhs: u32) -> (r: Self)
        ensures
            r@ == wrapping_add(self@, rhs),
    {
        Self::new(self.get().wrapping_add(rhs))
    }
}

impl vstd::std_specs::ops::AddSpecImpl<u32> for LittleEndianU32 {
    open spec fn obeys_add_spec() -> bool {
        true
    }

    open spec fn add_req(self, rhs: u32) -> bool {
        true
    }

    open spec fn add_spec(self, rhs: u32) -> Self {
        Self::of(wrapping_add(self@, rhs))
    }
}

impl Sub<u32> for LittleEndianU32 {
    type Output = Self;

    fn sub(self, rhs: u32) -> (r: Self)
        ensures
            r@ == wrapping_sub(self@, rhs),
    {
        Self::new(self.get().wrapping_sub(rhs))
    }
}

impl vstd::std_specs::ops::SubSpecImpl<u32> for LittleEndianU32 {
    open spec fn obeys_sub_spec() -> bool {
        true
    }

    open spec fn sub_req(self, rhs: u32) -> bool {
        true
    }

    open spec fn sub_spec(self, rhs: u32) -> Self {
        Self::of(wrapping_sub(self@, rhs))
    }
}

impl Mul<u32> for LittleEndianU32 {
    type Output = Self;

    fn mul(self, rhs: u32) -> (r: Self)
        ensures
            r@ == wrapping_mul(self@, rhs),
    {
        Self::new(self.get().wrapping_mul(rhs))
    }
}

impl vstd::std_specs::ops::MulSpecImpl<u32> for LittleEndianU32 {
    open spec fn obeys_mul_spec() -> bool {
        true
    }

    open spec fn mul_req(self, rhs: u32) -> bool {
        true
    }

    open spec fn mul_spec(self, rhs: u32) -> Self {
        Self::of(wrapping_mul(self@, rhs))
    }
}

impl Div<u32> for LittleEndianU32 {
    type Output = Self;

    fn div(self, rhs: u32) -> (r: Self)
        ensures
            r@ == self@ / rhs,
    {
        Self::new(self.get() / rhs)
    }
}

impl vstd::std_specs::ops::DivSpecImpl<u32> for LittleEndianU32 {
    open spec fn obeys_div_spec() -> bool {
        true
    }

    open spec fn div_req(self, rhs: u32) -> bool {
        rhs != 0
    }

    open spec fn div_spec(self, rhs: u32) -> Self {
        Self::of(self@ / rhs)
    }
}

impl Rem<u32> for LittleEndianU32 {
    type Output = Self;

    fn rem(self, rhs: u32) -> (r: Self)
        ensures
            r@ == self@ % rhs,
    {
        Self::new(self.get() % rhs)
    }
}

impl vstd::std_specs::ops::RemSpecImpl<u32> for LittleEndianU32 {
    open spec fn obeys_rem_spec() -> bool {
        true
    }

    open spec fn rem_req(self, rhs: u32) -> bool {
        rhs != 0
    }

    open spec fn rem_spec(self, rhs: u32) -> Self {
        Self::of(self@ % rhs)
    }
}

impl BitAnd<u32> for LittleEndianU32 {
    type Output = Self;

    fn bitand(self, rhs: u32) -> (r: Self)
        ensures
            r@ == self@ & rhs,
    {
        Self::new(self.get() & rhs)
    }
}

impl vstd::std_specs::ops::BitAndSpecImpl<u32> for LittleEndianU32 {
    open spec fn obeys_bitand_spec() -> bool {
        true
    }

    open spec fn bitand_req(self, rhs: u32) -> bool {
        true
    }

    open spec fn bitand_spec(self, rhs: u32) -> Self {
        Self::of(self@ & rhs)
    }
}

impl BitOr<u32> for LittleEndianU32 {
    type Output = Self;

    fn bitor(self, rhs: u32) -> (r: Self)
        ensures
            r@ == self@ | rhs,
    {
        Self::new(self.get() | rhs)
    }
}

impl vstd::std_specs::ops::BitOrSpecImpl<u32> for LittleEndianU32 {
    open spec fn obeys_bitor_spec() -> bool {
        true
    }

    open spec fn bitor_req(self, rhs: u32) -> bool {
        true
    }

    open spec fn bitor_spec(self, rhs: u32) -> Self {
        Self::of(self@ | rhs)
    }
}

impl BitXor<u32> for LittleEndianU32 {
    type Output = Self;

    fn bitxor(self, rhs: u32) -> (r: Self)
        ensures
            r@ == self@ ^ rhs,
    {
        Self::new(self.get() ^ rhs)
    }
}

impl vstd::std_specs::ops::BitXorSpecImpl<u32> for LittleEndianU32 {
    open spec fn obeys_bitxor_spec() -> bool {
        true
    }

    open spec fn bitxor_req(self, rhs: u32) -> bool {
        true
    }

    open spec fn bitxor_spec(self, rhs: u32) -> Self {
        Self::of(self@ ^ rhs)
    }
}

impl Shl<u32> for LittleEndianU32 {
    type Output = Self;

    fn shl(self, rhs: u32) -> (r: Self)
        ensures
            r@ == wrapping_shl(self@, rhs),
    {
        Self::new(self.get().wrapping_shl(rhs))
    }
}

impl vstd::std_specs::ops::ShlSpecImpl<u32> for LittleEndianU32 {
    open spec fn obeys_shl_spec() -> bool {
        true
    }

    open spec fn shl_req(self, rhs: u32) -> bool {
        true
    }

    open spec fn shl_spec(self, rhs: u32) -> Self {
        Self::of(wrapping_shl(self@, rhs))
    }
}

impl Shr<u32> for LittleEndianU32 {
    type Output = Self;

    fn shr(self, rhs: u32) -> (r: Self)
        ensures
            r@ == wrapping_shr(self@, rhs),
    {
        Self::new(self.get().wrapping_shr(rhs))
    }
}

impl vstd::std_specs::ops::ShrSpecImpl<u32> for LittleEndianU32 {
    open spec fn obeys_shr_spec() -> bool {
        true
    }

    open spec fn shr_req(self, rhs: u32) -> bool {
        true
    }

    open spec fn shr_spec(self, rhs: u32) -> Self {
        Self::of(wrapping_shr(self@, rhs))
    }
}

impl AddAssign<u32> for LittleEndianU32 {
    fn add_assign(&mut self, rhs: u32)
        ensures
            *final(self) == Self::of(wrapping_add(old(self)@, rhs)),
            final(self)@ == wrapping_add(old(self)@, rhs),
    {
        *self = *self + rhs;
    }
}

impl SubAssign<u32> for LittleEndianU32 {
    fn sub_assign(&mut self, rhs: u32)
        ensures
            *final(self) == Self::of(wrapping_sub(old(self)@, rhs)),
            final(self)@ == wrapping_sub(old(self)@, rhs),
    {
        *self = *self - rhs;
    }
}

impl MulAssign<u32> for LittleEndianU32 {
    fn mul_assign(&mut self, rhs: u32)
        ensures
            *final(self) == Self::of(wrapping_mul(old(self)@, rhs)),
            final(self)@ == wrapping_mul(old(self)@, rhs),
    {
        *self = *self * rhs;
    }
}

impl DivAssign<u32> for LittleEndianU32 {
    fn div_assign(&mut self, rhs: u32)
        requires
            rhs != 0,
        ensures
            *final(self) == Self::of(old(self)@ / rhs),
            final(self)@ == old(self)@ / rhs,
    {
        *self = *self / rhs;
    }
}

impl RemAssign<u32> for LittleEndianU32 {
    fn rem_assign(&mut self, rhs: u32)
        requires
            rhs != 0,
        ensures
            *final(self) == Self::of(old(self)@ % rhs),
            final(self)@ == old(self)@ % rhs,
    {
        *self = *self % rhs;
    }
}

impl BitAndAssign<u32> for LittleEndianU32 {
    fn bitand_assign(&mut self, rhs: u32)
        ensures
            *final(self) == Self::of(old(self)@ & rhs),
            final(self)@ == old(self)@ & rhs,
    {
        *self = *self & rhs;
    }
}

impl BitOrAssign<u32> for LittleEndianU32 {
    fn bitor_assign(&mut self, rhs: u32)
        ensures
            *final(self) == Self::of(old(self)@ | rhs),
            final(self)@ == old(self)@ | rhs,
    {
        *self = *self | rhs;
    }
}

impl BitXorAssign<u32> for LittleEndianU32 {
    fn bitxor_assign(&mut self, rhs: u32)
        ensures
            *final(self) == Self::of(old(self)@ ^ rhs),
            final(self)@ == old(self)@ ^ rhs,
    {
        *self = *self ^ rhs;
    }
}

impl ShlAssign<u32> for LittleEndianU32 {
    fn shl_assign(&mut self, rhs: u32)
        ensures
            *final(self) == Self::of(wrapping_shl(old(self)@, rhs)),
            final(self)@ == wrapping_shl(old(self)@, rhs),
    {
        *self = *self << rhs;
    }
}

impl ShrAssign<u32> for LittleEndianU32 {
    fn shr_assign(&mut self, rhs: u32)
        ensures
            *final(self) == Self::of(wrapping_shr(old(self)@, rhs)),
            final(self)@ == wrapping_shr(old(self)@, rhs),
    {
        *self = *self >> rhs;
    }
}

// Native integer with wrapper: the result is a native integer.

impl Add<LittleEndianU32> for u32 {
    type Output = u32;

    fn add(self, rhs: LittleEndianU32) -> (r: u32) {
        self.wrapping_add(rhs.get())
    }
}

impl vstd::std_specs::ops::AddSpecImpl<LittleEndianU32> for u32 {
    open spec fn obeys_add_spec() -> bool {
        true
    }

    open spec fn add_req(self, rhs: LittleEndianU32) -> bool {
        true
    }

    open spec fn add_spec(self, rhs: LittleEndianU32) -> u32 {
        wrapping_add(self, rhs@)
    }
}

impl Sub<LittleEndianU32> for u32 {
    type Output = u32;

    fn sub(self, rhs: LittleEndianU32) -> (r: u32) {
        self.wrapping_sub(rhs.get())
    }
}

impl vstd::std_specs::ops::SubSpecImpl<LittleEndianU32> for u32 {
    open spec fn obeys_sub_spec() -> bool {
        true
    }

    open spec fn sub_req(self, rhs: LittleEndianU32) -> bool {
        true
    }

    open spec fn sub_spec(self, rhs: LittleEndianU32) -> u32 {
        wrapping_sub(self, rhs@)
    }
}

impl Mul<LittleEndianU32> for u32 {
    type Output = u32;

    fn mul(self, rhs: LittleEndianU32) -> (r: u32) {
        self.wrapping_mul(rhs.get())
    }
}

impl vstd::std_specs::ops::MulSpecImpl<LittleEndianU32> for u32 {
    open spec fn obeys_mul_spec() -> bool {
        true
    }

    open spec fn mul_req(self, rhs: LittleEndianU32) -> bool {
        true
    }

    open spec fn mul_spec(self, rhs: LittleEndianU32) -> u32 {
        wrapping_mul(self, rhs@)
    }
}

impl Div<LittleEndianU32> for u32 {
    type Output = u32;

    fn div(self, rhs: LittleEndianU32) -> (r: u32) {
        self / rhs.get()
    }
}

impl vstd::std_specs::ops::DivSpecImpl<LittleEndianU32> for u32 {
    open spec fn obeys_div_spec() -> bool {
        true
    }

    open spec fn div_req(self, rhs: LittleEndianU32) -> bool {
        rhs@ != 0
    }

    open spec fn div_spec(self, rhs: LittleEndianU32) -> u32 {
        self / rhs@
    }
}

impl Rem<LittleEndianU32> for u32 {
    type Output = u32;

    fn rem(self, rhs: LittleEndianU32) -> (r: u32) {
        self % rhs.get()
    }
}

impl vstd::std_specs::ops::RemSpecImpl<LittleEndianU32> for u32 {
    open spec fn obeys_rem_spec() -> bool {
        true
    }

    open spec fn rem_req(self, rhs: LittleEndianU32) -> bool {
        rhs@ != 0
    }

    open spec fn rem_spec(self, rhs: LittleEndianU32) -> u32 {
        self % rhs@
    }
}

impl BitAnd<LittleEndianU32> for u32 {
    type Output = u32;

    fn bitand(self, rhs: LittleEndianU32) -> (r: u32) {
        self & rhs.get()
    }
}

impl vstd::std_specs::ops::BitAndSpecImpl<LittleEndianU32> for u32 {
    open spec fn obeys_bitand_spec() -> bool {
        true
    }

    open spec fn bitand_req(self, rhs: LittleEndianU32) -> bool {
        true
    }

    open spec fn bitand_spec(self, rhs: LittleEndianU32) -> u32 {
        self & rhs@
    }
}

impl BitOr<LittleEndianU32> for u32 {
    type Output = u32;

    fn bitor(self, rhs: LittleEndianU32) -> (r: u32) {
        self | rhs.get()
    }
}

impl vstd::std_specs::ops::BitOrSpecImpl<LittleEndianU32> for u32 {
    open spec fn obeys_bitor_spec() -> bool {
        true
    }

    open spec fn bitor_req(self, rhs: LittleEndianU32) -> bool {
        true
    }

    open spec fn bitor_spec(self, rhs: LittleEndianU32) -> u32 {
        self | rhs@
    }
}

impl BitXor<LittleEndianU32> for u32 {
    type Output = u32;

    fn bitxor(self, rhs: LittleEndianU32) -> (r: u32) {
        self ^ rhs.get()
    }
}

impl vstd::std_specs::ops::BitXorSpecImpl<LittleEndianU32> for u32 {
    open spec fn obeys_bitxor_spec() -> bool {
        true
    }

    open spec fn bitxor_req(self, rhs: LittleEndianU32) -> bool {
        true
    }

    open spec fn bitxor_spec(self, rhs: LittleEndianU32) -> u32 {
        self ^ rhs@
    }
}

impl Shl<LittleEndianU32> for u32 {
    type Output = u32;

    fn shl(self, rhs: LittleEndianU32) -> (r: u32) {
        self.wrapping_shl(rhs.get())
    }
}

impl vstd::std_specs::ops::ShlSpecImpl<LittleEndianU32> for u32 {
    open spec fn obeys_shl_spec() -> bool {
        true
    }

    open spec fn shl_req(self, rhs: LittleEndianU32) -> bool {
        true
    }

    open spec fn shl_spec(self, rhs: LittleEndianU32) -> u32 {
        wrapping_shl(self, rhs@)
    }
}

impl Shr<LittleEndianU32> for u32 {
    type Output = u32;

    fn shr(self, rhs: LittleEndianU32) -> (r: u32) {
        self.wrapping_shr(rhs.get())
    }
}

impl vstd::std_specs::ops::ShrSpecImpl<LittleEndianU32> for u32 {
    open spec fn obeys_shr_spec() -> bool {
        true
    }

    open spec fn shr_req(self, rhs: LittleEndianU32) -> bool {
        true
    }

    open spec fn shr_spec(self, rhs: LittleEndianU32) -> u32 {
        wrapping_shr(self, rhs@)
    }
}

impl AddAssign<LittleEndianU32> for u32 {
    fn add_assign(&mut self, rhs: LittleEndianU32)
        ensures
            *final(self) == wrapping_add(*old(self), rhs@),
    {
        *self = *self + rhs;
    }
}

impl SubAssign<LittleEndianU32> for u32 {
    fn sub_assign(&mut self, rhs: LittleEndianU32)
        ensures
            *final(self) == wrapping_sub(*old(self), rhs@),
    {
        *self = *self - rhs;
    }
}

impl MulAssign<LittleEndianU32> for u32 {
    fn mul_assign(&mut self, rhs: LittleEndianU32)
        ensures
            *final(self) == wrapping_mul(*old(self), rhs@),
    {
        *self = *self * rhs;
    }
}

impl DivAssign<LittleEndianU32> for u32 {
    fn div_assign(&mut self, rhs: LittleEndianU32)
        requires
            rhs@ != 0,
        ensures
            *final(self) == *old(self) / rhs@,
    {
        *self = *self / rhs;
    }
}

impl RemAssign<LittleEndianU32> for u32 {
    fn rem_assign(&mut self, rhs: LittleEndianU32)
        requires
            rhs@ != 0,
        ensures
            *final(self) == *old(self) % rhs@,
    {
        *self = *self % rhs;
    }
}

impl BitAndAssign<LittleEndianU32> for u32 {
    fn bitand_assign(&mut self, rhs: LittleEndianU32)
        ensures
            *final(self) == *old(self) & rhs@,
    {
        *self = *self & rhs;
    }
}

impl BitOrAssign<LittleEndianU32> for u32 {
    fn bitor_assign(&mut self, rhs: LittleEndianU32)
        ensures
            *final(self) == *old(self) | rhs@,
    {
        *self = *self | rhs;
    }
}

impl BitXorAssign<LittleEndianU32> for u32 {
    fn bitxor_assign(&mut self, rhs: LittleEndianU32)
        ensures
            *final(self) == *old(self) ^ rhs@,
    {
        *self = *self ^ rhs;
    }
}

impl ShlAssign<LittleEndianU32> for u32 {
    fn shl_assign(&mut self, rhs: LittleEndianU32)
        ensures
            *final(self) == wrapping_shl(*old(self), rhs@),
    {
        *self = *self << rhs;
    }
}

impl ShrAssign<LittleEndianU32> for u32 {
    fn shr_assign(&mut self, rhs: LittleEndianU32)
        ensures
            *final(self) == wrapping_shr(*old(self), rhs@),
    {
        *self = *self >> rhs;
    }
}

} // verus!
