//! `BigEndianU32`: an unsigned 32-bit integer kept in big-endian byte order.

use vstd::prelude::*;
use vstd::std_specs::cmp::{PartialEqSpec, PartialOrdSpec};
use vstd::std_specs::ops::{
    AddSpec, BitAndSpec, BitOrSpec, BitXorSpec, DivSpec, MulSpec, NotSpec, RemSpec, ShlSpec,
    ShrSpec, SubSpec,
};
use vstd::wrapping::u32_specs::{
    wrapping_add, wrapping_mul, wrapping_shl, wrapping_shr, wrapping_sub,
};
use core::cmp::Ordering;
use core::ops::{
    Add, AddAssign, BitAnd, BitAndAssign, BitOr, BitOrAssign, BitXor, BitXorAssign, Div,
    DivAssign, Mul, MulAssign, Not, Rem, RemAssign, Shl, ShlAssign, Shr, ShrAssign, Sub,
    SubAssign,
};
use crate::order::bits32::{lemma_u32_to_be, u32_be_bytes, u32_stored_bytes, u32_to_be};
use crate::endian::little_u32::LittleEndianU32;

verus! {

/// An unsigned 32-bit integer whose bytes lie in memory most significant
/// first, whatever the byte order of the machine.
///
/// `raw` is the stored integer: read as a native `u32` it is the value on a
/// big-endian machine and the value with its bytes reversed on the other kind.
/// Every `u32` is the stored form of exactly one value. The view is the value.
#[derive(Clone, Copy, Hash)]
pub struct BigEndianU32 {
    pub raw: u32,
}

#[allow(non_camel_case_types)]
pub type u32_be = BigEndianU32;

impl View for BigEndianU32 {
    type V = u32;

    open spec fn view(&self) -> u32 {
        u32_to_be(self.raw)
    }
}

impl BigEndianU32 {
    /// The number of bits of a value.
    pub const BITS: u32 = 32;

    /// The wrapper that holds `value`.
    pub open spec fn of(value: u32) -> Self {
        BigEndianU32 { raw: u32_to_be(value) }
    }

    /// The bytes that the wrapper occupies, lowest address first.
    pub open spec fn stored_bytes(self) -> Seq<u8> {
        u32_stored_bytes(self.raw)
    }

    /// Stores `value`, given in native byte order.
    pub fn new(value: u32) -> (r: Self)
        ensures
            r == Self::of(value),
            r@ == value,
    {
        proof {
            lemma_u32_to_be(value, value);
        }
        BigEndianU32 { raw: value.to_be() }
    }

    /// The value, in native byte order.
    pub fn get(self) -> (value: u32)
        ensures
            value == self@,
    {
        u32::from_be(self.raw)
    }

    /// Replaces the stored value by `value`, given in native byte order.
    pub fn set(&mut self, value: u32)
        ensures
            *final(self) == Self::of(value),
            final(self)@ == value,
    {
        *self = Self::new(value);
    }

    /// The wrapper of the least value.
    pub fn min_value() -> (r: Self)
        ensures
            r == Self::of(u32::MIN),
            r@ == u32::MIN,
    {
        Self::new(u32::MIN)
    }

    /// The wrapper of the greatest value.
    pub fn max_value() -> (r: Self)
        ensures
            r == Self::of(u32::MAX),
            r@ == u32::MAX,
    {
        Self::new(u32::MAX)
    }

    /// A value that is stored reads back unchanged, and a wrapper is the one
    /// that stores its own value: the two forms determine each other.
    pub proof fn round_trip(value: u32, stored: Self)
        ensures
            Self::of(value)@ == value,
            Self::of(stored@) == stored,
    {
        lemma_u32_to_be(value, stored.raw);
        lemma_u32_to_be(stored.raw, value);
    }

    /// The wrapper of `value` occupies the bytes of `value`, most significant
    /// first, on either kind of machine.
    pub proof fn byte_order(value: u32)
        ensures
            Self::of(value).stored_bytes() == u32_be_bytes(value),
    {
        lemma_u32_to_be(value, value);
    }

    /// Every operator on two wrappers gives the wrapper whose value is what the
    /// native operator gives on their values, with the native wraparound.
    /// Division and remainder are left out for a zero divisor.
    pub proof fn arithmetic_is_native(a: u32, b: u32)
        ensures
            Self::of(a).add_spec(Self::of(b))@ == wrapping_add(a, b),
            Self::of(a).sub_spec(Self::of(b))@ == wrapping_sub(a, b),
            Self::of(a).mul_spec(Self::of(b))@ == wrapping_mul(a, b),
            b != 0 ==> Self::of(a).div_spec(Self::of(b))@ == a / b,
            b != 0 ==> Self::of(a).rem_spec(Self::of(b))@ == a % b,
            Self::of(a).bitand_spec(Self::of(b))@ == a & b,
            Self::of(a).bitor_spec(Self::of(b))@ == a | b,
            Self::of(a).bitxor_spec(Self::of(b))@ == a ^ b,
            Self::of(a).shl_spec(Self::of(b))@ == wrapping_shl(a, b),
            Self::of(a).shr_spec(Self::of(b))@ == wrapping_shr(a, b),
            Self::of(a).not_spec()@ == !a,
    {
        Self::round_trip(a, Self::of(b));
        Self::round_trip(b, Self::of(a));
        Self::round_trip(wrapping_add(a, b), Self::of(a));
        Self::round_trip(wrapping_sub(a, b), Self::of(a));
        Self::round_trip(wrapping_mul(a, b), Self::of(a));
        Self::round_trip(a / b, Self::of(a));
        Self::round_trip(a % b, Self::of(a));
        Self::round_trip(a & b, Self::of(a));
        Self::round_trip(a | b, Self::of(a));
        Self::round_trip(a ^ b, Self::of(a));
        Self::round_trip(wrapping_shl(a, b), Self::of(a));
        Self::round_trip(wrapping_shr(a, b), Self::of(a));
        Self::round_trip(!a, Self::of(a));
    }

    /// Both byte orders hold the same value, and each wrapper equals the native
    /// integer that it was made from.
    pub proof fn orders_agree(value: u32)
        ensures
            Self::of(value)@ == LittleEndianU32::of(value)@,
            Self::of(value).eq_spec(&value),
            LittleEndianU32::of(value).eq_spec(&value),
    {
        Self::round_trip(value, Self::of(value));
        LittleEndianU32::round_trip(value, LittleEndianU32::of(value));
    }

    /// Two wrappers compare as their values do, whatever their stored forms.
    pub proof fn comparison_is_native(a: u32, b: u32)
        ensures
            Self::of(a).eq_spec(&Self::of(b)) == (a == b),
            Self::of(a) == Self::of(b) <==> a == b,
            Self::of(a).partial_cmp_spec(&Self::of(b)) == a.partial_cmp_spec(&b),
    {
        Self::round_trip(a, Self::of(b));
        Self::round_trip(b, Self::of(a));
    }
}

impl Default for BigEndianU32 {
    /// The wrapper of zero.
    fn default() -> (r: Self)
        ensures
            r == Self::of(0),
            r@ == 0,
    {
        Self::new(0)
    }
}

impl From<u32> for BigEndianU32 {
    fn from(value: u32) -> (r: Self)
        ensures
            r@ == value,
    {
        Self::new(value)
    }
}

impl vstd::std_specs::convert::FromSpecImpl<u32> for BigEndianU32 {
    open spec fn obeys_from_spec() -> bool {
        true
    }

    open spec fn from_spec(value: u32) -> Self {
        Self::of(value)
    }
}

impl From<BigEndianU32> for u32 {
    fn from(value: BigEndianU32) -> (r: u32) {
        value.get()
    }
}

impl vstd::std_specs::convert::FromSpecImpl<BigEndianU32> for u32 {
    open spec fn obeys_from_spec() -> bool {
        true
    }

    open spec fn from_spec(value: BigEndianU32) -> u32 {
        value@
    }
}

// Equality and order go by the values, never by the stored integers.

impl PartialEq for BigEndianU32 {
    fn eq(&self, other: &Self) -> (r: bool) {
        self.get() == other.get()
    }
}

impl vstd::std_specs::cmp::PartialEqSpecImpl for BigEndianU32 {
    open spec fn obeys_eq_spec() -> bool {
        true
    }

    open spec fn eq_spec(&self, other: &Self) -> bool {
        self@ == other@
    }
}

impl Eq for BigEndianU32 {
}

impl PartialEq<u32> for BigEndianU32 {
    fn eq(&self, other: &u32) -> (r: bool) {
        self.get() == *other
    }
}

impl vstd::std_specs::cmp::PartialEqSpecImpl<u32> for BigEndianU32 {
    open spec fn obeys_eq_spec() -> bool {
        true
    }

    open spec fn eq_spec(&self, other: &u32) -> bool {
        self@ == *other
    }
}

impl PartialEq<BigEndianU32> for u32 {
    fn eq(&self, other: &BigEndianU32) -> (r: bool) {
        *self == other.get()
    }
}

impl vstd::std_specs::cmp::PartialEqSpecImpl<BigEndianU32> for u32 {
    open spec fn obeys_eq_spec() -> bool {
        true
    }

    open spec fn eq_spec(&self, other: &BigEndianU32) -> bool {
        *self == other@
    }
}

impl PartialOrd for BigEndianU32 {
    fn partial_cmp(&self, other: &Self) -> (r: Option<Ordering>) {
        let a: u32 = self.get();
        let b: u32 = other.get();
        if a < b {
            Some(Ordering::Less)
        } else if a > b {
            Some(Ordering::Greater)
        } else {
            Some(Ordering::Equal)
        }
    }
}

impl vstd::std_specs::cmp::PartialOrdSpecImpl for BigEndianU32 {
    open spec fn obeys_partial_cmp_spec() -> bool {
        true
    }

    open spec fn partial_cmp_spec(&self, other: &Self) -> Option<Ordering> {
        if self@ < other@ {
            Some(Ordering::Less)
        } else if self@ > other@ {
            Some(Ordering::Greater)
        } else {
            Some(Ordering::Equal)
        }
    }
}

impl PartialOrd<u32> for BigEndianU32 {
    fn partial_cmp(&self, other: &u32) -> (r: Option<Ordering>) {
        let a: u32 = self.get();
        let b: u32 = *other;
        if a < b {
            Some(Ordering::Less)
        } else if a > b {
            Some(Ordering::Greater)
        } else {
            Some(Ordering::Equal)
        }
    }
}

impl vstd::std_specs::cmp::PartialOrdSpecImpl<u32> for BigEndianU32 {
    open spec fn obeys_partial_cmp_spec() -> bool {
        true
    }

    open spec fn partial_cmp_spec(&self, other: &u32) -> Option<Ordering> {
        if self@ < *other {
            Some(Ordering::Less)
        } else if self@ > *other {
            Some(Ordering::Greater)
        } else {
            Some(Ordering::Equal)
        }
    }
}

impl PartialOrd<BigEndianU32> for u32 {
    fn partial_cmp(&self, other: &BigEndianU32) -> (r: Option<Ordering>) {
        let a: u32 = *self;
        let b: u32 = other.get();
        if a < b {
            Some(Ordering::Less)
        } else if a > b {
            Some(Ordering::Greater)
        } else {
            Some(Ordering::Equal)
        }
    }
}

impl vstd::std_specs::cmp::PartialOrdSpecImpl<BigEndianU32> for u32 {
    open spec fn obeys_partial_cmp_spec() -> bool {
        true
    }

    open spec fn partial_cmp_spec(&self, other: &BigEndianU32) -> Option<Ordering> {
        if *self < other@ {
            Some(Ordering::Less)
        } else if *self > other@ {
            Some(Ordering::Greater)
        } else {
            Some(Ordering::Equal)
        }
    }
}

// Wrapper with wrapper. The arithmetic is done on the values; the bitwise
// operations are done on the stored integers, which gives the same wrapper.

impl Add for BigEndianU32 {
    type Output = Self;

    fn add(self, rhs: Self) -> (r: Self)
        ensures
            r@ == wrapping_add(self@, rhs@),
    {
        Self::new(self.get().wrapping_add(rhs.get()))
    }
}

impl vstd::std_specs::ops::AddSpecImpl for BigEndianU32 {
    open spec fn obeys_add_spec() -> bool {
        true
    }

    open spec fn add_req(self, rhs: Self) -> bool {
        true
    }

    open spec fn add_spec(self, rhs: Self) -> Self {
        Self::of(wrapping_add(self@, rhs@))
    }
}

impl Sub for BigEndianU32 {
    type Output = Self;

    fn sub(self, rhs: Self) -> (r: Self)
        ensures
            r@ == wrapping_sub(self@, rhs@),
    {
        Self::new(self.get().wrapping_sub(rhs.get()))
    }
}

impl vstd::std_specs::ops::SubSpecImpl for BigEndianU32 {
    open spec fn obeys_sub_spec() -> bool {
        true
    }

    open spec fn sub_req(self, rhs: Self) -> bool {
        true
    }

    open spec fn sub_spec(self, rhs: Self) -> Self {
        Self::of(wrapping_sub(self@, rhs@))
    }
}

impl Mul for BigEndianU32 {
    type Output = Self;

    fn mul(self, rhs: Self) -> (r: Self)
        ensures
            r@ == wrapping_mul(self@, rhs@),
    {
        Self::new(self.get().wrapping_mul(rhs.get()))
    }
}

impl vstd::std_specs::ops::MulSpecImpl for BigEndianU32 {
    open spec fn obeys_mul_spec() -> bool {
        true
    }

    open spec fn mul_req(self, rhs: Self) -> bool {
        true
    }

    open spec fn mul_spec(self, rhs: Self) -> Self {
        Self::of(wrapping_mul(self@, rhs@))
    }
}

impl Div for BigEndianU32 {
    type Output = Self;

    fn div(self, rhs: Self) -> (r: Self)
        ensures
            r@ == self@ / rhs@,
    {
        Self::new(self.get() / rhs.get())
    }
}

impl vstd::std_specs::ops::DivSpecImpl for BigEndianU32 {
    open spec fn obeys_div_spec() -> bool {
        true
    }

    open spec fn div_req(self, rhs: Self) -> bool {
        rhs@ != 0
    }

    open spec fn div_spec(self, rhs: Self) -> Self {
        Self::of(self@ / rhs@)
    }
}

impl Rem for BigEndianU32 {
    type Output = Self;

    fn rem(self, rhs: Self) -> (r: Self)
        ensures
            r@ == self@ % rhs@,
    {
        Self::new(self.get() % rhs.get())
    }
}

impl vstd::std_specs::ops::RemSpecImpl for BigEndianU32 {
    open spec fn obeys_rem_spec() -> bool {
        true
    }

    open spec fn rem_req(self, rhs: Self) -> bool {
        rhs@ != 0
    }

    open spec fn rem_spec(self, rhs: Self) -> Self {
        Self::of(self@ % rhs@)
    }
}

impl BitAnd for BigEndianU32 {
    type Output = Self;

    fn bitand(self, rhs: Self) -> (r: Self)
        ensures
            r@ == self@ & rhs@,
    {
        proof {
            lemma_u32_to_be(self@, rhs@);
            lemma_u32_to_be(self.raw, rhs.raw);
            lemma_u32_to_be(rhs.raw, self.raw);
        }
        BigEndianU32 { raw: self.raw & rhs.raw }
    }
}

impl vstd::std_specs::ops::BitAndSpecImpl for BigEndianU32 {
    open spec fn obeys_bitand_spec() -> bool {
        true
    }

    open spec fn bitand_req(self, rhs: Self) -> bool {
        true
    }

    open spec fn bitand_spec(self, rhs: Self) -> Self {
        Self::of(self@ & rhs@)
    }
}

impl BitOr for BigEndianU32 {
    type Output = Self;

    fn bitor(self, rhs: Self) -> (r: Self)
        ensures
            r@ == self@ | rhs@,
    {
        proof {
            lemma_u32_to_be(self@, rhs@);
            lemma_u32_to_be(self.raw, rhs.raw);
            lemma_u32_to_be(rhs.raw, self.raw);
        }
        BigEndianU32 { raw: self.raw | rhs.raw }
    }
}

impl vstd::std_specs::ops::BitOrSpecImpl for BigEndianU32 {
    open spec fn obeys_bitor_spec() -> bool {
        true
    }

    open spec fn bitor_req(self, rhs: Self) -> bool {
        true
    }

    open spec fn bitor_spec(self, rhs: Self) -> Self {
        Self::of(self@ | rhs@)
    }
}

impl BitXor for BigEndianU32 {
    type Output = Self;

    fn bitxor(self, rhs: Self) -> (r: Self)
        ensures
            r@ == self@ ^ rhs@,
    {
        proof {
            lemma_u32_to_be(self@, rhs@);
            lemma_u32_to_be(self.raw, rhs.raw);
            lemma_u32_to_be(rhs.raw, self.raw);
        }
        BigEndianU32 { raw: self.raw ^ rhs.raw }
    }
}

impl vstd::std_specs::ops::BitXorSpecImpl for BigEndianU32 {
    open spec fn obeys_bitxor_spec() -> bool {
        true
    }

    open spec fn bitxor_req(self, rhs: Self) -> bool {
        true
    }

    open spec fn bitxor_spec(self, rhs: Self) -> Self {
        Self::of(self@ ^ rhs@)
    }
}

impl Shl for BigEndianU32 {
    type Output = Self;

    fn shl(self, rhs: Self) -> (r: Self)
        ensures
            r@ == wrapping_shl(self@, rhs@),
    {
        Self::new(self.get().wrapping_shl(rhs.get()))
    }
}

impl vstd::std_specs::ops::ShlSpecImpl for BigEndianU32 {
    open spec fn obeys_shl_spec() -> bool {
        true
    }

    open spec fn shl_req(self, rhs: Self) -> bool {
        true
    }

    open spec fn shl_spec(self, rhs: Self) -> Self {
        Self::of(wrapping_shl(self@, rhs@))
    }
}

impl Shr for BigEndianU32 {
    type Output = Self;

    fn shr(self, rhs: Self) -> (r: Self)
        ensures
            r@ == wrapping_shr(self@, rhs@),
    {
        Self::new(self.get().wrapping_shr(rhs.get()))
    }
}

impl vstd::std_specs::ops::ShrSpecImpl for BigEndianU32 {
    open spec fn obeys_shr_spec() -> bool {
        true
    }

    open spec fn shr_req(self, rhs: Self) -> bool {
        true
    }

    open spec fn shr_spec(self, rhs: Self) -> Self {
        Self::of(wrapping_shr(self@, rhs@))
    }
}

impl Not for BigEndianU32 {
    type Output = Self;

    fn not(self) -> (r: Self)
        ensures
            r@ == !self@,
    {
        proof {
            lemma_u32_to_be(self@, self@);
            lemma_u32_to_be(self.raw, self.raw);
        }
        BigEndianU32 { raw: !self.raw }
    }
}

impl vstd::std_specs::ops::NotSpecImpl for BigEndianU32 {
    open spec fn obeys_not_spec() -> bool {
        true
    }

    open spec fn not_req(self) -> bool {
        true
    }

    open spec fn not_spec(self) -> Self {
        Self::of(!self@)
    }
}

impl AddAssign for BigEndianU32 {
    fn add_assign(&mut self, rhs: Self)
        ensures
            *final(self) == Self::of(wrapping_add(old(self)@, rhs@)),
            final(self)@ == wrapping_add(old(self)@, rhs@),
    {
        *self = *self + rhs;
    }
}

impl SubAssign for BigEndianU32 {
    fn sub_assign(&mut self, rhs: Self)
        ensures
            *final(self) == Self::of(wrapping_sub(old(self)@, rhs@)),
            final(self)@ == wrapping_sub(old(self)@, rhs@),
    {
        *self = *self - rhs;
    }
}

impl MulAssign for BigEndianU32 {
    fn mul_assign(&mut self, rhs: Self)
        ensures
            *final(self) == Self::of(wrapping_mul(old(self)@, rhs@)),
            final(self)@ == wrapping_mul(old(self)@, rhs@),
    {
        *self = *self * rhs;
    }
}

impl DivAssign for BigEndianU32 {
    fn div_assign(&mut self, rhs: Self)
        requires
            rhs@ != 0,
        ensures
            *final(self) == Self::of(old(self)@ / rhs@),
            final(self)@ == old(self)@ / rhs@,
    {
        *self = *self / rhs;
    }
}

impl RemAssign for BigEndianU32 {
    fn rem_assign(&mut self, rhs: Self)
        requires
            rhs@ != 0,
        ensures
            *final(self) == Self::of(old(self)@ % rhs@),
            final(self)@ == old(self)@ % rhs@,
    {
        *self = *self % rhs;
    }
}

impl BitAndAssign for BigEndianU32 {
    fn bitand_assign(&mut self, rhs: Self)
        ensures
            *final(self) == Self::of(old(self)@ & rhs@),
            final(self)@ == old(self)@ & rhs@,
    {
        *self = *self & rhs;
    }
}

impl BitOrAssign for BigEndianU32 {
    fn bitor_assign(&mut self, rhs: Self)
        ensures
            *final(self) == Self::of(old(self)@ | rhs@),
            final(self)@ == old(self)@ | rhs@,
    {
        *self = *self | rhs;
    }
}

impl BitXorAssign for BigEndianU32 {
    fn bitxor_assign(&mut self, rhs: Self)
        ensures
            *final(self) == Self::of(old(self)@ ^ rhs@),
            final(self)@ == old(self)@ ^ rhs@,
    {
        *self = *self ^ rhs;
    }
}

impl ShlAssign for BigEndianU32 {
    fn shl_assign(&mut self, rhs: Self)
        ensures
            *final(self) == Self::of(wrapping_shl(old(self)@, rhs@)),
            final(self)@ == wrapping_shl(old(self)@, rhs@),
    {
        *self = *self << rhs;
    }
}

impl ShrAssign for BigEndianU32 {
    fn shr_assign(&mut self, rhs: Self)
        ensures
            *final(self) == Self::of(wrapping_shr(old(self)@, rhs@)),
            final(self)@ == wrapping_shr(old(self)@, rhs@),
    {
        *self = *self >> rhs;
    }
}

// Wrapper with native integer: the result is a wrapper.

impl Add<u32> for BigEndianU32 {
    type Output = Self;

    fn add(self, rhs: u32) -> (r: Self)
        ensures
            r@ == wrapping_add(self@, rhs),
    {
        Self::new(self.get().wrapping_add(rhs))
    }
}

impl vstd::std_specs::ops::AddSpecImpl<u32> for BigEndianU32 {
    open spec fn obeys_add_spec() -> bool {
        true
    }

    open spec fn add_req(self, rhs: u32) -> bool {
        true
    }

    open spec fn add_spec(self, rhs: u32) -> Self {
        Self::of(wrapping_add(self@, rhs))
    }
}

impl Sub<u32> for BigEndianU32 {
    type Output = Self;

    fn sub(self, rhs: u32) -> (r: Self)
        ensures
            r@ == wrapping_sub(self@, rhs),
    {
        Self::new(self.get().wrapping_sub(rhs))
    }
}

impl vstd::std_specs::ops::SubSpecImpl<u32> for BigEndianU32 {
    open spec fn obeys_sub_spec() -> bool {
        true
    }

    open spec fn sub_req(self, rhs: u32) -> bool {
        true
    }

    open spec fn sub_spec(self, rhs: u32) -> Self {
        Self::of(wrapping_sub(self@, rhs))
    }
}

impl Mul<u32> for BigEndianU32 {
    type Output = Self;

    fn mul(self, rhs: u32) -> (r: Self)
        ensures
            r@ == wrapping_mul(self@, rhs),
    {
        Self::new(self.get().wrapping_mul(rhs))
    }
}

impl vstd::std_specs::ops::MulSpecImpl<u32> for BigEndianU32 {
    open spec fn obeys_mul_spec() -> bool {
        true
    }

    open spec fn mul_req(self, rhs: u32) -> bool {
        true
    }

    open spec fn mul_spec(self, rhs: u32) -> Self {
        Self::of(wrapping_mul(self@, rhs))
    }
}

impl Div<u32> for BigEndianU32 {
    type Output = Self;

    fn div(self, rhs: u32) -> (r: Self)
        ensures
            r@ == self@ / rhs,
    {
        Self::new(self.get() / rhs)
    }
}

impl vstd::std_specs::ops::DivSpecImpl<u32> for BigEndianU32 {
    open spec fn obeys_div_spec() -> bool {
        true
    }

    open spec fn div_req(self, rhs: u32) -> bool {
        rhs != 0
    }

    open spec fn div_spec(self, rhs: u32) -> Self {
        Self::of(self@ / rhs)
    }
}

impl Rem<u32> for BigEndianU32 {
    type Output = Self;

    fn rem(self, rhs: u32) -> (r: Self)
        ensures
            r@ == self@ % rhs,
    {
        Self::new(self.get() % rhs)
    }
}

impl vstd::std_specs::ops::RemSpecImpl<u32> for BigEndianU32 {
    open spec fn obeys_rem_spec() -> bool {
        true
    }

    open spec fn rem_req(self, rhs: u32) -> bool {
        rhs != 0
    }

    open spec fn rem_spec(self, rhs: u32) -> Self {
        Self::of(self@ % rhs)
    }
}

impl BitAnd<u32> for BigEndianU32 {
    type Output = Self;

    fn bitand(self, rhs: u32) -> (r: Self)
        ensures
            r@ == self@ & rhs,
    {
        Self::new(self.get() & rhs)
    }
}

impl vstd::std_specs::ops::BitAndSpecImpl<u32> for BigEndianU32 {
    open spec fn obeys_bitand_spec() -> bool {
        true
    }

    open spec fn bitand_req(self, rhs: u32) -> bool {
        true
    }

    open spec fn bitand_spec(self, rhs: u32) -> Self {
        Self::of(self@ & rhs)
    }
}

impl BitOr<u32> for BigEndianU32 {
    type Output = Self;

    fn bitor(self, rhs: u32) -> (r: Self)
        ensures
            r@ == self@ | rhs,
    {
        Self::new(self.get() | rhs)
    }
}

impl vstd::std_specs::ops::BitOrSpecImpl<u32> for BigEndianU32 {
    open spec fn obeys_bitor_spec() -> bool {
        true
    }

    open spec fn bitor_req(self, rhs: u32) -> bool {
        true
    }

    open spec fn bitor_spec(self, rhs: u32) -> Self {
        Self::of(self@ | rhs)
    }
}

impl BitXor<u32> for BigEndianU32 {
    type Output = Self;

    fn bitxor(self, rhs: u32) -> (r: Self)
        ensures
            r@ == self@ ^ rhs,
    {
        Self::new(self.get() ^ rhs)
    }
}

impl vstd::std_specs::ops::BitXorSpecImpl<u32> for BigEndianU32 {
    open spec fn obeys_bitxor_spec() -> bool {
        true
    }

    open spec fn bitxor_req(self, rhs: u32) -> bool {
        true
    }

    open spec fn bitxor_spec(self, rhs: u32) -> Self {
        Self::of(self@ ^ rhs)
    }
}

impl Shl<u32> for BigEndianU32 {
    type Output = Self;

    fn shl(self, rhs: u32) -> (r: Self)
        ensures
            r@ == wrapping_shl(self@, rhs),
    {
        Self::new(self.get().wrapping_shl(rhs))
    }
}

impl vstd::std_specs::ops::ShlSpecImpl<u32> for BigEndianU32 {
    open spec fn obeys_shl_spec() -> bool {
        true
    }

    open spec fn shl_req(self, rhs: u32) -> bool {
        true
    }

    open spec fn shl_spec(self, rhs: u32) -> Self {
        Self::of(wrapping_shl(self@, rhs))
    }
}

impl Shr<u32> for BigEndianU32 {
    type Output = Self;

    fn shr(self, rhs: u32) -> (r: Self)
        ensures
            r@ == wrapping_shr(self@, rhs),
    {
        Self::new(self.get().wrapping_shr(rhs))
    }
}

impl vstd::std_specs::ops::ShrSpecImpl<u32> for BigEndianU32 {
    open spec fn obeys_shr_spec() -> bool {
        true
    }

    open spec fn shr_req(self, rhs: u32) -> bool {
        true
    }

    open spec fn shr_spec(self, rhs: u32) -> Self {
        Self::of(wrapping_shr(self@, rhs))
    }
}

impl AddAssign<u32> for BigEndianU32 {
    fn add_assign(&mut self, rhs: u32)
        ensures
            *final(self) == Self::of(wrapping_add(old(self)@, rhs)),
            final(self)@ == wrapping_add(old(self)@, rhs),
    {
        *self = *self + rhs;
    }
}

impl SubAssign<u32> for BigEndianU32 {
    fn sub_assign(&mut self, rhs: u32)
        ensures
            *final(self) == Self::of(wrapping_sub(old(self)@, rhs)),
            final(self)@ == wrapping_sub(old(self)@, rhs),
    {
        *self = *self - rhs;
    }
}

impl MulAssign<u32> for BigEndianU32 {
    fn mul_assign(&mut self, rhs: u32)
        ensures
            *final(self) == Self::of(wrapping_mul(old(self)@, rhs)),
            final(self)@ == wrapping_mul(old(self)@, rhs),
    {
        *self = *self * rhs;
    }
}

impl DivAssign<u32> for BigEndianU32 {
    fn div_assign(&mut self, rhs: u32)
        requires
            rhs != 0,
        ensures
            *final(self) == Self::of(old(self)@ / rhs),
            final(self)@ == old(self)@ / rhs,
    {
        *self = *self / rhs;
    }
}

impl RemAssign<u32> for BigEndianU32 {
    fn rem_assign(&mut self, rhs: u32)
        requires
            rhs != 0,
        ensures
            *final(self) == Self::of(old(self)@ % rhs),
            final(self)@ == old(self)@ % rhs,
    {
        *self = *self % rhs;
    }
}

impl BitAndAssign<u32> for BigEndianU32 {
    fn bitand_assign(&mut self, rhs: u32)
        ensures
            *final(self) == Self::of(old(self)@ & rhs),
            final(self)@ == old(self)@ & rhs,
    {
        *self = *self & rhs;
    }
}

impl BitOrAssign<u32> for BigEndianU32 {
    fn bitor_assign(&mut self, rhs: u32)
        ensures
            *final(self) == Self::of(old(self)@ | rhs),
            final(self)@ == old(self)@ | rhs,
    {
        *self = *self | rhs;
    }
}

impl BitXorAssign<u32> for BigEndianU32 {
    fn bitxor_assign(&mut self, rhs: u32)
        ensures
            *final(self) == Self::of(old(self)@ ^ rhs),
            final(self)@ == old(self)@ ^ rhs,
    {
        *self = *self ^ rhs;
    }
}

impl ShlAssign<u32> for BigEndianU32 {
    fn shl_assign(&mut self, rhs: u32)
        ensures
            *final(self) == Self::of(wrapping_shl(old(self)@, rhs)),
            final(self)@ == wrapping_shl(old(self)@, rhs),
    {
        *self = *self << rhs;
    }
}

impl ShrAssign<u32> for BigEndianU32 {
    fn shr_assign(&mut self, rhs: u32)
        ensures
            *final(self) == Self::of(wrapping_shr(old(self)@, rhs)),
            final(self)@ == wrapping_shr(old(self)@, rhs),
    {
        *self = *self >> rhs;
    }
}

// Native integer with wrapper: the result is a native integer.

impl Add<BigEndianU32> for u32 {
    type Output = u32;

    fn add(self, rhs: BigEndianU32) -> (r: u32) {
        self.wrapping_add(rhs.get())
    }
}

impl vstd::std_specs::ops::AddSpecImpl<BigEndianU32> for u32 {
    open spec fn obeys_add_spec() -> bool {
        true
    }

    open spec fn add_req(self, rhs: BigEndianU32) -> bool {
        true
    }

    open spec fn add_spec(self, rhs: BigEndianU32) -> u32 {
        wrapping_add(self, rhs@)
    }
}

impl Sub<BigEndianU32> for u32 {
    type Output = u32;

    fn sub(self, rhs: BigEndianU32) -> (r: u32) {
        self.wrapping_sub(rhs.get())
    }
}

impl vstd::std_specs::ops::SubSpecImpl<BigEndianU32> for u32 {
    open spec fn obeys_sub_spec() -> bool {
        true
    }

    open spec fn sub_req(self, rhs: BigEndianU32) -> bool {
        true
    }

    open spec fn sub_spec(self, rhs: BigEndianU32) -> u32 {
        wrapping_sub(self, rhs@)
    }
}

impl Mul<BigEndianU32> for u32 {
    type Output = u32;

    fn mul(self, rhs: BigEndianU32) -> (r: u32) {
        self.wrapping_mul(rhs.get())
    }
}

impl vstd::std_specs::ops::MulSpecImpl<BigEndianU32> for u32 {
    open spec fn obeys_mul_spec() -> bool {
        true
    }

    open spec fn mul_req(self, rhs: BigEndianU32) -> bool {
        true
    }

    open spec fn mul_spec(self, rhs: BigEndianU32) -> u32 {
        wrapping_mul(self, rhs@)
    }
}

impl Div<BigEndianU32> for u32 {
    type Output = u32;

    fn div(self, rhs: BigEndianU32) -> (r: u32) {
        self / rhs.get()
    }
}

impl vstd::std_specs::ops::DivSpecImpl<BigEndianU32> for u32 {
    open spec fn obeys_div_spec() -> bool {
        true
    }

    open spec fn div_req(self, rhs: BigEndianU32) -> bool {
        rhs@ != 0
    }

    open spec fn div_spec(self, rhs: BigEndianU32) -> u32 {
        self / rhs@
    }
}

impl Rem<BigEndianU32> for u32 {
    type Output = u32;

    fn rem(self, rhs: BigEndianU32) -> (r: u32) {
        self % rhs.get()
    }
}

impl vstd::std_specs::ops::RemSpecImpl<BigEndianU32> for u32 {
    open spec fn obeys_rem_spec() -> bool {
        true
    }

    open spec fn rem_req(self, rhs: BigEndianU32) -> bool {
        rhs@ != 0
    }

    open spec fn rem_spec(self, rhs: BigEndianU32) -> u32 {
        self % rhs@
    }
}

impl BitAnd<BigEndianU32> for u32 {
    type Output = u32;

    fn bitand(self, rhs: BigEndianU32) -> (r: u32) {
        self & rhs.get()
    }
}

impl vstd::std_specs::ops::BitAndSpecImpl<BigEndianU32> for u32 {
    open spec fn obeys_bitand_spec() -> bool {
        true
    }

    open spec fn bitand_req(self, rhs: BigEndianU32) -> bool {
        true
    }

    open spec fn bitand_spec(self, rhs: BigEndianU32) -> u32 {
        self & rhs@
    }
}

impl BitOr<BigEndianU32> for u32 {
    type Output = u32;

    fn bitor(self, rhs: BigEndianU32) -> (r: u32) {
        self | rhs.get()
    }
}

impl vstd::std_specs::ops::BitOrSpecImpl<BigEndianU32> for u32 {
    open spec fn obeys_bitor_spec() -> bool {
        true
    }

    open spec fn bitor_req(self, rhs: BigEndianU32) -> bool {
        true
    }

    open spec fn bitor_spec(self, rhs: BigEndianU32) -> u32 {
        self | rhs@
    }
}

impl BitXor<BigEndianU32> for u32 {
    type Output = u32;

    fn bitxor(self, rhs: BigEndianU32) -> (r: u32) {
        self ^ rhs.get()
    }
}

impl vstd::std_specs::ops::BitXorSpecImpl<BigEndianU32> for u32 {
    open spec fn obeys_bitxor_spec() -> bool {
        true
    }

    open spec fn bitxor_req(self, rhs: BigEndianU32) -> bool {
        true
    }

    open spec fn bitxor_spec(self, rhs: BigEndianU32) -> u32 {
        self ^ rhs@
    }
}

impl Shl<BigEndianU32> for u32 {
    type Output = u32;

    fn shl(self, rhs: BigEndianU32) -> (r: u32) {
        self.wrapping_shl(rhs.get())
    }
}

impl vstd::std_specs::ops::ShlSpecImpl<BigEndianU32> for u32 {
    open spec fn obeys_shl_spec() -> bool {
        true
    }

    open spec fn shl_req(self, rhs: BigEndianU32) -> bool {
        true
    }

    open spec fn shl_spec(self, rhs: BigEndianU32) -> u32 {
        wrapping_shl(self, rhs@)
    }
}

impl Shr<BigEndianU32> for u32 {
    type Output = u32;

    fn shr(self, rhs: BigEndianU32) -> (r: u32) {
        self.wrapping_shr(rhs.get())
    }
}

impl vstd::std_specs::ops::ShrSpecImpl<BigEndianU32> for u32 {
    open spec fn obeys_shr_spec() -> bool {
        true
    }

    open spec fn shr_req(self, rhs: BigEndianU32) -> bool {
        true
    }

    open spec fn shr_spec(self, rhs: BigEndianU32) -> u32 {
        wrapping_shr(self, rhs@)
    }
}

impl AddAssign<BigEndianU32> for u32 {
    fn add_assign(&mut self, rhs: BigEndianU32)
        ensures
            *final(self) == wrapping_add(*old(self), rhs@),
    {
        *self = *self + rhs;
    }
}

impl SubAssign<BigEndianU32> for u32 {
    fn sub_assign(&mut self, rhs: BigEndianU32)
        ensures
            *final(self) == wrapping_sub(*old(self), rhs@),
    {
        *self = *self - rhs;
    }
}

impl MulAssign<BigEndianU32> for u32 {
    fn mul_assign(&mut self, rhs: BigEndianU32)
        ensures
            *final(self) == wrapping_mul(*old(self), rhs@),
    {
        *self = *self * rhs;
    }
}

impl DivAssign<BigEndianU32> for u32 {
    fn div_assign(&mut self, rhs: BigEndianU32)
        requires
            rhs@ != 0,
        ensures
            *final(self) == *old(self) / rhs@,
    {
        *self = *self / rhs;
    }
}

impl RemAssign<BigEndianU32> for u32 {
    fn rem_assign(&mut self, rhs: BigEndianU32)
        requires
            rhs@ != 0,
        ensures
            *final(self) == *old(self) % rhs@,
    {
        *self = *self % rhs;
    }
}

impl BitAndAssign<BigEndianU32> for u32 {
    fn bitand_assign(&mut self, rhs: BigEndianU32)
        ensures
            *final(self) == *old(self) & rhs@,
    {
        *self = *self & rhs;
    }
}

impl BitOrAssign<BigEndianU32> for u32 {
    fn bitor_assign(&mut self, rhs: BigEndianU32)
        ensures
            *final(self) == *old(self) | rhs@,
    {
        *self = *self | rhs;
    }
}

impl BitXorAssign<BigEndianU32> for u32 {
    fn bitxor_assign(&mut self, rhs: BigEndianU32)
        ensures
            *final(self) == *old(self) ^ rhs@,
    {
        *self = *self ^ rhs;
    }
}

impl ShlAssign<BigEndianU32> for u32 {
    fn shl_assign(&mut self, rhs: BigEndianU32)
        ensures
            *final(self) == wrapping_shl(*old(self), rhs@),
    {
        *self = *self << rhs;
    }
}

impl ShrAssign<BigEndianU32> for u32 {
    fn shr_assign(&mut self, rhs: BigEndianU32)
        ensures
            *final(self) == wrapping_shr(*old(self), rhs@),
    {
        *self = *self >> rhs;
    }
}

} // verus!
