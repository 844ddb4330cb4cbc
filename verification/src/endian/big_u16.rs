//! `BigEndianU16`: an unsigned 16-bit integer kept in big-endian byte order.

use vstd::prelude::*;
use vstd::std_specs::cmp::{PartialEqSpec, PartialOrdSpec};
use vstd::std_specs::ops::{
    AddSpec, BitAndSpec, BitOrSpec, BitXorSpec, DivSpec, MulSpec, NotSpec, RemSpec, ShlSpec,
    ShrSpec, SubSpec,
};
use vstd::wrapping::u16_specs::{
    wrapping_add, wrapping_mul, wrapping_shl, wrapping_shr, wrapping_sub,
};
use core::cmp::Ordering;
use core::ops::{
    Add, AddAssign, BitAnd, BitAndAssign, BitOr, BitOrAssign, BitXor, BitXorAssign, Div,
    DivAssign, Mul, MulAssign, Not, Rem, RemAssign, Shl, ShlAssign, Shr, ShrAssign, Sub,
    SubAssign,
};
use crate::order::bits16::{lemma_u16_to_be, u16_be_bytes, u16_stored_bytes, u16_to_be};
use crate::endian::little_u16::LittleEndianU16;

verus! {

/// An unsigned 16-bit integer whose bytes lie in memory most significant
/// first, whatever the byte order of the machine.
///
/// `raw` is the stored integer: read as a native `u16` it is the value on a
/// big-endian machine and the value with its bytes reversed on the other kind.
/// Every `u16` is the stored form of exactly one value. The view is the value.
#[derive(Clone, Copy, Hash)]
pub struct BigEndianU16 {
    pub raw: u16,
}

#[allow(non_camel_case_types)]
pub type u16_be = BigEndianU16;

impl View for BigEndianU16 {
    type V = u16;

    open spec fn view(&self) -> u16 {
        u16_to_be(self.raw)
    }
}

impl BigEndianU16 {
    /// The number of bits of a value.
    pub const BITS: u32 = 16;

    /// The wrapper that holds `value`.
    pub open spec fn of(value: u16) -> Self {
        BigEndianU16 { raw: u16_to_be(value) }
    }

    /// The bytes that the wrapper occupies, lowest address first.
    pub open spec fn stored_bytes(self) -> Seq<u8> {
        u16_stored_bytes(self.raw)
    }

    /// Stores `value`, given in native byte order.
    pub fn new(value: u16) -> (r: Self)
        ensures
            r == Self::of(value),
            r@ == value,
    {
        proof {
            lemma_u16_to_be(value, value);
        }
        BigEndianU16 { raw: value.to_be() }
    }

    /// The value, in native byte order.
    pub fn get(self) -> (value: u16)
        ensures
            value == self@,
    {
        u16::from_be(self.raw)
    }

    /// Replaces the stored value by `value`, given in native byte order.
    pub fn set(&mut self, value: u16)
        ensures
            *final(self) == Self::of(value),
            final(self)@ == value,
    {
        *self = Self::new(value);
    }

    /// The wrapper of the least value.
    pub fn min_value() -> (r: Self)
        ensures
            r == Self::of(u16::MIN),
            r@ == u16::MIN,
    {
        Self::new(u16::MIN)
    }

    /// The wrapper of the greatest value.
    pub fn max_value() -> (r: Self)
        ensures
            r == Self::of(u16::MAX),
            r@ == u16::MAX,
    {
        Self::new(u16::MAX)
    }

    /// A value that is stored reads back unchanged, and a wrapper is the one
    /// that stores its own value: the two forms determine each other.
    pub proof fn round_trip(value: u16, stored: Self)
        ensures
            Self::of(value)@ == value,
            Self::of(stored@) == stored,
    {
        lemma_u16_to_be(value, stored.raw);
        lemma_u16_to_be(stored.raw, value);
    }

    /// The wrapper of `value` occupies the bytes of `value`, most significant
    /// first, on either kind of machine.
    pub proof fn byte_order(value: u16)
        ensures
            Self::of(value).stored_bytes() == u16_be_bytes(value),
    {
        lemma_u16_to_be(value, value);
    }

    /// Every operator on two wrappers gives the wrapper whose value is what the
    /// native operator gives on their values, with the native wraparound.
    /// Division and remainder are left out for a zero divisor.
    pub proof fn arithmetic_is_native(a: u16, b: u16)
        ensures
            Self::of(a).add_spec(Self::of(b))@ == wrapping_add(a, b),
            Self::of(a).sub_spec(Self::of(b))@ == wrapping_sub(a, b),
            Self::of(a).mul_spec(Self::of(b))@ == wrapping_mul(a, b),
            b != 0 ==> Self::of(a).div_spec(Self::of(b))@ == a / b,
            b != 0 ==> Self::of(a).rem_spec(Self::of(b))@ == a % b,
            Self::of(a).bitand_spec(Self::of(b))@ == a & b,
            Self::of(a).bitor_spec(Self::of(b))@ == a | b,
            Self::of(a).bitxor_spec(Self::of(b))@ == a ^ b,
            Self::of(a).shl_spec(Self::of(b))@ == wrapping_shl(a, b as u32),
            Self::of(a).shr_spec(Self::of(b))@ == wrapping_shr(a, b as u32),
            Self::of(a).not_spec()@ == !a,
    {
        Self::round_trip(a, Self::of(b));
        Self::round_trip(b, Self::of(a));
        Self::round_trip(wrapping_add(a, b), Self::of(a));
        Self::round_trip(wrapping_sub(a, b), Self::of(a));
        Self::round_trip(wrapping_mul(a, b), Self::of(a));
        Self::round_trip(a / b, Self::of(a));
        Self::round_trip(a % b, Self::of(a));
        Self::round_trip(a & b, Self::of(a));
        Self::round_trip(a | b, Self::of(a));
        Self::round_trip(a ^ b, Self::of(a));
        Self::round_trip(wrapping_shl(a, b as u32), Self::of(a));
        Self::round_trip(wrapping_shr(a, b as u32), Self::of(a));
        Self::round_trip(!a, Self::of(a));
    }

    /// Both byte orders hold the same value, and each wrapper equals the native
    /// integer that it was made from.
    pub proof fn orders_agree(value: u16)
        ensures
            Self::of(value)@ == LittleEndianU16::of(value)@,
            Self::of(value).eq_spec(&value),
            LittleEndianU16::of(value).eq_spec(&value),
    {
        Self::round_trip(value, Self::of(value));
        LittleEndianU16::round_trip(value, LittleEndianU16::of(value));
    }

    /// Two wrappers compare as their values do, whatever their stored forms.
    pub proof fn comparison_is_native(a: u16, b: u16)
        ensures
            Self::of(a).eq_spec(&Self::of(b)) == (a == b),
            Self::of(a) == Self::of(b) <==> a == b,
            Self::of(a).partial_cmp_spec(&Self::of(b)) == a.partial_cmp_spec(&b),
    {
        Self::round_trip(a, Self::of(b));
        Self::round_trip(b, Self::of(a));
    }
}

impl Default for BigEndianU16 {
    /// The wrapper of zero.
    fn default() -> (r: Self)
        ensures
            r == Self::of(0),
            r@ == 0,
    {
        Self::new(0)
    }
}

impl From<u16> for BigEndianU16 {
    fn from(value: u16) -> (r: Self)
        ensures
            r@ == value,
    {
        Self::new(value)
    }
}

impl vstd::std_specs::convert::FromSpecImpl<u16> for BigEndianU16 {
    open spec fn obeys_from_spec() -> bool {
        true
    }

    open spec fn from_spec(value: u16) -> Self {
        Self::of(value)
    }
}

impl From<BigEndianU16> for u16 {
    fn from(value: BigEndianU16) -> (r: u16) {
        value.get()
    }
}

impl vstd::std_specs::convert::FromSpecImpl<BigEndianU16> for u16 {
    open spec fn obeys_from_spec() -> bool {
        true
    }

    open spec fn from_spec(value: BigEndianU16) -> u16 {
        value@
    }
}

// Equality and order go by the values, never by the stored integers.

impl PartialEq for BigEndianU16 {
    fn eq(&self, other: &Self) -> (r: bool) {
        self.get() == other.get()
    }
}

impl vstd::std_specs::cmp::PartialEqSpecImpl for BigEndianU16 {
    open spec fn obeys_eq_spec() -> bool {
        true
    }

    open spec fn eq_spec(&self, other: &Self) -> bool {
        self@ == other@
    }
}

impl Eq for BigEndianU16 {
}

impl PartialEq<u16> for BigEndianU16 {
    fn eq(&self, other: &u16) -> (r: bool) {
        self.get() == *other
    }
}

impl vstd::std_specs::cmp::PartialEqSpecImpl<u16> for BigEndianU16 {
    open spec fn obeys_eq_spec() -> bool {
        true
    }

    open spec fn eq_spec(&self, other: &u16) -> bool {
        self@ == *other
    }
}

impl PartialEq<BigEndianU16> for u16 {
    fn eq(&self, other: &BigEndianU16) -> (r: bool) {
        *self == other.get()
    }
}

impl vstd::std_specs::cmp::PartialEqSpecImpl<BigEndianU16> for u16 {
    open spec fn obeys_eq_spec() -> bool {
        true
    }

    open spec fn eq_spec(&self, other: &BigEndianU16) -> bool {
        *self == other@
    }
}

impl PartialOrd for BigEndianU16 {
    fn partial_cmp(&self, other: &Self) -> (r: Option<Ordering>) {
        let a: u16 = self.get();
        let b: u16 = other.get();
        if a < b {
            Some(Ordering::Less)
        } else if a > b {
            Some(Ordering::Greater)
        } else {
            Some(Ordering::Equal)
        }
    }
}

impl vstd::std_specs::cmp::PartialOrdSpecImpl for BigEndianU16 {
    open spec fn obeys_partial_cmp_spec() -> bool {
        true
    }

    open spec fn partial_cmp_spec(&self, other: &Self) -> Option<Ordering> {
        if self@ < other@ {
            Some(Ordering::Less)
        } else if self@ > other@ {
            Some(Ordering::Greater)
        } else {
            Some(Ordering::Equal)
        }
    }
}

impl PartialOrd<u16> for BigEndianU16 {
    fn partial_cmp(&self, other: &u16) -> (r: Option<Ordering>) {
        let a: u16 = self.get();
        let b: u16 = *other;
        if a < b {
            Some(Ordering::Less)
        } else if a > b {
            Some(Ordering::Greater)
        } else {
            Some(Ordering::Equal)
        }
    }
}

impl vstd::std_specs::cmp::PartialOrdSpecImpl<u16> for BigEndianU16 {
    open spec fn obeys_partial_cmp_spec() -> bool {
        true
    }

    open spec fn partial_cmp_spec(&self, other: &u16) -> Option<Ordering> {
        if self@ < *other {
            Some(Ordering::Less)
        } else if self@ > *other {
            Some(Ordering::Greater)
        } else {
            Some(Ordering::Equal)
        }
    }
}

impl PartialOrd<BigEndianU16> for u16 {
    fn partial_cmp(&self, other: &BigEndianU16) -> (r: Option<Ordering>) {
        let a: u16 = *self;
        let b: u16 = other.get();
        if a < b {
            Some(Ordering::Less)
        } else if a > b {
            Some(Ordering::Greater)
        } else {
            Some(Ordering::Equal)
        }
    }
}

impl vstd::std_specs::cmp::PartialOrdSpecImpl<BigEndianU16> for u16 {
    open spec fn obeys_partial_cmp_spec() -> bool {
        true
    }

    open spec fn partial_cmp_spec(&self, other: &BigEndianU16) -> Option<Ordering> {
        if *self < other@ {
            Some(Ordering::Less)
        } else if *self > other@ {
            Some(Ordering::Greater)
        } else {
            Some(Ordering::Equal)
        }
    }
}

// Wrapper with wrapper. The arithmetic is done on the values; the bitwise
// operations are done on the stored integers, which gives the same wrapper.

impl Add for BigEndianU16 {
    type Output = Self;

    fn add(self, rhs: Self) -> (r: Self)
        ensures
            r@ == wrapping_add(self@, rhs@),
    {
        Self::new(self.get().wrapping_add(rhs.get()))
    }
}

impl vstd::std_specs::ops::AddSpecImpl for BigEndianU16 {
    open spec fn obeys_add_spec() -> bool {
        true
    }

    open spec fn add_req(self, rhs: Self) -> bool {
        true
    }

    open spec fn add_spec(self, rhs: Self) -> Self {
        Self::of(wrapping_add(self@, rhs@))
    }
}

impl Sub for BigEndianU16 {
    type Output = Self;

    fn sub(self, rhs: Self) -> (r: Self)
        ensures
            r@ == wrapping_sub(self@, rhs@),
    {
        Self::new(self.get().wrapping_sub(rhs.get()))
    }
}

impl vstd::std_specs::ops::SubSpecImpl for BigEndianU16 {
    open spec fn obeys_sub_spec() -> bool {
        true
    }

    open spec fn sub_req(self, rhs: Self) -> bool {
        true
    }

    open spec fn sub_spec(self, rhs: Self) -> Self {
        Self::of(wrapping_sub(self@, rhs@))
    }
}

impl Mul for BigEndianU16 {
    type Output = Self;

    fn mul(self, rhs: Self) -> (r: Self)
        ensures
            r@ == wrapping_mul(self@, rhs@),
    {
        Self::new(self.get().wrapping_mul(rhs.get()))
    }
}

impl vstd::std_specs::ops::MulSpecImpl for BigEndianU16 {
    open spec fn obeys_mul_spec() -> bool {
        true
    }

    open spec fn mul_req(self, rhs: Self) -> bool {
        true
    }

    open spec fn mul_spec(self, rhs: Self) -> Self {
        Self::of(wrapping_mul(self@, rhs@))
    }
}

impl Div for BigEndianU16 {
    type Output = Self;

    fn div(self, rhs: Self) -> (r: Self)
        ensures
            r@ == self@ / rhs@,
    {
        Self::new(self.get() / rhs.get())
    }
}

impl vstd::std_specs::ops::DivSpecImpl for BigEndianU16 {
    open spec fn obeys_div_spec() -> bool {
        true
    }

    open spec fn div_req(self, rhs: Self) -> bool {
        rhs@ != 0
    }

    open spec fn div_spec(self, rhs: Self) -> Self {
        Self::of(self@ / rhs@)
    }
}

impl Rem for BigEndianU16 {
    type Output = Self;

    fn rem(self, rhs: Self) -> (r: Self)
        ensures
            r@ == self@ % rhs@,
    {
        Self::new(self.get() % rhs.get())
    }
}

impl vstd::std_specs::ops::RemSpecImpl for BigEndianU16 {
    open spec fn obeys_rem_spec() -> bool {
        true
    }

    open spec fn rem_req(self, rhs: Self) -> bool {
        rhs@ != 0
    }

    open spec fn rem_spec(self, rhs: Self) -> Self {
        Self::of(self@ % rhs@)
    }
}

impl BitAnd for BigEndianU16 {
    type Output = Self;

    fn bitand(self, rhs: Self) -> (r: Self)
        ensures
            r@ == self@ & rhs@,
    {
        proof {
            lemma_u16_to_be(self@, rhs@);
            lemma_u16_to_be(self.raw, rhs.raw);
            lemma_u16_to_be(rhs.raw, self.raw);
        }
        BigEndianU16 { raw: self.raw & rhs.raw }
    }
}

impl vstd::std_specs::ops::BitAndSpecImpl for BigEndianU16 {
    open spec fn obeys_bitand_spec() -> bool {
        true
    }

    open spec fn bitand_req(self, rhs: Self) -> bool {
        true
    }

    open spec fn bitand_spec(self, rhs: Self) -> Self {
        Self::of(self@ & rhs@)
    }
}

impl BitOr for BigEndianU16 {
    type Output = Self;

    fn bitor(self, rhs: Self) -> (r: Self)
        ensures
            r@ == self@ | rhs@,
    {
        proof {
            lemma_u16_to_be(self@, rhs@);
            lemma_u16_to_be(self.raw, rhs.raw);
            lemma_u16_to_be(rhs.raw, self.raw);
        }
        BigEndianU16 { raw: self.raw | rhs.raw }
    }
}

impl vstd::std_specs::ops::BitOrSpecImpl for BigEndianU16 {
    open spec fn obeys_bitor_spec() -> bool {
        true
    }

    open spec fn bitor_req(self, rhs: Self) -> bool {
        true
    }

    open spec fn bitor_spec(self, rhs: Self) -> Self {
        Self::of(self@ | rhs@)
    }
}

impl BitXor for BigEndianU16 {
    type Output = Self;

    fn bitxor(self, rhs: Self) -> (r: Self)
        ensures
            r@ == self@ ^ rhs@,
    {
        proof {
            lemma_u16_to_be(self@, rhs@);
            lemma_u16_to_be(self.raw, rhs.raw);
            lemma_u16_to_be(rhs.raw, self.raw);
        }
        BigEndianU16 { raw: self.raw ^ rhs.raw }
    }
}

impl vstd::std_specs::ops::BitXorSpecImpl for BigEndianU16 {
    open spec fn obeys_bitxor_spec() -> bool {
        true
    }

    open spec fn bitxor_req(self, rhs: Self) -> bool {
        true
    }

    open spec fn bitxor_spec(self, rhs: Self) -> Self {
        Self::of(self@ ^ rhs@)
    }
}

impl Shl for BigEndianU16 {
    type Output = Self;

    fn shl(self, rhs: Self) -> (r: Self)
        ensures
            r@ == wrapping_shl(self@, rhs@ as u32),
    {
        Self::new(self.get().wrapping_shl(rhs.get() as u32))
    }
}

impl vstd::std_specs::ops::ShlSpecImpl for BigEndianU16 {
    open spec fn obeys_shl_spec() -> bool {
        true
    }

    open spec fn shl_req(self, rhs: Self) -> bool {
        true
    }

    open spec fn shl_spec(self, rhs: Self) -> Self {
        Self::of(wrapping_shl(self@, rhs@ as u32))
    }
}

impl Shr for BigEndianU16 {
    type Output = Self;

    fn shr(self, rhs: Self) -> (r: Self)
        ensures
            r@ == wrapping_shr(self@, rhs@ as u32),
    {
        Self::new(self.get().wrapping_shr(rhs.get() as u32))
    }
}

impl vstd::std_specs::ops::ShrSpecImpl for BigEndianU16 {
    open spec fn obeys_shr_spec() -> bool {
        true
    }

    open spec fn shr_req(self, rhs: Self) -> bool {
        true
    }

    open spec fn shr_spec(self, rhs: Self) -> Self {
        Self::of(wrapping_shr(self@, rhs@ as u32))
    }
}

impl Not for BigEndianU16 {
    type Output = Self;

    fn not(self) -> (r: Self)
        ensures
            r@ == !self@,
    {
        proof {
            lemma_u16_to_be(self@, self@);
            lemma_u16_to_be(self.raw, self.raw);
        }
        BigEndianU16 { raw: !self.raw }
    }
}

impl vstd::std_specs::ops::NotSpecImpl for BigEndianU16 {
    open spec fn obeys_not_spec() -> bool {
        true
    }

    open spec fn not_req(self) -> bool {
        true
    }

    open spec fn not_spec(self) -> Self {
        Self::of(!self@)
    }
}

impl AddAssign for BigEndianU16 {
    fn add_assign(&mut self, rhs: Self)
        ensures
            *final(self) == Self::of(wrapping_add(old(self)@, rhs@)),
            final(self)@ == wrapping_add(old(self)@, rhs@),
    {
        *self = *self + rhs;
    }
}

impl SubAssign for BigEndianU16 {
    fn sub_assign(&mut self, rhs: Self)
        ensures
            *final(self) == Self::of(wrapping_sub(old(self)@, rhs@)),
            final(self)@ == wrapping_sub(old(self)@, rhs@),
    {
        *self = *self - rhs;
    }
}

impl MulAssign for BigEndianU16 {
    fn mul_assign(&mut self, rhs: Self)
        ensures
            *final(self) == Self::of(wrapping_mul(old(self)@, rhs@)),
            final(self)@ == wrapping_mul(old(self)@, rhs@),
    {
        *self = *self * rhs;
    }
}

impl DivAssign for BigEndianU16 {
    fn div_assign(&mut self, rhs: Self)
        requires
            rhs@ != 0,
        ensures
            *final(self) == Self::of(old(self)@ / rhs@),
            final(self)@ == old(self)@ / rhs@,
    {
        *self = *self / rhs;
    }
}

impl RemAssign for BigEndianU16 {
    fn rem_assign(&mut self, rhs: Self)
        requires
            rhs@ != 0,
        ensures
            *final(self) == Self::of(old(self)@ % rhs@),
            final(self)@ == old(self)@ % rhs@,
    {
        *self = *self % rhs;
    }
}

impl BitAndAssign for BigEndianU16 {
    fn bitand_assign(&mut self, rhs: Self)
        ensures
            *final(self) == Self::of(old(self)@ & rhs@),
            final(self)@ == old(self)@ & rhs@,
    {
        *self = *self & rhs;
    }
}

impl BitOrAssign for BigEndianU16 {
    fn bitor_assign(&mut self, rhs: Self)
        ensures
            *final(self) == Self::of(old(self)@ | rhs@),
            final(self)@ == old(self)@ | rhs@,
    {
        *self = *self | rhs;
    }
}

impl BitXorAssign for BigEndianU16 {
    fn bitxor_assign(&mut self, rhs: Self)
        ensures
            *final(self) == Self::of(old(self)@ ^ rhs@),
            final(self)@ == old(self)@ ^ rhs@,
    {
        *self = *self ^ rhs;
    }
}

impl ShlAssign for BigEndianU16 {
    fn shl_assign(&mut self, rhs: Self)
        ensures
            *final(self) == Self::of(wrapping_shl(old(self)@, rhs@ as u32)),
            final(self)@ == wrapping_shl(old(self)@, rhs@ as u32),
    {
        *self = *self << rhs;
    }
}

impl ShrAssign for BigEndianU16 {
    fn shr_assign(&mut self, rhs: Self)
        ensures
            *final(self) == Self::of(wrapping_shr(old(self)@, rhs@ as u32)),
            final(self)@ == wrapping_shr(old(self)@, rhs@ as u32),
    {
        *self = *self >> rhs;
    }
}

// Wrapper with native integer: the result is a wrapper.

impl Add<u16> for BigEndianU16 {
    type Output = Self;

    fn add(self, rhs: u16) -> (r: Self)
        ensures
            r@ == wrapping_add(self@, rhs),
    {
        Self::new(self.get().wrapping_add(rhs))
    }
}

impl vstd::std_specs::ops::AddSpecImpl<u16> for BigEndianU16 {
    open spec fn obeys_add_spec() -> bool {
        true
    }

    open spec fn add_req(self, rhs: u16) -> bool {
        true
    }

    open spec fn add_spec(self, rhs: u16) -> Self {
        Self::of(wrapping_add(self@, rhs))
    }
}

impl Sub<u16> for BigEndianU16 {
    type Output = Self;

    fn sub(self, rhs: u16) -> (r: Self)
        ensures
            r@ == wrapping_sub(self@, rhs),
    {
        Self::new(self.get().wrapping_sub(rhs))
    }
}

impl vstd::std_specs::ops::SubSpecImpl<u16> for BigEndianU16 {
    open spec fn obeys_sub_spec() -> bool {
        true
    }

    open spec fn sub_req(self, rhs: u16) -> bool {
        true
    }

    open spec fn sub_spec(self, rhs: u16) -> Self {
        Self::of(wrapping_sub(self@, rhs))
    }
}

impl Mul<u16> for BigEndianU16 {
    type Output = Self;

    fn mul(self, rhs: u16) -> (r: Self)
        ensures
            r@ == wrapping_mul(self@, rhs),
    {
        Self::new(self.get().wrapping_mul(rhs))
    }
}

impl vstd::std_specs::ops::MulSpecImpl<u16> for BigEndianU16 {
    open spec fn obeys_mul_spec() -> bool {
        true
    }

    open spec fn mul_req(self, rhs: u16) -> bool {
        true
    }

    open spec fn mul_spec(self, rhs: u16) -> Self {
        Self::of(wrapping_mul(self@, rhs))
    }
}

impl Div<u16> for BigEndianU16 {
    type Output = Self;

    fn div(self, rhs: u16) -> (r: Self)
        ensures
            r@ == self@ / rhs,
    {
        Self::new(self.get() / rhs)
    }
}

impl vstd::std_specs::ops::DivSpecImpl<u16> for BigEndianU16 {
    open spec fn obeys_div_spec() -> bool {
        true
    }

    open spec fn div_req(self, rhs: u16) -> bool {
        rhs != 0
    }

    open spec fn div_spec(self, rhs: u16) -> Self {
        Self::of(self@ / rhs)
    }
}

impl Rem<u16> for BigEndianU16 {
    type Output = Self;

    fn rem(self, rhs: u16) -> (r: Self)
        ensures
            r@ == self@ % rhs,
    {
        Self::new(self.get() % rhs)
    }
}

impl vstd::std_specs::ops::RemSpecImpl<u16> for BigEndianU16 {
    open spec fn obeys_rem_spec() -> bool {
        true
    }

    open spec fn rem_req(self, rhs: u16) -> bool {
        rhs != 0
    }

    open spec fn rem_spec(self, rhs: u16) -> Self {
        Self::of(self@ % rhs)
    }
}

impl BitAnd<u16> for BigEndianU16 {
    type Output = Self;

    fn bitand(self, rhs: u16) -> (r: Self)
        ensures
            r@ == self@ & rhs,
    {
        Self::new(self.get() & rhs)
    }
}

impl vstd::std_specs::ops::BitAndSpecImpl<u16> for BigEndianU16 {
    open spec fn obeys_bitand_spec() -> bool {
        true
    }

    open spec fn bitand_req(self, rhs: u16) -> bool {
        true
    }

    open spec fn bitand_spec(self, rhs: u16) -> Self {
        Self::of(self@ & rhs)
    }
}

impl BitOr<u16> for BigEndianU16 {
    type Output = Self;

    fn bitor(self, rhs: u16) -> (r: Self)
        ensures
            r@ == self@ | rhs,
    {
        Self::new(self.get() | rhs)
    }
}

impl vstd::std_specs::ops::BitOrSpecImpl<u16> for BigEndianU16 {
    open spec fn obeys_bitor_spec() -> bool {
        true
    }

    open spec fn bitor_req(self, rhs: u16) -> bool {
        true
    }

    open spec fn bitor_spec(self, rhs: u16) -> Self {
        Self::of(self@ | rhs)
    }
}

impl BitXor<u16> for BigEndianU16 {
    type Output = Self;

    fn bitxor(self, rhs: u16) -> (r: Self)
        ensures
            r@ == self@ ^ rhs,
    {
        Self::new(self.get() ^ rhs)
    }
}

impl vstd::std_specs::ops::BitXorSpecImpl<u16> for BigEndianU16 {
    open spec fn obeys_bitxor_spec() -> bool {
        true
    }

    open spec fn bitxor_req(self, rhs: u16) -> bool {
        true
    }

    open spec fn bitxor_spec(self, rhs: u16) -> Self {
        Self::of(self@ ^ rhs)
    }
}

impl Shl<u16> for BigEndianU16 {
    type Output = Self;

    fn shl(self, rhs: u16) -> (r: Self)
        ensures
            r@ == wrapping_shl(self@, rhs as u32),
    {
        Self::new(self.get().wrapping_shl(rhs as u32))
    }
}

impl vstd::std_specs::ops::ShlSpecImpl<u16> for BigEndianU16 {
    open spec fn obeys_shl_spec() -> bool {
        true
    }

    open spec fn shl_req(self, rhs: u16) -> bool {
        true
    }

    open spec fn shl_spec(self, rhs: u16) -> Self {
        Self::of(wrapping_shl(self@, rhs as u32))
    }
}

impl Shr<u16> for BigEndianU16 {
    type Output = Self;

    fn shr(self, rhs: u16) -> (r: Self)
        ensures
            r@ == wrapping_shr(self@, rhs as u32),
    {
        Self::new(self.get().wrapping_shr(rhs as u32))
    }
}

impl vstd::std_specs::ops::ShrSpecImpl<u16> for BigEndianU16 {
    open spec fn obeys_shr_spec() -> bool {
        true
    }

    open spec fn shr_req(self, rhs: u16) -> bool {
        true
    }

    open spec fn shr_spec(self, rhs: u16) -> Self {
        Self::of(wrapping_shr(self@, rhs as u32))
    }
}

impl AddAssign<u16> for BigEndianU16 {
    fn add_assign(&mut self, rhs: u16)
        ensures
            *final(self) == Self::of(wrapping_add(old(self)@, rhs)),
            final(self)@ == wrapping_add(old(self)@, rhs),
    {
        *self = *self + rhs;
    }
}

impl SubAssign<u16> for BigEndianU16 {
    fn sub_assign(&mut self, rhs: u16)
        ensures
            *final(self) == Self::of(wrapping_sub(old(self)@, rhs)),
            final(self)@ == wrapping_sub(old(self)@, rhs),
    {
        *self = *self - rhs;
    }
}

impl MulAssign<u16> for BigEndianU16 {
    fn mul_assign(&mut self, rhs: u16)
        ensures
            *final(self) == Self::of(wrapping_mul(old(self)@, rhs)),
            final(self)@ == wrapping_mul(old(self)@, rhs),
    {
        *self = *self * rhs;
    }
}

impl DivAssign<u16> for BigEndianU16 {
    fn div_assign(&mut self, rhs: u16)
        requires
            rhs != 0,
        ensures
            *final(self) == Self::of(old(self)@ / rhs),
            final(self)@ == old(self)@ / rhs,
    {
        *self = *self / rhs;
    }
}

impl RemAssign<u16> for BigEndianU16 {
    fn rem_assign(&mut self, rhs: u16)
        requires
            rhs != 0,
        ensures
            *final(self) == Self::of(old(self)@ % rhs),
            final(self)@ == old(self)@ % rhs,
    {
        *self = *self % rhs;
    }
}

impl BitAndAssign<u16> for BigEndianU16 {
    fn bitand_assign(&mut self, rhs: u16)
        ensures
            *final(self) == Self::of(old(self)@ & rhs),
            final(self)@ == old(self)@ & rhs,
    {
        *self = *self & rhs;
    }
}

impl BitOrAssign<u16> for BigEndianU16 {
    fn bitor_assign(&mut self, rhs: u16)
        ensures
            *final(self) == Self::of(old(self)@ | rhs),
            final(self)@ == old(self)@ | rhs,
    {
        *self = *self | rhs;
    }
}

impl BitXorAssign<u16> for BigEndianU16 {
    fn bitxor_assign(&mut self, rhs: u16)
        ensures
            *final(self) == Self::of(old(self)@ ^ rhs),
            final(self)@ == old(self)@ ^ rhs,
    {
        *self = *self ^ rhs;
    }
}

impl ShlAssign<u16> for BigEndianU16 {
    fn shl_assign(&mut self, rhs: u16)
        ensures
            *final(self) == Self::of(wrapping_shl(old(self)@, rhs as u32)),
            final(self)@ == wrapping_shl(old(self)@, rhs as u32),
    {
        *self = *self << rhs;
    }
}

impl ShrAssign<u16> for BigEndianU16 {
    fn shr_assign(&mut self, rhs: u16)
        ensures
            *final(self) == Self::of(wrapping_shr(old(self)@, rhs as u32)),
            final(self)@ == wrapping_shr(old(self)@, rhs as u32),
    {
        *self = *self >> rhs;
    }
}

// Native integer with wrapper: the result is a native integer.

impl Add<BigEndianU16> for u16 {
    type Output = u16;

    fn add(self, rhs: BigEndianU16) -> (r: u16) {
        self.wrapping_add(rhs.get())
    }
}

impl vstd::std_specs::ops::AddSpecImpl<BigEndianU16> for u16 {
    open spec fn obeys_add_spec() -> bool {
        true
    }

    open spec fn add_req(self, rhs: BigEndianU16) -> bool {
        true
    }

    open spec fn add_spec(self, rhs: BigEndianU16) -> u16 {
        wrapping_add(self, rhs@)
    }
}

impl Sub<BigEndianU16> for u16 {
    type Output = u16;

    fn sub(self, rhs: BigEndianU16) -> (r: u16) {
        self.wrapping_sub(rhs.get())
    }
}

impl vstd::std_specs::ops::SubSpecImpl<BigEndianU16> for u16 {
    open spec fn obeys_sub_spec() -> bool {
        true
    }

    open spec fn sub_req(self, rhs: BigEndianU16) -> bool {
        true
    }

    open spec fn sub_spec(self, rhs: BigEndianU16) -> u16 {
        wrapping_sub(self, rhs@)
    }
}

impl Mul<BigEndianU16> for u16 {
    type Output = u16;

    fn mul(self, rhs: BigEndianU16) -> (r: u16) {
        self.wrapping_mul(rhs.get())
    }
}

impl vstd::std_specs::ops::MulSpecImpl<BigEndianU16> for u16 {
    open spec fn obeys_mul_spec() -> bool {
        true
    }

    open spec fn mul_req(self, rhs: BigEndianU16) -> bool {
        true
    }

    open spec fn mul_spec(self, rhs: BigEndianU16) -> u16 {
        wrapping_mul(self, rhs@)
    }
}

impl Div<BigEndianU16> for u16 {
    type Output = u16;

    fn div(self, rhs: BigEndianU16) -> (r: u16) {
        self / rhs.get()
    }
}

impl vstd::std_specs::ops::DivSpecImpl<BigEndianU16> for u16 {
    open spec fn obeys_div_spec() -> bool {
        true
    }

    open spec fn div_req(self, rhs: BigEndianU16) -> bool {
        rhs@ != 0
    }

    open spec fn div_spec(self, rhs: BigEndianU16) -> u16 {
        self / rhs@
    }
}

impl Rem<BigEndianU16> for u16 {
    type Output = u16;

    fn rem(self, rhs: BigEndianU16) -> (r: u16) {
        self % rhs.get()
    }
}

impl vstd::std_specs::ops::RemSpecImpl<BigEndianU16> for u16 {
    open spec fn obeys_rem_spec() -> bool {
        true
    }

    open spec fn rem_req(self, rhs: BigEndianU16) -> bool {
        rhs@ != 0
    }

    open spec fn rem_spec(self, rhs: BigEndianU16) -> u16 {
        self % rhs@
    }
}

impl BitAnd<BigEndianU16> for u16 {
    type Output = u16;

    fn bitand(self, rhs: BigEndianU16) -> (r: u16) {
        self & rhs.get()
    }
}

impl vstd::std_specs::ops::BitAndSpecImpl<BigEndianU16> for u16 {
    open spec fn obeys_bitand_spec() -> bool {
        true
    }

    open spec fn bitand_req(self, rhs: BigEndianU16) -> bool {
        true
    }

    open spec fn bitand_spec(self, rhs: BigEndianU16) -> u16 {
        self & rhs@
    }
}

impl BitOr<BigEndianU16> for u16 {
    type Output = u16;

    fn bitor(self, rhs: BigEndianU16) -> (r: u16) {
        self | rhs.get()
    }
}

impl vstd::std_specs::ops::BitOrSpecImpl<BigEndianU16> for u16 {
    open spec fn obeys_bitor_spec() -> bool {
        true
    }

    open spec fn bitor_req(self, rhs: BigEndianU16) -> bool {
        true
    }

    open spec fn bitor_spec(self, rhs: BigEndianU16) -> u16 {
        self | rhs@
    }
}

impl BitXor<BigEndianU16> for u16 {
    type Output = u16;

    fn bitxor(self, rhs: BigEndianU16) -> (r: u16) {
        self ^ rhs.get()
    }
}

impl vstd::std_specs::ops::BitXorSpecImpl<BigEndianU16> for u16 {
    open spec fn obeys_bitxor_spec() -> bool {
        true
    }

    open spec fn bitxor_req(self, rhs: BigEndianU16) -> bool {
        true
    }

    open spec fn bitxor_spec(self, rhs: BigEndianU16) -> u16 {
        self ^ rhs@
    }
}

impl Shl<BigEndianU16> for u16 {
    type Output = u16;

    fn shl(self, rhs: BigEndianU16) -> (r: u16) {
        self.wrapping_shl(rhs.get() as u32)
    }
}

impl vstd::std_specs::ops::ShlSpecImpl<BigEndianU16> for u16 {
    open spec fn obeys_shl_spec() -> bool {
        true
    }

    open spec fn shl_req(self, rhs: BigEndianU16) -> bool {
        true
    }

    open spec fn shl_spec(self, rhs: BigEndianU16) -> u16 {
        wrapping_shl(self, rhs@ as u32)
    }
}

impl Shr<BigEndianU16> for u16 {
    type Output = u16;

    fn shr(self, rhs: BigEndianU16) -> (r: u16) {
        self.wrapping_shr(rhs.get() as u32)
    }
}

impl vstd::std_specs::ops::ShrSpecImpl<BigEndianU16> for u16 {
    open spec fn obeys_shr_spec() -> bool {
        true
    }

    open spec fn shr_req(self, rhs: BigEndianU16) -> bool {
        true
    }

    open spec fn shr_spec(self, rhs: BigEndianU16) -> u16 {
        wrapping_shr(self, rhs@ as u32)
    }
}

impl AddAssign<BigEndianU16> for u16 {
    fn add_assign(&mut self, rhs: BigEndianU16)
        ensures
            *final(self) == wrapping_add(*old(self), rhs@),
    {
        *self = *self + rhs;
    }
}

impl SubAssign<BigEndianU16> for u16 {
    fn sub_assign(&mut self, rhs: BigEndianU16)
        ensures
            *final(self) == wrapping_sub(*old(self), rhs@),
    {
        *self = *self - rhs;
    }
}

impl MulAssign<BigEndianU16> for u16 {
    fn mul_assign(&mut self, rhs: BigEndianU16)
        ensures
            *final(self) == wrapping_mul(*old(self), rhs@),
    {
        *self = *self * rhs;
    }
}

impl DivAssign<BigEndianU16> for u16 {
    fn div_assign(&mut self, rhs: BigEndianU16)
        requires
            rhs@ != 0,
        ensures
            *final(self) == *old(self) / rhs@,
    {
        *self = *self / rhs;
    }
}

impl RemAssign<BigEndianU16> for u16 {
    fn rem_assign(&mut self, rhs: BigEndianU16)
        requires
            rhs@ != 0,
        ensures
            *final(self) == *old(self) % rhs@,
    {
        *self = *self % rhs;
    }
}

impl BitAndAssign<BigEndianU16> for u16 {
    fn bitand_assign(&mut self, rhs: BigEndianU16)
        ensures
            *final(self) == *old(self) & rhs@,
    {
        *self = *self & rhs;
    }
}

impl BitOrAssign<BigEndianU16> for u16 {
    fn bitor_assign(&mut self, rhs: BigEndianU16)
        ensures
            *final(self) == *old(self) | rhs@,
    {
        *self = *self | rhs;
    }
}

impl BitXorAssign<BigEndianU16> for u16 {
    fn bitxor_assign(&mut self, rhs: BigEndianU16)
        ensures
            *final(self) == *old(self) ^ rhs@,
    {
        *self = *self ^ rhs;
    }
}

impl ShlAssign<BigEndianU16> for u16 {
    fn shl_assign(&mut self, rhs: BigEndianU16)
        ensures
            *final(self) == wrapping_shl(*old(self), rhs@ as u32),
    {
        *self = *self << rhs;
    }
}

impl ShrAssign<BigEndianU16> for u16 {
    fn shr_assign(&mut self, rhs: BigEndianU16)
        ensures
            *final(self) == wrapping_shr(*old(self), rhs@ as u32),
    {
        *self = *self >> rhs;
    }
}

} // verus!
