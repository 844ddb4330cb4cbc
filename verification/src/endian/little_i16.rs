//! `LittleEndianI16`: a signed 16-bit integer kept in little-endian byte order.

use vstd::prelude::*;
use vstd::std_specs::cmp::{PartialEqSpec, PartialOrdSpec};
use vstd::std_specs::ops::{
    AddSpec, BitAndSpec, BitOrSpec, BitXorSpec, DivSpec, MulSpec, NegSpec, NotSpec, RemSpec,
    ShlSpec, ShrSpec, SubSpec,
};
use vstd::wrapping::i16_specs::{
    wrapping_add, wrapping_mul, wrapping_shl, wrapping_shr, wrapping_sub,
};
use core::cmp::Ordering;
use core::ops::{
    Add, AddAssign, BitAnd, BitAndAssign, BitOr, BitOrAssign, BitXor, BitXorAssign, Div,
    DivAssign, Mul, MulAssign, Neg, Not, Rem, RemAssign, Shl, ShlAssign, Shr, ShrAssign,
    Sub, SubAssign,
};
use crate::order::bits16::{i16_le_bytes, i16_stored_bytes, i16_to_le, lemma_i16_to_le};
use crate::native::{
    i16_divides, i16_quot, i16_rem, lemma_i16_division, quot_toward_zero, rem_toward_zero,
};

verus! {

/// A signed 16-bit integer whose bytes lie in memory least significant
/// first, whatever the byte order of the machine.
///
/// `raw` is the stored integer: read as a native `i16` it is the value on a
/// little-endian machine and the value with its bytes reversed on the other kind.
/// Every `i16` is the stored form of exactly one value. The view is the value.
#[derive(Clone, Copy, Hash)]
pub struct LittleEndianI16 {
    pub raw: i16,
}

#[allow(non_camel_case_types)]
pub type i16_le = LittleEndianI16;

impl View for LittleEndianI16 {
    type V = i16;

    open spec fn view(&self) -> i16 {
        i16_to_le(self.raw)
    }
}

impl LittleEndianI16 {
    /// The number of bits of a value.
    pub const BITS: u32 = 16;

    /// The wrapper that holds `value`.
    pub open spec fn of(value: i16) -> Self {
        LittleEndianI16 { raw: i16_to_le(value) }
    }

    /// The bytes that the wrapper occupies, lowest address first.
    pub open spec fn stored_bytes(self) -> Seq<u8> {
        i16_stored_bytes(self.raw)
    }

    /// Stores `value`, given in native byte order.
    pub fn new(value: i16) -> (r: Self)
        ensures
            r == Self::of(value),
            r@ == value,
    {
        proof {
            lemma_i16_to_le(value, value);
        }
        LittleEndianI16 { raw: value.to_le() }
    }

    /// The value, in native byte order.
    pub fn get(self) -> (value: i16)
        ensures
            value == self@,
    {
        i16::from_le(self.raw)
    }

    /// Replaces the stored value by `value`, given in native byte order.
    pub fn set(&mut self, value: i16)
        ensures
            *final(self) == Self::of(value),
            final(self)@ == value,
    {
        *self = Self::new(value);
    }

    /// The wrapper of the least value.
    pub fn min_value() -> (r: Self)
        ensures
            r == Self::of(i16::MIN),
            r@ == i16::MIN,
    {
        Self::new(i16::MIN)
    }

    /// The wrapper of the greatest value.
    pub fn max_value() -> (r: Self)
        ensures
            r == Self::of(i16::MAX),
            r@ == i16::MAX,
    {
        Self::new(i16::MAX)
    }

    /// A value that is stored reads back unchanged, and a wrapper is the one
    /// that stores its own value: the two forms determine each other.
    pub proof fn round_trip(value: i16, stored: Self)
        ensures
            Self::of(value)@ == value,
            Self::of(stored@) == stored,
    {
        lemma_i16_to_le(value, stored.raw);
        lemma_i16_to_le(stored.raw, value);
    }

    /// The wrapper of `value` occupies the bytes of `value`, least significant
    /// first, on either kind of machine.
    pub proof fn byte_order(value: i16)
        ensures
            Self::of(value).stored_bytes() == i16_le_bytes(value),
    {
        lemma_i16_to_le(value, value);
    }

    /// Every operator on two wrappers gives the wrapper whose value is what the
    /// native operator gives on their values, with the native wraparound.
    /// Division and remainder are left out where the machine cannot divide.
    pub proof fn arithmetic_is_native(a: i16, b: i16)
        ensures
            Self::of(a).add_spec(Self::of(b))@ == wrapping_add(a, b),
            Self::of(a).sub_spec(Self::of(b))@ == wrapping_sub(a, b),
            Self::of(a).mul_spec(Self::of(b))@ == wrapping_mul(a, b),
            i16_divides(a, b) ==> Self::of(a).div_spec(Self::of(b))@ == i16_quot(a, b),
            i16_divides(a, b) ==> i16_quot(a, b) == quot_toward_zero(a as int, b as int),
            i16_divides(a, b) ==> Self::of(a).rem_spec(Self::of(b))@ == i16_rem(a, b),
            i16_divides(a, b) ==> i16_rem(a, b) == rem_toward_zero(a as int, b as int),
            Self::of(a).bitand_spec(Self::of(b))@ == a & b,
            Self::of(a).bitor_spec(Self::of(b))@ == a | b,
            Self::of(a).bitxor_spec(Self::of(b))@ == a ^ b,
            Self::of(a).shl_spec(Self::of(b))@ == wrapping_shl(a, b as u32),
            Self::of(a).shr_spec(Self::of(b))@ == wrapping_shr(a, b as u32),
            Self::of(a).not_spec()@ == !a,
            Self::of(a).neg_spec()@ == wrapping_sub(0, a),
    {
        if i16_divides(a, b) {
            lemma_i16_division(a, b);
        }
        Self::round_trip(a, Self::of(b));
        Self::round_trip(b, Self::of(a));
        Self::round_trip(wrapping_add(a, b), Self::of(a));
        Self::round_trip(wrapping_sub(a, b), Self::of(a));
        Self::round_trip(wrapping_mul(a, b), Self::of(a));
        Self::round_trip(i16_quot(a, b), Self::of(a));
        Self::round_trip(i16_rem(a, b), Self::of(a));
        Self::round_trip(a & b, Self::of(a));
        Self::round_trip(a | b, Self::of(a));
        Self::round_trip(a ^ b, Self::of(a));
        Self::round_trip(wrapping_shl(a, b as u32), Self::of(a));
        Self::round_trip(wrapping_shr(a, b as u32), Self::of(a));
        Self::round_trip(!a, Self::of(a));
        Self::round_trip(wrapping_sub(0, a), Self::of(a));
    }

    /// Two wrappers compare as their values do, whatever their stored forms.
    pub proof fn comparison_is_native(a: i16, b: i16)
        ensures
            Self::of(a).eq_spec(&Self::of(b)) == (a == b),
            Self::of(a) == Self::of(b) <==> a == b,
            Self::of(a).partial_cmp_spec(&Self::of(b)) == a.partial_cmp_spec(&b),
    {
        Self::round_trip(a, Self::of(b));
        Self::round_trip(b, Self::of(a));
    }
}

impl Default for LittleEndianI16 {
    /// The wrapper of zero.
    fn default() -> (r: Self)
        ensures
            r == Self::of(0),
            r@ == 0,
    {
        Self::new(0)
    }
}

impl From<i16> for LittleEndianI16 {
    fn from(value: i16) -> (r: Self)
        ensures
            r@ == value,
    {
        Self::new(value)
    }
}

impl vstd::std_specs::convert::FromSpecImpl<i16> for LittleEndianI16 {
    open spec fn obeys_from_spec() -> bool {
        true
    }

    open spec fn from_spec(value: i16) -> Self {
        Self::of(value)
    }
}

impl From<LittleEndianI16> for i16 {
    fn from(value: LittleEndianI16) -> (r: i16) {
        value.get()
    }
}

impl vstd::std_specs::convert::FromSpecImpl<LittleEndianI16> for i16 {
    open spec fn obeys_from_spec() -> bool {
        true
    }

    open spec fn from_spec(value: LittleEndianI16) -> i16 {
        value@
    }
}

// Equality and order go by the values, never by the stored integers.

impl PartialEq for LittleEndianI16 {
    fn eq(&self, other: &Self) -> (r: bool) {
        self.get() == other.get()
    }
}

impl vstd::std_specs::cmp::PartialEqSpecImpl for LittleEndianI16 {
    open spec fn obeys_eq_spec() -> bool {
        true
    }

    open spec fn eq_spec(&self, other: &Self) -> bool {
        self@ == other@
    }
}

impl Eq for LittleEndianI16 {
}

impl PartialEq<i16> for LittleEndianI16 {
    fn eq(&self, other: &i16) -> (r: bool) {
        self.get() == *other
    }
}

impl vstd::std_specs::cmp::PartialEqSpecImpl<i16> for LittleEndianI16 {
    open spec fn obeys_eq_spec() -> bool {
        true
    }

    open spec fn eq_spec(&self, other: &i16) -> bool {
        self@ == *other
    }
}

impl PartialEq<LittleEndianI16> for i16 {
    fn eq(&self, other: &LittleEndianI16) -> (r: bool) {
        *self == other.get()
    }
}

impl vstd::std_specs::cmp::PartialEqSpecImpl<LittleEndianI16> for i16 {
    open spec fn obeys_eq_spec() -> bool {
        true
    }

    open spec fn eq_spec(&self, other: &LittleEndianI16) -> bool {
        *self == other@
    }
}

impl PartialOrd for LittleEndianI16 {
    fn partial_cmp(&self, other: &Self) -> (r: Option<Ordering>) {
        let a: i16 = self.get();
        let b: i16 = other.get();
        if a < b {
            Some(Ordering::Less)
        } else if a > b {
            Some(Ordering::Greater)
        } else {
            Some(Ordering::Equal)
        }
    }
}

impl vstd::std_specs::cmp::PartialOrdSpecImpl for LittleEndianI16 {
    open spec fn obeys_partial_cmp_spec() -> bool {
        true
    }

    open spec fn partial_cmp_spec(&self, other: &Self) -> Option<Ordering> {
        if self@ < other@ {
            Some(Ordering::Less)
        } else if self@ > other@ {
            Some(Ordering::Greater)
        } else {
            Some(Ordering::Equal)
        }
    }
}

impl PartialOrd<i16> for LittleEndianI16 {
    fn partial_cmp(&self, other: &i16) -> (r: Option<Ordering>) {
        let a: i16 = self.get();
        let b: i16 = *other;
        if a < b {
            Some(Ordering::Less)
        } else if a > b {
            Some(Ordering::Greater)
        } else {
            Some(Ordering::Equal)
        }
    }
}

impl vstd::std_specs::cmp::PartialOrdSpecImpl<i16> for LittleEndianI16 {
    open spec fn obeys_partial_cmp_spec() -> bool {
        true
    }

    open spec fn partial_cmp_spec(&self, other: &i16) -> Option<Ordering> {
        if self@ < *other {
            Some(Ordering::Less)
        } else if self@ > *other {
            Some(Ordering::Greater)
        } else {
            Some(Ordering::Equal)
        }
    }
}

impl PartialOrd<LittleEndianI16> for i16 {
    fn partial_cmp(&self, other: &LittleEndianI16) -> (r: Option<Ordering>) {
        let a: i16 = *self;
        let b: i16 = other.get();
        if a < b {
            Some(Ordering::Less)
        } else if a > b {
            Some(Ordering::Greater)
        } else {
            Some(Ordering::Equal)
        }
    }
}

impl vstd::std_specs::cmp::PartialOrdSpecImpl<LittleEndianI16> for i16 {
    open spec fn obeys_partial_cmp_spec() -> bool {
        true
    }

    open spec fn partial_cmp_spec(&self, other: &LittleEndianI16) -> Option<Ordering> {
        if *self < other@ {
            Some(Ordering::Less)
        } else if *self > other@ {
            Some(Ordering::Greater)
        } else {
            Some(Ordering::Equal)
        }
    }
}

// Wrapper with wrapper. The arithmetic is done on the values; the bitwise
// operations are done on the stored integers, which gives the same wrapper.

impl Add for LittleEndianI16 {
    type Output = Self;

    fn add(self, rhs: Self) -> (r: Self)
        ensures
            r@ == wrapping_add(self@, rhs@),
    {
        Self::new(self.get().wrapping_add(rhs.get()))
    }
}

impl vstd::std_specs::ops::AddSpecImpl for LittleEndianI16 {
    open spec fn obeys_add_spec() -> bool {
        true
    }

    open spec fn add_req(self, rhs: Self) -> bool {
        true
    }

    open spec fn add_spec(self, rhs: Self) -> Self {
        Self::of(wrapping_add(self@, rhs@))
    }
}

impl Sub for LittleEndianI16 {
    type Output = Self;

    fn sub(self, rhs: Self) -> (r: Self)
        ensures
            r@ == wrapping_sub(self@, rhs@),
    {
        Self::new(self.get().wrapping_sub(rhs.get()))
    }
}

impl vstd::std_specs::ops::SubSpecImpl for LittleEndianI16 {
    open spec fn obeys_sub_spec() -> bool {
        true
    }

    open spec fn sub_req(self, rhs: Self) -> bool {
        true
    }

    open spec fn sub_spec(self, rhs: Self) -> Self {
        Self::of(wrapping_sub(self@, rhs@))
    }
}

impl Mul for LittleEndianI16 {
    type Output = Self;

    fn mul(self, rhs: Self) -> (r: Self)
        ensures
            r@ == wrapping_mul(self@, rhs@),
    {
        Self::new(self.get().wrapping_mul(rhs.get()))
    }
}

impl vstd::std_specs::ops::MulSpecImpl for LittleEndianI16 {
    open spec fn obeys_mul_spec() -> bool {
        true
    }

    open spec fn mul_req(self, rhs: Self) -> bool {
        true
    }

    open spec fn mul_spec(self, rhs: Self) -> Self {
        Self::of(wrapping_mul(self@, rhs@))
    }
}

impl Div for LittleEndianI16 {
    type Output = Self;

    fn div(self, rhs: Self) -> (r: Self)
        ensures
            r@ == i16_quot(self@, rhs@),
    {
        Self::new(self.get() / rhs.get())
    }
}

impl vstd::std_specs::ops::DivSpecImpl for LittleEndianI16 {
    open spec fn obeys_div_spec() -> bool {
        true
    }

    open spec fn div_req(self, rhs: Self) -> bool {
        i16_divides(self@, rhs@)
    }

    open spec fn div_spec(self, rhs: Self) -> Self {
        Self::of(i16_quot(self@, rhs@))
    }
}

impl Rem for LittleEndianI16 {
    type Output = Self;

    fn rem(self, rhs: Self) -> (r: Self)
        ensures
            r@ == i16_rem(self@, rhs@),
    {
        Self::new(self.get() % rhs.get())
    }
}

impl vstd::std_specs::ops::RemSpecImpl for LittleEndianI16 {
    open spec fn obeys_rem_spec() -> bool {
        true
    }

    open spec fn rem_req(self, rhs: Self) -> bool {
        i16_divides(self@, rhs@)
    }

    open spec fn rem_spec(self, rhs: Self) -> Self {
        Self::of(i16_rem(self@, rhs@))
    }
}

impl BitAnd for LittleEndianI16 {
    type Output = Self;

    fn bitand(self, rhs: Self) -> (r: Self)
        ensures
            r@ == self@ & rhs@,
    {
        proof {
            lemma_i16_to_le(self@, rhs@);
            lemma_i16_to_le(self.raw, rhs.raw);
            lemma_i16_to_le(rhs.raw, self.raw);
        }
        LittleEndianI16 { raw: self.raw & rhs.raw }
    }
}

impl vstd::std_specs::ops::BitAndSpecImpl for LittleEndianI16 {
    open spec fn obeys_bitand_spec() -> bool {
        true
    }

    open spec fn bitand_req(self, rhs: Self) -> bool {
        true
    }

    open spec fn bitand_spec(self, rhs: Self) -> Self {
        Self::of(self@ & rhs@)
    }
}

impl BitOr for LittleEndianI16 {
    type Output = Self;

    fn bitor(self, rhs: Self) -> (r: Self)
        ensures
            r@ == self@ | rhs@,
    {
        proof {
            lemma_i16_to_le(self@, rhs@);
            lemma_i16_to_le(self.raw, rhs.raw);
            lemma_i16_to_le(rhs.raw, self.raw);
        }
        LittleEndianI16 { raw: self.raw | rhs.raw }
    }
}

impl vstd::std_specs::ops::BitOrSpecImpl for LittleEndianI16 {
    open spec fn obeys_bitor_spec() -> bool {
        true
    }

    open spec fn bitor_req(self, rhs: Self) -> bool {
        true
    }

    open spec fn bitor_spec(self, rhs: Self) -> Self {
        Self::of(self@ | rhs@)
    }
}

impl BitXor for LittleEndianI16 {
    type Output = Self;

    fn bitxor(self, rhs: Self) -> (r: Self)
        ensures
            r@ == self@ ^ rhs@,
    {
        proof {
            lemma_i16_to_le(self@, rhs@);
            lemma_i16_to_le(self.raw, rhs.raw);
            lemma_i16_to_le(rhs.raw, self.raw);
        }
        LittleEndianI16 { raw: self.raw ^ rhs.raw }
    }
}

impl vstd::std_specs::ops::BitXorSpecImpl for LittleEndianI16 {
    open spec fn obeys_bitxor_spec() -> bool {
        true
    }

    open spec fn bitxor_req(self, rhs: Self) -> bool {
        true
    }

    open spec fn bitxor_spec(self, rhs: Self) -> Self {
        Self::of(self@ ^ rhs@)
    }
}

impl Shl for LittleEndianI16 {
    type Output = Self;

    fn shl(self, rhs: Self) -> (r: Self)
        ensures
            r@ == wrapping_shl(self@, rhs@ as u32),
    {
        Self::new(self.get().wrapping_shl(rhs.get() as u32))
    }
}

impl vstd::std_specs::ops::ShlSpecImpl for LittleEndianI16 {
    open spec fn obeys_shl_spec() -> bool {
        true
    }

    open spec fn shl_req(self, rhs: Self) -> bool {
        true
    }

    open spec fn shl_spec(self, rhs: Self) -> Self {
        Self::of(wrapping_shl(self@, rhs@ as u32))
    }
}

impl Shr for LittleEndianI16 {
    type Output = Self;

    fn shr(self, rhs: Self) -> (r: Self)
        ensures
            r@ == wrapping_shr(self@, rhs@ as u32),
    {
        Self::new(self.get().wrapping_shr(rhs.get() as u32))
    }
}

impl vstd::std_specs::ops::ShrSpecImpl for LittleEndianI16 {
    open spec fn obeys_shr_spec() -> bool {
        true
    }

    open spec fn shr_req(self, rhs: Self) -> bool {
        true
    }

    open spec fn shr_spec(self, rhs: Self) -> Self {
        Self::of(wrapping_shr(self@, rhs@ as u32))
    }
}

impl Not for LittleEndianI16 {
    type Output = Self;

    fn not(self) -> (r: Self)
        ensures
            r@ == !self@,
    {
        proof {
            lemma_i16_to_le(self@, self@);
            lemma_i16_to_le(self.raw, self.raw);
        }
        LittleEndianI16 { raw: !self.raw }
    }
}

impl vstd::std_specs::ops::NotSpecImpl for LittleEndianI16 {
    open spec fn obeys_not_spec() -> bool {
        true
    }

    open spec fn not_req(self) -> bool {
        true
    }

    open spec fn not_spec(self) -> Self {
        Self::of(!self@)
    }
}

impl Neg for LittleEndianI16 {
    type Output = Self;

    fn neg(self) -> (r: Self)
        ensures
            r@ == wrapping_sub(0, self@),
    {
        let zero: i16 = 0;
        Self::new(zero.wrapping_sub(self.get()))
    }
}

impl vstd::std_specs::ops::NegSpecImpl for LittleEndianI16 {
    open spec fn obeys_neg_spec() -> bool {
        true
    }

    open spec fn neg_req(self) -> bool {
        true
    }

    open spec fn neg_spec(self) -> Self {
        Self::of(wrapping_sub(0, self@))
    }
}

impl AddAssign for LittleEndianI16 {
    fn add_assign(&mut self, rhs: Self)
        ensures
            *final(self) == Self::of(wrapping_add(old(self)@, rhs@)),
            final(self)@ == wrapping_add(old(self)@, rhs@),
    {
        *self = *self + rhs;
    }
}

impl SubAssign for LittleEndianI16 {
    fn sub_assign(&mut self, rhs: Self)
        ensures
            *final(self) == Self::of(wrapping_sub(old(self)@, rhs@)),
            final(self)@ == wrapping_sub(old(self)@, rhs@),
    {
        *self = *self - rhs;
    }
}

impl MulAssign for LittleEndianI16 {
    fn mul_assign(&mut self, rhs: Self)
        ensures
            *final(self) == Self::of(wrapping_mul(old(self)@, rhs@)),
            final(self)@ == wrapping_mul(old(self)@, rhs@),
    {
        *self = *self * rhs;
    }
}

impl DivAssign for LittleEndianI16 {
    fn div_assign(&mut self, rhs: Self)
        requires
            i16_divides(old(self)@, rhs@),
        ensures
            *final(self) == Self::of(i16_quot(old(self)@, rhs@)),
            final(self)@ == i16_quot(old(self)@, rhs@),
    {
        *self = *self / rhs;
    }
}

impl RemAssign for LittleEndianI16 {
    fn rem_assign(&mut self, rhs: Self)
        requires
            i16_divides(old(self)@, rhs@),
        ensures
            *final(self) == Self::of(i16_rem(old(self)@, rhs@)),
            final(self)@ == i16_rem(old(self)@, rhs@),
    {
        *self = *self % rhs;
    }
}

impl BitAndAssign for LittleEndianI16 {
    fn bitand_assign(&mut self, rhs: Self)
        ensures
            *final(self) == Self::of(old(self)@ & rhs@),
            final(self)@ == old(self)@ & rhs@,
    {
        *self = *self & rhs;
    }
}

impl BitOrAssign for LittleEndianI16 {
    fn bitor_assign(&mut self, rhs: Self)
        ensures
            *final(self) == Self::of(old(self)@ | rhs@),
            final(self)@ == old(self)@ | rhs@,
    {
        *self = *self | rhs;
    }
}

impl BitXorAssign for LittleEndianI16 {
    fn bitxor_assign(&mut self, rhs: Self)
        ensures
            *final(self) == Self::of(old(self)@ ^ rhs@),
            final(self)@ == old(self)@ ^ rhs@,
    {
        *self = *self ^ rhs;
    }
}

impl ShlAssign for LittleEndianI16 {
    fn shl_assign(&mut self, rhs: Self)
        ensures
            *final(self) == Self::of(wrapping_shl(old(self)@, rhs@ as u32)),
            final(self)@ == wrapping_shl(old(self)@, rhs@ as u32),
    {
        *self = *self << rhs;
    }
}

impl ShrAssign for LittleEndianI16 {
    fn shr_assign(&mut self, rhs: Self)
        ensures
            *final(self) == Self::of(wrapping_shr(old(self)@, rhs@ as u32)),
            final(self)@ == wrapping_shr(old(self)@, rhs@ as u32),
    {
        *self = *self >> rhs;
    }
}

// Wrapper with native integer: the result is a wrapper.

impl Add<i16> for LittleEndianI16 {
    type Output = Self;

    fn add(self, rhs: i16) -> (r: Self)
        ensures
            r@ == wrapping_add(self@, rhs),
    {
        Self::new(self.get().wrapping_add(rhs))
    }
}

impl vstd::std_specs::ops::AddSpecImpl<i16> for LittleEndianI16 {
    open spec fn obeys_add_spec() -> bool {
        true
    }

    open spec fn add_req(self, rhs: i16) -> bool {
        true
    }

    open spec fn add_spec(self, rhs: i16) -> Self {
        Self::of(wrapping_add(self@, rhs))
    }
}

impl Sub<i16> for LittleEndianI16 {
    type Output = Self;

    fn sub(self, rhs: i16) -> (r: Self)
        ensures
            r@ == wrapping_sub(self@, rhs),
    {
        Self::new(self.get().wrapping_sub(rhs))
    }
}

impl vstd::std_specs::ops::SubSpecImpl<i16> for LittleEndianI16 {
    open spec fn obeys_sub_spec() -> bool {
        true
    }

    open spec fn sub_req(self, rhs: i16) -> bool {
        true
    }

    open spec fn sub_spec(self, rhs: i16) -> Self {
        Self::of(wrapping_sub(self@, rhs))
    }
}

impl Mul<i16> for LittleEndianI16 {
    type Output = Self;

    fn mul(self, rhs: i16) -> (r: Self)
        ensures
            r@ == wrapping_mul(self@, rhs),
    {
        Self::new(self.get().wrapping_mul(rhs))
    }
}

impl vstd::std_specs::ops::MulSpecImpl<i16> for LittleEndianI16 {
    open spec fn obeys_mul_spec() -> bool {
        true
    }

    open spec fn mul_req(self, rhs: i16) -> bool {
        true
    }

    open spec fn mul_spec(self, rhs: i16) -> Self {
        Self::of(wrapping_mul(self@, rhs))
    }
}

impl Div<i16> for LittleEndianI16 {
    type Output = Self;

    fn div(self, rhs: i16) -> (r: Self)
        ensures
            r@ == i16_quot(self@, rhs),
    {
        Self::new(self.get() / rhs)
    }
}

impl vstd::std_specs::ops::DivSpecImpl<i16> for LittleEndianI16 {
    open spec fn obeys_div_spec() -> bool {
        true
    }

    open spec fn div_req(self, rhs: i16) -> bool {
        i16_divides(self@, rhs)
    }

    open spec fn div_spec(self, rhs: i16) -> Self {
        Self::of(i16_quot(self@, rhs))
    }
}

impl Rem<i16> for LittleEndianI16 {
    type Output = Self;

    fn rem(self, rhs: i16) -> (r: Self)
        ensures
            r@ == i16_rem(self@, rhs),
    {
        Self::new(self.get() % rhs)
    }
}

impl vstd::std_specs::ops::RemSpecImpl<i16> for LittleEndianI16 {
    open spec fn obeys_rem_spec() -> bool {
        true
    }

    open spec fn rem_req(self, rhs: i16) -> bool {
        i16_divides(self@, rhs)
    }

    open spec fn rem_spec(self, rhs: i16) -> Self {
        Self::of(i16_rem(self@, rhs))
    }
}

impl BitAnd<i16> for LittleEndianI16 {
    type Output = Self;

    fn bitand(self, rhs: i16) -> (r: Self)
        ensures
            r@ == self@ & rhs,
    {
        Self::new(self.get() & rhs)
    }
}

impl vstd::std_specs::ops::BitAndSpecImpl<i16> for LittleEndianI16 {
    open spec fn obeys_bitand_spec() -> bool {
        true
    }

    open spec fn bitand_req(self, rhs: i16) -> bool {
        true
    }

    open spec fn bitand_spec(self, rhs: i16) -> Self {
        Self::of(self@ & rhs)
    }
}

impl BitOr<i16> for LittleEndianI16 {
    type Output = Self;

    fn bitor(self, rhs: i16) -> (r: Self)
        ensures
            r@ == self@ | rhs,
    {
        Self::new(self.get() | rhs)
    }
}

impl vstd::std_specs::ops::BitOrSpecImpl<i16> for LittleEndianI16 {
    open spec fn obeys_bitor_spec() -> bool {
        true
    }

    open spec fn bitor_req(self, rhs: i16) -> bool {
        true
    }

    open spec fn bitor_spec(self, rhs: i16) -> Self {
        Self::of(self@ | rhs)
    }
}

impl BitXor<i16> for LittleEndianI16 {
    type Output = Self;

    fn bitxor(self, rhs: i16) -> (r: Self)
        ensures
            r@ == self@ ^ rhs,
    {
        Self::new(self.get() ^ rhs)
    }
}

impl vstd::std_specs::ops::BitXorSpecImpl<i16> for LittleEndianI16 {
    open spec fn obeys_bitxor_spec() -> bool {
        true
    }

    open spec fn bitxor_req(self, rhs: i16) -> bool {
        true
    }

    open spec fn bitxor_spec(self, rhs: i16) -> Self {
        Self::of(self@ ^ rhs)
    }
}

impl Shl<i16> for LittleEndianI16 {
    type Output = Self;

    fn shl(self, rhs: i16) -> (r: Self)
        ensures
            r@ == wrapping_shl(self@, rhs as u32),
    {
        Self::new(self.get().wrapping_shl(rhs as u32))
    }
}

impl vstd::std_specs::ops::ShlSpecImpl<i16> for LittleEndianI16 {
    open spec fn obeys_shl_spec() -> bool {
        true
    }

    open spec fn shl_req(self, rhs: i16) -> bool {
        true
    }

    open spec fn shl_spec(self, rhs: i16) -> Self {
        Self::of(wrapping_shl(self@, rhs as u32))
    }
}

impl Shr<i16> for LittleEndianI16 {
    type Output = Self;

    fn shr(self, rhs: i16) -> (r: Self)
        ensures
            r@ == wrapping_shr(self@, rhs as u32),
    {
        Self::new(self.get().wrapping_shr(rhs as u32))
    }
}

impl vstd::std_specs::ops::ShrSpecImpl<i16> for LittleEndianI16 {
    open spec fn obeys_shr_spec() -> bool {
        true
    }

    open spec fn shr_req(self, rhs: i16) -> bool {
        true
    }

    open spec fn shr_spec(self, rhs: i16) -> Self {
        Self::of(wrapping_shr(self@, rhs as u32))
    }
}

impl AddAssign<i16> for LittleEndianI16 {
    fn add_assign(&mut self, rhs: i16)
        ensures
            *final(self) == Self::of(wrapping_add(old(self)@, rhs)),
            final(self)@ == wrapping_add(old(self)@, rhs),
    {
        *self = *self + rhs;
    }
}

impl SubAssign<i16> for LittleEndianI16 {
    fn sub_assign(&mut self, rhs: i16)
        ensures
            *final(self) == Self::of(wrapping_sub(old(self)@, rhs)),
            final(self)@ == wrapping_sub(old(self)@, rhs),
    {
        *self = *self - rhs;
    }
}

impl MulAssign<i16> for LittleEndianI16 {
    fn mul_assign(&mut self, rhs: i16)
        ensures
            *final(self) == Self::of(wrapping_mul(old(self)@, rhs)),
            final(self)@ == wrapping_mul(old(self)@, rhs),
    {
        *self = *self * rhs;
    }
}

impl DivAssign<i16> for LittleEndianI16 {
    fn div_assign(&mut self, rhs: i16)
        requires
            i16_divides(old(self)@, rhs),
        ensures
            *final(self) == Self::of(i16_quot(old(self)@, rhs)),
            final(self)@ == i16_quot(old(self)@, rhs),
    {
        *self = *self / rhs;
    }
}

impl RemAssign<i16> for LittleEndianI16 {
    fn rem_assign(&mut self, rhs: i16)
        requires
            i16_divides(old(self)@, rhs),
        ensures
            *final(self) == Self::of(i16_rem(old(self)@, rhs)),
            final(self)@ == i16_rem(old(self)@, rhs),
    {
        *self = *self % rhs;
    }
}

impl BitAndAssign<i16> for LittleEndianI16 {
    fn bitand_assign(&mut self, rhs: i16)
        ensures
            *final(self) == Self::of(old(self)@ & rhs),
            final(self)@ == old(self)@ & rhs,
    {
        *self = *self & rhs;
    }
}

impl BitOrAssign<i16> for LittleEndianI16 {
    fn bitor_assign(&mut self, rhs: i16)
        ensures
            *final(self) == Self::of(old(self)@ | rhs),
            final(self)@ == old(self)@ | rhs,
    {
        *self = *self | rhs;
    }
}

impl BitXorAssign<i16> for LittleEndianI16 {
    fn bitxor_assign(&mut self, rhs: i16)
        ensures
            *final(self) == Self::of(old(self)@ ^ rhs),
            final(self)@ == old(self)@ ^ rhs,
    {
        *self = *self ^ rhs;
    }
}

impl ShlAssign<i16> for LittleEndianI16 {
    fn shl_assign(&mut self, rhs: i16)
        ensures
            *final(self) == Self::of(wrapping_shl(old(self)@, rhs as u32)),
            final(self)@ == wrapping_shl(old(self)@, rhs as u32),
    {
        *self = *self << rhs;
    }
}

impl ShrAssign<i16> for LittleEndianI16 {
    fn shr_assign(&mut self, rhs: i16)
        ensures
            *final(self) == Self::of(wrapping_shr(old(self)@, rhs as u32)),
            final(self)@ == wrapping_shr(old(self)@, rhs as u32),
    {
        *self = *self >> rhs;
    }
}

// Native integer with wrapper: the result is a native integer.

impl Add<LittleEndianI16> for i16 {
    type Output = i16;

    fn add(self, rhs: LittleEndianI16) -> (r: i16) {
        self.wrapping_add(rhs.get())
    }
}

impl vstd::std_specs::ops::AddSpecImpl<LittleEndianI16> for i16 {
    open spec fn obeys_add_spec() -> bool {
        true
    }

    open spec fn add_req(self, rhs: LittleEndianI16) -> bool {
        true
    }

    open spec fn add_spec(self, rhs: LittleEndianI16) -> i16 {
        wrapping_add(self, rhs@)
    }
}

impl Sub<LittleEndianI16> for i16 {
    type Output = i16;

    fn sub(self, rhs: LittleEndianI16) -> (r: i16) {
        self.wrapping_sub(rhs.get())
    }
}

impl vstd::std_specs::ops::SubSpecImpl<LittleEndianI16> for i16 {
    open spec fn obeys_sub_spec() -> bool {
        true
    }

    open spec fn sub_req(self, rhs: LittleEndianI16) -> bool {
        true
    }

    open spec fn sub_spec(self, rhs: LittleEndianI16) -> i16 {
        wrapping_sub(self, rhs@)
    }
}

impl Mul<LittleEndianI16> for i16 {
    type Output = i16;

    fn mul(self, rhs: LittleEndianI16) -> (r: i16) {
        self.wrapping_mul(rhs.get())
    }
}

impl vstd::std_specs::ops::MulSpecImpl<LittleEndianI16> for i16 {
    open spec fn obeys_mul_spec() -> bool {
        true
    }

    open spec fn mul_req(self, rhs: LittleEndianI16) -> bool {
        true
    }

    open spec fn mul_spec(self, rhs: LittleEndianI16) -> i16 {
        wrapping_mul(self, rhs@)
    }
}

impl Div<LittleEndianI16> for i16 {
    type Output = i16;

    fn div(self, rhs: LittleEndianI16) -> (r: i16) {
        self / rhs.get()
    }
}

impl vstd::std_specs::ops::DivSpecImpl<LittleEndianI16> for i16 {
    open spec fn obeys_div_spec() -> bool {
        true
    }

    open spec fn div_req(self, rhs: LittleEndianI16) -> bool {
        i16_divides(self, rhs@)
    }

    open spec fn div_spec(self, rhs: LittleEndianI16) -> i16 {
        i16_quot(self, rhs@)
    }
}

impl Rem<LittleEndianI16> for i16 {
    type Output = i16;

    fn rem(self, rhs: LittleEndianI16) -> (r: i16) {
        self % rhs.get()
    }
}

impl vstd::std_specs::ops::RemSpecImpl<LittleEndianI16> for i16 {
    open spec fn obeys_rem_spec() -> bool {
        true
    }

    open spec fn rem_req(self, rhs: LittleEndianI16) -> bool {
        i16_divides(self, rhs@)
    }

    open spec fn rem_spec(self, rhs: LittleEndianI16) -> i16 {
        i16_rem(self, rhs@)
    }
}

impl BitAnd<LittleEndianI16> for i16 {
    type Output = i16;

    fn bitand(self, rhs: LittleEndianI16) -> (r: i16) {
        self & rhs.get()
    }
}

impl vstd::std_specs::ops::BitAndSpecImpl<LittleEndianI16> for i16 {
    open spec fn obeys_bitand_spec() -> bool {
        true
    }

    open spec fn bitand_req(self, rhs: LittleEndianI16) -> bool {
        true
    }

    open spec fn bitand_spec(self, rhs: LittleEndianI16) -> i16 {
        self & rhs@
    }
}

impl BitOr<LittleEndianI16> for i16 {
    type Output = i16;

    fn bitor(self, rhs: LittleEndianI16) -> (r: i16) {
        self | rhs.get()
    }
}

impl vstd::std_specs::ops::BitOrSpecImpl<LittleEndianI16> for i16 {
    open spec fn obeys_bitor_spec() -> bool {
        true
    }

    open spec fn bitor_req(self, rhs: LittleEndianI16) -> bool {
        true
    }

    open spec fn bitor_spec(self, rhs: LittleEndianI16) -> i16 {
        self | rhs@
    }
}

impl BitXor<LittleEndianI16> for i16 {
    type Output = i16;

    fn bitxor(self, rhs: LittleEndianI16) -> (r: i16) {
        self ^ rhs.get()
    }
}

impl vstd::std_specs::ops::BitXorSpecImpl<LittleEndianI16> for i16 {
    open spec fn obeys_bitxor_spec() -> bool {
        true
    }

    open spec fn bitxor_req(self, rhs: LittleEndianI16) -> bool {
        true
    }

    open spec fn bitxor_spec(self, rhs: LittleEndianI16) -> i16 {
        self ^ rhs@
    }
}

impl Shl<LittleEndianI16> for i16 {
    type Output = i16;

    fn shl(self, rhs: LittleEndianI16) -> (r: i16) {
        self.wrapping_shl(rhs.get() as u32)
    }
}

impl vstd::std_specs::ops::ShlSpecImpl<LittleEndianI16> for i16 {
    open spec fn obeys_shl_spec() -> bool {
        true
    }

    open spec fn shl_req(self, rhs: LittleEndianI16) -> bool {
        true
    }

    open spec fn shl_spec(self, rhs: LittleEndianI16) -> i16 {
        wrapping_shl(self, rhs@ as u32)
    }
}

impl Shr<LittleEndianI16> for i16 {
    type Output = i16;

    fn shr(self, rhs: LittleEndianI16) -> (r: i16) {
        self.wrapping_shr(rhs.get() as u32)
    }
}

impl vstd::std_specs::ops::ShrSpecImpl<LittleEndianI16> for i16 {
    open spec fn obeys_shr_spec() -> bool {
        true
    }

    open spec fn shr_req(self, rhs: LittleEndianI16) -> bool {
        true
    }

    open spec fn shr_spec(self, rhs: LittleEndianI16) -> i16 {
        wrapping_shr(self, rhs@ as u32)
    }
}

impl AddAssign<LittleEndianI16> for i16 {
    fn add_assign(&mut self, rhs: LittleEndianI16)
        ensures
            *final(self) == wrapping_add(*old(self), rhs@),
    {
        *self = *self + rhs;
    }
}

impl SubAssign<LittleEndianI16> for i16 {
    fn sub_assign(&mut self, rhs: LittleEndianI16)
        ensures
            *final(self) == wrapping_sub(*old(self), rhs@),
    {
        *self = *self - rhs;
    }
}

impl MulAssign<LittleEndianI16> for i16 {
    fn mul_assign(&mut self, rhs: LittleEndianI16)
        ensures
            *final(self) == wrapping_mul(*old(self), rhs@),
    {
        *self = *self * rhs;
    }
}

impl DivAssign<LittleEndianI16> for i16 {
    fn div_assign(&mut self, rhs: LittleEndianI16)
        requires
            i16_divides(*old(self), rhs@),
        ensures
            *final(self) == i16_quot(*old(self), rhs@),
    {
        *self = *self / rhs;
    }
}

impl RemAssign<LittleEndianI16> for i16 {
    fn rem_assign(&mut self, rhs: LittleEndianI16)
        requires
            i16_divides(*old(self), rhs@),
        ensures
            *final(self) == i16_rem(*old(self), rhs@),
    {
        *self = *self % rhs;
    }
}

impl BitAndAssign<LittleEndianI16> for i16 {
    fn bitand_assign(&mut self, rhs: LittleEndianI16)
        ensures
            *final(self) == *old(self) & rhs@,
    {
        *self = *self & rhs;
    }
}

impl BitOrAssign<LittleEndianI16> for i16 {
    fn bitor_assign(&mut self, rhs: LittleEndianI16)
        ensures
            *final(self) == *old(self) | rhs@,
    {
        *self = *self | rhs;
    }
}

impl BitXorAssign<LittleEndianI16> for i16 {
    fn bitxor_assign(&mut self, rhs: LittleEndianI16)
        ensures
            *final(self) == *old(self) ^ rhs@,
    {
        *self = *self ^ rhs;
    }
}

impl ShlAssign<LittleEndianI16> for i16 {
    fn shl_assign(&mut self, rhs: LittleEndianI16)
        ensures
            *final(self) == wrapping_shl(*old(self), rhs@ as u32),
    {
        *self = *self << rhs;
    }
}

impl ShrAssign<LittleEndianI16> for i16 {
    fn shr_assign(&mut self, rhs: LittleEndianI16)
        ensures
            *final(self) == wrapping_shr(*old(self), rhs@ as u32),
    {
        *self = *self >> rhs;
    }
}

} // verus!
