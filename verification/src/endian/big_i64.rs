//! `BigEndianI64`: a signed 64-bit integer kept in big-endian byte order.

use vstd::prelude::*;
use vstd::std_specs::cmp::{PartialEqSpec, PartialOrdSpec};
use vstd::std_specs::ops::{
    AddSpec, BitAndSpec, BitOrSpec, BitXorSpec, DivSpec, MulSpec, NegSpec, NotSpec, RemSpec,
    ShlSpec, ShrSpec, SubSpec,
};
use vstd::wrapping::i64_specs::{
    wrapping_add, wrapping_mul, wrapping_shl, wrapping_shr, wrapping_sub,
};
use core::cmp::Ordering;
use core::ops::{
    Add, AddAssign, BitAnd, BitAndAssign, BitOr, BitOrAssign, BitXor, BitXorAssign, Div,
    DivAssign, Mul, MulAssign, Neg, Not, Rem, RemAssign, Shl, ShlAssign, Shr, ShrAssign,
    Sub, SubAssign,
};
use crate::order::bits64::{i64_be_bytes, i64_stored_bytes, i64_to_be, lemma_i64_to_be};
use crate::endian::little_i64::LittleEndianI64;
use crate::native::{
    i64_divides, i64_quot, i64_rem, lemma_i64_division, quot_toward_zero, rem_toward_zero,
};

verus! {

/// A signed 64-bit integer whose bytes lie in memory most significant
/// first, whatever the byte order of the machine.
///
/// `raw` is the stored integer: read as a native `i64` it is the value on a
/// big-endian machine and the value with its bytes reversed on the other kind.
/// Every `i64` is the stored form of exactly one value. The view is the value.
#[derive(Clone, Copy, Hash)]
pub struct BigEndianI64 {
    pub raw: i64,
}

#[allow(non_camel_case_types)]
pub type i64_be = BigEndianI64;

impl View for BigEndianI64 {
    type V = i64;

    open spec fn view(&self) -> i64 {
        i64_to_be(self.raw)
    }
}

impl BigEndianI64 {
    /// The number of bits of a value.
    pub const BITS: u32 = 64;

    /// The wrapper that holds `value`.
    pub open spec fn of(value: i64) -> Self {
        BigEndianI64 { raw: i64_to_be(value) }
    }

    /// The bytes that the wrapper occupies, lowest address first.
    pub open spec fn stored_bytes(self) -> Seq<u8> {
        i64_stored_bytes(self.raw)
    }

    /// Stores `value`, given in native byte order.
    pub fn new(value: i64) -> (r: Self)
        ensures
            r == Self::of(value),
            r@ == value,
    {
        proof {
            lemma_i64_to_be(value, value);
        }
        BigEndianI64 { raw: value.to_be() }
    }

    /// The value, in native byte order.
    pub fn get(self) -> (value: i64)
        ensures
            value == self@,
    {
        i64::from_be(self.raw)
    }

    /// Replaces the stored value by `value`, given in native byte order.
    pub fn set(&mut self, value: i64)
        ensures
            *final(self) == Self::of(value),
            final(self)@ == value,
    {
        *self = Self::new(value);
    }

    /// The wrapper of the least value.
    pub fn min_value() -> (r: Self)
        ensures
            r == Self::of(i64::MIN),
            r@ == i64::MIN,
    {
        Self::new(i64::MIN)
    }

    /// The wrapper of the greatest value.
    pub fn max_value() -> (r: Self)
        ensures
            r == Self::of(i64::MAX),
            r@ == i64::MAX,
    {
        Self::new(i64::MAX)
    }

    /// A value that is stored reads back unchanged, and a wrapper is the one
    /// that stores its own value: the two forms determine each other.
    pub proof fn round_trip(value: i64, stored: Self)
        ensures
            Self::of(value)@ == value,
            Self::of(stored@) == stored,
    {
        lemma_i64_to_be(value, stored.raw);
        lemma_i64_to_be(stored.raw, value);
    }

    /// The wrapper of `value` occupies the bytes of `value`, most significant
    /// first, on either kind of machine.
    pub proof fn byte_order(value: i64)
        ensures
            Self::of(value).stored_bytes() == i64_be_bytes(value),
    {
        lemma_i64_to_be(value, value);
    }

    /// Every operator on two wrappers gives the wrapper whose value is what the
    /// native operator gives on their values, with the native wraparound.
    /// Division and remainder are left out where the machine cannot divide.
    pub proof fn arithmetic_is_native(a: i64, b: i64)
        ensures
            Self::of(a).add_spec(Self::of(b))@ == wrapping_add(a, b),
            Self::of(a).sub_spec(Self::of(b))@ == wrapping_sub(a, b),
            Self::of(a).mul_spec(Self::of(b))@ == wrapping_mul(a, b),
            i64_divides(a, b) ==> Self::of(a).div_spec(Self::of(b))@ == i64_quot(a, b),
            i64_divides(a, b) ==> i64_quot(a, b) == quot_toward_zero(a as int, b as int),
            i64_divides(a, b) ==> Self::of(a).rem_spec(Self::of(b))@ == i64_rem(a, b),
            i64_divides(a, b) ==> i64_rem(a, b) == rem_toward_zero(a as int, b as int),
            Self::of(a).bitand_spec(Self::of(b))@ == a & b,
            Self::of(a).bitor_spec(Self::of(b))@ == a | b,
            Self::of(a).bitxor_spec(Self::of(b))@ == a ^ b,
            Self::of(a).shl_spec(Self::of(b))@ == wrapping_shl(a, b as u32),
            Self::of(a).shr_spec(Self::of(b))@ == wrapping_shr(a, b as u32),
            Self::of(a).not_spec()@ == !a,
            Self::of(a).neg_spec()@ == wrapping_sub(0, a),
    {
        if i64_divides(a, b) {
            lemma_i64_division(a, b);
        }
        Self::round_trip(a, Self::of(b));
        Self::round_trip(b, Self::of(a));
        Self::round_trip(wrapping_add(a, b), Self::of(a));
        Self::round_trip(wrapping_sub(a, b), Self::of(a));
        Self::round_trip(wrapping_mul(a, b), Self::of(a));
        Self::round_trip(i64_quot(a, b), Self::of(a));
        Self::round_trip(i64_rem(a, b), Self::of(a));
        Self::round_trip(a & b, Self::of(a));
        Self::round_trip(a | b, Self::of(a));
        Self::round_trip(a ^ b, Self::of(a));
        Self::round_trip(wrapping_shl(a, b as u32), Self::of(a));
        Self::round_trip(wrapping_shr(a, b as u32), Self::of(a));
        Self::round_trip(!a, Self::of(a));
        Self::round_trip(wrapping_sub(0, a), Self::of(a));
    }

    /// Both byte orders hold the same value, and each wrapper equals the native
    /// integer that it was made from.
    pub proof fn orders_agree(value: i64)
        ensures
            Self::of(value)@ == LittleEndianI64::of(value)@,
            Self::of(value).eq_spec(&value),
            LittleEndianI64::of(value).eq_spec(&value),
    {
        Self::round_trip(value, Self::of(value));
        LittleEndianI64::round_trip(value, LittleEndianI64::of(value));
    }

    /// Two wrappers compare as their values do, whatever their stored forms.
    pub proof fn comparison_is_native(a: i64, b: i64)
        ensures
            Self::of(a).eq_spec(&Self::of(b)) == (a == b),
            Self::of(a) == Self::of(b) <==> a == b,
            Self::of(a).partial_cmp_spec(&Self::of(b)) == a.partial_cmp_spec(&b),
    {
        Self::round_trip(a, Self::of(b));
        Self::round_trip(b, Self::of(a));
    }
}

impl Default for BigEndianI64 {
    /// The wrapper of zero.
    fn default() -> (r: Self)
        ensures
            r == Self::of(0),
            r@ == 0,
    {
        Self::new(0)
    }
}

impl From<i64> for BigEndianI64 {
    fn from(value: i64) -> (r: Self)
        ensures
            r@ == value,
    {
        Self::new(value)
    }
}

impl vstd::std_specs::convert::FromSpecImpl<i64> for BigEndianI64 {
    open spec fn obeys_from_spec() -> bool {
        true
    }

    open spec fn from_spec(value: i64) -> Self {
        Self::of(value)
    }
}

impl From<BigEndianI64> for i64 {
    fn from(value: BigEndianI64) -> (r: i64) {
        value.get()
    }
}

impl vstd::std_specs::convert::FromSpecImpl<BigEndianI64> for i64 {
    open spec fn obeys_from_spec() -> bool {
        true
    }

    open spec fn from_spec(value: BigEndianI64) -> i64 {
        value@
    }
}

// Equality and order go by the values, never by the stored integers.

impl PartialEq for BigEndianI64 {
    fn eq(&self, other: &Self) -> (r: bool) {
        self.get() == other.get()
    }
}

impl vstd::std_specs::cmp::PartialEqSpecImpl for BigEndianI64 {
    open spec fn obeys_eq_spec() -> bool {
        true
    }

    open spec fn eq_spec(&self, other: &Self) -> bool {
        self@ == other@
    }
}

impl Eq for BigEndianI64 {
}

impl PartialEq<i64> for BigEndianI64 {
    fn eq(&self, other: &i64) -> (r: bool) {
        self.get() == *other
    }
}

impl vstd::std_specs::cmp::PartialEqSpecImpl<i64> for BigEndianI64 {
    open spec fn obeys_eq_spec() -> bool {
        true
    }

    open spec fn eq_spec(&self, other: &i64) -> bool {
        self@ == *other
    }
}

impl PartialEq<BigEndianI64> for i64 {
    fn eq(&self, other: &BigEndianI64) -> (r: bool) {
        *self == other.get()
    }
}

impl vstd::std_specs::cmp::PartialEqSpecImpl<BigEndianI64> for i64 {
    open spec fn obeys_eq_spec() -> bool {
        true
    }

    open spec fn eq_spec(&self, other: &BigEndianI64) -> bool {
        *self == other@
    }
}

impl PartialOrd for BigEndianI64 {
    fn partial_cmp(&self, other: &Self) -> (r: Option<Ordering>) {
        let a: i64 = self.get();
        let b: i64 = other.get();
        if a < b {
            Some(Ordering::Less)
        } else if a > b {
            Some(Ordering::Greater)
        } else {
            Some(Ordering::Equal)
        }
    }
}

impl vstd::std_specs::cmp::PartialOrdSpecImpl for BigEndianI64 {
    open spec fn obeys_partial_cmp_spec() -> bool {
        true
    }

    open spec fn partial_cmp_spec(&self, other: &Self) -> Option<Ordering> {
        if self@ < other@ {
            Some(Ordering::Less)
        } else if self@ > other@ {
            Some(Ordering::Greater)
        } else {
            Some(Ordering::Equal)
        }
    }
}

impl PartialOrd<i64> for BigEndianI64 {
    fn partial_cmp(&self, other: &i64) -> (r: Option<Ordering>) {
        let a: i64 = self.get();
        let b: i64 = *other;
        if a < b {
            Some(Ordering::Less)
        } else if a > b {
            Some(Ordering::Greater)
        } else {
            Some(Ordering::Equal)
        }
    }
}

impl vstd::std_specs::cmp::PartialOrdSpecImpl<i64> for BigEndianI64 {
    open spec fn obeys_partial_cmp_spec() -> bool {
        true
    }

    open spec fn partial_cmp_spec(&self, other: &i64) -> Option<Ordering> {
        if self@ < *other {
            Some(Ordering::Less)
        } else if self@ > *other {
            Some(Ordering::Greater)
        } else {
            Some(Ordering::Equal)
        }
    }
}

impl PartialOrd<BigEndianI64> for i64 {
    fn partial_cmp(&self, other: &BigEndianI64) -> (r: Option<Ordering>) {
        let a: i64 = *self;
        let b: i64 = other.get();
        if a < b {
            Some(Ordering::Less)
        } else if a > b {
            Some(Ordering::Greater)
        } else {
            Some(Ordering::Equal)
        }
    }
}

impl vstd::std_specs::cmp::PartialOrdSpecImpl<BigEndianI64> for i64 {
    open spec fn obeys_partial_cmp_spec() -> bool {
        true
    }

    open spec fn partial_cmp_spec(&self, other: &BigEndianI64) -> Option<Ordering> {
        if *self < other@ {
            Some(Ordering::Less)
        } else if *self > other@ {
            Some(Ordering::Greater)
        } else {
            Some(Ordering::Equal)
        }
    }
}

// Wrapper with wrapper. The arithmetic is done on the values; the bitwise
// operations are done on the stored integers, which gives the same wrapper.

impl Add for BigEndianI64 {
    type Output = Self;

    fn add(self, rhs: Self) -> (r: Self)
        ensures
            r@ == wrapping_add(self@, rhs@),
    {
        Self::new(self.get().wrapping_add(rhs.get()))
    }
}

impl vstd::std_specs::ops::AddSpecImpl for BigEndianI64 {
    open spec fn obeys_add_spec() -> bool {
        true
    }

    open spec fn add_req(self, rhs: Self) -> bool {
        true
    }

    open spec fn add_spec(self, rhs: Self) -> Self {
        Self::of(wrapping_add(self@, rhs@))
    }
}

impl Sub for BigEndianI64 {
    type Output = Self;

    fn sub(self, rhs: Self) -> (r: Self)
        ensures
            r@ == wrapping_sub(self@, rhs@),
    {
        Self::new(self.get().wrapping_sub(rhs.get()))
    }
}

impl vstd::std_specs::ops::SubSpecImpl for BigEndianI64 {
    open spec fn obeys_sub_spec() -> bool {
        true
    }

    open spec fn sub_req(self, rhs: Self) -> bool {
        true
    }

    open spec fn sub_spec(self, rhs: Self) -> Self {
        Self::of(wrapping_sub(self@, rhs@))
    }
}

impl Mul for BigEndianI64 {
    type Output = Self;

    fn mul(self, rhs: Self) -> (r: Self)
        ensures
            r@ == wrapping_mul(self@, rhs@),
    {
        Self::new(self.get().wrapping_mul(rhs.get()))
    }
}

impl vstd::std_specs::ops::MulSpecImpl for BigEndianI64 {
    open spec fn obeys_mul_spec() -> bool {
        true
    }

    open spec fn mul_req(self, rhs: Self) -> bool {
        true
    }

    open spec fn mul_spec(self, rhs: Self) -> Self {
        Self::of(wrapping_mul(self@, rhs@))
    }
}

impl Div for BigEndianI64 {
    type Output = Self;

    fn div(self, rhs: Self) -> (r: Self)
        ensures
            r@ == i64_quot(self@, rhs@),
    {
        Self::new(self.get() / rhs.get())
    }
}

impl vstd::std_specs::ops::DivSpecImpl for BigEndianI64 {
    open spec fn obeys_div_spec() -> bool {
        true
    }

    open spec fn div_req(self, rhs: Self) -> bool {
        i64_divides(self@, rhs@)
    }

    open spec fn div_spec(self, rhs: Self) -> Self {
        Self::of(i64_quot(self@, rhs@))
    }
}

impl Rem for BigEndianI64 {
    type Output = Self;

    fn rem(self, rhs: Self) -> (r: Self)
        ensures
            r@ == i64_rem(self@, rhs@),
    {
        Self::new(self.get() % rhs.get())
    }
}

impl vstd::std_specs::ops::RemSpecImpl for BigEndianI64 {
    open spec fn obeys_rem_spec() -> bool {
        true
    }

    open spec fn rem_req(self, rhs: Self) -> bool {
        i64_divides(self@, rhs@)
    }

    open spec fn rem_spec(self, rhs: Self) -> Self {
        Self::of(i64_rem(self@, rhs@))
    }
}

impl BitAnd for BigEndianI64 {
    type Output = Self;

    fn bitand(self, rhs: Self) -> (r: Self)
        ensures
            r@ == self@ & rhs@,
    {
        proof {
            lemma_i64_to_be(self@, rhs@);
            lemma_i64_to_be(self.raw, rhs.raw);
            lemma_i64_to_be(rhs.raw, self.raw);
        }
        BigEndianI64 { raw: self.raw & rhs.raw }
    }
}

impl vstd::std_specs::ops::BitAndSpecImpl for BigEndianI64 {
    open spec fn obeys_bitand_spec() -> bool {
        true
    }

    open spec fn bitand_req(self, rhs: Self) -> bool {
        true
    }

    open spec fn bitand_spec(self, rhs: Self) -> Self {
        Self::of(self@ & rhs@)
    }
}

impl BitOr for BigEndianI64 {
    type Output = Self;

    fn bitor(self, rhs: Self) -> (r: Self)
        ensures
            r@ == self@ | rhs@,
    {
        proof {
            lemma_i64_to_be(self@, rhs@);
            lemma_i64_to_be(self.raw, rhs.raw);
            lemma_i64_to_be(rhs.raw, self.raw);
        }
        BigEndianI64 { raw: self.raw | rhs.raw }
    }
}

impl vstd::std_specs::ops::BitOrSpecImpl for BigEndianI64 {
    open spec fn obeys_bitor_spec() -> bool {
        true
    }

    open spec fn bitor_req(self, rhs: Self) -> bool {
        true
    }

    open spec fn bitor_spec(self, rhs: Self) -> Self {
        Self::of(self@ | rhs@)
    }
}

impl BitXor for BigEndianI64 {
    type Output = Self;

    fn bitxor(self, rhs: Self) -> (r: Self)
        ensures
            r@ == self@ ^ rhs@,
    {
        proof {
            lemma_i64_to_be(self@, rhs@);
            lemma_i64_to_be(self.raw, rhs.raw);
            lemma_i64_to_be(rhs.raw, self.raw);
        }
        BigEndianI64 { raw: self.raw ^ rhs.raw }
    }
}

impl vstd::std_specs::ops::BitXorSpecImpl for BigEndianI64 {
    open spec fn obeys_bitxor_spec() -> bool {
        true
    }

    open spec fn bitxor_req(self, rhs: Self) -> bool {
        true
    }

    open spec fn bitxor_spec(self, rhs: Self) -> Self {
        Self::of(self@ ^ rhs@)
    }
}

impl Shl for BigEndianI64 {
    type Output = Self;

    fn shl(self, rhs: Self) -> (r: Self)
        ensures
            r@ == wrapping_shl(self@, rhs@ as u32),
    {
        Self::new(self.get().wrapping_shl(rhs.get() as u32))
    }
}

impl vstd::std_specs::ops::ShlSpecImpl for BigEndianI64 {
    open spec fn obeys_shl_spec() -> bool {
        true
    }

    open spec fn shl_req(self, rhs: Self) -> bool {
        true
    }

    open spec fn shl_spec(self, rhs: Self) -> Self {
        Self::of(wrapping_shl(self@, rhs@ as u32))
    }
}

impl Shr for BigEndianI64 {
    type Output = Self;

    fn shr(self, rhs: Self) -> (r: Self)
        ensures
            r@ == wrapping_shr(self@, rhs@ as u32),
    {
        Self::new(self.get().wrapping_shr(rhs.get() as u32))
    }
}

impl vstd::std_specs::ops::ShrSpecImpl for BigEndianI64 {
    open spec fn obeys_shr_spec() -> bool {
        true
    }

    open spec fn shr_req(self, rhs: Self) -> bool {
        true
    }

    open spec fn shr_spec(self, rhs: Self) -> Self {
        Self::of(wrapping_shr(self@, rhs@ as u32))
    }
}

impl Not for BigEndianI64 {
    type Output = Self;

    fn not(self) -> (r: Self)
        ensures
            r@ == !self@,
    {
        proof {
            lemma_i64_to_be(self@, self@);
            lemma_i64_to_be(self.raw, self.raw);
        }
        BigEndianI64 { raw: !self.raw }
    }
}

impl vstd::std_specs::ops::NotSpecImpl for BigEndianI64 {
    open spec fn obeys_not_spec() -> bool {
        true
    }

    open spec fn not_req(self) -> bool {
        true
    }

    open spec fn not_spec(self) -> Self {
        Self::of(!self@)
    }
}

impl Neg for BigEndianI64 {
    type Output = Self;

    fn neg(self) -> (r: Self)
        ensures
            r@ == wrapping_sub(0, self@),
    {
        let zero: i64 = 0;
        Self::new(zero.wrapping_sub(self.get()))
    }
}

impl vstd::std_specs::ops::NegSpecImpl for BigEndianI64 {
    open spec fn obeys_neg_spec() -> bool {
        true
    }

    open spec fn neg_req(self) -> bool {
        true
    }

    open spec fn neg_spec(self) -> Self {
        Self::of(wrapping_sub(0, self@))
    }
}

impl AddAssign for BigEndianI64 {
    fn add_assign(&mut self, rhs: Self)
        ensures
            *final(self) == Self::of(wrapping_add(old(self)@, rhs@)),
            final(self)@ == wrapping_add(old(self)@, rhs@),
    {
        *self = *self + rhs;
    }
}

impl SubAssign for BigEndianI64 {
    fn sub_assign(&mut self, rhs: Self)
        ensures
            *final(self) == Self::of(wrapping_sub(old(self)@, rhs@)),
            final(self)@ == wrapping_sub(old(self)@, rhs@),
    {
        *self = *self - rhs;
    }
}

impl MulAssign for BigEndianI64 {
    fn mul_assign(&mut self, rhs: Self)
        ensures
            *final(self) == Self::of(wrapping_mul(old(self)@, rhs@)),
            final(self)@ == wrapping_mul(old(self)@, rhs@),
    {
        *self = *self * rhs;
    }
}

impl DivAssign for BigEndianI64 {
    fn div_assign(&mut self, rhs: Self)
        requires
            i64_divides(old(self)@, rhs@),
        ensures
            *final(self) == Self::of(i64_quot(old(self)@, rhs@)),
            final(self)@ == i64_quot(old(self)@, rhs@),
    {
        *self = *self / rhs;
    }
}

impl RemAssign for BigEndianI64 {
    fn rem_assign(&mut self, rhs: Self)
        requires
            i64_divides(old(self)@, rhs@),
        ensures
            *final(self) == Self::of(i64_rem(old(self)@, rhs@)),
            final(self)@ == i64_rem(old(self)@, rhs@),
    {
        *self = *self % rhs;
    }
}

impl BitAndAssign for BigEndianI64 {
    fn bitand_assign(&mut self, rhs: Self)
        ensures
            *final(self) == Self::of(old(self)@ & rhs@),
            final(self)@ == old(self)@ & rhs@,
    {
        *self = *self & rhs;
    }
}

impl BitOrAssign for BigEndianI64 {
    fn bitor_assign(&mut self, rhs: Self)
        ensures
            *final(self) == Self::of(old(self)@ | rhs@),
            final(self)@ == old(self)@ | rhs@,
    {
        *self = *self | rhs;
    }
}

impl BitXorAssign for BigEndianI64 {
    fn bitxor_assign(&mut self, rhs: Self)
        ensures
            *final(self) == Self::of(old(self)@ ^ rhs@),
            final(self)@ == old(self)@ ^ rhs@,
    {
        *self = *self ^ rhs;
    }
}

impl ShlAssign for BigEndianI64 {
    fn shl_assign(&mut self, rhs: Self)
        ensures
            *final(self) == Self::of(wrapping_shl(old(self)@, rhs@ as u32)),
            final(self)@ == wrapping_shl(old(self)@, rhs@ as u32),
    {
        *self = *self << rhs;
    }
}

impl ShrAssign for BigEndianI64 {
    fn shr_assign(&mut self, rhs: Self)
        ensures
            *final(self) == Self::of(wrapping_shr(old(self)@, rhs@ as u32)),
            final(self)@ == wrapping_shr(old(self)@, rhs@ as u32),
    {
        *self = *self >> rhs;
    }
}

// Wrapper with native integer: the result is a wrapper.

impl Add<i64> for BigEndianI64 {
    type Output = Self;

    fn add(self, rhs: i64) -> (r: Self)
        ensures
            r@ == wrapping_add(self@, rhs),
    {
        Self::new(self.get().wrapping_add(rhs))
    }
}

impl vstd::std_specs::ops::AddSpecImpl<i64> for BigEndianI64 {
    open spec fn obeys_add_spec() -> bool {
        true
    }

    open spec fn add_req(self, rhs: i64) -> bool {
        true
    }

    open spec fn add_spec(self, rhs: i64) -> Self {
        Self::of(wrapping_add(self@, rhs))
    }
}

impl Sub<i64> for BigEndianI64 {
    type Output = Self;

    fn sub(self, rhs: i64) -> (r: Self)
        ensures
            r@ == wrapping_sub(self@, rhs),
    {
        Self::new(self.get().wrapping_sub(rhs))
    }
}

impl vstd::std_specs::ops::SubSpecImpl<i64> for BigEndianI64 {
    open spec fn obeys_sub_spec() -> bool {
        true
    }

    open spec fn sub_req(self, rhs: i64) -> bool {
        true
    }

    open spec fn sub_spec(self, rhs: i64) -> Self {
        Self::of(wrapping_sub(self@, rhs))
    }
}

impl Mul<i64> for BigEndianI64 {
    type Output = Self;

    fn mul(self, rhs: i64) -> (r: Self)
        ensures
            r@ == wrapping_mul(self@, rhs),
    {
        Self::new(self.get().wrapping_mul(rhs))
    }
}

impl vstd::std_specs::ops::MulSpecImpl<i64> for BigEndianI64 {
    open spec fn obeys_mul_spec() -> bool {
        true
    }

    open spec fn mul_req(self, rhs: i64) -> bool {
        true
    }

    open spec fn mul_spec(self, rhs: i64) -> Self {
        Self::of(wrapping_mul(self@, rhs))
    }
}

impl Div<i64> for BigEndianI64 {
    type Output = Self;

    fn div(self, rhs: i64) -> (r: Self)
        ensures
            r@ == i64_quot(self@, rhs),
    {
        Self::new(self.get() / rhs)
    }
}

impl vstd::std_specs::ops::DivSpecImpl<i64> for BigEndianI64 {
    open spec fn obeys_div_spec() -> bool {
        true
    }

    open spec fn div_req(self, rhs: i64) -> bool {
        i64_divides(self@, rhs)
    }

    open spec fn div_spec(self, rhs: i64) -> Self {
        Self::of(i64_quot(self@, rhs))
    }
}

impl Rem<i64> for BigEndianI64 {
    type Output = Self;

    fn rem(self, rhs: i64) -> (r: Self)
        ensures
            r@ == i64_rem(self@, rhs),
    {
        Self::new(self.get() % rhs)
    }
}

impl vstd::std_specs::ops::RemSpecImpl<i64> for BigEndianI64 {
    open spec fn obeys_rem_spec() -> bool {
        true
    }

    open spec fn rem_req(self, rhs: i64) -> bool {
        i64_divides(self@, rhs)
    }

    open spec fn rem_spec(self, rhs: i64) -> Self {
        Self::of(i64_rem(self@, rhs))
    }
}

impl BitAnd<i64> for BigEndianI64 {
    type Output = Self;

    fn bitand(self, rhs: i64) -> (r: Self)
        ensures
            r@ == self@ & rhs,
    {
        Self::new(self.get() & rhs)
    }
}

impl vstd::std_specs::ops::BitAndSpecImpl<i64> for BigEndianI64 {
    open spec fn obeys_bitand_spec() -> bool {
        true
    }

    open spec fn bitand_req(self, rhs: i64) -> bool {
        true
    }

    open spec fn bitand_spec(self, rhs: i64) -> Self {
        Self::of(self@ & rhs)
    }
}

impl BitOr<i64> for BigEndianI64 {
    type Output = Self;

    fn bitor(self, rhs: i64) -> (r: Self)
        ensures
            r@ == self@ | rhs,
    {
        Self::new(self.get() | rhs)
    }
}

impl vstd::std_specs::ops::BitOrSpecImpl<i64> for BigEndianI64 {
    open spec fn obeys_bitor_spec() -> bool {
        true
    }

    open spec fn bitor_req(self, rhs: i64) -> bool {
        true
    }

    open spec fn bitor_spec(self, rhs: i64) -> Self {
        Self::of(self@ | rhs)
    }
}

impl BitXor<i64> for BigEndianI64 {
    type Output = Self;

    fn bitxor(self, rhs: i64) -> (r: Self)
        ensures
            r@ == self@ ^ rhs,
    {
        Self::new(self.get() ^ rhs)
    }
}

impl vstd::std_specs::ops::BitXorSpecImpl<i64> for BigEndianI64 {
    open spec fn obeys_bitxor_spec() -> bool {
        true
    }

    open spec fn bitxor_req(self, rhs: i64) -> bool {
        true
    }

    open spec fn bitxor_spec(self, rhs: i64) -> Self {
        Self::of(self@ ^ rhs)
    }
}

impl Shl<i64> for BigEndianI64 {
    type Output = Self;

    fn shl(self, rhs: i64) -> (r: Self)
        ensures
            r@ == wrapping_shl(self@, rhs as u32),
    {
        Self::new(self.get().wrapping_shl(rhs as u32))
    }
}

impl vstd::std_specs::ops::ShlSpecImpl<i64> for BigEndianI64 {
    open spec fn obeys_shl_spec() -> bool {
        true
    }

    open spec fn shl_req(self, rhs: i64) -> bool {
        true
    }

    open spec fn shl_spec(self, rhs: i64) -> Self {
        Self::of(wrapping_shl(self@, rhs as u32))
    }
}

impl Shr<i64> for BigEndianI64 {
    type Output = Self;

    fn shr(self, rhs: i64) -> (r: Self)
        ensures
            r@ == wrapping_shr(self@, rhs as u32),
    {
        Self::new(self.get().wrapping_shr(rhs as u32))
    }
}

impl vstd::std_specs::ops::ShrSpecImpl<i64> for BigEndianI64 {
    open spec fn obeys_shr_spec() -> bool {
        true
    }

    open spec fn shr_req(self, rhs: i64) -> bool {
        true
    }

    open spec fn shr_spec(self, rhs: i64) -> Self {
        Self::of(wrapping_shr(self@, rhs as u32))
    }
}

impl AddAssign<i64> for BigEndianI64 {
    fn add_assign(&mut self, rhs: i64)
        ensures
            *final(self) == Self::of(wrapping_add(old(self)@, rhs)),
            final(self)@ == wrapping_add(old(self)@, rhs),
    {
        *self = *self + rhs;
    }
}

impl SubAssign<i64> for BigEndianI64 {
    fn sub_assign(&mut self, rhs: i64)
        ensures
            *final(self) == Self::of(wrapping_sub(old(self)@, rhs)),
            final(self)@ == wrapping_sub(old(self)@, rhs),
    {
        *self = *self - rhs;
    }
}

impl MulAssign<i64> for BigEndianI64 {
    fn mul_assign(&mut self, rhs: i64)
        ensures
            *final(self) == Self::of(wrapping_mul(old(self)@, rhs)),
            final(self)@ == wrapping_mul(old(self)@, rhs),
    {
        *self = *self * rhs;
    }
}

impl DivAssign<i64> for BigEndianI64 {
    fn div_assign(&mut self, rhs: i64)
        requires
            i64_divides(old(self)@, rhs),
        ensures
            *final(self) == Self::of(i64_quot(old(self)@, rhs)),
            final(self)@ == i64_quot(old(self)@, rhs),
    {
        *self = *self / rhs;
    }
}

impl RemAssign<i64> for BigEndianI64 {
    fn rem_assign(&mut self, rhs: i64)
        requires
            i64_divides(old(self)@, rhs),
        ensures
            *final(self) == Self::of(i64_rem(old(self)@, rhs)),
            final(self)@ == i64_rem(old(self)@, rhs),
    {
        *self = *self % rhs;
    }
}

impl BitAndAssign<i64> for BigEndianI64 {
    fn bitand_assign(&mut self, rhs: i64)
        ensures
            *final(self) == Self::of(old(self)@ & rhs),
            final(self)@ == old(self)@ & rhs,
    {
        *self = *self & rhs;
    }
}

impl BitOrAssign<i64> for BigEndianI64 {
    fn bitor_assign(&mut self, rhs: i64)
        ensures
            *final(self) == Self::of(old(self)@ | rhs),
            final(self)@ == old(self)@ | rhs,
    {
        *self = *self | rhs;
    }
}

impl BitXorAssign<i64> for BigEndianI64 {
    fn bitxor_assign(&mut self, rhs: i64)
        ensures
            *final(self) == Self::of(old(self)@ ^ rhs),
            final(self)@ == old(self)@ ^ rhs,
    {
        *self = *self ^ rhs;
    }
}

impl ShlAssign<i64> for BigEndianI64 {
    fn shl_assign(&mut self, rhs: i64)
        ensures
            *final(self) == Self::of(wrapping_shl(old(self)@, rhs as u32)),
            final(self)@ == wrapping_shl(old(self)@, rhs as u32),
    {
        *self = *self << rhs;
    }
}

impl ShrAssign<i64> for BigEndianI64 {
    fn shr_assign(&mut self, rhs: i64)
        ensures
            *final(self) == Self::of(wrapping_shr(old(self)@, rhs as u32)),
            final(self)@ == wrapping_shr(old(self)@, rhs as u32),
    {
        *self = *self >> rhs;
    }
}

// Native integer with wrapper: the result is a native integer.

impl Add<BigEndianI64> for i64 {
    type Output = i64;

    fn add(self, rhs: BigEndianI64) -> (r: i64) {
        self.wrapping_add(rhs.get())
    }
}

impl vstd::std_specs::ops::AddSpecImpl<BigEndianI64> for i64 {
    open spec fn obeys_add_spec() -> bool {
        true
    }

    open spec fn add_req(self, rhs: BigEndianI64) -> bool {
        true
    }

    open spec fn add_spec(self, rhs: BigEndianI64) -> i64 {
        wrapping_add(self, rhs@)
    }
}

impl Sub<BigEndianI64> for i64 {
    type Output = i64;

    fn sub(self, rhs: BigEndianI64) -> (r: i64) {
        self.wrapping_sub(rhs.get())
    }
}

impl vstd::std_specs::ops::SubSpecImpl<BigEndianI64> for i64 {
    open spec fn obeys_sub_spec() -> bool {
        true
    }

    open spec fn sub_req(self, rhs: BigEndianI64) -> bool {
        true
    }

    open spec fn sub_spec(self, rhs: BigEndianI64) -> i64 {
        wrapping_sub(self, rhs@)
    }
}

impl Mul<BigEndianI64> for i64 {
    type Output = i64;

    fn mul(self, rhs: BigEndianI64) -> (r: i64) {
        self.wrapping_mul(rhs.get())
    }
}

impl vstd::std_specs::ops::MulSpecImpl<BigEndianI64> for i64 {
    open spec fn obeys_mul_spec() -> bool {
        true
    }

    open spec fn mul_req(self, rhs: BigEndianI64) -> bool {
        true
    }

    open spec fn mul_spec(self, rhs: BigEndianI64) -> i64 {
        wrapping_mul(self, rhs@)
    }
}

impl Div<BigEndianI64> for i64 {
    type Output = i64;

    fn div(self, rhs: BigEndianI64) -> (r: i64) {
        self / rhs.get()
    }
}

impl vstd::std_specs::ops::DivSpecImpl<BigEndianI64> for i64 {
    open spec fn obeys_div_spec() -> bool {
        true
    }

    open spec fn div_req(self, rhs: BigEndianI64) -> bool {
        i64_divides(self, rhs@)
    }

    open spec fn div_spec(self, rhs: BigEndianI64) -> i64 {
        i64_quot(self, rhs@)
    }
}

impl Rem<BigEndianI64> for i64 {
    type Output = i64;

    fn rem(self, rhs: BigEndianI64) -> (r: i64) {
        self % rhs.get()
    }
}

impl vstd::std_specs::ops::RemSpecImpl<BigEndianI64> for i64 {
    open spec fn obeys_rem_spec() -> bool {
        true
    }

    open spec fn rem_req(self, rhs: BigEndianI64) -> bool {
        i64_divides(self, rhs@)
    }

    open spec fn rem_spec(self, rhs: BigEndianI64) -> i64 {
        i64_rem(self, rhs@)
    }
}

impl BitAnd<BigEndianI64> for i64 {
    type Output = i64;

    fn bitand(self, rhs: BigEndianI64) -> (r: i64) {
        self & rhs.get()
    }
}

impl vstd::std_specs::ops::BitAndSpecImpl<BigEndianI64> for i64 {
    open spec fn obeys_bitand_spec() -> bool {
        true
    }

    open spec fn bitand_req(self, rhs: BigEndianI64) -> bool {
        true
    }

    open spec fn bitand_spec(self, rhs: BigEndianI64) -> i64 {
        self & rhs@
    }
}

impl BitOr<BigEndianI64> for i64 {
    type Output = i64;

    fn bitor(self, rhs: BigEndianI64) -> (r: i64) {
        self | rhs.get()
    }
}

impl vstd::std_specs::ops::BitOrSpecImpl<BigEndianI64> for i64 {
    open spec fn obeys_bitor_spec() -> bool {
        true
    }

    open spec fn bitor_req(self, rhs: BigEndianI64) -> bool {
        true
    }

    open spec fn bitor_spec(self, rhs: BigEndianI64) -> i64 {
        self | rhs@
    }
}

impl BitXor<BigEndianI64> for i64 {
    type Output = i64;

    fn bitxor(self, rhs: BigEndianI64) -> (r: i64) {
        self ^ rhs.get()
    }
}

impl vstd::std_specs::ops::BitXorSpecImpl<BigEndianI64> for i64 {
    open spec fn obeys_bitxor_spec() -> bool {
        true
    }

    open spec fn bitxor_req(self, rhs: BigEndianI64) -> bool {
        true
    }

    open spec fn bitxor_spec(self, rhs: BigEndianI64) -> i64 {
        self ^ rhs@
    }
}

impl Shl<BigEndianI64> for i64 {
    type Output = i64;

    fn shl(self, rhs: BigEndianI64) -> (r: i64) {
        self.wrapping_shl(rhs.get() as u32)
    }
}

impl vstd::std_specs::ops::ShlSpecImpl<BigEndianI64> for i64 {
    open spec fn obeys_shl_spec() -> bool {
        true
    }

    open spec fn shl_req(self, rhs: BigEndianI64) -> bool {
        true
    }

    open spec fn shl_spec(self, rhs: BigEndianI64) -> i64 {
        wrapping_shl(self, rhs@ as u32)
    }
}

impl Shr<BigEndianI64> for i64 {
    type Output = i64;

    fn shr(self, rhs: BigEndianI64) -> (r: i64) {
        self.wrapping_shr(rhs.get() as u32)
    }
}

impl vstd::std_specs::ops::ShrSpecImpl<BigEndianI64> for i64 {
    open spec fn obeys_shr_spec() -> bool {
        true
    }

    open spec fn shr_req(self, rhs: BigEndianI64) -> bool {
        true
    }

    open spec fn shr_spec(self, rhs: BigEndianI64) -> i64 {
        wrapping_shr(self, rhs@ as u32)
    }
}

impl AddAssign<BigEndianI64> for i64 {
    fn add_assign(&mut self, rhs: BigEndianI64)
        ensures
            *final(self) == wrapping_add(*old(self), rhs@),
    {
        *self = *self + rhs;
    }
}

impl SubAssign<BigEndianI64> for i64 {
    fn sub_assign(&mut self, rhs: BigEndianI64)
        ensures
            *final(self) == wrapping_sub(*old(self), rhs@),
    {
        *self = *self - rhs;
    }
}

impl MulAssign<BigEndianI64> for i64 {
    fn mul_assign(&mut self, rhs: BigEndianI64)
        ensures
            *final(self) == wrapping_mul(*old(self), rhs@),
    {
        *self = *self * rhs;
    }
}

impl DivAssign<BigEndianI64> for i64 {
    fn div_assign(&mut self, rhs: BigEndianI64)
        requires
            i64_divides(*old(self), rhs@),
        ensures
            *final(self) == i64_quot(*old(self), rhs@),
    {
        *self = *self / rhs;
    }
}

impl RemAssign<BigEndianI64> for i64 {
    fn rem_assign(&mut self, rhs: BigEndianI64)
        requires
            i64_divides(*old(self), rhs@),
        ensures
            *final(self) == i64_rem(*old(self), rhs@),
    {
        *self = *self % rhs;
    }
}

impl BitAndAssign<BigEndianI64> for i64 {
    fn bitand_assign(&mut self, rhs: BigEndianI64)
        ensures
            *final(self) == *old(self) & rhs@,
    {
        *self = *self & rhs;
    }
}

impl BitOrAssign<BigEndianI64> for i64 {
    fn bitor_assign(&mut self, rhs: BigEndianI64)
        ensures
            *final(self) == *old(self) | rhs@,
    {
        *self = *self | rhs;
    }
}

impl BitXorAssign<BigEndianI64> for i64 {
    fn bitxor_assign(&mut self, rhs: BigEndianI64)
        ensures
            *final(self) == *old(self) ^ rhs@,
    {
        *self = *self ^ rhs;
    }
}

impl ShlAssign<BigEndianI64> for i64 {
    fn shl_assign(&mut self, rhs: BigEndianI64)
        ensures
            *final(self) == wrapping_shl(*old(self), rhs@ as u32),
    {
        *self = *self << rhs;
    }
}

impl ShrAssign<BigEndianI64> for i64 {
    fn shr_assign(&mut self, rhs: BigEndianI64)
        ensures
            *final(self) == wrapping_shr(*old(self), rhs@ as u32),
    {
        *self = *self >> rhs;
    }
}

} // verus!
