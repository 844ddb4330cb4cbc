//! `BigEndianU64`: an unsigned 64-bit integer kept in big-endian byte order.

use vstd::prelude::*;
use vstd::std_specs::cmp::{PartialEqSpec, PartialOrdSpec};
use vstd::std_specs::ops::{
    AddSpec, BitAndSpec, BitOrSpec, BitXorSpec, DivSpec, MulSpec, NotSpec, RemSpec, ShlSpec,
    ShrSpec, SubSpec,
};
use vstd::wrapping::u64_specs::{
    wrapping_add, wrapping_mul, wrapping_shl, wrapping_shr, wrapping_sub,
};
use core::cmp::Ordering;
use core::ops::{
    Add, AddAssign, BitAnd, BitAndAssign, BitOr, BitOrAssign, BitXor, BitXorAssign, Div,
    DivAssign, Mul, MulAssign, Not, Rem, RemAssign, Shl, ShlAssign, Shr, ShrAssign, Sub,
    SubAssign,
};
use crate::order::bits64::{lemma_u64_to_be, u64_be_bytes, u64_stored_bytes, u64_to_be};
use crate::endian::little_u64::LittleEndianU64;

verus! {

/// An unsigned 64-bit integer whose bytes lie in memory most significant
/// first, whatever the byte order of the machine.
///
/// `raw` is the stored integer: read as a native `u64` it is the value on a
/// big-endian machine and the value with its bytes reversed on the other kind.
/// Every `u64` is the stored form of exactly one value. The view is the value.
#[derive(Clone, Copy, Hash)]
pub struct BigEndianU64 {
    pub raw: u64,
}

#[allow(non_camel_case_types)]
pub type u64_be = BigEndianU64;

impl View for BigEndianU64 {
    type V = u64;

    open spec fn view(&self) -> u64 {
        u64_to_be(self.raw)
    }
}

impl BigEndianU64 {
    /// The number of bits of a value.
    pub const BITS: u32 = 64;

    /// The wrapper that holds `value`.
    pub open spec fn of(value: u64) -> Self {
        BigEndianU64 { raw: u64_to_be(value) }
    }

    /// The bytes that the wrapper occupies, lowest address first.
    pub open spec fn stored_bytes(self) -> Seq<u8> {
        u64_stored_bytes(self.raw)
    }

    /// Stores `value`, given in native byte order.
    pub fn new(value: u64) -> (r: Self)
        ensures
            r == Self::of(value),
            r@ == value,
    {
        proof {
            lemma_u64_to_be(value, value);
        }
        BigEndianU64 { raw: value.to_be() }
    }

    /// The value, in native byte order.
    pub fn get(self) -> (value: u64)
        ensures
            value == self@,
    {
        u64::from_be(self.raw)
    }

    /// Replaces the stored value by `value`, given in native byte order.
    pub fn set(&mut self, value: u64)
        ensures
            *final(self) == Self::of(value),
            final(self)@ == value,
    {
        *self = Self::new(value);
    }

    /// The wrapper of the least value.
    pub fn min_value() -> (r: Self)
        ensures
            r == Self::of(u64::MIN),
            r@ == u64::MIN,
    {
        Self::new(u64::MIN)
    }

    /// The wrapper of the greatest value.
    pub fn max_value() -> (r: Self)
        ensures
            r == Self::of(u64::MAX),
            r@ == u64::MAX,
    {
        Self::new(u64::MAX)
    }

    /// A value that is stored reads back unchanged, and a wrapper is the one
    /// that stores its own value: the two forms determine each other.
    pub proof fn round_trip(value: u64, stored: Self)
        ensures
            Self::of(value)@ == value,
            Self::of(stored@) == stored,
    {
        lemma_u64_to_be(value, stored.raw);
        lemma_u64_to_be(stored.raw, value);
    }

    /// The wrapper of `value` occupies the bytes of `value`, most significant
    /// first, on either kind of machine.
    pub proof fn byte_order(value: u64)
        ensures
            Self::of(value).stored_bytes() == u64_be_bytes(value),
    {
        lemma_u64_to_be(value, value);
    }

    /// Every operator on two wrappers gives the wrapper whose value is what the
    /// native operator gives on their values, with the native wraparound.
    /// Division and remainder are left out for a zero divisor.
    pub proof fn arithmetic_is_native(a: u64, b: u64)
        ensures
            Self::of(a).add_spec(Self::of(b))@ == wrapping_add(a, b),
            Self::of(a).sub_spec(Self::of(b))@ == wrapping_sub(a, b),
            Self::of(a).mul_spec(Self::of(b))@ == wrapping_mul(a, b),
            b != 0 ==> Self::of(a).div_spec(Self::of(b))@ == a / b,
            b != 0 ==> Self::of(a).rem_spec(Self::of(b))@ == a % b,
            Self::of(a).bitand_spec(Self::of(b))@ == a & b,
            Self::of(a).bitor_spec(Self::of(b))@ == a | b,
            Self::of(a).bitxor_spec(Self::of(b))@ == a ^ b,
            Self::of(a).shl_spec(Self::of(b))@ == wrapping_shl(a, b as u32),
            Self::of(a).shr_spec(Self::of(b))@ == wrapping_shr(a, b as u32),
            Self::of(a).not_spec()@ == !a,
    {
        Self::round_trip(a, Self::of(b));
        Self::round_trip(b, Self::of(a));
        Self::round_trip(wrapping_add(a, b), Self::of(a));
        Self::round_trip(wrapping_sub(a, b), Self::of(a));
        Self::round_trip(wrapping_mul(a, b), Self::of(a));
        Self::round_trip(a / b, Self::of(a));
        Self::round_trip(a % b, Self::of(a));
        Self::round_trip(a & b, Self::of(a));
        Self::round_trip(a | b, Self::of(a));
        Self::round_trip(a ^ b, Self::of(a));
        Self::round_trip(wrapping_shl(a, b as u32), Self::of(a));
        Self::round_trip(wrapping_shr(a, b as u32), Self::of(a));
        Self::round_trip(!a, Self::of(a));
    }

    /// Both byte orders hold the same value, and each wrapper equals the native
    /// integer that it was made from.
    pub proof fn orders_agree(value: u64)
        ensures
            Self::of(value)@ == LittleEndianU64::of(value)@,
            Self::of(value).eq_spec(&value),
            LittleEndianU64::of(value).eq_spec(&value),
    {
        Self::round_trip(value, Self::of(value));
        LittleEndianU64::round_trip(value, LittleEndianU64::of(value));
    }

    /// Two wrappers compare as their values do, whatever their stored forms.
    pub proof fn comparison_is_native(a: u64, b: u64)
        ensures
            Self::of(a).eq_spec(&Self::of(b)) == (a == b),
            Self::of(a) == Self::of(b) <==> a == b,
            Self::of(a).partial_cmp_spec(&Self::of(b)) == a.partial_cmp_spec(&b),
    {
        Self::round_trip(a, Self::of(b));
        Self::round_trip(b, Self::of(a));
    }
}

impl Default for BigEndianU64 {
    /// The wrapper of zero.
    fn default() -> (r: Self)
        ensures
            r == Self::of(0),
            r@ == 0,
    {
        Self::new(0)
    }
}

impl From<u64> for BigEndianU64 {
    fn from(value: u64) -> (r: Self)
        ensures
            r@ == value,
    {
        Self::new(value)
    }
}

impl vstd::std_specs::convert::FromSpecImpl<u64> for BigEndianU64 {
    open spec fn obeys_from_spec() -> bool {
        true
    }

    open spec fn from_spec(value: u64) -> Self {
        Self::of(value)
    }
}

impl From<BigEndianU64> for u64 {
    fn from(value: BigEndianU64) -> (r: u64) {
        value.get()
    }
}

impl vstd::std_specs::convert::FromSpecImpl<BigEndianU64> for u64 {
    open spec fn obeys_from_spec() -> bool {
        true
    }

    open spec fn from_spec(value: BigEndianU64) -> u64 {
        value@
    }
}

// Equality and order go by the values, never by the stored integers.

impl PartialEq for BigEndianU64 {
    fn eq(&self, other: &Self) -> (r: bool) {
        self.get() == other.get()
    }
}

impl vstd::std_specs::cmp::PartialEqSpecImpl for BigEndianU64 {
    open spec fn obeys_eq_spec() -> bool {
        true
    }

    open spec fn eq_spec(&self, other: &Self) -> bool {
        self@ == other@
    }
}

impl Eq for BigEndianU64 {
}

impl PartialEq<u64> for BigEndianU64 {
    fn eq(&self, other: &u64) -> (r: bool) {
        self.get() == *other
    }
}

impl vstd::std_specs::cmp::PartialEqSpecImpl<u64> for BigEndianU64 {
    open spec fn obeys_eq_spec() -> bool {
        true
    }

    open spec fn eq_spec(&self, other: &u64) -> bool {
        self@ == *other
    }
}

impl PartialEq<BigEndianU64> for u64 {
    fn eq(&self, other: &BigEndianU64) -> (r: bool) {
        *self == other.get()
    }
}

impl vstd::std_specs::cmp::PartialEqSpecImpl<BigEndianU64> for u64 {
    open spec fn obeys_eq_spec() -> bool {
        true
    }

    open spec fn eq_spec(&self, other: &BigEndianU64) -> bool {
        *self == other@
    }
}

impl PartialOrd for BigEndianU64 {
    fn partial_cmp(&self, other: &Self) -> (r: Option<Ordering>) {
        let a: u64 = self.get();
        let b: u64 = other.get();
        if a < b {
            Some(Ordering::Less)
        } else if a > b {
            Some(Ordering::Greater)
        } else {
            Some(Ordering::Equal)
        }
    }
}

impl vstd::std_specs::cmp::PartialOrdSpecImpl for BigEndianU64 {
    open spec fn obeys_partial_cmp_spec() -> bool {
        true
    }

    open spec fn partial_cmp_spec(&self, other: &Self) -> Option<Ordering> {
        if self@ < other@ {
            Some(Ordering::Less)
        } else if self@ > other@ {
            Some(Ordering::Greater)
        } else {
            Some(Ordering::Equal)
        }
    }
}

impl PartialOrd<u64> for BigEndianU64 {
    fn partial_cmp(&self, other: &u64) -> (r: Option<Ordering>) {
        let a: u64 = self.get();
        let b: u64 = *other;
        if a < b {
            Some(Ordering::Less)
        } else if a > b {
            Some(Ordering::Greater)
        } else {
            Some(Ordering::Equal)
        }
    }
}

impl vstd::std_specs::cmp::PartialOrdSpecImpl<u64> for BigEndianU64 {
    open spec fn obeys_partial_cmp_spec() -> bool {
        true
    }

    open spec fn partial_cmp_spec(&self, other: &u64) -> Option<Ordering> {
        if self@ < *other {
            Some(Ordering::Less)
        } else if self@ > *other {
            Some(Ordering::Greater)
        } else {
            Some(Ordering::Equal)
        }
    }
}

impl PartialOrd<BigEndianU64> for u64 {
    fn partial_cmp(&self, other: &BigEndianU64) -> (r: Option<Ordering>) {
        let a: u64 = *self;
        let b: u64 = other.get();
        if a < b {
            Some(Ordering::Less)
        } else if a > b {
            Some(Ordering::Greater)
        } else {
            Some(Ordering::Equal)
        }
    }
}

impl vstd::std_specs::cmp::PartialOrdSpecImpl<BigEndianU64> for u64 {
    open spec fn obeys_partial_cmp_spec() -> bool {
        true
    }

    open spec fn partial_cmp_spec(&self, other: &BigEndianU64) -> Option<Ordering> {
        if *self < other@ {
            Some(Ordering::Less)
        } else if *self > other@ {
            Some(Ordering::Greater)
        } else {
            Some(Ordering::Equal)
        }
    }
}

// Wrapper with wrapper. The arithmetic is done on the values; the bitwise
// operations are done on the stored integers, which gives the same wrapper.

impl Add for BigEndianU64 {
    type Output = Self;

    fn add(self, rhs: Self) -> (r: Self)
        ensures
            r@ == wrapping_add(self@, rhs@),
    {
        Self::new(self.get().wrapping_add(rhs.get()))
    }
}

impl vstd::std_specs::ops::AddSpecImpl for BigEndianU64 {
    open spec fn obeys_add_spec() -> bool {
        true
    }

    open spec fn add_req(self, rhs: Self) -> bool {
        true
    }

    open spec fn add_spec(self, rhs: Self) -> Self {
        Self::of(wrapping_add(self@, rhs@))
    }
}

impl Sub for BigEndianU64 {
    type Output = Self;

    fn sub(self, rhs: Self) -> (r: Self)
        ensures
            r@ == wrapping_sub(self@, rhs@),
    {
        Self::new(self.get().wrapping_sub(rhs.get()))
    }
}

impl vstd::std_specs::ops::SubSpecImpl for BigEndianU64 {
    open spec fn obeys_sub_spec() -> bool {
        true
    }

    open spec fn sub_req(self, rhs: Self) -> bool {
        true
    }

    open spec fn sub_spec(self, rhs: Self) -> Self {
        Self::of(wrapping_sub(self@, rhs@))
    }
}

impl Mul for BigEndianU64 {
    type Output = Self;

    fn mul(self, rhs: Self) -> (r: Self)
        ensures
            r@ == wrapping_mul(self@, rhs@),
    {
        Self::new(self.get().wrapping_mul(rhs.get()))
    }
}

impl vstd::std_specs::ops::MulSpecImpl for BigEndianU64 {
    open spec fn obeys_mul_spec() -> bool {
        true
    }

    open spec fn mul_req(self, rhs: Self) -> bool {
        true
    }

    open spec fn mul_spec(self, rhs: Self) -> Self {
        Self::of(wrapping_mul(self@, rhs@))
    }
}

impl Div for BigEndianU64 {
    type Output = Self;

    fn div(self, rhs: Self) -> (r: Self)
        ensures
            r@ == self@ / rhs@,
    {
        Self::new(self.get() / rhs.get())
    }
}

impl vstd::std_specs::ops::DivSpecImpl for BigEndianU64 {
    open spec fn obeys_div_spec() -> bool {
        true
    }

    open spec fn div_req(self, rhs: Self) -> bool {
        rhs@ != 0
    }

    open spec fn div_spec(self, rhs: Self) -> Self {
        Self::of(self@ / rhs@)
    }
}

impl Rem for BigEndianU64 {
    type Output = Self;

    fn rem(self, rhs: Self) -> (r: Self)
        ensures
            r@ == self@ % rhs@,
    {
        Self::new(self.get() % rhs.get())
    }
}

impl vstd::std_specs::ops::RemSpecImpl for BigEndianU64 {
    open spec fn obeys_rem_spec() -> bool {
        true
    }

    open spec fn rem_req(self, rhs: Self) -> bool {
        rhs@ != 0
    }

    open spec fn rem_spec(self, rhs: Self) -> Self {
        Self::of(self@ % rhs@)
    }
}

impl BitAnd for BigEndianU64 {
    type Output = Self;

    fn bitand(self, rhs: Self) -> (r: Self)
        ensures
            r@ == self@ & rhs@,
    {
        proof {
            lemma_u64_to_be(self@, rhs@);
            lemma_u64_to_be(self.raw, rhs.raw);
            lemma_u64_to_be(rhs.raw, self.raw);
        }
        BigEndianU64 { raw: self.raw & rhs.raw }
    }
}

impl vstd::std_specs::ops::BitAndSpecImpl for BigEndianU64 {
    open spec fn obeys_bitand_spec() -> bool {
        true
    }

    open spec fn bitand_req(self, rhs: Self) -> bool {
        true
    }

    open spec fn bitand_spec(self, rhs: Self) -> Self {
        Self::of(self@ & rhs@)
    }
}

impl BitOr for BigEndianU64 {
    type Output = Self;

    fn bitor(self, rhs: Self) -> (r: Self)
        ensures
            r@ == self@ | rhs@,
    {
        proof {
            lemma_u64_to_be(self@, rhs@);
            lemma_u64_to_be(self.raw, rhs.raw);
            lemma_u64_to_be(rhs.raw, self.raw);
        }
        BigEndianU64 { raw: self.raw | rhs.raw }
    }
}

impl vstd::std_specs::ops::BitOrSpecImpl for BigEndianU64 {
    open spec fn obeys_bitor_spec() -> bool {
        true
    }

    open spec fn bitor_req(self, rhs: Self) -> bool {
        true
    }

    open spec fn bitor_spec(self, rhs: Self) -> Self {
        Self::of(self@ | rhs@)
    }
}

impl BitXor for BigEndianU64 {
    type Output = Self;

    fn bitxor(self, rhs: Self) -> (r: Self)
        ensures
            r@ == self@ ^ rhs@,
    {
        proof {
            lemma_u64_to_be(self@, rhs@);
            lemma_u64_to_be(self.raw, rhs.raw);
            lemma_u64_to_be(rhs.raw, self.raw);
        }
        BigEndianU64 { raw: self.raw ^ rhs.raw }
    }
}

impl vstd::std_specs::ops::BitXorSpecImpl for BigEndianU64 {
    open spec fn obeys_bitxor_spec() -> bool {
        true
    }

    open spec fn bitxor_req(self, rhs: Self) -> bool {
        true
    }

    open spec fn bitxor_spec(self, rhs: Self) -> Self {
        Self::of(self@ ^ rhs@)
    }
}

impl Shl for BigEndianU64 {
    type Output = Self;

    fn shl(self, rhs: Self) -> (r: Self)
        ensures
            r@ == wrapping_shl(self@, rhs@ as u32),
    {
        Self::new(self.get().wrapping_shl(rhs.get() as u32))
    }
}

impl vstd::std_specs::ops::ShlSpecImpl for BigEndianU64 {
    open spec fn obeys_shl_spec() -> bool {
        true
    }

    open spec fn shl_req(self, rhs: Self) -> bool {
        true
    }

    open spec fn shl_spec(self, rhs: Self) -> Self {
        Self::of(wrapping_shl(self@, rhs@ as u32))
    }
}

impl Shr for BigEndianU64 {
    type Output = Self;

    fn shr(self, rhs: Self) -> (r: Self)
        ensures
            r@ == wrapping_shr(self@, rhs@ as u32),
    {
        Self::new(self.get().wrapping_shr(rhs.get() as u32))
    }
}

impl vstd::std_specs::ops::ShrSpecImpl for BigEndianU64 {
    open spec fn obeys_shr_spec() -> bool {
        true
    }

    open spec fn shr_req(self, rhs: Self) -> bool {
        true
    }

    open spec fn shr_spec(self, rhs: Self) -> Self {
        Self::of(wrapping_shr(self@, rhs@ as u32))
    }
}

impl Not for BigEndianU64 {
    type Output = Self;

    fn not(self) -> (r: Self)
        ensures
            r@ == !self@,
    {
        proof {
            lemma_u64_to_be(self@, self@);
            lemma_u64_to_be(self.raw, self.raw);
        }
        BigEndianU64 { raw: !self.raw }
    }
}

impl vstd::std_specs::ops::NotSpecImpl for BigEndianU64 {
    open spec fn obeys_not_spec() -> bool {
        true
    }

    open spec fn not_req(self) -> bool {
        true
    }

    open spec fn not_spec(self) -> Self {
        Self::of(!self@)
    }
}

impl AddAssign for BigEndianU64 {
    fn add_assign(&mut self, rhs: Self)
        ensures
            *final(self) == Self::of(wrapping_add(old(self)@, rhs@)),
            final(self)@ == wrapping_add(old(self)@, rhs@),
    {
        *self = *self + rhs;
    }
}

impl SubAssign for BigEndianU64 {
    fn sub_assign(&mut self, rhs: Self)
        ensures
            *final(self) == Self::of(wrapping_sub(old(self)@, rhs@)),
            final(self)@ == wrapping_sub(old(self)@, rhs@),
    {
        *self = *self - rhs;
    }
}

impl MulAssign for BigEndianU64 {
    fn mul_assign(&mut self, rhs: Self)
        ensures
            *final(self) == Self::of(wrapping_mul(old(self)@, rhs@)),
            final(self)@ == wrapping_mul(old(self)@, rhs@),
    {
        *self = *self * rhs;
    }
}

impl DivAssign for BigEndianU64 {
    fn div_assign(&mut self, rhs: Self)
        requires
            rhs@ != 0,
        ensures
            *final(self) == Self::of(old(self)@ / rhs@),
            final(self)@ == old(self)@ / rhs@,
    {
        *self = *self / rhs;
    }
}

impl RemAssign for BigEndianU64 {
    fn rem_assign(&mut self, rhs: Self)
        requires
            rhs@ != 0,
        ensures
            *final(self) == Self::of(old(self)@ % rhs@),
            final(self)@ == old(self)@ % rhs@,
    {
        *self = *self % rhs;
    }
}

impl BitAndAssign for BigEndianU64 {
    fn bitand_assign(&mut self, rhs: Self)
        ensures
            *final(self) == Self::of(old(self)@ & rhs@),
            final(self)@ == old(self)@ & rhs@,
    {
        *self = *self & rhs;
    }
}

impl BitOrAssign for BigEndianU64 {
    fn bitor_assign(&mut self, rhs: Self)
        ensures
            *final(self) == Self::of(old(self)@ | rhs@),
            final(self)@ == old(self)@ | rhs@,
    {
        *self = *self | rhs;
    }
}

impl BitXorAssign for BigEndianU64 {
    fn bitxor_assign(&mut self, rhs: Self)
        ensures
            *final(self) == Self::of(old(self)@ ^ rhs@),
            final(self)@ == old(self)@ ^ rhs@,
    {
        *self = *self ^ rhs;
    }
}

impl ShlAssign for BigEndianU64 {
    fn shl_assign(&mut self, rhs: Self)
        ensures
            *final(self) == Self::of(wrapping_shl(old(self)@, rhs@ as u32)),
            final(self)@ == wrapping_shl(old(self)@, rhs@ as u32),
    {
        *self = *self << rhs;
    }
}

impl ShrAssign for BigEndianU64 {
    fn shr_assign(&mut self, rhs: Self)
        ensures
            *final(self) == Self::of(wrapping_shr(old(self)@, rhs@ as u32)),
            final(self)@ == wrapping_shr(old(self)@, rhs@ as u32),
    {
        *self = *self >> rhs;
    }
}

// Wrapper with native integer: the result is a wrapper.

impl Add<u64> for BigEndianU64 {
    type Output = Self;

    fn add(self, rhs: u64) -> (r: Self)
        ensures
            r@ == wrapping_add(self@, rhs),
    {
        Self::new(self.get().wrapping_add(rhs))
    }
}

impl vstd::std_specs::ops::AddSpecImpl<u64> for BigEndianU64 {
    open spec fn obeys_add_spec() -> bool {
        true
    }

    open spec fn add_req(self, rhs: u64) -> bool {
        true
    }

    open spec fn add_spec(self, rhs: u64) -> Self {
        Self::of(wrapping_add(self@, rhs))
    }
}

impl Sub<u64> for BigEndianU64 {
    type Output = Self;

    fn sub(self, rhs: u64) -> (r: Self)
        ensures
            r@ == wrapping_sub(self@, rhs),
    {
        Self::new(self.get().wrapping_sub(rhs))
    }
}

impl vstd::std_specs::ops::SubSpecImpl<u64> for BigEndianU64 {
    open spec fn obeys_sub_spec() -> bool {
        true
    }

    open spec fn sub_req(self, rhs: u64) -> bool {
        true
    }

    open spec fn sub_spec(self, rhs: u64) -> Self {
        Self::of(wrapping_sub(self@, rhs))
    }
}

impl Mul<u64> for BigEndianU64 {
    type Output = Self;

    fn mul(self, rhs: u64) -> (r: Self)
        ensures
            r@ == wrapping_mul(self@, rhs),
    {
        Self::new(self.get().wrapping_mul(rhs))
    }
}

impl vstd::std_specs::ops::MulSpecImpl<u64> for BigEndianU64 {
    open spec fn obeys_mul_spec() -> bool {
        true
    }

    open spec fn mul_req(self, rhs: u64) -> bool {
        true
    }

    open spec fn mul_spec(self, rhs: u64) -> Self {
        Self::of(wrapping_mul(self@, rhs))
    }
}

impl Div<u64> for BigEndianU64 {
    type Output = Self;

    fn div(self, rhs: u64) -> (r: Self)
        ensures
            r@ == self@ / rhs,
    {
        Self::new(self.get() / rhs)
    }
}

impl vstd::std_specs::ops::DivSpecImpl<u64> for BigEndianU64 {
    open spec fn obeys_div_spec() -> bool {
        true
    }

    open spec fn div_req(self, rhs: u64) -> bool {
        rhs != 0
    }

    open spec fn div_spec(self, rhs: u64) -> Self {
        Self::of(self@ / rhs)
    }
}

impl Rem<u64> for BigEndianU64 {
    type Output = Self;

    fn rem(self, rhs: u64) -> (r: Self)
        ensures
            r@ == self@ % rhs,
    {
        Self::new(self.get() % rhs)
    }
}

impl vstd::std_specs::ops::RemSpecImpl<u64> for BigEndianU64 {
    open spec fn obeys_rem_spec() -> bool {
        true
    }

    open spec fn rem_req(self, rhs: u64) -> bool {
        rhs != 0
    }

    open spec fn rem_spec(self, rhs: u64) -> Self {
        Self::of(self@ % rhs)
    }
}

impl BitAnd<u64> for BigEndianU64 {
    type Output = Self;

    fn bitand(self, rhs: u64) -> (r: Self)
        ensures
            r@ == self@ & rhs,
    {
        Self::new(self.get() & rhs)
    }
}

impl vstd::std_specs::ops::BitAndSpecImpl<u64> for BigEndianU64 {
    open spec fn obeys_bitand_spec() -> bool {
        true
    }

    open spec fn bitand_req(self, rhs: u64) -> bool {
        true
    }

    open spec fn bitand_spec(self, rhs: u64) -> Self {
        Self::of(self@ & rhs)
    }
}

impl BitOr<u64> for BigEndianU64 {
    type Output = Self;

    fn bitor(self, rhs: u64) -> (r: Self)
        ensures
            r@ == self@ | rhs,
    {
        Self::new(self.get() | rhs)
    }
}

impl vstd::std_specs::ops::BitOrSpecImpl<u64> for BigEndianU64 {
    open spec fn obeys_bitor_spec() -> bool {
        true
    }

    open spec fn bitor_req(self, rhs: u64) -> bool {
        true
    }

    open spec fn bitor_spec(self, rhs: u64) -> Self {
        Self::of(self@ | rhs)
    }
}

impl BitXor<u64> for BigEndianU64 {
    type Output = Self;

    fn bitxor(self, rhs: u64) -> (r: Self)
        ensures
            r@ == self@ ^ rhs,
    {
        Self::new(self.get() ^ rhs)
    }
}

impl vstd::std_specs::ops::BitXorSpecImpl<u64> for BigEndianU64 {
    open spec fn obeys_bitxor_spec() -> bool {
        true
    }

    open spec fn bitxor_req(self, rhs: u64) -> bool {
        true
    }

    open spec fn bitxor_spec(self, rhs: u64) -> Self {
        Self::of(self@ ^ rhs)
    }
}

impl Shl<u64> for BigEndianU64 {
    type Output = Self;

    fn shl(self, rhs: u64) -> (r: Self)
        ensures
            r@ == wrapping_shl(self@, rhs as u32),
    {
        Self::new(self.get().wrapping_shl(rhs as u32))
    }
}

impl vstd::std_specs::ops::ShlSpecImpl<u64> for BigEndianU64 {
    open spec fn obeys_shl_spec() -> bool {
        true
    }

    open spec fn shl_req(self, rhs: u64) -> bool {
        true
    }

    open spec fn shl_spec(self, rhs: u64) -> Self {
        Self::of(wrapping_shl(self@, rhs as u32))
    }
}

impl Shr<u64> for BigEndianU64 {
    type Output = Self;

    fn shr(self, rhs: u64) -> (r: Self)
        ensures
            r@ == wrapping_shr(self@, rhs as u32),
    {
        Self::new(self.get().wrapping_shr(rhs as u32))
    }
}

impl vstd::std_specs::ops::ShrSpecImpl<u64> for BigEndianU64 {
    open spec fn obeys_shr_spec() -> bool {
        true
    }

    open spec fn shr_req(self, rhs: u64) -> bool {
        true
    }

    open spec fn shr_spec(self, rhs: u64) -> Self {
        Self::of(wrapping_shr(self@, rhs as u32))
    }
}

impl AddAssign<u64> for BigEndianU64 {
    fn add_assign(&mut self, rhs: u64)
        ensures
            *final(self) == Self::of(wrapping_add(old(self)@, rhs)),
            final(self)@ == wrapping_add(old(self)@, rhs),
    {
        *self = *self + rhs;
    }
}

impl SubAssign<u64> for BigEndianU64 {
    fn sub_assign(&mut self, rhs: u64)
        ensures
            *final(self) == Self::of(wrapping_sub(old(self)@, rhs)),
            final(self)@ == wrapping_sub(old(self)@, rhs),
    {
        *self = *self - rhs;
    }
}

impl MulAssign<u64> for BigEndianU64 {
    fn mul_assign(&mut self, rhs: u64)
        ensures
            *final(self) == Self::of(wrapping_mul(old(self)@, rhs)),
            final(self)@ == wrapping_mul(old(self)@, rhs),
    {
        *self = *self * rhs;
    }
}

impl DivAssign<u64> for BigEndianU64 {
    fn div_assign(&mut self, rhs: u64)
        requires
            rhs != 0,
        ensures
            *final(self) == Self::of(old(self)@ / rhs),
            final(self)@ == old(self)@ / rhs,
    {
        *self = *self / rhs;
    }
}

impl RemAssign<u64> for BigEndianU64 {
    fn rem_assign(&mut self, rhs: u64)
        requires
            rhs != 0,
        ensures
            *final(self) == Self::of(old(self)@ % rhs),
            final(self)@ == old(self)@ % rhs,
    {
        *self = *self % rhs;
    }
}

impl BitAndAssign<u64> for BigEndianU64 {
    fn bitand_assign(&mut self, rhs: u64)
        ensures
            *final(self) == Self::of(old(self)@ & rhs),
            final(self)@ == old(self)@ & rhs,
    {
        *self = *self & rhs;
    }
}

impl BitOrAssign<u64> for BigEndianU64 {
    fn bitor_assign(&mut self, rhs: u64)
        ensures
            *final(self) == Self::of(old(self)@ | rhs),
            final(self)@ == old(self)@ | rhs,
    {
        *self = *self | rhs;
    }
}

impl BitXorAssign<u64> for BigEndianU64 {
    fn bitxor_assign(&mut self, rhs: u64)
        ensures
            *final(self) == Self::of(old(self)@ ^ rhs),
            final(self)@ == old(self)@ ^ rhs,
    {
        *self = *self ^ rhs;
    }
}

impl ShlAssign<u64> for BigEndianU64 {
    fn shl_assign(&mut self, rhs: u64)
        ensures
            *final(self) == Self::of(wrapping_shl(old(self)@, rhs as u32)),
            final(self)@ == wrapping_shl(old(self)@, rhs as u32),
    {
        *self = *self << rhs;
    }
}

impl ShrAssign<u64> for BigEndianU64 {
    fn shr_assign(&mut self, rhs: u64)
        ensures
            *final(self) == Self::of(wrapping_shr(old(self)@, rhs as u32)),
            final(self)@ == wrapping_shr(old(self)@, rhs as u32),
    {
        *self = *self >> rhs;
    }
}

// Native integer with wrapper: the result is a native integer.

impl Add<BigEndianU64> for u64 {
    type Output = u64;

    fn add(self, rhs: BigEndianU64) -> (r: u64) {
        self.wrapping_add(rhs.get())
    }
}

impl vstd::std_specs::ops::AddSpecImpl<BigEndianU64> for u64 {
    open spec fn obeys_add_spec() -> bool {
        true
    }

    open spec fn add_req(self, rhs: BigEndianU64) -> bool {
        true
    }

    open spec fn add_spec(self, rhs: BigEndianU64) -> u64 {
        wrapping_add(self, rhs@)
    }
}

impl Sub<BigEndianU64> for u64 {
    type Output = u64;

    fn sub(self, rhs: BigEndianU64) -> (r: u64) {
        self.wrapping_sub(rhs.get())
    }
}

impl vstd::std_specs::ops::SubSpecImpl<BigEndianU64> for u64 {
    open spec fn obeys_sub_spec() -> bool {
        true
    }

    open spec fn sub_req(self, rhs: BigEndianU64) -> bool {
        true
    }

    open spec fn sub_spec(self, rhs: BigEndianU64) -> u64 {
        wrapping_sub(self, rhs@)
    }
}

impl Mul<BigEndianU64> for u64 {
    type Output = u64;

    fn mul(self, rhs: BigEndianU64) -> (r: u64) {
        self.wrapping_mul(rhs.get())
    }
}

impl vstd::std_specs::ops::MulSpecImpl<BigEndianU64> for u64 {
    open spec fn obeys_mul_spec() -> bool {
        true
    }

    open spec fn mul_req(self, rhs: BigEndianU64) -> bool {
        true
    }

    open spec fn mul_spec(self, rhs: BigEndianU64) -> u64 {
        wrapping_mul(self, rhs@)
    }
}

impl Div<BigEndianU64> for u64 {
    type Output = u64;

    fn div(self, rhs: BigEndianU64) -> (r: u64) {
        self / rhs.get()
    }
}

impl vstd::std_specs::ops::DivSpecImpl<BigEndianU64> for u64 {
    open spec fn obeys_div_spec() -> bool {
        true
    }

    open spec fn div_req(self, rhs: BigEndianU64) -> bool {
        rhs@ != 0
    }

    open spec fn div_spec(self, rhs: BigEndianU64) -> u64 {
        self / rhs@
    }
}

impl Rem<BigEndianU64> for u64 {
    type Output = u64;

    fn rem(self, rhs: BigEndianU64) -> (r: u64) {
        self % rhs.get()
    }
}

impl vstd::std_specs::ops::RemSpecImpl<BigEndianU64> for u64 {
    open spec fn obeys_rem_spec() -> bool {
        true
    }

    open spec fn rem_req(self, rhs: BigEndianU64) -> bool {
        rhs@ != 0
    }

    open spec fn rem_spec(self, rhs: BigEndianU64) -> u64 {
        self % rhs@
    }
}

impl BitAnd<BigEndianU64> for u64 {
    type Output = u64;

    fn bitand(self, rhs: BigEndianU64) -> (r: u64) {
        self & rhs.get()
    }
}

impl vstd::std_specs::ops::BitAndSpecImpl<BigEndianU64> for u64 {
    open spec fn obeys_bitand_spec() -> bool {
        true
    }

    open spec fn bitand_req(self, rhs: BigEndianU64) -> bool {
        true
    }

    open spec fn bitand_spec(self, rhs: BigEndianU64) -> u64 {
        self & rhs@
    }
}

impl BitOr<BigEndianU64> for u64 {
    type Output = u64;

    fn bitor(self, rhs: BigEndianU64) -> (r: u64) {
        self | rhs.get()
    }
}

impl vstd::std_specs::ops::BitOrSpecImpl<BigEndianU64> for u64 {
    open spec fn obeys_bitor_spec() -> bool {
        true
    }

    open spec fn bitor_req(self, rhs: BigEndianU64) -> bool {
        true
    }

    open spec fn bitor_spec(self, rhs: BigEndianU64) -> u64 {
        self | rhs@
    }
}

impl BitXor<BigEndianU64> for u64 {
    type Output = u64;

    fn bitxor(self, rhs: BigEndianU64) -> (r: u64) {
        self ^ rhs.get()
    }
}

impl vstd::std_specs::ops::BitXorSpecImpl<BigEndianU64> for u64 {
    open spec fn obeys_bitxor_spec() -> bool {
        true
    }

    open spec fn bitxor_req(self, rhs: BigEndianU64) -> bool {
        true
    }

    open spec fn bitxor_spec(self, rhs: BigEndianU64) -> u64 {
        self ^ rhs@
    }
}

impl Shl<BigEndianU64> for u64 {
    type Output = u64;

    fn shl(self, rhs: BigEndianU64) -> (r: u64) {
        self.wrapping_shl(rhs.get() as u32)
    }
}

impl vstd::std_specs::ops::ShlSpecImpl<BigEndianU64> for u64 {
    open spec fn obeys_shl_spec() -> bool {
        true
    }

    open spec fn shl_req(self, rhs: BigEndianU64) -> bool {
        true
    }

    open spec fn shl_spec(self, rhs: BigEndianU64) -> u64 {
        wrapping_shl(self, rhs@ as u32)
    }
}

impl Shr<BigEndianU64> for u64 {
    type Output = u64;

    fn shr(self, rhs: BigEndianU64) -> (r: u64) {
        self.wrapping_shr(rhs.get() as u32)
    }
}

impl vstd::std_specs::ops::ShrSpecImpl<BigEndianU64> for u64 {
    open spec fn obeys_shr_spec() -> bool {
        true
    }

    open spec fn shr_req(self, rhs: BigEndianU64) -> bool {
        true
    }

    open spec fn shr_spec(self, rhs: BigEndianU64) -> u64 {
        wrapping_shr(self, rhs@ as u32)
    }
}

impl AddAssign<BigEndianU64> for u64 {
    fn add_assign(&mut self, rhs: BigEndianU64)
        ensures
            *final(self) == wrapping_add(*old(self), rhs@),
    {
        *self = *self + rhs;
    }
}

impl SubAssign<BigEndianU64> for u64 {
    fn sub_assign(&mut self, rhs: BigEndianU64)
        ensures
            *final(self) == wrapping_sub(*old(self), rhs@),
    {
        *self = *self - rhs;
    }
}

impl MulAssign<BigEndianU64> for u64 {
    fn mul_assign(&mut self, rhs: BigEndianU64)
        ensures
            *final(self) == wrapping_mul(*old(self), rhs@),
    {
        *self = *self * rhs;
    }
}

impl DivAssign<BigEndianU64> for u64 {
    fn div_assign(&mut self, rhs: BigEndianU64)
        requires
            rhs@ != 0,
        ensures
            *final(self) == *old(self) / rhs@,
    {
        *self = *self / rhs;
    }
}

impl RemAssign<BigEndianU64> for u64 {
    fn rem_assign(&mut self, rhs: BigEndianU64)
        requires
            rhs@ != 0,
        ensures
            *final(self) == *old(self) % rhs@,
    {
        *self = *self % rhs;
    }
}

impl BitAndAssign<BigEndianU64> for u64 {
    fn bitand_assign(&mut self, rhs: BigEndianU64)
        ensures
            *final(self) == *old(self) & rhs@,
    {
        *self = *self & rhs;
    }
}

impl BitOrAssign<BigEndianU64> for u64 {
    fn bitor_assign(&mut self, rhs: BigEndianU64)
        ensures
            *final(self) == *old(self) | rhs@,
    {
        *self = *self | rhs;
    }
}

impl BitXorAssign<BigEndianU64> for u64 {
    fn bitxor_assign(&mut self, rhs: BigEndianU64)
        ensures
            *final(self) == *old(self) ^ rhs@,
    {
        *self = *self ^ rhs;
    }
}

impl ShlAssign<BigEndianU64> for u64 {
    fn shl_assign(&mut self, rhs: BigEndianU64)
        ensures
            *final(self) == wrapping_shl(*old(self), rhs@ as u32),
    {
        *self = *self << rhs;
    }
}

impl ShrAssign<BigEndianU64> for u64 {
    fn shr_assign(&mut self, rhs: BigEndianU64)
        ensures
            *final(self) == wrapping_shr(*old(self), rhs@ as u32),
    {
        *self = *self >> rhs;
    }
}

} // verus!
