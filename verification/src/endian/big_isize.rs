//! `BigEndianIsize`: a signed pointer-width integer kept in big-endian byte order.

use vstd::prelude::*;
use vstd::std_specs::cmp::{PartialEqSpec, PartialOrdSpec};
use vstd::std_specs::ops::{
    AddSpec, BitAndSpec, BitOrSpec, BitXorSpec, DivSpec, MulSpec, NegSpec, NotSpec, RemSpec,
    ShlSpec, ShrSpec, SubSpec,
};
use vstd::wrapping::isize_specs::{
    wrapping_add, wrapping_mul, wrapping_shl, wrapping_shr, wrapping_sub,
};
use core::cmp::Ordering;
use core::ops::{
    Add, AddAssign, BitAnd, BitAndAssign, BitOr, BitOrAssign, BitXor, BitXorAssign, Div,
    DivAssign, Mul, MulAssign, Neg, Not, Rem, RemAssign, Shl, ShlAssign, Shr, ShrAssign,
    Sub, SubAssign,
};
use crate::order::pointer::{isize_be_bytes, isize_stored_bytes, isize_to_be, lemma_isize_to_be};
use crate::endian::little_isize::LittleEndianIsize;
use crate::native::{
    isize_divides, isize_quot, isize_rem, lemma_isize_division, quot_toward_zero, rem_toward_zero,
};

verus! {

/// A signed pointer-width integer whose bytes lie in memory most significant
/// first, whatever the byte order of the machine.
///
/// `raw` is the stored integer: read as a native `isize` it is the value on a
/// big-endian machine and the value with its bytes reversed on the other kind.
/// Every `isize` is the stored form of exactly one value. The view is the value.
#[derive(Clone, Copy, Hash)]
pub struct BigEndianIsize {
    pub raw: isize,
}

#[allow(non_camel_case_types)]
pub type isize_be = BigEndianIsize;

impl View for BigEndianIsize {
    type V = isize;

    open spec fn view(&self) -> isize {
        isize_to_be(self.raw)
    }
}

impl BigEndianIsize {
    /// The number of bits of a value.
    pub const BITS: u32 = isize::BITS;

    /// The wrapper that holds `value`.
    pub open spec fn of(value: isize) -> Self {
        BigEndianIsize { raw: isize_to_be(value) }
    }

    /// The bytes that the wrapper occupies, lowest address first.
    pub open spec fn stored_bytes(self) -> Seq<u8> {
        isize_stored_bytes(self.raw)
    }

    /// Stores `value`, given in native byte order.
    pub fn new(value: isize) -> (r: Self)
        ensures
            r == Self::of(value),
            r@ == value,
    {
        proof {
            lemma_isize_to_be(value, value);
        }
        BigEndianIsize { raw: value.to_be() }
    }

    /// The value, in native byte order.
    pub fn get(self) -> (value: isize)
        ensures
            value == self@,
    {
        isize::from_be(self.raw)
    }

    /// Replaces the stored value by `value`, given in native byte order.
    pub fn set(&mut self, value: isize)
        ensures
            *final(self) == Self::of(value),
            final(self)@ == value,
    {
        *self = Self::new(value);
    }

    /// The wrapper of the least value.
    pub fn min_value() -> (r: Self)
        ensures
            r == Self::of(isize::MIN),
            r@ == isize::MIN,
    {
        Self::new(isize::MIN)
    }

    /// The wrapper of the greatest value.
    pub fn max_value() -> (r: Self)
        ensures
            r == Self::of(isize::MAX),
            r@ == isize::MAX,
    {
        Self::new(isize::MAX)
    }

    /// A value that is stored reads back unchanged, and a wrapper is the one
    /// that stores its own value: the two forms determine each other.
    pub proof fn round_trip(value: isize, stored: Self)
        ensures
            Self::of(value)@ == value,
            Self::of(stored@) == stored,
    {
        lemma_isize_to_be(value, stored.raw);
        lemma_isize_to_be(stored.raw, value);
    }

    /// The wrapper of `value` occupies the bytes of `value`, most significant
    /// first, on either kind of machine.
    pub proof fn byte_order(value: isize)
        ensures
            Self::of(value).stored_bytes() == isize_be_bytes(value),
    {
        lemma_isize_to_be(value, value);
    }

    /// Every operator on two wrappers gives the wrapper whose value is what the
    /// native operator gives on their values, with the native wraparound.
    /// Division and remainder are left out where the machine cannot divide.
    pub proof fn arithmetic_is_native(a: isize, b: isize)
        ensures
            Self::of(a).add_spec(Self::of(b))@ == wrapping_add(a, b),
            Self::of(a).sub_spec(Self::of(b))@ == wrapping_sub(a, b),
            Self::of(a).mul_spec(Self::of(b))@ == wrapping_mul(a, b),
            isize_divides(a, b) ==> Self::of(a).div_spec(Self::of(b))@ == isize_quot(a, b),
            isize_divides(a, b) ==> isize_quot(a, b) == quot_toward_zero(a as int, b as int),
            isize_divides(a, b) ==> Self::of(a).rem_spec(Self::of(b))@ == isize_rem(a, b),
            isize_divides(a, b) ==> isize_rem(a, b) == rem_toward_zero(a as int, b as int),
            Self::of(a).bitand_spec(Self::of(b))@ == a & b,
            Self::of(a).bitor_spec(Self::of(b))@ == a | b,
            Self::of(a).bitxor_spec(Self::of(b))@ == a ^ b,
            Self::of(a).shl_spec(Self::of(b))@ == wrapping_shl(a, b as u32),
            Self::of(a).shr_spec(Self::of(b))@ == wrapping_shr(a, b as u32),
            Self::of(a).not_spec()@ == !a,
            Self::of(a).neg_spec()@ == wrapping_sub(0, a),
    {
        if isize_divides(a, b) {
            lemma_isize_division(a, b);
        }
        Self::round_trip(a, Self::of(b));
        Self::round_trip(b, Self::of(a));
        Self::round_trip(wrapping_add(a, b), Self::of(a));
        Self::round_trip(wrapping_sub(a, b), Self::of(a));
        Self::round_trip(wrapping_mul(a, b), Self::of(a));
        Self::round_trip(isize_quot(a, b), Self::of(a));
        Self::round_trip(isize_rem(a, b), Self::of(a));
        Self::round_trip(a & b, Self::of(a));
        Self::round_trip(a | b, Self::of(a));
        Self::round_trip(a ^ b, Self::of(a));
        Self::round_trip(wrapping_shl(a, b as u32), Self::of(a));
        Self::round_trip(wrapping_shr(a, b as u32), Self::of(a));
        Self::round_trip(!a, Self::of(a));
        Self::round_trip(wrapping_sub(0, a), Self::of(a));
    }

    /// Both byte orders hold the same value, and each wrapper equals the native
    /// integer that it was made from.
    pub proof fn orders_agree(value: isize)
        ensures
            Self::of(value)@ == LittleEndianIsize::of(value)@,
            Self::of(value).eq_spec(&value),
            LittleEndianIsize::of(value).eq_spec(&value),
    {
        Self::round_trip(value, Self::of(value));
        LittleEndianIsize::round_trip(value, LittleEndianIsize::of(value));
    }

    /// Two wrappers compare as their values do, whatever their stored forms.
    pub proof fn comparison_is_native(a: isize, b: isize)
        ensures
            Self::of(a).eq_spec(&Self::of(b)) == (a == b),
            Self::of(a) == Self::of(b) <==> a == b,
            Self::of(a).partial_cmp_spec(&Self::of(b)) == a.partial_cmp_spec(&b),
    {
        Self::round_trip(a, Self::of(b));
        Self::round_trip(b, Self::of(a));
    }
}

impl Default for BigEndianIsize {
    /// The wrapper of zero.
    fn default() -> (r: Self)
        ensures
            r == Self::of(0),
            r@ == 0,
    {
        Self::new(0)
    }
}

impl From<isize> for BigEndianIsize {
    fn from(value: isize) -> (r: Self)
        ensures
            r@ == value,
    {
        Self::new(value)
    }
}

impl vstd::std_specs::convert::FromSpecImpl<isize> for BigEndianIsize {
    open spec fn obeys_from_spec() -> bool {
        true
    }

    open spec fn from_spec(value: isize) -> Self {
        Self::of(value)
    }
}

impl From<BigEndianIsize> for isize {
    fn from(value: BigEndianIsize) -> (r: isize) {
        value.get()
    }
}

impl vstd::std_specs::convert::FromSpecImpl<BigEndianIsize> for isize {
    open spec fn obeys_from_spec() -> bool {
        true
    }

    open spec fn from_spec(value: BigEndianIsize) -> isize {
        value@
    }
}

// Equality and order go by the values, never by the stored integers.

impl PartialEq for BigEndianIsize {
    fn eq(&self, other: &Self) -> (r: bool) {
        self.get() == other.get()
    }
}

impl vstd::std_specs::cmp::PartialEqSpecImpl for BigEndianIsize {
    open spec fn obeys_eq_spec() -> bool {
        true
    }

    open spec fn eq_spec(&self, other: &Self) -> bool {
        self@ == other@
    }
}

impl Eq for BigEndianIsize {
}

impl PartialEq<isize> for BigEndianIsize {
    fn eq(&self, other: &isize) -> (r: bool) {
        self.get() == *other
    }
}

impl vstd::std_specs::cmp::PartialEqSpecImpl<isize> for BigEndianIsize {
    open spec fn obeys_eq_spec() -> bool {
        true
    }

    open spec fn eq_spec(&self, other: &isize) -> bool {
        self@ == *other
    }
}

impl PartialEq<BigEndianIsize> for isize {
    fn eq(&self, other: &BigEndianIsize) -> (r: bool) {
        *self == other.get()
    }
}

impl vstd::std_specs::cmp::PartialEqSpecImpl<BigEndianIsize> for isize {
    open spec fn obeys_eq_spec() -> bool {
        true
    }

    open spec fn eq_spec(&self, other: &BigEndianIsize) -> bool {
        *self == other@
    }
}

impl PartialOrd for BigEndianIsize {
    fn partial_cmp(&self, other: &Self) -> (r: Option<Ordering>) {
        let a: isize = self.get();
        let b: isize = other.get();
        if a < b {
            Some(Ordering::Less)
        } else if a > b {
            Some(Ordering::Greater)
        } else {
            Some(Ordering::Equal)
        }
    }
}

impl vstd::std_specs::cmp::PartialOrdSpecImpl for BigEndianIsize {
    open spec fn obeys_partial_cmp_spec() -> bool {
        true
    }

    open spec fn partial_cmp_spec(&self, other: &Self) -> Option<Ordering> {
        if self@ < other@ {
            Some(Ordering::Less)
        } else if self@ > other@ {
            Some(Ordering::Greater)
        } else {
            Some(Ordering::Equal)
        }
    }
}

impl PartialOrd<isize> for BigEndianIsize {
    fn partial_cmp(&self, other: &isize) -> (r: Option<Ordering>) {
        let a: isize = self.get();
        let b: isize = *other;
        if a < b {
            Some(Ordering::Less)
        } else if a > b {
            Some(Ordering::Greater)
        } else {
            Some(Ordering::Equal)
        }
    }
}

impl vstd::std_specs::cmp::PartialOrdSpecImpl<isize> for BigEndianIsize {
    open spec fn obeys_partial_cmp_spec() -> bool {
        true
    }

    open spec fn partial_cmp_spec(&self, other: &isize) -> Option<Ordering> {
        if self@ < *other {
            Some(Ordering::Less)
        } else if self@ > *other {
            Some(Ordering::Greater)
        } else {
            Some(Ordering::Equal)
        }
    }
}

impl PartialOrd<BigEndianIsize> for isize {
    fn partial_cmp(&self, other: &BigEndianIsize) -> (r: Option<Ordering>) {
        let a: isize = *self;
        let b: isize = other.get();
        if a < b {
            Some(Ordering::Less)
        } else if a > b {
            Some(Ordering::Greater)
        } else {
            Some(Ordering::Equal)
        }
    }
}

impl vstd::std_specs::cmp::PartialOrdSpecImpl<BigEndianIsize> for isize {
    open spec fn obeys_partial_cmp_spec() -> bool {
        true
    }

    open spec fn partial_cmp_spec(&self, other: &BigEndianIsize) -> Option<Ordering> {
        if *self < other@ {
            Some(Ordering::Less)
        } else if *self > other@ {
            Some(Ordering::Greater)
        } else {
            Some(Ordering::Equal)
        }
    }
}

// Wrapper with wrapper. The arithmetic is done on the values; the bitwise
// operations are done on the stored integers, which gives the same wrapper.

impl Add for BigEndianIsize {
    type Output = Self;

    fn add(self, rhs: Self) -> (r: Self)
        ensures
            r@ == wrapping_add(self@, rhs@),
    {
        Self::new(self.get().wrapping_add(rhs.get()))
    }
}

impl vstd::std_specs::ops::AddSpecImpl for BigEndianIsize {
    open spec fn obeys_add_spec() -> bool {
        true
    }

    open spec fn add_req(self, rhs: Self) -> bool {
        true
    }

    open spec fn add_spec(self, rhs: Self) -> Self {
        Self::of(wrapping_add(self@, rhs@))
    }
}

impl Sub for BigEndianIsize {
    type Output = Self;

    fn sub(self, rhs: Self) -> (r: Self)
        ensures
            r@ == wrapping_sub(self@, rhs@),
    {
        Self::new(self.get().wrapping_sub(rhs.get()))
    }
}

impl vstd::std_specs::ops::SubSpecImpl for BigEndianIsize {
    open spec fn obeys_sub_spec() -> bool {
        true
    }

    open spec fn sub_req(self, rhs: Self) -> bool {
        true
    }

    open spec fn sub_spec(self, rhs: Self) -> Self {
        Self::of(wrapping_sub(self@, rhs@))
    }
}

impl Mul for BigEndianIsize {
    type Output = Self;

    fn mul(self, rhs: Self) -> (r: Self)
        ensures
            r@ == wrapping_mul(self@, rhs@),
    {
        Self::new(self.get().wrapping_mul(rhs.get()))
    }
}

impl vstd::std_specs::ops::MulSpecImpl for BigEndianIsize {
    open spec fn obeys_mul_spec() -> bool {
        true
    }

    open spec fn mul_req(self, rhs: Self) -> bool {
        true
    }

    open spec fn mul_spec(self, rhs: Self) -> Self {
        Self::of(wrapping_mul(self@, rhs@))
    }
}

impl Div for BigEndianIsize {
    type Output = Self;

    fn div(self, rhs: Self) -> (r: Self)
        ensures
            r@ == isize_quot(self@, rhs@),
    {
        Self::new(self.get() / rhs.get())
    }
}

impl vstd::std_specs::ops::DivSpecImpl for BigEndianIsize {
    open spec fn obeys_div_spec() -> bool {
        true
    }

    open spec fn div_req(self, rhs: Self) -> bool {
        isize_divides(self@, rhs@)
    }

    open spec fn div_spec(self, rhs: Self) -> Self {
        Self::of(isize_quot(self@, rhs@))
    }
}

impl Rem for BigEndianIsize {
    type Output = Self;

    fn rem(self, rhs: Self) -> (r: Self)
        ensures
            r@ == isize_rem(self@, rhs@),
    {
        Self::new(self.get() % rhs.get())
    }
}

impl vstd::std_specs::ops::RemSpecImpl for BigEndianIsize {
    open spec fn obeys_rem_spec() -> bool {
        true
    }

    open spec fn rem_req(self, rhs: Self) -> bool {
        isize_divides(self@, rhs@)
    }

    open spec fn rem_spec(self, rhs: Self) -> Self {
        Self::of(isize_rem(self@, rhs@))
    }
}

impl BitAnd for BigEndianIsize {
    type Output = Self;

    fn bitand(self, rhs: Self) -> (r: Self)
        ensures
            r@ == self@ & rhs@,
    {
        proof {
            lemma_isize_to_be(self@, rhs@);
            lemma_isize_to_be(self.raw, rhs.raw);
            lemma_isize_to_be(rhs.raw, self.raw);
        }
        BigEndianIsize { raw: self.raw & rhs.raw }
    }
}

impl vstd::std_specs::ops::BitAndSpecImpl for BigEndianIsize {
    open spec fn obeys_bitand_spec() -> bool {
        true
    }

    open spec fn bitand_req(self, rhs: Self) -> bool {
        true
    }

    open spec fn bitand_spec(self, rhs: Self) -> Self {
        Self::of(self@ & rhs@)
    }
}

impl BitOr for BigEndianIsize {
    type Output = Self;

    fn bitor(self, rhs: Self) -> (r: Self)
        ensures
            r@ == self@ | rhs@,
    {
        proof {
            lemma_isize_to_be(self@, rhs@);
            lemma_isize_to_be(self.raw, rhs.raw);
            lemma_isize_to_be(rhs.raw, self.raw);
        }
        BigEndianIsize { raw: self.raw | rhs.raw }
    }
}

impl vstd::std_specs::ops::BitOrSpecImpl for BigEndianIsize {
    open spec fn obeys_bitor_spec() -> bool {
        true
    }

    open spec fn bitor_req(self, rhs: Self) -> bool {
        true
    }

    open spec fn bitor_spec(self, rhs: Self) -> Self {
        Self::of(self@ | rhs@)
    }
}

impl BitXor for BigEndianIsize {
    type Output = Self;

    fn bitxor(self, rhs: Self) -> (r: Self)
        ensures
            r@ == self@ ^ rhs@,
    {
        proof {
            lemma_isize_to_be(self@, rhs@);
            lemma_isize_to_be(self.raw, rhs.raw);
            lemma_isize_to_be(rhs.raw, self.raw);
        }
        BigEndianIsize { raw: self.raw ^ rhs.raw }
    }
}

impl vstd::std_specs::ops::BitXorSpecImpl for BigEndianIsize {
    open spec fn obeys_bitxor_spec() -> bool {
        true
    }

    open spec fn bitxor_req(self, rhs: Self) -> bool {
        true
    }

    open spec fn bitxor_spec(self, rhs: Self) -> Self {
        Self::of(self@ ^ rhs@)
    }
}

impl Shl for BigEndianIsize {
    type Output = Self;

    fn shl(self, rhs: Self) -> (r: Self)
        ensures
            r@ == wrapping_shl(self@, rhs@ as u32),
    {
        Self::new(self.get().wrapping_shl(rhs.get() as u32))
    }
}

impl vstd::std_specs::ops::ShlSpecImpl for BigEndianIsize {
    open spec fn obeys_shl_spec() -> bool {
        true
    }

    open spec fn shl_req(self, rhs: Self) -> bool {
        true
    }

    open spec fn shl_spec(self, rhs: Self) -> Self {
        Self::of(wrapping_shl(self@, rhs@ as u32))
    }
}

impl Shr for BigEndianIsize {
    type Output = Self;

    fn shr(self, rhs: Self) -> (r: Self)
        ensures
            r@ == wrapping_shr(self@, rhs@ as u32),
    {
        Self::new(self.get().wrapping_shr(rhs.get() as u32))
    }
}

impl vstd::std_specs::ops::ShrSpecImpl for BigEndianIsize {
    open spec fn obeys_shr_spec() -> bool {
        true
    }

    open spec fn shr_req(self, rhs: Self) -> bool {
        true
    }

    open spec fn shr_spec(self, rhs: Self) -> Self {
        Self::of(wrapping_shr(self@, rhs@ as u32))
    }
}

impl Not for BigEndianIsize {
    type Output = Self;

    fn not(self) -> (r: Self)
        ensures
            r@ == !self@,
    {
        proof {
            lemma_isize_to_be(self@, self@);
            lemma_isize_to_be(self.raw, self.raw);
        }
        BigEndianIsize { raw: !self.raw }
    }
}

impl vstd::std_specs::ops::NotSpecImpl for BigEndianIsize {
    open spec fn obeys_not_spec() -> bool {
        true
    }

    open spec fn not_req(self) -> bool {
        true
    }

    open spec fn not_spec(self) -> Self {
        Self::of(!self@)
    }
}

impl Neg for BigEndianIsize {
    type Output = Self;

    fn neg(self) -> (r: Self)
        ensures
            r@ == wrapping_sub(0, self@),
    {
        let zero: isize = 0;
        Self::new(zero.wrapping_sub(self.get()))
    }
}

impl vstd::std_specs::ops::NegSpecImpl for BigEndianIsize {
    open spec fn obeys_neg_spec() -> bool {
        true
    }

    open spec fn neg_req(self) -> bool {
        true
    }

    open spec fn neg_spec(self) -> Self {
        Self::of(wrapping_sub(0, self@))
    }
}

impl AddAssign for BigEndianIsize {
    fn add_assign(&mut self, rhs: Self)
        ensures
            *final(self) == Self::of(wrapping_add(old(self)@, rhs@)),
            final(self)@ == wrapping_add(old(self)@, rhs@),
    {
        *self = *self + rhs;
    }
}

impl SubAssign for BigEndianIsize {
    fn sub_assign(&mut self, rhs: Self)
        ensures
            *final(self) == Self::of(wrapping_sub(old(self)@, rhs@)),
            final(self)@ == wrapping_sub(old(self)@, rhs@),
    {
        *self = *self - rhs;
    }
}

impl MulAssign for BigEndianIsize {
    fn mul_assign(&mut self, rhs: Self)
        ensures
            *final(self) == Self::of(wrapping_mul(old(self)@, rhs@)),
            final(self)@ == wrapping_mul(old(self)@, rhs@),
    {
        *self = *self * rhs;
    }
}

impl DivAssign for BigEndianIsize {
    fn div_assign(&mut self, rhs: Self)
        requires
            isize_divides(old(self)@, rhs@),
        ensures
            *final(self) == Self::of(isize_quot(old(self)@, rhs@)),
            final(self)@ == isize_quot(old(self)@, rhs@),
    {
        *self = *self / rhs;
    }
}

impl RemAssign for BigEndianIsize {
    fn rem_assign(&mut self, rhs: Self)
        requires
            isize_divides(old(self)@, rhs@),
        ensures
            *final(self) == Self::of(isize_rem(old(self)@, rhs@)),
            final(self)@ == isize_rem(old(self)@, rhs@),
    {
        *self = *self % rhs;
    }
}

impl BitAndAssign for BigEndianIsize {
    fn bitand_assign(&mut self, rhs: Self)
        ensures
            *final(self) == Self::of(old(self)@ & rhs@),
            final(self)@ == old(self)@ & rhs@,
    {
        *self = *self & rhs;
    }
}

impl BitOrAssign for BigEndianIsize {
    fn bitor_assign(&mut self, rhs: Self)
        ensures
            *final(self) == Self::of(old(self)@ | rhs@),
            final(self)@ == old(self)@ | rhs@,
    {
        *self = *self | rhs;
    }
}

impl BitXorAssign for BigEndianIsize {
    fn bitxor_assign(&mut self, rhs: Self)
        ensures
            *final(self) == Self::of(old(self)@ ^ rhs@),
            final(self)@ == old(self)@ ^ rhs@,
    {
        *self = *self ^ rhs;
    }
}

impl ShlAssign for BigEndianIsize {
    fn shl_assign(&mut self, rhs: Self)
        ensures
            *final(self) == Self::of(wrapping_shl(old(self)@, rhs@ as u32)),
            final(self)@ == wrapping_shl(old(self)@, rhs@ as u32),
    {
        *self = *self << rhs;
    }
}

impl ShrAssign for BigEndianIsize {
    fn shr_assign(&mut self, rhs: Self)
        ensures
            *final(self) == Self::of(wrapping_shr(old(self)@, rhs@ as u32)),
            final(self)@ == wrapping_shr(old(self)@, rhs@ as u32),
    {
        *self = *self >> rhs;
    }
}

// Wrapper with native integer: the result is a wrapper.

impl Add<isize> for BigEndianIsize {
    type Output = Self;

    fn add(self, rhs: isize) -> (r: Self)
        ensures
            r@ == wrapping_add(self@, rhs),
    {
        Self::new(self.get().wrapping_add(rhs))
    }
}

impl vstd::std_specs::ops::AddSpecImpl<isize> for BigEndianIsize {
    open spec fn obeys_add_spec() -> bool {
        true
    }

    open spec fn add_req(self, rhs: isize) -> bool {
        true
    }

    open spec fn add_spec(self, rhs: isize) -> Self {
        Self::of(wrapping_add(self@, rhs))
    }
}

impl Sub<isize> for BigEndianIsize {
    type Output = Self;

    fn sub(self, rhs: isize) -> (r: Self)
        ensures
            r@ == wrapping_sub(self@, rhs),
    {
        Self::new(self.get().wrapping_sub(rhs))
    }
}

impl vstd::std_specs::ops::SubSpecImpl<isize> for BigEndianIsize {
    open spec fn obeys_sub_spec() -> bool {
        true
    }

    open spec fn sub_req(self, rhs: isize) -> bool {
        true
    }

    open spec fn sub_spec(self, rhs: isize) -> Self {
        Self::of(wrapping_sub(self@, rhs))
    }
}

impl Mul<isize> for BigEndianIsize {
    type Output = Self;

    fn mul(self, rhs: isize) -> (r: Self)
        ensures
            r@ == wrapping_mul(self@, rhs),
    {
        Self::new(self.get().wrapping_mul(rhs))
    }
}

impl vstd::std_specs::ops::MulSpecImpl<isize> for BigEndianIsize {
    open spec fn obeys_mul_spec() -> bool {
        true
    }

    open spec fn mul_req(self, rhs: isize) -> bool {
        true
    }

    open spec fn mul_spec(self, rhs: isize) -> Self {
        Self::of(wrapping_mul(self@, rhs))
    }
}

impl Div<isize> for BigEndianIsize {
    type Output = Self;

    fn div(self, rhs: isize) -> (r: Self)
        ensures
            r@ == isize_quot(self@, rhs),
    {
        Self::new(self.get() / rhs)
    }
}

impl vstd::std_specs::ops::DivSpecImpl<isize> for BigEndianIsize {
    open spec fn obeys_div_spec() -> bool {
        true
    }

    open spec fn div_req(self, rhs: isize) -> bool {
        isize_divides(self@, rhs)
    }

    open spec fn div_spec(self, rhs: isize) -> Self {
        Self::of(isize_quot(self@, rhs))
    }
}

impl Rem<isize> for BigEndianIsize {
    type Output = Self;

    fn rem(self, rhs: isize) -> (r: Self)
        ensures
            r@ == isize_rem(self@, rhs),
    {
        Self::new(self.get() % rhs)
    }
}

impl vstd::std_specs::ops::RemSpecImpl<isize> for BigEndianIsize {
    open spec fn obeys_rem_spec() -> bool {
        true
    }

    open spec fn rem_req(self, rhs: isize) -> bool {
        isize_divides(self@, rhs)
    }

    open spec fn rem_spec(self, rhs: isize) -> Self {
        Self::of(isize_rem(self@, rhs))
    }
}

impl BitAnd<isize> for BigEndianIsize {
    type Output = Self;

    fn bitand(self, rhs: isize) -> (r: Self)
        ensures
            r@ == self@ & rhs,
    {
        Self::new(self.get() & rhs)
    }
}

impl vstd::std_specs::ops::BitAndSpecImpl<isize> for BigEndianIsize {
    open spec fn obeys_bitand_spec() -> bool {
        true
    }

    open spec fn bitand_req(self, rhs: isize) -> bool {
        true
    }

    open spec fn bitand_spec(self, rhs: isize) -> Self {
        Self::of(self@ & rhs)
    }
}

impl BitOr<isize> for BigEndianIsize {
    type Output = Self;

    fn bitor(self, rhs: isize) -> (r: Self)
        ensures
            r@ == self@ | rhs,
    {
        Self::new(self.get() | rhs)
    }
}

impl vstd::std_specs::ops::BitOrSpecImpl<isize> for BigEndianIsize {
    open spec fn obeys_bitor_spec() -> bool {
        true
    }

    open spec fn bitor_req(self, rhs: isize) -> bool {
        true
    }

    open spec fn bitor_spec(self, rhs: isize) -> Self {
        Self::of(self@ | rhs)
    }
}

impl BitXor<isize> for BigEndianIsize {
    type Output = Self;

    fn bitxor(self, rhs: isize) -> (r: Self)
        ensures
            r@ == self@ ^ rhs,
    {
        Self::new(self.get() ^ rhs)
    }
}

impl vstd::std_specs::ops::BitXorSpecImpl<isize> for BigEndianIsize {
    open spec fn obeys_bitxor_spec() -> bool {
        true
    }

    open spec fn bitxor_req(self, rhs: isize) -> bool {
        true
    }

    open spec fn bitxor_spec(self, rhs: isize) -> Self {
        Self::of(self@ ^ rhs)
    }
}

impl Shl<isize> for BigEndianIsize {
    type Output = Self;

    fn shl(self, rhs: isize) -> (r: Self)
        ensures
            r@ == wrapping_shl(self@, rhs as u32),
    {
        Self::new(self.get().wrapping_shl(rhs as u32))
    }
}

impl vstd::std_specs::ops::ShlSpecImpl<isize> for BigEndianIsize {
    open spec fn obeys_shl_spec() -> bool {
        true
    }

    open spec fn shl_req(self, rhs: isize) -> bool {
        true
    }

    open spec fn shl_spec(self, rhs: isize) -> Self {
        Self::of(wrapping_shl(self@, rhs as u32))
    }
}

impl Shr<isize> for BigEndianIsize {
    type Output = Self;

    fn shr(self, rhs: isize) -> (r: Self)
        ensures
            r@ == wrapping_shr(self@, rhs as u32),
    {
        Self::new(self.get().wrapping_shr(rhs as u32))
    }
}

impl vstd::std_specs::ops::ShrSpecImpl<isize> for BigEndianIsize {
    open spec fn obeys_shr_spec() -> bool {
        true
    }

    open spec fn shr_req(self, rhs: isize) -> bool {
        true
    }

    open spec fn shr_spec(self, rhs: isize) -> Self {
        Self::of(wrapping_shr(self@, rhs as u32))
    }
}

impl AddAssign<isize> for BigEndianIsize {
    fn add_assign(&mut self, rhs: isize)
        ensures
            *final(self) == Self::of(wrapping_add(old(self)@, rhs)),
            final(self)@ == wrapping_add(old(self)@, rhs),
    {
        *self = *self + rhs;
    }
}

impl SubAssign<isize> for BigEndianIsize {
    fn sub_assign(&mut self, rhs: isize)
        ensures
            *final(self) == Self::of(wrapping_sub(old(self)@, rhs)),
            final(self)@ == wrapping_sub(old(self)@, rhs),
    {
        *self = *self - rhs;
    }
}

impl MulAssign<isize> for BigEndianIsize {
    fn mul_assign(&mut self, rhs: isize)
        ensures
            *final(self) == Self::of(wrapping_mul(old(self)@, rhs)),
            final(self)@ == wrapping_mul(old(self)@, rhs),
    {
        *self = *self * rhs;
    }
}

impl DivAssign<isize> for BigEndianIsize {
    fn div_assign(&mut self, rhs: isize)
        requires
            isize_divides(old(self)@, rhs),
        ensures
            *final(self) == Self::of(isize_quot(old(self)@, rhs)),
            final(self)@ == isize_quot(old(self)@, rhs),
    {
        *self = *self / rhs;
    }
}

impl RemAssign<isize> for BigEndianIsize {
    fn rem_assign(&mut self, rhs: isize)
        requires
            isize_divides(old(self)@, rhs),
        ensures
            *final(self) == Self::of(isize_rem(old(self)@, rhs)),
            final(self)@ == isize_rem(old(self)@, rhs),
    {
        *self = *self % rhs;
    }
}

impl BitAndAssign<isize> for BigEndianIsize {
    fn bitand_assign(&mut self, rhs: isize)
        ensures
            *final(self) == Self::of(old(self)@ & rhs),
            final(self)@ == old(self)@ & rhs,
    {
        *self = *self & rhs;
    }
}

impl BitOrAssign<isize> for BigEndianIsize {
    fn bitor_assign(&mut self, rhs: isize)
        ensures
            *final(self) == Self::of(old(self)@ | rhs),
            final(self)@ == old(self)@ | rhs,
    {
        *self = *self | rhs;
    }
}

impl BitXorAssign<isize> for BigEndianIsize {
    fn bitxor_assign(&mut self, rhs: isize)
        ensures
            *final(self) == Self::of(old(self)@ ^ rhs),
            final(self)@ == old(self)@ ^ rhs,
    {
        *self = *self ^ rhs;
    }
}

impl ShlAssign<isize> for BigEndianIsize {
    fn shl_assign(&mut self, rhs: isize)
        ensures
            *final(self) == Self::of(wrapping_shl(old(self)@, rhs as u32)),
            final(self)@ == wrapping_shl(old(self)@, rhs as u32),
    {
        *self = *self << rhs;
    }
}

impl ShrAssign<isize> for BigEndianIsize {
    fn shr_assign(&mut self, rhs: isize)
        ensures
            *final(self) == Self::of(wrapping_shr(old(self)@, rhs as u32)),
            final(self)@ == wrapping_shr(old(self)@, rhs as u32),
    {
        *self = *self >> rhs;
    }
}

// Native integer with wrapper: the result is a native integer.

impl Add<BigEndianIsize> for isize {
    type Output = isize;

    fn add(self, rhs: BigEndianIsize) -> (r: isize) {
        self.wrapping_add(rhs.get())
    }
}

impl vstd::std_specs::ops::AddSpecImpl<BigEndianIsize> for isize {
    open spec fn obeys_add_spec() -> bool {
        true
    }

    open spec fn add_req(self, rhs: BigEndianIsize) -> bool {
        true
    }

    open spec fn add_spec(self, rhs: BigEndianIsize) -> isize {
        wrapping_add(self, rhs@)
    }
}

impl Sub<BigEndianIsize> for isize {
    type Output = isize;

    fn sub(self, rhs: BigEndianIsize) -> (r: isize) {
        self.wrapping_sub(rhs.get())
    }
}

impl vstd::std_specs::ops::SubSpecImpl<BigEndianIsize> for isize {
    open spec fn obeys_sub_spec() -> bool {
        true
    }

    open spec fn sub_req(self, rhs: BigEndianIsize) -> bool {
        true
    }

    open spec fn sub_spec(self, rhs: BigEndianIsize) -> isize {
        wrapping_sub(self, rhs@)
    }
}

impl Mul<BigEndianIsize> for isize {
    type Output = isize;

    fn mul(self, rhs: BigEndianIsize) -> (r: isize) {
        self.wrapping_mul(rhs.get())
    }
}

impl vstd::std_specs::ops::MulSpecImpl<BigEndianIsize> for isize {
    open spec fn obeys_mul_spec() -> bool {
        true
    }

    open spec fn mul_req(self, rhs: BigEndianIsize) -> bool {
        true
    }

    open spec fn mul_spec(self, rhs: BigEndianIsize) -> isize {
        wrapping_mul(self, rhs@)
    }
}

impl Div<BigEndianIsize> for isize {
    type Output = isize;

    fn div(self, rhs: BigEndianIsize) -> (r: isize) {
        self / rhs.get()
    }
}

impl vstd::std_specs::ops::DivSpecImpl<BigEndianIsize> for isize {
    open spec fn obeys_div_spec() -> bool {
        true
    }

    open spec fn div_req(self, rhs: BigEndianIsize) -> bool {
        isize_divides(self, rhs@)
    }

    open spec fn div_spec(self, rhs: BigEndianIsize) -> isize {
        isize_quot(self, rhs@)
    }
}

impl Rem<BigEndianIsize> for isize {
    type Output = isize;

    fn rem(self, rhs: BigEndianIsize) -> (r: isize) {
        self % rhs.get()
    }
}

impl vstd::std_specs::ops::RemSpecImpl<BigEndianIsize> for isize {
    open spec fn obeys_rem_spec() -> bool {
        true
    }

    open spec fn rem_req(self, rhs: BigEndianIsize) -> bool {
        isize_divides(self, rhs@)
    }

    open spec fn rem_spec(self, rhs: BigEndianIsize) -> isize {
        isize_rem(self, rhs@)
    }
}

impl BitAnd<BigEndianIsize> for isize {
    type Output = isize;

    fn bitand(self, rhs: BigEndianIsize) -> (r: isize) {
        self & rhs.get()
    }
}

impl vstd::std_specs::ops::BitAndSpecImpl<BigEndianIsize> for isize {
    open spec fn obeys_bitand_spec() -> bool {
        true
    }

    open spec fn bitand_req(self, rhs: BigEndianIsize) -> bool {
        true
    }

    open spec fn bitand_spec(self, rhs: BigEndianIsize) -> isize {
        self & rhs@
    }
}

impl BitOr<BigEndianIsize> for isize {
    type Output = isize;

    fn bitor(self, rhs: BigEndianIsize) -> (r: isize) {
        self | rhs.get()
    }
}

impl vstd::std_specs::ops::BitOrSpecImpl<BigEndianIsize> for isize {
    open spec fn obeys_bitor_spec() -> bool {
        true
    }

    open spec fn bitor_req(self, rhs: BigEndianIsize) -> bool {
        true
    }

    open spec fn bitor_spec(self, rhs: BigEndianIsize) -> isize {
        self | rhs@
    }
}

impl BitXor<BigEndianIsize> for isize {
    type Output = isize;

    fn bitxor(self, rhs: BigEndianIsize) -> (r: isize) {
        self ^ rhs.get()
    }
}

impl vstd::std_specs::ops::BitXorSpecImpl<BigEndianIsize> for isize {
    open spec fn obeys_bitxor_spec() -> bool {
        true
    }

    open spec fn bitxor_req(self, rhs: BigEndianIsize) -> bool {
        true
    }

    open spec fn bitxor_spec(self, rhs: BigEndianIsize) -> isize {
        self ^ rhs@
    }
}

impl Shl<BigEndianIsize> for isize {
    type Output = isize;

    fn shl(self, rhs: BigEndianIsize) -> (r: isize) {
        self.wrapping_shl(rhs.get() as u32)
    }
}

impl vstd::std_specs::ops::ShlSpecImpl<BigEndianIsize> for isize {
    open spec fn obeys_shl_spec() -> bool {
        true
    }

    open spec fn shl_req(self, rhs: BigEndianIsize) -> bool {
        true
    }

    open spec fn shl_spec(self, rhs: BigEndianIsize) -> isize {
        wrapping_shl(self, rhs@ as u32)
    }
}

impl Shr<BigEndianIsize> for isize {
    type Output = isize;

    fn shr(self, rhs: BigEndianIsize) -> (r: isize) {
        self.wrapping_shr(rhs.get() as u32)
    }
}

impl vstd::std_specs::ops::ShrSpecImpl<BigEndianIsize> for isize {
    open spec fn obeys_shr_spec() -> bool {
        true
    }

    open spec fn shr_req(self, rhs: BigEndianIsize) -> bool {
        true
    }

    open spec fn shr_spec(self, rhs: BigEndianIsize) -> isize {
        wrapping_shr(self, rhs@ as u32)
    }
}

impl AddAssign<BigEndianIsize> for isize {
    fn add_assign(&mut self, rhs: BigEndianIsize)
        ensures
            *final(self) == wrapping_add(*old(self), rhs@),
    {
        *self = *self + rhs;
    }
}

impl SubAssign<BigEndianIsize> for isize {
    fn sub_assign(&mut self, rhs: BigEndianIsize)
        ensures
            *final(self) == wrapping_sub(*old(self), rhs@),
    {
        *self = *self - rhs;
    }
}

impl MulAssign<BigEndianIsize> for isize {
    fn mul_assign(&mut self, rhs: BigEndianIsize)
        ensures
            *final(self) == wrapping_mul(*old(self), rhs@),
    {
        *self = *self * rhs;
    }
}

impl DivAssign<BigEndianIsize> for isize {
    fn div_assign(&mut self, rhs: BigEndianIsize)
        requires
            isize_divides(*old(self), rhs@),
        ensures
            *final(self) == isize_quot(*old(self), rhs@),
    {
        *self = *self / rhs;
    }
}

impl RemAssign<BigEndianIsize> for isize {
    fn rem_assign(&mut self, rhs: BigEndianIsize)
        requires
            isize_divides(*old(self), rhs@),
        ensures
            *final(self) == isize_rem(*old(self), rhs@),
    {
        *self = *self % rhs;
    }
}

impl BitAndAssign<BigEndianIsize> for isize {
    fn bitand_assign(&mut self, rhs: BigEndianIsize)
        ensures
            *final(self) == *old(self) & rhs@,
    {
        *self = *self & rhs;
    }
}

impl BitOrAssign<BigEndianIsize> for isize {
    fn bitor_assign(&mut self, rhs: BigEndianIsize)
        ensures
            *final(self) == *old(self) | rhs@,
    {
        *self = *self | rhs;
    }
}

impl BitXorAssign<BigEndianIsize> for isize {
    fn bitxor_assign(&mut self, rhs: BigEndianIsize)
        ensures
            *final(self) == *old(self) ^ rhs@,
    {
        *self = *self ^ rhs;
    }
}

impl ShlAssign<BigEndianIsize> for isize {
    fn shl_assign(&mut self, rhs: BigEndianIsize)
        ensures
            *final(self) == wrapping_shl(*old(self), rhs@ as u32),
    {
        *self = *self << rhs;
    }
}

impl ShrAssign<BigEndianIsize> for isize {
    fn shr_assign(&mut self, rhs: BigEndianIsize)
        ensures
            *final(self) == wrapping_shr(*old(self), rhs@ as u32),
    {
        *self = *self >> rhs;
    }
}

} // verus!
