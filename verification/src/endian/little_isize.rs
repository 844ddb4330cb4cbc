//! `LittleEndianIsize`: a signed pointer-width integer kept in little-endian byte order.

use vstd::prelude::*;
use vstd::std_specs::cmp::{PartialEqSpec, PartialOrdSpec};
use vstd::std_specs::ops::{
    AddSpec, BitAndSpec, BitOrSpec, BitXorSpec, DivSpec, MulSpec, NegSpec, NotSpec, RemSpec,
    ShlSpec, ShrSpec, SubSpec,
};
use vstd::wrapping::isize_specs::{
    wrapping_add, wrapping_mul, wrapping_shl, wrapping_shr, wrapping_sub,
};
use core::cmp::Ordering;
use core::ops::{
    Add, AddAssign, BitAnd, BitAndAssign, BitOr, BitOrAssign, BitXor, BitXorAssign, Div,
    DivAssign, Mul, MulAssign, Neg, Not, Rem, RemAssign, Shl, ShlAssign, Shr, ShrAssign,
    Sub, SubAssign,
};
use crate::order::pointer::{isize_le_bytes, isize_stored_bytes, isize_to_le, lemma_isize_to_le};
use crate::native::{
    isize_divides, isize_quot, isize_rem, lemma_isize_division, quot_toward_zero, rem_toward_zero,
};

verus! {

/// A signed pointer-width integer whose bytes lie in memory least significant
/// first, whatever the byte order of the machine.
///
/// `raw` is the stored integer: read as a native `isize` it is the value on a
/// little-endian machine and the value with its bytes reversed on the other kind.
/// Every `isize` is the stored form of exactly one value. The view is the value.
#[derive(Clone, Copy, Hash)]
pub struct LittleEndianIsize {
    pub raw: isize,
}

#[allow(non_camel_case_types)]
pub type isize_le = LittleEndianIsize;

impl View for LittleEndianIsize {
    type V = isize;

    open spec fn view(&self) -> isize {
        isize_to_le(self.raw)
    }
}

impl LittleEndianIsize {
    /// The number of bits of a value.
    pub const BITS: u32 = isize::BITS;

    /// The wrapper that holds `value`.
    pub open spec fn of(value: isize) -> Self {
        LittleEndianIsize { raw: isize_to_le(value) }
    }

    /// The bytes that the wrapper occupies, lowest address first.
    pub open spec fn stored_bytes(self) -> Seq<u8> {
        isize_stored_bytes(self.raw)
    }

    /// Stores `value`, given in native byte order.
    pub fn new(value: isize) -> (r: Self)
        ensures
            r == Self::of(value),
            r@ == value,
    {
        proof {
            lemma_isize_to_le(value, value);
        }
        LittleEndianIsize { raw: value.to_le() }
    }

    /// The value, in native byte order.
    pub fn get(self) -> (value: isize)
        ensures
            value == self@,
    {
        isize::from_le(self.raw)
    }

    /// Replaces the stored value by `value`, given in native byte order.
    pub fn set(&mut self, value: isize)
        ensures
            *final(self) == Self::of(value),
            final(self)@ == value,
    {
        *self = Self::new(value);
    }

    /// The wrapper of the least value.
    pub fn min_value() -> (r: Self)
        ensures
            r == Self::of(isize::MIN),
            r@ == isize::MIN,
    {
        Self::new(isize::MIN)
    }

    /// The wrapper of the greatest value.
    pub fn max_value() -> (r: Self)
        ensures
            r == Self::of(isize::MAX),
            r@ == isize::MAX,
    {
        Self::new(isize::MAX)
    }

    /// A value that is stored reads back unchanged, and a wrapper is the one
    /// that stores its own value: the two forms determine each other.
    pub proof fn round_trip(value: isize, stored: Self)
        ensures
            Self::of(value)@ == value,
            Self::of(stored@) == stored,
    {
        lemma_isize_to_le(value, stored.raw);
        lemma_isize_to_le(stored.raw, value);
    }

    /// The wrapper of `value` occupies the bytes of `value`, least significant
    /// first, on either kind of machine.
    pub proof fn byte_order(value: isize)
        ensures
            Self::of(value).stored_bytes() == isize_le_bytes(value),
    {
        lemma_isize_to_le(value, value);
    }

    /// Every operator on two wrappers gives the wrapper whose value is what the
    /// native operator gives on their values, with the native wraparound.
    /// Division and remainder are left out where the machine cannot divide.
    pub proof fn arithmetic_is_native(a: isize, b: isize)
        ensures
            Self::of(a).add_spec(Self::of(b))@ == wrapping_add(a, b),
            Self::of(a).sub_spec(Self::of(b))@ == wrapping_sub(a, b),
            Self::of(a).mul_spec(Self::of(b))@ == wrapping_mul(a, b),
            isize_divides(a, b) ==> Self::of(a).div_spec(Self::of(b))@ == isize_quot(a, b),
            isize_divides(a, b) ==> isize_quot(a, b) == quot_toward_zero(a as int, b as int),
            isize_divides(a, b) ==> Self::of(a).rem_spec(Self::of(b))@ == isize_rem(a, b),
            isize_divides(a, b) ==> isize_rem(a, b) == rem_toward_zero(a as int, b as int),
            Self::of(a).bitand_spec(Self::of(b))@ == a & b,
            Self::of(a).bitor_spec(Self::of(b))@ == a | b,
            Self::of(a).bitxor_spec(Self::of(b))@ == a ^ b,
            Self::of(a).shl_spec(Self::of(b))@ == wrapping_shl(a, b as u32),
            Self::of(a).shr_spec(Self::of(b))@ == wrapping_shr(a, b as u32),
            Self::of(a).not_spec()@ == !a,
            Self::of(a).neg_spec()@ == wrapping_sub(0, a),
    {
        if isize_divides(a, b) {
            lemma_isize_division(a, b);
        }
        Self::round_trip(a, Self::of(b));
        Self::round_trip(b, Self::of(a));
        Self::round_trip(wrapping_add(a, b), Self::of(a));
        Self::round_trip(wrapping_sub(a, b), Self::of(a));
        Self::round_trip(wrapping_mul(a, b), Self::of(a));
        Self::round_trip(isize_quot(a, b), Self::of(a));
        Self::round_trip(isize_rem(a, b), Self::of(a));
        Self::round_trip(a & b, Self::of(a));
        Self::round_trip(a | b, Self::of(a));
        Self::round_trip(a ^ b, Self::of(a));
        Self::round_trip(wrapping_shl(a, b as u32), Self::of(a));
        Self::round_trip(wrapping_shr(a, b as u32), Self::of(a));
        Self::round_trip(!a, Self::of(a));
        Self::round_trip(wrapping_sub(0, a), Self::of(a));
    }

    /// Two wrappers compare as their values do, whatever their stored forms.
    pub proof fn comparison_is_native(a: isize, b: isize)
        ensures
            Self::of(a).eq_spec(&Self::of(b)) == (a == b),
            Self::of(a) == Self::of(b) <==> a == b,
            Self::of(a).partial_cmp_spec(&Self::of(b)) == a.partial_cmp_spec(&b),
    {
        Self::round_trip(a, Self::of(b));
        Self::round_trip(b, Self::of(a));
    }
}

impl Default for LittleEndianIsize {
    /// The wrapper of zero.
    fn default() -> (r: Self)
        ensures
            r == Self::of(0),
            r@ == 0,
    {
        Self::new(0)
    }
}

impl From<isize> for LittleEndianIsize {
    fn from(value: isize) -> (r: Self)
        ensures
            r@ == value,
    {
        Self::new(value)
    }
}

impl vstd::std_specs::convert::FromSpecImpl<isize> for LittleEndianIsize {
    open spec fn obeys_from_spec() -> bool {
        true
    }

    open spec fn from_spec(value: isize) -> Self {
        Self::of(value)
    }
}

impl From<LittleEndianIsize> for isize {
    fn from(value: LittleEndianIsize) -> (r: isize) {
        value.get()
    }
}

impl vstd::std_specs::convert::FromSpecImpl<LittleEndianIsize> for isize {
    open spec fn obeys_from_spec() -> bool {
        true
    }

    open spec fn from_spec(value: LittleEndianIsize) -> isize {
        value@
    }
}

// Equality and order go by the values, never by the stored integers.

impl PartialEq for LittleEndianIsize {
    fn eq(&self, other: &Self) -> (r: bool) {
        self.get() == other.get()
    }
}

impl vstd::std_specs::cmp::PartialEqSpecImpl for LittleEndianIsize {
    open spec fn obeys_eq_spec() -> bool {
        true
    }

    open spec fn eq_spec(&self, other: &Self) -> bool {
        self@ == other@
    }
}

impl Eq for LittleEndianIsize {
}

impl PartialEq<isize> for LittleEndianIsize {
    fn eq(&self, other: &isize) -> (r: bool) {
        self.get() == *other
    }
}

impl vstd::std_specs::cmp::PartialEqSpecImpl<isize> for LittleEndianIsize {
    open spec fn obeys_eq_spec() -> bool {
        true
    }

    open spec fn eq_spec(&self, other: &isize) -> bool {
        self@ == *other
    }
}

impl PartialEq<LittleEndianIsize> for isize {
    fn eq(&self, other: &LittleEndianIsize) -> (r: bool) {
        *self == other.get()
    }
}

impl vstd::std_specs::cmp::PartialEqSpecImpl<LittleEndianIsize> for isize {
    open spec fn obeys_eq_spec() -> bool {
        true
    }

    open spec fn eq_spec(&self, other: &LittleEndianIsize) -> bool {
        *self == other@
    }
}

impl PartialOrd for LittleEndianIsize {
    fn partial_cmp(&self, other: &Self) -> (r: Option<Ordering>) {
        let a: isize = self.get();
        let b: isize = other.get();
        if a < b {
            Some(Ordering::Less)
        } else if a > b {
            Some(Ordering::Greater)
        } else {
            Some(Ordering::Equal)
        }
    }
}

impl vstd::std_specs::cmp::PartialOrdSpecImpl for LittleEndianIsize {
    open spec fn obeys_partial_cmp_spec() -> bool {
        true
    }

    open spec fn partial_cmp_spec(&self, other: &Self) -> Option<Ordering> {
        if self@ < other@ {
            Some(Ordering::Less)
        } else if self@ > other@ {
            Some(Ordering::Greater)
        } else {
            Some(Ordering::Equal)
        }
    }
}

impl PartialOrd<isize> for LittleEndianIsize {
    fn partial_cmp(&self, other: &isize) -> (r: Option<Ordering>) {
        let a: isize = self.get();
        let b: isize = *other;
        if a < b {
            Some(Ordering::Less)
        } else if a > b {
            Some(Ordering::Greater)
        } else {
            Some(Ordering::Equal)
        }
    }
}

impl vstd::std_specs::cmp::PartialOrdSpecImpl<isize> for LittleEndianIsize {
    open spec fn obeys_partial_cmp_spec() -> bool {
        true
    }

    open spec fn partial_cmp_spec(&self, other: &isize) -> Option<Ordering> {
        if self@ < *other {
            Some(Ordering::Less)
        } else if self@ > *other {
            Some(Ordering::Greater)
        } else {
            Some(Ordering::Equal)
        }
    }
}

impl PartialOrd<LittleEndianIsize> for isize {
    fn partial_cmp(&self, other: &LittleEndianIsize) -> (r: Option<Ordering>) {
        let a: isize = *self;
        let b: isize = other.get();
        if a < b {
            Some(Ordering::Less)
        } else if a > b {
            Some(Ordering::Greater)
        } else {
            Some(Ordering::Equal)
        }
    }
}

impl vstd::std_specs::cmp::PartialOrdSpecImpl<LittleEndianIsize> for isize {
    open spec fn obeys_partial_cmp_spec() -> bool {
        true
    }

    open spec fn partial_cmp_spec(&self, other: &LittleEndianIsize) -> Option<Ordering> {
        if *self < other@ {
            Some(Ordering::Less)
        } else if *self > other@ {
            Some(Ordering::Greater)
        } else {
            Some(Ordering::Equal)
        }
    }
}

// Wrapper with wrapper. The arithmetic is done on the values; the bitwise
// operations are done on the stored integers, which gives the same wrapper.

impl Add for LittleEndianIsize {
    type Output = Self;

    fn add(self, rhs: Self) -> (r: Self)
        ensures
            r@ == wrapping_add(self@, rhs@),
    {
        Self::new(self.get().wrapping_add(rhs.get()))
    }
}

impl vstd::std_specs::ops::AddSpecImpl for LittleEndianIsize {
    open spec fn obeys_add_spec() -> bool {
        true
    }

    open spec fn add_req(self, rhs: Self) -> bool {
        true
    }

    open spec fn add_spec(self, rhs: Self) -> Self {
        Self::of(wrapping_add(self@, rhs@))
    }
}

impl Sub for LittleEndianIsize {
    type Output = Self;

    fn sub(self, rhs: Self) -> (r: Self)
        ensures
            r@ == wrapping_sub(self@, rhs@),
    {
        Self::new(self.get().wrapping_sub(rhs.get()))
    }
}

impl vstd::std_specs::ops::SubSpecImpl for LittleEndianIsize {
    open spec fn obeys_sub_spec() -> bool {
        true
    }

    open spec fn sub_req(self, rhs: Self) -> bool {
        true
    }

    open spec fn sub_spec(self, rhs: Self) -> Self {
        Self::of(wrapping_sub(self@, rhs@))
    }
}

impl Mul for LittleEndianIsize {
    type Output = Self;

    fn mul(self, rhs: Self) -> (r: Self)
        ensures
            r@ == wrapping_mul(self@, rhs@),
    {
        Self::new(self.get().wrapping_mul(rhs.get()))
    }
}

impl vstd::std_specs::ops::MulSpecImpl for LittleEndianIsize {
    open spec fn obeys_mul_spec() -> bool {
        true
    }

    open spec fn mul_req(self, rhs: Self) -> bool {
        true
    }

    open spec fn mul_spec(self, rhs: Self) -> Self {
        Self::of(wrapping_mul(self@, rhs@))
    }
}

impl Div for LittleEndianIsize {
    type Output = Self;

    fn div(self, rhs: Self) -> (r: Self)
        ensures
            r@ == isize_quot(self@, rhs@),
    {
        Self::new(self.get() / rhs.get())
    }
}

impl vstd::std_specs::ops::DivSpecImpl for LittleEndianIsize {
    open spec fn obeys_div_spec() -> bool {
        true
    }

    open spec fn div_req(self, rhs: Self) -> bool {
        isize_divides(self@, rhs@)
    }

    open spec fn div_spec(self, rhs: Self) -> Self {
        Self::of(isize_quot(self@, rhs@))
    }
}

impl Rem for LittleEndianIsize {
    type Output = Self;

    fn rem(self, rhs: Self) -> (r: Self)
        ensures
            r@ == isize_rem(self@, rhs@),
    {
        Self::new(self.get() % rhs.get())
    }
}

impl vstd::std_specs::ops::RemSpecImpl for LittleEndianIsize {
    open spec fn obeys_rem_spec() -> bool {
        true
    }

    open spec fn rem_req(self, rhs: Self) -> bool {
        isize_divides(self@, rhs@)
    }

    open spec fn rem_spec(self, rhs: Self) -> Self {
        Self::of(isize_rem(self@, rhs@))
    }
}

impl BitAnd for LittleEndianIsize {
    type Output = Self;

    fn bitand(self, rhs: Self) -> (r: Self)
        ensures
            r@ == self@ & rhs@,
    {
        proof {
            lemma_isize_to_le(self@, rhs@);
            lemma_isize_to_le(self.raw, rhs.raw);
            lemma_isize_to_le(rhs.raw, self.raw);
        }
        LittleEndianIsize { raw: self.raw & rhs.raw }
    }
}

impl vstd::std_specs::ops::BitAndSpecImpl for LittleEndianIsize {
    open spec fn obeys_bitand_spec() -> bool {
        true
    }

    open spec fn bitand_req(self, rhs: Self) -> bool {
        true
    }

    open spec fn bitand_spec(self, rhs: Self) -> Self {
        Self::of(self@ & rhs@)
    }
}

impl BitOr for LittleEndianIsize {
    type Output = Self;

    fn bitor(self, rhs: Self) -> (r: Self)
        ensures
            r@ == self@ | rhs@,
    {
        proof {
            lemma_isize_to_le(self@, rhs@);
            lemma_isize_to_le(self.raw, rhs.raw);
            lemma_isize_to_le(rhs.raw, self.raw);
        }
        LittleEndianIsize { raw: self.raw | rhs.raw }
    }
}

impl vstd::std_specs::ops::BitOrSpecImpl for LittleEndianIsize {
    open spec fn obeys_bitor_spec() -> bool {
        true
    }

    open spec fn bitor_req(self, rhs: Self) -> bool {
        true
    }

    open spec fn bitor_spec(self, rhs: Self) -> Self {
        Self::of(self@ | rhs@)
    }
}

impl BitXor for LittleEndianIsize {
    type Output = Self;

    fn bitxor(self, rhs: Self) -> (r: Self)
        ensures
            r@ == self@ ^ rhs@,
    {
        proof {
            lemma_isize_to_le(self@, rhs@);
            lemma_isize_to_le(self.raw, rhs.raw);
            lemma_isize_to_le(rhs.raw, self.raw);
        }
        LittleEndianIsize { raw: self.raw ^ rhs.raw }
    }
}

impl vstd::std_specs::ops::BitXorSpecImpl for LittleEndianIsize {
    open spec fn obeys_bitxor_spec() -> bool {
        true
    }

    open spec fn bitxor_req(self, rhs: Self) -> bool {
        true
    }

    open spec fn bitxor_spec(self, rhs: Self) -> Self {
        Self::of(self@ ^ rhs@)
    }
}

impl Shl for LittleEndianIsize {
    type Output = Self;

    fn shl(self, rhs: Self) -> (r: Self)
        ensures
            r@ == wrapping_shl(self@, rhs@ as u32),
    {
        Self::new(self.get().wrapping_shl(rhs.get() as u32))
    }
}

impl vstd::std_specs::ops::ShlSpecImpl for LittleEndianIsize {
    open spec fn obeys_shl_spec() -> bool {
        true
    }

    open spec fn shl_req(self, rhs: Self) -> bool {
        true
    }

    open spec fn shl_spec(self, rhs: Self) -> Self {
        Self::of(wrapping_shl(self@, rhs@ as u32))
    }
}

impl Shr for LittleEndianIsize {
    type Output = Self;

    fn shr(self, rhs: Self) -> (r: Self)
        ensures
            r@ == wrapping_shr(self@, rhs@ as u32),
    {
        Self::new(self.get().wrapping_shr(rhs.get() as u32))
    }
}

impl vstd::std_specs::ops::ShrSpecImpl for LittleEndianIsize {
    open spec fn obeys_shr_spec() -> bool {
        true
    }

    open spec fn shr_req(self, rhs: Self) -> bool {
        true
    }

    open spec fn shr_spec(self, rhs: Self) -> Self {
        Self::of(wrapping_shr(self@, rhs@ as u32))
    }
}

impl Not for LittleEndianIsize {
    type Output = Self;

    fn not(self) -> (r: Self)
        ensures
            r@ == !self@,
    {
        proof {
            lemma_isize_to_le(self@, self@);
            lemma_isize_to_le(self.raw, self.raw);
        }
        LittleEndianIsize { raw: !self.raw }
    }
}

impl vstd::std_specs::ops::NotSpecImpl for LittleEndianIsize {
    open spec fn obeys_not_spec() -> bool {
        true
    }

    open spec fn not_req(self) -> bool {
        true
    }

    open spec fn not_spec(self) -> Self {
        Self::of(!self@)
    }
}

impl Neg for LittleEndianIsize {
    type Output = Self;

    fn neg(self) -> (r: Self)
        ensures
            r@ == wrapping_sub(0, self@),
    {
        let zero: isize = 0;
        Self::new(zero.wrapping_sub(self.get()))
    }
}

impl vstd::std_specs::ops::NegSpecImpl for LittleEndianIsize {
    open spec fn obeys_neg_spec() -> bool {
        true
    }

    open spec fn neg_req(self) -> bool {
        true
    }

    open spec fn neg_spec(self) -> Self {
        Self::of(wrapping_sub(0, self@))
    }
}

impl AddAssign for LittleEndianIsize {
    fn add_assign(&mut self, rhs: Self)
        ensures
            *final(self) == Self::of(wrapping_add(old(self)@, rhs@)),
            final(self)@ == wrapping_add(old(self)@, rhs@),
    {
        *self = *self + rhs;
    }
}

impl SubAssign for LittleEndianIsize {
    fn sub_assign(&mut self, rhs: Self)
        ensures
            *final(self) == Self::of(wrapping_sub(old(self)@, rhs@)),
            final(self)@ == wrapping_sub(old(self)@, rhs@),
    {
        *self = *self - rhs;
    }
}

impl MulAssign for LittleEndianIsize {
    fn mul_assign(&mut self, rhs: Self)
        ensures
            *final(self) == Self::of(wrapping_mul(old(self)@, rhs@)),
            final(self)@ == wrapping_mul(old(self)@, rhs@),
    {
        *self = *self * rhs;
    }
}

impl DivAssign for LittleEndianIsize {
    fn div_assign(&mut self, rhs: Self)
        requires
            isize_divides(old(self)@, rhs@),
        ensures
            *final(self) == Self::of(isize_quot(old(self)@, rhs@)),
            final(self)@ == isize_quot(old(self)@, rhs@),
    {
        *self = *self / rhs;
    }
}

impl RemAssign for LittleEndianIsize {
    fn rem_assign(&mut self, rhs: Self)
        requires
            isize_divides(old(self)@, rhs@),
        ensures
            *final(self) == Self::of(isize_rem(old(self)@, rhs@)),
            final(self)@ == isize_rem(old(self)@, rhs@),
    {
        *self = *self % rhs;
    }
}

impl BitAndAssign for LittleEndianIsize {
    fn bitand_assign(&mut self, rhs: Self)
        ensures
            *final(self) == Self::of(old(self)@ & rhs@),
            final(self)@ == old(self)@ & rhs@,
    {
        *self = *self & rhs;
    }
}

impl BitOrAssign for LittleEndianIsize {
    fn bitor_assign(&mut self, rhs: Self)
        ensures
            *final(self) == Self::of(old(self)@ | rhs@),
            final(self)@ == old(self)@ | rhs@,
    {
        *self = *self | rhs;
    }
}

impl BitXorAssign for LittleEndianIsize {
    fn bitxor_assign(&mut self, rhs: Self)
        ensures
            *final(self) == Self::of(old(self)@ ^ rhs@),
            final(self)@ == old(self)@ ^ rhs@,
    {
        *self = *self ^ rhs;
    }
}

impl ShlAssign for LittleEndianIsize {
    fn shl_assign(&mut self, rhs: Self)
        ensures
            *final(self) == Self::of(wrapping_shl(old(self)@, rhs@ as u32)),
            final(self)@ == wrapping_shl(old(self)@, rhs@ as u32),
    {
        *self = *self << rhs;
    }
}

impl ShrAssign for LittleEndianIsize {
    fn shr_assign(&mut self, rhs: Self)
        ensures
            *final(self) == Self::of(wrapping_shr(old(self)@, rhs@ as u32)),
            final(self)@ == wrapping_shr(old(self)@, rhs@ as u32),
    {
        *self = *self >> rhs;
    }
}

// Wrapper with native integer: the result is a wrapper.

impl Add<isize> for LittleEndianIsize {
    type Output = Self;

    fn add(self, rhs: isize) -> (r: Self)
        ensures
            r@ == wrapping_add(self@, rhs),
    {
        Self::new(self.get().wrapping_add(rhs))
    }
}

impl vstd::std_specs::ops::AddSpecImpl<isize> for LittleEndianIsize {
    open spec fn obeys_add_spec() -> bool {
        true
    }

    open spec fn add_req(self, rhs: isize) -> bool {
        true
    }

    open spec fn add_spec(self, rhs: isize) -> Self {
        Self::of(wrapping_add(self@, rhs))
    }
}

impl Sub<isize> for LittleEndianIsize {
    type Output = Self;

    fn sub(self, rhs: isize) -> (r: Self)
        ensures
            r@ == wrapping_sub(self@, rhs),
    {
        Self::new(self.get().wrapping_sub(rhs))
    }
}

impl vstd::std_specs::ops::SubSpecImpl<isize> for LittleEndianIsize {
    open spec fn obeys_sub_spec() -> bool {
        true
    }

    open spec fn sub_req(self, rhs: isize) -> bool {
        true
    }

    open spec fn sub_spec(self, rhs: isize) -> Self {
        Self::of(wrapping_sub(self@, rhs))
    }
}

impl Mul<isize> for LittleEndianIsize {
    type Output = Self;

    fn mul(self, rhs: isize) -> (r: Self)
        ensures
            r@ == wrapping_mul(self@, rhs),
    {
        Self::new(self.get().wrapping_mul(rhs))
    }
}

impl vstd::std_specs::ops::MulSpecImpl<isize> for LittleEndianIsize {
    open spec fn obeys_mul_spec() -> bool {
        true
    }

    open spec fn mul_req(self, rhs: isize) -> bool {
        true
    }

    open spec fn mul_spec(self, rhs: isize) -> Self {
        Self::of(wrapping_mul(self@, rhs))
    }
}

impl Div<isize> for LittleEndianIsize {
    type Output = Self;

    fn div(self, rhs: isize) -> (r: Self)
        ensures
            r@ == isize_quot(self@, rhs),
    {
        Self::new(self.get() / rhs)
    }
}

impl vstd::std_specs::ops::DivSpecImpl<isize> for LittleEndianIsize {
    open spec fn obeys_div_spec() -> bool {
        true
    }

    open spec fn div_req(self, rhs: isize) -> bool {
        isize_divides(self@, rhs)
    }

    open spec fn div_spec(self, rhs: isize) -> Self {
        Self::of(isize_quot(self@, rhs))
    }
}

impl Rem<isize> for LittleEndianIsize {
    type Output = Self;

    fn rem(self, rhs: isize) -> (r: Self)
        ensures
            r@ == isize_rem(self@, rhs),
    {
        Self::new(self.get() % rhs)
    }
}

impl vstd::std_specs::ops::RemSpecImpl<isize> for LittleEndianIsize {
    open spec fn obeys_rem_spec() -> bool {
        true
    }

    open spec fn rem_req(self, rhs: isize) -> bool {
        isize_divides(self@, rhs)
    }

    open spec fn rem_spec(self, rhs: isize) -> Self {
        Self::of(isize_rem(self@, rhs))
    }
}

impl BitAnd<isize> for LittleEndianIsize {
    type Output = Self;

    fn bitand(self, rhs: isize) -> (r: Self)
        ensures
            r@ == self@ & rhs,
    {
        Self::new(self.get() & rhs)
    }
}

impl vstd::std_specs::ops::BitAndSpecImpl<isize> for LittleEndianIsize {
    open spec fn obeys_bitand_spec() -> bool {
        true
    }

    open spec fn bitand_req(self, rhs: isize) -> bool {
        true
    }

    open spec fn bitand_spec(self, rhs: isize) -> Self {
        Self::of(self@ & rhs)
    }
}

impl BitOr<isize> for LittleEndianIsize {
    type Output = Self;

    fn bitor(self, rhs: isize) -> (r: Self)
        ensures
            r@ == self@ | rhs,
    {
        Self::new(self.get() | rhs)
    }
}

impl vstd::std_specs::ops::BitOrSpecImpl<isize> for LittleEndianIsize {
    open spec fn obeys_bitor_spec() -> bool {
        true
    }

    open spec fn bitor_req(self, rhs: isize) -> bool {
        true
    }

    open spec fn bitor_spec(self, rhs: isize) -> Self {
        Self::of(self@ | rhs)
    }
}

impl BitXor<isize> for LittleEndianIsize {
    type Output = Self;

    fn bitxor(self, rhs: isize) -> (r: Self)
        ensures
            r@ == self@ ^ rhs,
    {
        Self::new(self.get() ^ rhs)
    }
}

impl vstd::std_specs::ops::BitXorSpecImpl<isize> for LittleEndianIsize {
    open spec fn obeys_bitxor_spec() -> bool {
        true
    }

    open spec fn bitxor_req(self, rhs: isize) -> bool {
        true
    }

    open spec fn bitxor_spec(self, rhs: isize) -> Self {
        Self::of(self@ ^ rhs)
    }
}

impl Shl<isize> for LittleEndianIsize {
    type Output = Self;

    fn shl(self, rhs: isize) -> (r: Self)
        ensures
            r@ == wrapping_shl(self@, rhs as u32),
    {
        Self::new(self.get().wrapping_shl(rhs as u32))
    }
}

impl vstd::std_specs::ops::ShlSpecImpl<isize> for LittleEndianIsize {
    open spec fn obeys_shl_spec() -> bool {
        true
    }

    open spec fn shl_req(self, rhs: isize) -> bool {
        true
    }

    open spec fn shl_spec(self, rhs: isize) -> Self {
        Self::of(wrapping_shl(self@, rhs as u32))
    }
}

impl Shr<isize> for LittleEndianIsize {
    type Output = Self;

    fn shr(self, rhs: isize) -> (r: Self)
        ensures
            r@ == wrapping_shr(self@, rhs as u32),
    {
        Self::new(self.get().wrapping_shr(rhs as u32))
    }
}

impl vstd::std_specs::ops::ShrSpecImpl<isize> for LittleEndianIsize {
    open spec fn obeys_shr_spec() -> bool {
        true
    }

    open spec fn shr_req(self, rhs: isize) -> bool {
        true
    }

    open spec fn shr_spec(self, rhs: isize) -> Self {
        Self::of(wrapping_shr(self@, rhs as u32))
    }
}

impl AddAssign<isize> for LittleEndianIsize {
    fn add_assign(&mut self, rhs: isize)
        ensures
            *final(self) == Self::of(wrapping_add(old(self)@, rhs)),
            final(self)@ == wrapping_add(old(self)@, rhs),
    {
        *self = *self + rhs;
    }
}

impl SubAssign<isize> for LittleEndianIsize {
    fn sub_assign(&mut self, rhs: isize)
        ensures
            *final(self) == Self::of(wrapping_sub(old(self)@, rhs)),
            final(self)@ == wrapping_sub(old(self)@, rhs),
    {
        *self = *self - rhs;
    }
}

impl MulAssign<isize> for LittleEndianIsize {
    fn mul_assign(&mut self, rhs: isize)
        ensures
            *final(self) == Self::of(wrapping_mul(old(self)@, rhs)),
            final(self)@ == wrapping_mul(old(self)@, rhs),
    {
        *self = *self * rhs;
    }
}

impl DivAssign<isize> for LittleEndianIsize {
    fn div_assign(&mut self, rhs: isize)
        requires
            isize_divides(old(self)@, rhs),
        ensures
            *final(self) == Self::of(isize_quot(old(self)@, rhs)),
            final(self)@ == isize_quot(old(self)@, rhs),
    {
        *self = *self / rhs;
    }
}

impl RemAssign<isize> for LittleEndianIsize {
    fn rem_assign(&mut self, rhs: isize)
        requires
            isize_divides(old(self)@, rhs),
        ensures
            *final(self) == Self::of(isize_rem(old(self)@, rhs)),
            final(self)@ == isize_rem(old(self)@, rhs),
    {
        *self = *self % rhs;
    }
}

impl BitAndAssign<isize> for LittleEndianIsize {
    fn bitand_assign(&mut self, rhs: isize)
        ensures
            *final(self) == Self::of(old(self)@ & rhs),
            final(self)@ == old(self)@ & rhs,
    {
        *self = *self & rhs;
    }
}

impl BitOrAssign<isize> for LittleEndianIsize {
    fn bitor_assign(&mut self, rhs: isize)
        ensures
            *final(self) == Self::of(old(self)@ | rhs),
            final(self)@ == old(self)@ | rhs,
    {
        *self = *self | rhs;
    }
}

impl BitXorAssign<isize> for LittleEndianIsize {
    fn bitxor_assign(&mut self, rhs: isize)
        ensures
            *final(self) == Self::of(old(self)@ ^ rhs),
            final(self)@ == old(self)@ ^ rhs,
    {
        *self = *self ^ rhs;
    }
}

impl ShlAssign<isize> for LittleEndianIsize {
    fn shl_assign(&mut self, rhs: isize)
        ensures
            *final(self) == Self::of(wrapping_shl(old(self)@, rhs as u32)),
            final(self)@ == wrapping_shl(old(self)@, rhs as u32),
    {
        *self = *self << rhs;
    }
}

impl ShrAssign<isize> for LittleEndianIsize {
    fn shr_assign(&mut self, rhs: isize)
        ensures
            *final(self) == Self::of(wrapping_shr(old(self)@, rhs as u32)),
            final(self)@ == wrapping_shr(old(self)@, rhs as u32),
    {
        *self = *self >> rhs;
    }
}

// Native integer with wrapper: the result is a native integer.

impl Add<LittleEndianIsize> for isize {
    type Output = isize;

    fn add(self, rhs: LittleEndianIsize) -> (r: isize) {
        self.wrapping_add(rhs.get())
    }
}

impl vstd::std_specs::ops::AddSpecImpl<LittleEndianIsize> for isize {
    open spec fn obeys_add_spec() -> bool {
        true
    }

    open spec fn add_req(self, rhs: LittleEndianIsize) -> bool {
        true
    }

    open spec fn add_spec(self, rhs: LittleEndianIsize) -> isize {
        wrapping_add(self, rhs@)
    }
}

impl Sub<LittleEndianIsize> for isize {
    type Output = isize;

    fn sub(self, rhs: LittleEndianIsize) -> (r: isize) {
        self.wrapping_sub(rhs.get())
    }
}

impl vstd::std_specs::ops::SubSpecImpl<LittleEndianIsize> for isize {
    open spec fn obeys_sub_spec() -> bool {
        true
    }

    open spec fn sub_req(self, rhs: LittleEndianIsize) -> bool {
        true
    }

    open spec fn sub_spec(self, rhs: LittleEndianIsize) -> isize {
        wrapping_sub(self, rhs@)
    }
}

impl Mul<LittleEndianIsize> for isize {
    type Output = isize;

    fn mul(self, rhs: LittleEndianIsize) -> (r: isize) {
        self.wrapping_mul(rhs.get())
    }
}

impl vstd::std_specs::ops::MulSpecImpl<LittleEndianIsize> for isize {
    open spec fn obeys_mul_spec() -> bool {
        true
    }

    open spec fn mul_req(self, rhs: LittleEndianIsize) -> bool {
        true
    }

    open spec fn mul_spec(self, rhs: LittleEndianIsize) -> isize {
        wrapping_mul(self, rhs@)
    }
}

impl Div<LittleEndianIsize> for isize {
    type Output = isize;

    fn div(self, rhs: LittleEndianIsize) -> (r: isize) {
        self / rhs.get()
    }
}

impl vstd::std_specs::ops::DivSpecImpl<LittleEndianIsize> for isize {
    open spec fn obeys_div_spec() -> bool {
        true
    }

    open spec fn div_req(self, rhs: LittleEndianIsize) -> bool {
        isize_divides(self, rhs@)
    }

    open spec fn div_spec(self, rhs: LittleEndianIsize) -> isize {
        isize_quot(self, rhs@)
    }
}

impl Rem<LittleEndianIsize> for isize {
    type Output = isize;

    fn rem(self, rhs: LittleEndianIsize) -> (r: isize) {
        self % rhs.get()
    }
}

impl vstd::std_specs::ops::RemSpecImpl<LittleEndianIsize> for isize {
    open spec fn obeys_rem_spec() -> bool {
        true
    }

    open spec fn rem_req(self, rhs: LittleEndianIsize) -> bool {
        isize_divides(self, rhs@)
    }

    open spec fn rem_spec(self, rhs: LittleEndianIsize) -> isize {
        isize_rem(self, rhs@)
    }
}

impl BitAnd<LittleEndianIsize> for isize {
    type Output = isize;

    fn bitand(self, rhs: LittleEndianIsize) -> (r: isize) {
        self & rhs.get()
    }
}

impl vstd::std_specs::ops::BitAndSpecImpl<LittleEndianIsize> for isize {
    open spec fn obeys_bitand_spec() -> bool {
        true
    }

    open spec fn bitand_req(self, rhs: LittleEndianIsize) -> bool {
        true
    }

    open spec fn bitand_spec(self, rhs: LittleEndianIsize) -> isize {
        self & rhs@
    }
}

impl BitOr<LittleEndianIsize> for isize {
    type Output = isize;

    fn bitor(self, rhs: LittleEndianIsize) -> (r: isize) {
        self | rhs.get()
    }
}

impl vstd::std_specs::ops::BitOrSpecImpl<LittleEndianIsize> for isize {
    open spec fn obeys_bitor_spec() -> bool {
        true
    }

    open spec fn bitor_req(self, rhs: LittleEndianIsize) -> bool {
        true
    }

    open spec fn bitor_spec(self, rhs: LittleEndianIsize) -> isize {
        self | rhs@
    }
}

impl BitXor<LittleEndianIsize> for isize {
    type Output = isize;

    fn bitxor(self, rhs: LittleEndianIsize) -> (r: isize) {
        self ^ rhs.get()
    }
}

impl vstd::std_specs::ops::BitXorSpecImpl<LittleEndianIsize> for isize {
    open spec fn obeys_bitxor_spec() -> bool {
        true
    }

    open spec fn bitxor_req(self, rhs: LittleEndianIsize) -> bool {
        true
    }

    open spec fn bitxor_spec(self, rhs: LittleEndianIsize) -> isize {
        self ^ rhs@
    }
}

impl Shl<LittleEndianIsize> for isize {
    type Output = isize;

    fn shl(self, rhs: LittleEndianIsize) -> (r: isize) {
        self.wrapping_shl(rhs.get() as u32)
    }
}

impl vstd::std_specs::ops::ShlSpecImpl<LittleEndianIsize> for isize {
    open spec fn obeys_shl_spec() -> bool {
        true
    }

    open spec fn shl_req(self, rhs: LittleEndianIsize) -> bool {
        true
    }

    open spec fn shl_spec(self, rhs: LittleEndianIsize) -> isize {
        wrapping_shl(self, rhs@ as u32)
    }
}

impl Shr<LittleEndianIsize> for isize {
    type Output = isize;

    fn shr(self, rhs: LittleEndianIsize) -> (r: isize) {
        self.wrapping_shr(rhs.get() as u32)
    }
}

impl vstd::std_specs::ops::ShrSpecImpl<LittleEndianIsize> for isize {
    open spec fn obeys_shr_spec() -> bool {
        true
    }

    open spec fn shr_req(self, rhs: LittleEndianIsize) -> bool {
        true
    }

    open spec fn shr_spec(self, rhs: LittleEndianIsize) -> isize {
        wrapping_shr(self, rhs@ as u32)
    }
}

impl AddAssign<LittleEndianIsize> for isize {
    fn add_assign(&mut self, rhs: LittleEndianIsize)
        ensures
            *final(self) == wrapping_add(*old(self), rhs@),
    {
        *self = *self + rhs;
    }
}

impl SubAssign<LittleEndianIsize> for isize {
    fn sub_assign(&mut self, rhs: LittleEndianIsize)
        ensures
            *final(self) == wrapping_sub(*old(self), rhs@),
    {
        *self = *self - rhs;
    }
}

impl MulAssign<LittleEndianIsize> for isize {
    fn mul_assign(&mut self, rhs: LittleEndianIsize)
        ensures
            *final(self) == wrapping_mul(*old(self), rhs@),
    {
        *self = *self * rhs;
    }
}

impl DivAssign<LittleEndianIsize> for isize {
    fn div_assign(&mut self, rhs: LittleEndianIsize)
        requires
            isize_divides(*old(self), rhs@),
        ensures
            *final(self) == isize_quot(*old(self), rhs@),
    {
        *self = *self / rhs;
    }
}

impl RemAssign<LittleEndianIsize> for isize {
    fn rem_assign(&mut self, rhs: LittleEndianIsize)
        requires
            isize_divides(*old(self), rhs@),
        ensures
            *final(self) == isize_rem(*old(self), rhs@),
    {
        *self = *self % rhs;
    }
}

impl BitAndAssign<LittleEndianIsize> for isize {
    fn bitand_assign(&mut self, rhs: LittleEndianIsize)
        ensures
            *final(self) == *old(self) & rhs@,
    {
        *self = *self & rhs;
    }
}

impl BitOrAssign<LittleEndianIsize> for isize {
    fn bitor_assign(&mut self, rhs: LittleEndianIsize)
        ensures
            *final(self) == *old(self) | rhs@,
    {
        *self = *self | rhs;
    }
}

impl BitXorAssign<LittleEndianIsize> for isize {
    fn bitxor_assign(&mut self, rhs: LittleEndianIsize)
        ensures
            *final(self) == *old(self) ^ rhs@,
    {
        *self = *self ^ rhs;
    }
}

impl ShlAssign<LittleEndianIsize> for isize {
    fn shl_assign(&mut self, rhs: LittleEndianIsize)
        ensures
            *final(self) == wrapping_shl(*old(self), rhs@ as u32),
    {
        *self = *self << rhs;
    }
}

impl ShrAssign<LittleEndianIsize> for isize {
    fn shr_assign(&mut self, rhs: LittleEndianIsize)
        ensures
            *final(self) == wrapping_shr(*old(self), rhs@ as u32),
    {
        *self = *self >> rhs;
    }
}

} // verus!
