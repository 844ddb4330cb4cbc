//! `BigEndianUsize`: an unsigned pointer-width integer kept in big-endian byte order.

use vstd::prelude::*;
use vstd::std_specs::cmp::{PartialEqSpec, PartialOrdSpec};
use vstd::std_specs::ops::{
    AddSpec, BitAndSpec, BitOrSpec, BitXorSpec, DivSpec, MulSpec, NotSpec, RemSpec, ShlSpec,
    ShrSpec, SubSpec,
};
use vstd::wrapping::usize_specs::{
    wrapping_add, wrapping_mul, wrapping_shl, wrapping_shr, wrapping_sub,
};
use core::cmp::Ordering;
use core::ops::{
    Add, AddAssign, BitAnd, BitAndAssign, BitOr, BitOrAssign, BitXor, BitXorAssign, Div,
    DivAssign, Mul, MulAssign, Not, Rem, RemAssign, Shl, ShlAssign, Shr, ShrAssign, Sub,
    SubAssign,
};
use crate::order::pointer::{lemma_usize_to_be, usize_be_bytes, usize_stored_bytes, usize_to_be};
use crate::endian::little_usize::LittleEndianUsize;

verus! {

/// An unsigned pointer-width integer whose bytes lie in memory most significant
/// first, whatever the byte order of the machine.
///
/// `raw` is the stored integer: read as a native `usize` it is the value on a
/// big-endian machine and the value with its bytes reversed on the other kind.
/// Every `usize` is the stored form of exactly one value. The view is the value.
#[derive(Clone, Copy, Hash)]
pub struct BigEndianUsize {
    pub raw: usize,
}

#[allow(non_camel_case_types)]
pub type usize_be = BigEndianUsize;

impl View for BigEndianUsize {
    type V = usize;

    open spec fn view(&self) -> usize {
        usize_to_be(self.raw)
    }
}

impl BigEndianUsize {
    /// The number of bits of a value.
    pub const BITS: u32 = usize::BITS;

    /// The wrapper that holds `value`.
    pub open spec fn of(value: usize) -> Self {
        BigEndianUsize { raw: usize_to_be(value) }
    }

    /// The bytes that the wrapper occupies, lowest address first.
    pub open spec fn stored_bytes(self) -> Seq<u8> {
        usize_stored_bytes(self.raw)
    }

    /// Stores `value`, given in native byte order.
    pub fn new(value: usize) -> (r: Self)
        ensures
            r == Self::of(value),
            r@ == value,
    {
        proof {
            lemma_usize_to_be(value, value);
        }
        BigEndianUsize { raw: value.to_be() }
    }

    /// The value, in native byte order.
    pub fn get(self) -> (value: usize)
        ensures
            value == self@,
    {
        usize::from_be(self.raw)
    }

    /// Replaces the stored value by `value`, given in native byte order.
    pub fn set(&mut self, value: usize)
        ensures
            *final(self) == Self::of(value),
            final(self)@ == value,
    {
        *self = Self::new(value);
    }

    /// The wrapper of the least value.
    pub fn min_value() -> (r: Self)
        ensures
            r == Self::of(usize::MIN),
            r@ == usize::MIN,
    {
        Self::new(usize::MIN)
    }

    /// The wrapper of the greatest value.
    pub fn max_value() -> (r: Self)
        ensures
            r == Self::of(usize::MAX),
            r@ == usize::MAX,
    {
        Self::new(usize::MAX)
    }

    /// A value that is stored reads back unchanged, and a wrapper is the one
    /// that stores its own value: the two forms determine each other.
    pub proof fn round_trip(value: usize, stored: Self)
        ensures
            Self::of(value)@ == value,
            Self::of(stored@) == stored,
    {
        lemma_usize_to_be(value, stored.raw);
        lemma_usize_to_be(stored.raw, value);
    }

    /// The wrapper of `value` occupies the bytes of `value`, most significant
    /// first, on either kind of machine.
    pub proof fn byte_order(value: usize)
        ensures
            Self::of(value).stored_bytes() == usize_be_bytes(value),
    {
        lemma_usize_to_be(value, value);
    }

    /// Every operator on two wrappers gives the wrapper whose value is what the
    /// native operator gives on their values, with the native wraparound.
    /// Division and remainder are left out for a zero divisor.
    pub proof fn arithmetic_is_native(a: usize, b: usize)
        ensures
            Self::of(a).add_spec(Self::of(b))@ == wrapping_add(a, b),
            Self::of(a).sub_spec(Self::of(b))@ == wrapping_sub(a, b),
            Self::of(a).mul_spec(Self::of(b))@ == wrapping_mul(a, b),
            b != 0 ==> Self::of(a).div_spec(Self::of(b))@ == a / b,
            b != 0 ==> Self::of(a).rem_spec(Self::of(b))@ == a % b,
            Self::of(a).bitand_spec(Self::of(b))@ == a & b,
            Self::of(a).bitor_spec(Self::of(b))@ == a | b,
            Self::of(a).bitxor_spec(Self::of(b))@ == a ^ b,
            Self::of(a).shl_spec(Self::of(b))@ == wrapping_shl(a, b as u32),
            Self::of(a).shr_spec(Self::of(b))@ == wrapping_shr(a, b as u32),
            Self::of(a).not_spec()@ == !a,
    {
        Self::round_trip(a, Self::of(b));
        Self::round_trip(b, Self::of(a));
        Self::round_trip(wrapping_add(a, b), Self::of(a));
        Self::round_trip(wrapping_sub(a, b), Self::of(a));
        Self::round_trip(wrapping_mul(a, b), Self::of(a));
        Self::round_trip(a / b, Self::of(a));
        Self::round_trip(a % b, Self::of(a));
        Self::round_trip(a & b, Self::of(a));
        Self::round_trip(a | b, Self::of(a));
        Self::round_trip(a ^ b, Self::of(a));
        Self::round_trip(wrapping_shl(a, b as u32), Self::of(a));
        Self::round_trip(wrapping_shr(a, b as u32), Self::of(a));
        Self::round_trip(!a, Self::of(a));
    }

    /// Both byte orders hold the same value, and each wrapper equals the native
    /// integer that it was made from.
    pub proof fn orders_agree(value: usize)
        ensures
            Self::of(value)@ == LittleEndianUsize::of(value)@,
            Self::of(value).eq_spec(&value),
            LittleEndianUsize::of(value).eq_spec(&value),
    {
        Self::round_trip(value, Self::of(value));
        LittleEndianUsize::round_trip(value, LittleEndianUsize::of(value));
    }

    /// Two wrappers compare as their values do, whatever their stored forms.
    pub proof fn comparison_is_native(a: usize, b: usize)
        ensures
            Self::of(a).eq_spec(&Self::of(b)) == (a == b),
            Self::of(a) == Self::of(b) <==> a == b,
            Self::of(a).partial_cmp_spec(&Self::of(b)) == a.partial_cmp_spec(&b),
    {
        Self::round_trip(a, Self::of(b));
        Self::round_trip(b, Self::of(a));
    }
}

impl Default for BigEndianUsize {
    /// The wrapper of zero.
    fn default() -> (r: Self)
        ensures
            r == Self::of(0),
            r@ == 0,
    {
        Self::new(0)
    }
}

impl From<usize> for BigEndianUsize {
    fn from(value: usize) -> (r: Self)
        ensures
            r@ == value,
    {
        Self::new(value)
    }
}

impl vstd::std_specs::convert::FromSpecImpl<usize> for BigEndianUsize {
    open spec fn obeys_from_spec() -> bool {
        true
    }

    open spec fn from_spec(value: usize) -> Self {
        Self::of(value)
    }
}

impl From<BigEndianUsize> for usize {
    fn from(value: BigEndianUsize) -> (r: usize) {
        value.get()
    }
}

impl vstd::std_specs::convert::FromSpecImpl<BigEndianUsize> for usize {
    open spec fn obeys_from_spec() -> bool {
        true
    }

    open spec fn from_spec(value: BigEndianUsize) -> usize {
        value@
    }
}

// Equality and order go by the values, never by the stored integers.

impl PartialEq for BigEndianUsize {
    fn eq(&self, other: &Self) -> (r: bool) {
        self.get() == other.get()
    }
}

impl vstd::std_specs::cmp::PartialEqSpecImpl for BigEndianUsize {
    open spec fn obeys_eq_spec() -> bool {
        true
    }

    open spec fn eq_spec(&self, other: &Self) -> bool {
        self@ == other@
    }
}

impl Eq for BigEndianUsize {
}

impl PartialEq<usize> for BigEndianUsize {
    fn eq(&self, other: &usize) -> (r: bool) {
        self.get() == *other
    }
}

impl vstd::std_specs::cmp::PartialEqSpecImpl<usize> for BigEndianUsize {
    open spec fn obeys_eq_spec() -> bool {
        true
    }

    open spec fn eq_spec(&self, other: &usize) -> bool {
        self@ == *other
    }
}

impl PartialEq<BigEndianUsize> for usize {
    fn eq(&self, other: &BigEndianUsize) -> (r: bool) {
        *self == other.get()
    }
}

impl vstd::std_specs::cmp::PartialEqSpecImpl<BigEndianUsize> for usize {
    open spec fn obeys_eq_spec() -> bool {
        true
    }

    open spec fn eq_spec(&self, other: &BigEndianUsize) -> bool {
        *self == other@
    }
}

impl PartialOrd for BigEndianUsize {
    fn partial_cmp(&self, other: &Self) -> (r: Option<Ordering>) {
        let a: usize = self.get();
        let b: usize = other.get();
        if a < b {
            Some(Ordering::Less)
        } else if a > b {
            Some(Ordering::Greater)
        } else {
            Some(Ordering::Equal)
        }
    }
}

impl vstd::std_specs::cmp::PartialOrdSpecImpl for BigEndianUsize {
    open spec fn obeys_partial_cmp_spec() -> bool {
        true
    }

    open spec fn partial_cmp_spec(&self, other: &Self) -> Option<Ordering> {
        if self@ < other@ {
            Some(Ordering::Less)
        } else if self@ > other@ {
            Some(Ordering::Greater)
        } else {
            Some(Ordering::Equal)
        }
    }
}

impl PartialOrd<usize> for BigEndianUsize {
    fn partial_cmp(&self, other: &usize) -> (r: Option<Ordering>) {
        let a: usize = self.get();
        let b: usize = *other;
        if a < b {
            Some(Ordering::Less)
        } else if a > b {
            Some(Ordering::Greater)
        } else {
            Some(Ordering::Equal)
        }
    }
}

impl vstd::std_specs::cmp::PartialOrdSpecImpl<usize> for BigEndianUsize {
    open spec fn obeys_partial_cmp_spec() -> bool {
        true
    }

    open spec fn partial_cmp_spec(&self, other: &usize) -> Option<Ordering> {
        if self@ < *other {
            Some(Ordering::Less)
        } else if self@ > *other {
            Some(Ordering::Greater)
        } else {
            Some(Ordering::Equal)
        }
    }
}

impl PartialOrd<BigEndianUsize> for usize {
    fn partial_cmp(&self, other: &BigEndianUsize) -> (r: Option<Ordering>) {
        let a: usize = *self;
        let b: usize = other.get();
        if a < b {
            Some(Ordering::Less)
        } else if a > b {
            Some(Ordering::Greater)
        } else {
            Some(Ordering::Equal)
        }
    }
}

impl vstd::std_specs::cmp::PartialOrdSpecImpl<BigEndianUsize> for usize {
    open spec fn obeys_partial_cmp_spec() -> bool {
        true
    }

    open spec fn partial_cmp_spec(&self, other: &BigEndianUsize) -> Option<Ordering> {
        if *self < other@ {
            Some(Ordering::Less)
        } else if *self > other@ {
            Some(Ordering::Greater)
        } else {
            Some(Ordering::Equal)
        }
    }
}

// Wrapper with wrapper. The arithmetic is done on the values; the bitwise
// operations are done on the stored integers, which gives the same wrapper.

impl Add for BigEndianUsize {
    type Output = Self;

    fn add(self, rhs: Self) -> (r: Self)
        ensures
            r@ == wrapping_add(self@, rhs@),
    {
        Self::new(self.get().wrapping_add(rhs.get()))
    }
}

impl vstd::std_specs::ops::AddSpecImpl for BigEndianUsize {
    open spec fn obeys_add_spec() -> bool {
        true
    }

    open spec fn add_req(self, rhs: Self) -> bool {
        true
    }

    open spec fn add_spec(self, rhs: Self) -> Self {
        Self::of(wrapping_add(self@, rhs@))
    }
}

impl Sub for BigEndianUsize {
    type Output = Self;

    fn sub(self, rhs: Self) -> (r: Self)
        ensures
            r@ == wrapping_sub(self@, rhs@),
    {
        Self::new(self.get().wrapping_sub(rhs.get()))
    }
}

impl vstd::std_specs::ops::SubSpecImpl for BigEndianUsize {
    open spec fn obeys_sub_spec() -> bool {
        true
    }

    open spec fn sub_req(self, rhs: Self) -> bool {
        true
    }

    open spec fn sub_spec(self, rhs: Self) -> Self {
        Self::of(wrapping_sub(self@, rhs@))
    }
}

impl Mul for BigEndianUsize {
    type Output = Self;

    fn mul(self, rhs: Self) -> (r: Self)
        ensures
            r@ == wrapping_mul(self@, rhs@),
    {
        Self::new(self.get().wrapping_mul(rhs.get()))
    }
}

impl vstd::std_specs::ops::MulSpecImpl for BigEndianUsize {
    open spec fn obeys_mul_spec() -> bool {
        true
    }

    open spec fn mul_req(self, rhs: Self) -> bool {
        true
    }

    open spec fn mul_spec(self, rhs: Self) -> Self {
        Self::of(wrapping_mul(self@, rhs@))
    }
}

impl Div for BigEndianUsize {
    type Output = Self;

    fn div(self, rhs: Self) -> (r: Self)
        ensures
            r@ == self@ / rhs@,
    {
        Self::new(self.get() / rhs.get())
    }
}

impl vstd::std_specs::ops::DivSpecImpl for BigEndianUsize {
    open spec fn obeys_div_spec() -> bool {
        true
    }

    open spec fn div_req(self, rhs: Self) -> bool {
        rhs@ != 0
    }

    open spec fn div_spec(self, rhs: Self) -> Self {
        Self::of(self@ / rhs@)
    }
}

impl Rem for BigEndianUsize {
    type Output = Self;

    fn rem(self, rhs: Self) -> (r: Self)
        ensures
            r@ == self@ % rhs@,
    {
        Self::new(self.get() % rhs.get())
    }
}

impl vstd::std_specs::ops::RemSpecImpl for BigEndianUsize {
    open spec fn obeys_rem_spec() -> bool {
        true
    }

    open spec fn rem_req(self, rhs: Self) -> bool {
        rhs@ != 0
    }

    open spec fn rem_spec(self, rhs: Self) -> Self {
        Self::of(self@ % rhs@)
    }
}

impl BitAnd for BigEndianUsize {
    type Output = Self;

    fn bitand(self, rhs: Self) -> (r: Self)
        ensures
            r@ == self@ & rhs@,
    {
        proof {
            lemma_usize_to_be(self@, rhs@);
            lemma_usize_to_be(self.raw, rhs.raw);
            lemma_usize_to_be(rhs.raw, self.raw);
        }
        BigEndianUsize { raw: self.raw & rhs.raw }
    }
}

impl vstd::std_specs::ops::BitAndSpecImpl for BigEndianUsize {
    open spec fn obeys_bitand_spec() -> bool {
        true
    }

    open spec fn bitand_req(self, rhs: Self) -> bool {
        true
    }

    open spec fn bitand_spec(self, rhs: Self) -> Self {
        Self::of(self@ & rhs@)
    }
}

impl BitOr for BigEndianUsize {
    type Output = Self;

    fn bitor(self, rhs: Self) -> (r: Self)
        ensures
            r@ == self@ | rhs@,
    {
        proof {
            lemma_usize_to_be(self@, rhs@);
            lemma_usize_to_be(self.raw, rhs.raw);
            lemma_usize_to_be(rhs.raw, self.raw);
        }
        BigEndianUsize { raw: self.raw | rhs.raw }
    }
}

impl vstd::std_specs::ops::BitOrSpecImpl for BigEndianUsize {
    open spec fn obeys_bitor_spec() -> bool {
        true
    }

    open spec fn bitor_req(self, rhs: Self) -> bool {
        true
    }

    open spec fn bitor_spec(self, rhs: Self) -> Self {
        Self::of(self@ | rhs@)
    }
}

impl BitXor for BigEndianUsize {
    type Output = Self;

    fn bitxor(self, rhs: Self) -> (r: Self)
        ensures
            r@ == self@ ^ rhs@,
    {
        proof {
            lemma_usize_to_be(self@, rhs@);
            lemma_usize_to_be(self.raw, rhs.raw);
            lemma_usize_to_be(rhs.raw, self.raw);
        }
        BigEndianUsize { raw: self.raw ^ rhs.raw }
    }
}

impl vstd::std_specs::ops::BitXorSpecImpl for BigEndianUsize {
    open spec fn obeys_bitxor_spec() -> bool {
        true
    }

    open spec fn bitxor_req(self, rhs: Self) -> bool {
        true
    }

    open spec fn bitxor_spec(self, rhs: Self) -> Self {
        Self::of(self@ ^ rhs@)
    }
}

impl Shl for BigEndianUsize {
    type Output = Self;

    fn shl(self, rhs: Self) -> (r: Self)
        ensures
            r@ == wrapping_shl(self@, rhs@ as u32),
    {
        Self::new(self.get().wrapping_shl(rhs.get() as u32))
    }
}

impl vstd::std_specs::ops::ShlSpecImpl for BigEndianUsize {
    open spec fn obeys_shl_spec() -> bool {
        true
    }

    open spec fn shl_req(self, rhs: Self) -> bool {
        true
    }

    open spec fn shl_spec(self, rhs: Self) -> Self {
        Self::of(wrapping_shl(self@, rhs@ as u32))
    }
}

impl Shr for BigEndianUsize {
    type Output = Self;

    fn shr(self, rhs: Self) -> (r: Self)
        ensures
            r@ == wrapping_shr(self@, rhs@ as u32),
    {
        Self::new(self.get().wrapping_shr(rhs.get() as u32))
    }
}

impl vstd::std_specs::ops::ShrSpecImpl for BigEndianUsize {
    open spec fn obeys_shr_spec() -> bool {
        true
    }

    open spec fn shr_req(self, rhs: Self) -> bool {
        true
    }

    open spec fn shr_spec(self, rhs: Self) -> Self {
        Self::of(wrapping_shr(self@, rhs@ as u32))
    }
}

impl Not for BigEndianUsize {
    type Output = Self;

    fn not(self) -> (r: Self)
        ensures
            r@ == !self@,
    {
        proof {
            lemma_usize_to_be(self@, self@);
            lemma_usize_to_be(self.raw, self.raw);
        }
        BigEndianUsize { raw: !self.raw }
    }
}

impl vstd::std_specs::ops::NotSpecImpl for BigEndianUsize {
    open spec fn obeys_not_spec() -> bool {
        true
    }

    open spec fn not_req(self) -> bool {
        true
    }

    open spec fn not_spec(self) -> Self {
        Self::of(!self@)
    }
}

impl AddAssign for BigEndianUsize {
    fn add_assign(&mut self, rhs: Self)
        ensures
            *final(self) == Self::of(wrapping_add(old(self)@, rhs@)),
            final(self)@ == wrapping_add(old(self)@, rhs@),
    {
        *self = *self + rhs;
    }
}

impl SubAssign for BigEndianUsize {
    fn sub_assign(&mut self, rhs: Self)
        ensures
            *final(self) == Self::of(wrapping_sub(old(self)@, rhs@)),
            final(self)@ == wrapping_sub(old(self)@, rhs@),
    {
        *self = *self - rhs;
    }
}

impl MulAssign for BigEndianUsize {
    fn mul_assign(&mut self, rhs: Self)
        ensures
            *final(self) == Self::of(wrapping_mul(old(self)@, rhs@)),
            final(self)@ == wrapping_mul(old(self)@, rhs@),
    {
        *self = *self * rhs;
    }
}

impl DivAssign for BigEndianUsize {
    fn div_assign(&mut self, rhs: Self)
        requires
            rhs@ != 0,
        ensures
            *final(self) == Self::of(old(self)@ / rhs@),
            final(self)@ == old(self)@ / rhs@,
    {
        *self = *self / rhs;
    }
}

impl RemAssign for BigEndianUsize {
    fn rem_assign(&mut self, rhs: Self)
        requires
            rhs@ != 0,
        ensures
            *final(self) == Self::of(old(self)@ % rhs@),
            final(self)@ == old(self)@ % rhs@,
    {
        *self = *self % rhs;
    }
}

impl BitAndAssign for BigEndianUsize {
    fn bitand_assign(&mut self, rhs: Self)
        ensures
            *final(self) == Self::of(old(self)@ & rhs@),
            final(self)@ == old(self)@ & rhs@,
    {
        *self = *self & rhs;
    }
}

impl BitOrAssign for BigEndianUsize {
    fn bitor_assign(&mut self, rhs: Self)
        ensures
            *final(self) == Self::of(old(self)@ | rhs@),
            final(self)@ == old(self)@ | rhs@,
    {
        *self = *self | rhs;
    }
}

impl BitXorAssign for BigEndianUsize {
    fn bitxor_assign(&mut self, rhs: Self)
        ensures
            *final(self) == Self::of(old(self)@ ^ rhs@),
            final(self)@ == old(self)@ ^ rhs@,
    {
        *self = *self ^ rhs;
    }
}

impl ShlAssign for BigEndianUsize {
    fn shl_assign(&mut self, rhs: Self)
        ensures
            *final(self) == Self::of(wrapping_shl(old(self)@, rhs@ as u32)),
            final(self)@ == wrapping_shl(old(self)@, rhs@ as u32),
    {
        *self = *self << rhs;
    }
}

impl ShrAssign for BigEndianUsize {
    fn shr_assign(&mut self, rhs: Self)
        ensures
            *final(self) == Self::of(wrapping_shr(old(self)@, rhs@ as u32)),
            final(self)@ == wrapping_shr(old(self)@, rhs@ as u32),
    {
        *self = *self >> rhs;
    }
}

// Wrapper with native integer: the result is a wrapper.

impl Add<usize> for BigEndianUsize {
    type Output = Self;

    fn add(self, rhs: usize) -> (r: Self)
        ensures
            r@ == wrapping_add(self@, rhs),
    {
        Self::new(self.get().wrapping_add(rhs))
    }
}

impl vstd::std_specs::ops::AddSpecImpl<usize> for BigEndianUsize {
    open spec fn obeys_add_spec() -> bool {
        true
    }

    open spec fn add_req(self, rhs: usize) -> bool {
        true
    }

    open spec fn add_spec(self, rhs: usize) -> Self {
        Self::of(wrapping_add(self@, rhs))
    }
}

impl Sub<usize> for BigEndianUsize {
    type Output = Self;

    fn sub(self, rhs: usize) -> (r: Self)
        ensures
            r@ == wrapping_sub(self@, rhs),
    {
        Self::new(self.get().wrapping_sub(rhs))
    }
}

impl vstd::std_specs::ops::SubSpecImpl<usize> for BigEndianUsize {
    open spec fn obeys_sub_spec() -> bool {
        true
    }

    open spec fn sub_req(self, rhs: usize) -> bool {
        true
    }

    open spec fn sub_spec(self, rhs: usize) -> Self {
        Self::of(wrapping_sub(self@, rhs))
    }
}

impl Mul<usize> for BigEndianUsize {
    type Output = Self;

    fn mul(self, rhs: usize) -> (r: Self)
        ensures
            r@ == wrapping_mul(self@, rhs),
    {
        Self::new(self.get().wrapping_mul(rhs))
    }
}

impl vstd::std_specs::ops::MulSpecImpl<usize> for BigEndianUsize {
    open spec fn obeys_mul_spec() -> bool {
        true
    }

    open spec fn mul_req(self, rhs: usize) -> bool {
        true
    }

    open spec fn mul_spec(self, rhs: usize) -> Self {
        Self::of(wrapping_mul(self@, rhs))
    }
}

impl Div<usize> for BigEndianUsize {
    type Output = Self;

    fn div(self, rhs: usize) -> (r: Self)
        ensures
            r@ == self@ / rhs,
    {
        Self::new(self.get() / rhs)
    }
}

impl vstd::std_specs::ops::DivSpecImpl<usize> for BigEndianUsize {
    open spec fn obeys_div_spec() -> bool {
        true
    }

    open spec fn div_req(self, rhs: usize) -> bool {
        rhs != 0
    }

    open spec fn div_spec(self, rhs: usize) -> Self {
        Self::of(self@ / rhs)
    }
}

impl Rem<usize> for BigEndianUsize {
    type Output = Self;

    fn rem(self, rhs: usize) -> (r: Self)
        ensures
            r@ == self@ % rhs,
    {
        Self::new(self.get() % rhs)
    }
}

impl vstd::std_specs::ops::RemSpecImpl<usize> for BigEndianUsize {
    open spec fn obeys_rem_spec() -> bool {
        true
    }

    open spec fn rem_req(self, rhs: usize) -> bool {
        rhs != 0
    }

    open spec fn rem_spec(self, rhs: usize) -> Self {
        Self::of(self@ % rhs)
    }
}

impl BitAnd<usize> for BigEndianUsize {
    type Output = Self;

    fn bitand(self, rhs: usize) -> (r: Self)
        ensures
            r@ == self@ & rhs,
    {
        Self::new(self.get() & rhs)
    }
}

impl vstd::std_specs::ops::BitAndSpecImpl<usize> for BigEndianUsize {
    open spec fn obeys_bitand_spec() -> bool {
        true
    }

    open spec fn bitand_req(self, rhs: usize) -> bool {
        true
    }

    open spec fn bitand_spec(self, rhs: usize) -> Self {
        Self::of(self@ & rhs)
    }
}

impl BitOr<usize> for BigEndianUsize {
    type Output = Self;

    fn bitor(self, rhs: usize) -> (r: Self)
        ensures
            r@ == self@ | rhs,
    {
        Self::new(self.get() | rhs)
    }
}

impl vstd::std_specs::ops::BitOrSpecImpl<usize> for BigEndianUsize {
    open spec fn obeys_bitor_spec() -> bool {
        true
    }

    open spec fn bitor_req(self, rhs: usize) -> bool {
        true
    }

    open spec fn bitor_spec(self, rhs: usize) -> Self {
        Self::of(self@ | rhs)
    }
}

impl BitXor<usize> for BigEndianUsize {
    type Output = Self;

    fn bitxor(self, rhs: usize) -> (r: Self)
        ensures
            r@ == self@ ^ rhs,
    {
        Self::new(self.get() ^ rhs)
    }
}

impl vstd::std_specs::ops::BitXorSpecImpl<usize> for BigEndianUsize {
    open spec fn obeys_bitxor_spec() -> bool {
        true
    }

    open spec fn bitxor_req(self, rhs: usize) -> bool {
        true
    }

    open spec fn bitxor_spec(self, rhs: usize) -> Self {
        Self::of(self@ ^ rhs)
    }
}

impl Shl<usize> for BigEndianUsize {
    type Output = Self;

    fn shl(self, rhs: usize) -> (r: Self)
        ensures
            r@ == wrapping_shl(self@, rhs as u32),
    {
        Self::new(self.get().wrapping_shl(rhs as u32))
    }
}

impl vstd::std_specs::ops::ShlSpecImpl<usize> for BigEndianUsize {
    open spec fn obeys_shl_spec() -> bool {
        true
    }

    open spec fn shl_req(self, rhs: usize) -> bool {
        true
    }

    open spec fn shl_spec(self, rhs: usize) -> Self {
        Self::of(wrapping_shl(self@, rhs as u32))
    }
}

impl Shr<usize> for BigEndianUsize {
    type Output = Self;

    fn shr(self, rhs: usize) -> (r: Self)
        ensures
            r@ == wrapping_shr(self@, rhs as u32),
    {
        Self::new(self.get().wrapping_shr(rhs as u32))
    }
}

impl vstd::std_specs::ops::ShrSpecImpl<usize> for BigEndianUsize {
    open spec fn obeys_shr_spec() -> bool {
        true
    }

    open spec fn shr_req(self, rhs: usize) -> bool {
        true
    }

    open spec fn shr_spec(self, rhs: usize) -> Self {
        Self::of(wrapping_shr(self@, rhs as u32))
    }
}

impl AddAssign<usize> for BigEndianUsize {
    fn add_assign(&mut self, rhs: usize)
        ensures
            *final(self) == Self::of(wrapping_add(old(self)@, rhs)),
            final(self)@ == wrapping_add(old(self)@, rhs),
    {
        *self = *self + rhs;
    }
}

impl SubAssign<usize> for BigEndianUsize {
    fn sub_assign(&mut self, rhs: usize)
        ensures
            *final(self) == Self::of(wrapping_sub(old(self)@, rhs)),
            final(self)@ == wrapping_sub(old(self)@, rhs),
    {
        *self = *self - rhs;
    }
}

impl MulAssign<usize> for BigEndianUsize {
    fn mul_assign(&mut self, rhs: usize)
        ensures
            *final(self) == Self::of(wrapping_mul(old(self)@, rhs)),
            final(self)@ == wrapping_mul(old(self)@, rhs),
    {
        *self = *self * rhs;
    }
}

impl DivAssign<usize> for BigEndianUsize {
    fn div_assign(&mut self, rhs: usize)
        requires
            rhs != 0,
        ensures
            *final(self) == Self::of(old(self)@ / rhs),
            final(self)@ == old(self)@ / rhs,
    {
        *self = *self / rhs;
    }
}

impl RemAssign<usize> for BigEndianUsize {
    fn rem_assign(&mut self, rhs: usize)
        requires
            rhs != 0,
        ensures
            *final(self) == Self::of(old(self)@ % rhs),
            final(self)@ == old(self)@ % rhs,
    {
        *self = *self % rhs;
    }
}

impl BitAndAssign<usize> for BigEndianUsize {
    fn bitand_assign(&mut self, rhs: usize)
        ensures
            *final(self) == Self::of(old(self)@ & rhs),
            final(self)@ == old(self)@ & rhs,
    {
        *self = *self & rhs;
    }
}

impl BitOrAssign<usize> for BigEndianUsize {
    fn bitor_assign(&mut self, rhs: usize)
        ensures
            *final(self) == Self::of(old(self)@ | rhs),
            final(self)@ == old(self)@ | rhs,
    {
        *self = *self | rhs;
    }
}

impl BitXorAssign<usize> for BigEndianUsize {
    fn bitxor_assign(&mut self, rhs: usize)
        ensures
            *final(self) == Self::of(old(self)@ ^ rhs),
            final(self)@ == old(self)@ ^ rhs,
    {
        *self = *self ^ rhs;
    }
}

impl ShlAssign<usize> for BigEndianUsize {
    fn shl_assign(&mut self, rhs: usize)
        ensures
            *final(self) == Self::of(wrapping_shl(old(self)@, rhs as u32)),
            final(self)@ == wrapping_shl(old(self)@, rhs as u32),
    {
        *self = *self << rhs;
    }
}

impl ShrAssign<usize> for BigEndianUsize {
    fn shr_assign(&mut self, rhs: usize)
        ensures
            *final(self) == Self::of(wrapping_shr(old(self)@, rhs as u32)),
            final(self)@ == wrapping_shr(old(self)@, rhs as u32),
    {
        *self = *self >> rhs;
    }
}

// Native integer with wrapper: the result is a native integer.

impl Add<BigEndianUsize> for usize {
    type Output = usize;

    fn add(self, rhs: BigEndianUsize) -> (r: usize) {
        self.wrapping_add(rhs.get())
    }
}

impl vstd::std_specs::ops::AddSpecImpl<BigEndianUsize> for usize {
    open spec fn obeys_add_spec() -> bool {
        true
    }

    open spec fn add_req(self, rhs: BigEndianUsize) -> bool {
        true
    }

    open spec fn add_spec(self, rhs: BigEndianUsize) -> usize {
        wrapping_add(self, rhs@)
    }
}

impl Sub<BigEndianUsize> for usize {
    type Output = usize;

    fn sub(self, rhs: BigEndianUsize) -> (r: usize) {
        self.wrapping_sub(rhs.get())
    }
}

impl vstd::std_specs::ops::SubSpecImpl<BigEndianUsize> for usize {
    open spec fn obeys_sub_spec() -> bool {
        true
    }

    open spec fn sub_req(self, rhs: BigEndianUsize) -> bool {
        true
    }

    open spec fn sub_spec(self, rhs: BigEndianUsize) -> usize {
        wrapping_sub(self, rhs@)
    }
}

impl Mul<BigEndianUsize> for usize {
    type Output = usize;

    fn mul(self, rhs: BigEndianUsize) -> (r: usize) {
        self.wrapping_mul(rhs.get())
    }
}

impl vstd::std_specs::ops::MulSpecImpl<BigEndianUsize> for usize {
    open spec fn obeys_mul_spec() -> bool {
        true
    }

    open spec fn mul_req(self, rhs: BigEndianUsize) -> bool {
        true
    }

    open spec fn mul_spec(self, rhs: BigEndianUsize) -> usize {
        wrapping_mul(self, rhs@)
    }
}

impl Div<BigEndianUsize> for usize {
    type Output = usize;

    fn div(self, rhs: BigEndianUsize) -> (r: usize) {
        self / rhs.get()
    }
}

impl vstd::std_specs::ops::DivSpecImpl<BigEndianUsize> for usize {
    open spec fn obeys_div_spec() -> bool {
        true
    }

    open spec fn div_req(self, rhs: BigEndianUsize) -> bool {
        rhs@ != 0
    }

    open spec fn div_spec(self, rhs: BigEndianUsize) -> usize {
        self / rhs@
    }
}

impl Rem<BigEndianUsize> for usize {
    type Output = usize;

    fn rem(self, rhs: BigEndianUsize) -> (r: usize) {
        self % rhs.get()
    }
}

impl vstd::std_specs::ops::RemSpecImpl<BigEndianUsize> for usize {
    open spec fn obeys_rem_spec() -> bool {
        true
    }

    open spec fn rem_req(self, rhs: BigEndianUsize) -> bool {
        rhs@ != 0
    }

    open spec fn rem_spec(self, rhs: BigEndianUsize) -> usize {
        self % rhs@
    }
}

impl BitAnd<BigEndianUsize> for usize {
    type Output = usize;

    fn bitand(self, rhs: BigEndianUsize) -> (r: usize) {
        self & rhs.get()
    }
}

impl vstd::std_specs::ops::BitAndSpecImpl<BigEndianUsize> for usize {
    open spec fn obeys_bitand_spec() -> bool {
        true
    }

    open spec fn bitand_req(self, rhs: BigEndianUsize) -> bool {
        true
    }

    open spec fn bitand_spec(self, rhs: BigEndianUsize) -> usize {
        self & rhs@
    }
}

impl BitOr<BigEndianUsize> for usize {
    type Output = usize;

    fn bitor(self, rhs: BigEndianUsize) -> (r: usize) {
        self | rhs.get()
    }
}

impl vstd::std_specs::ops::BitOrSpecImpl<BigEndianUsize> for usize {
    open spec fn obeys_bitor_spec() -> bool {
        true
    }

    open spec fn bitor_req(self, rhs: BigEndianUsize) -> bool {
        true
    }

    open spec fn bitor_spec(self, rhs: BigEndianUsize) -> usize {
        self | rhs@
    }
}

impl BitXor<BigEndianUsize> for usize {
    type Output = usize;

    fn bitxor(self, rhs: BigEndianUsize) -> (r: usize) {
        self ^ rhs.get()
    }
}

impl vstd::std_specs::ops::BitXorSpecImpl<BigEndianUsize> for usize {
    open spec fn obeys_bitxor_spec() -> bool {
        true
    }

    open spec fn bitxor_req(self, rhs: BigEndianUsize) -> bool {
        true
    }

    open spec fn bitxor_spec(self, rhs: BigEndianUsize) -> usize {
        self ^ rhs@
    }
}

impl Shl<BigEndianUsize> for usize {
    type Output = usize;

    fn shl(self, rhs: BigEndianUsize) -> (r: usize) {
        self.wrapping_shl(rhs.get() as u32)
    }
}

impl vstd::std_specs::ops::ShlSpecImpl<BigEndianUsize> for usize {
    open spec fn obeys_shl_spec() -> bool {
        true
    }

    open spec fn shl_req(self, rhs: BigEndianUsize) -> bool {
        true
    }

    open spec fn shl_spec(self, rhs: BigEndianUsize) -> usize {
        wrapping_shl(self, rhs@ as u32)
    }
}

impl Shr<BigEndianUsize> for usize {
    type Output = usize;

    fn shr(self, rhs: BigEndianUsize) -> (r: usize) {
        self.wrapping_shr(rhs.get() as u32)
    }
}

impl vstd::std_specs::ops::ShrSpecImpl<BigEndianUsize> for usize {
    open spec fn obeys_shr_spec() -> bool {
        true
    }

    open spec fn shr_req(self, rhs: BigEndianUsize) -> bool {
        true
    }

    open spec fn shr_spec(self, rhs: BigEndianUsize) -> usize {
        wrapping_shr(self, rhs@ as u32)
    }
}

impl AddAssign<BigEndianUsize> for usize {
    fn add_assign(&mut self, rhs: BigEndianUsize)
        ensures
            *final(self) == wrapping_add(*old(self), rhs@),
    {
        *self = *self + rhs;
    }
}

impl SubAssign<BigEndianUsize> for usize {
    fn sub_assign(&mut self, rhs: BigEndianUsize)
        ensures
            *final(self) == wrapping_sub(*old(self), rhs@),
    {
        *self = *self - rhs;
    }
}

impl MulAssign<BigEndianUsize> for usize {
    fn mul_assign(&mut self, rhs: BigEndianUsize)
        ensures
            *final(self) == wrapping_mul(*old(self), rhs@),
    {
        *self = *self * rhs;
    }
}

impl DivAssign<BigEndianUsize> for usize {
    fn div_assign(&mut self, rhs: BigEndianUsize)
        requires
            rhs@ != 0,
        ensures
            *final(self) == *old(self) / rhs@,
    {
        *self = *self / rhs;
    }
}

impl RemAssign<BigEndianUsize> for usize {
    fn rem_assign(&mut self, rhs: BigEndianUsize)
        requires
            rhs@ != 0,
        ensures
            *final(self) == *old(self) % rhs@,
    {
        *self = *self % rhs;
    }
}

impl BitAndAssign<BigEndianUsize> for usize {
    fn bitand_assign(&mut self, rhs: BigEndianUsize)
        ensures
            *final(self) == *old(self) & rhs@,
    {
        *self = *self & rhs;
    }
}

impl BitOrAssign<BigEndianUsize> for usize {
    fn bitor_assign(&mut self, rhs: BigEndianUsize)
        ensures
            *final(self) == *old(self) | rhs@,
    {
        *self = *self | rhs;
    }
}

impl BitXorAssign<BigEndianUsize> for usize {
    fn bitxor_assign(&mut self, rhs: BigEndianUsize)
        ensures
            *final(self) == *old(self) ^ rhs@,
    {
        *self = *self ^ rhs;
    }
}

impl ShlAssign<BigEndianUsize> for usize {
    fn shl_assign(&mut self, rhs: BigEndianUsize)
        ensures
            *final(self) == wrapping_shl(*old(self), rhs@ as u32),
    {
        *self = *self << rhs;
    }
}

impl ShrAssign<BigEndianUsize> for usize {
    fn shr_assign(&mut self, rhs: BigEndianUsize)
        ensures
            *final(self) == wrapping_shr(*old(self), rhs@ as u32),
    {
        *self = *self >> rhs;
    }
}

} // verus!
