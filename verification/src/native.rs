//! Division as the machine does it.
//!
//! In a contract `/` and `%` are Euclidean: the remainder is never negative.
//! The machine rounds the quotient of two signed integers towards zero and gives
//! the remainder the sign of the dividend. The functions here state the
//! machine's result, first for the integers and then for each signed type.

use vstd::prelude::*;

verus! {

/// The quotient of `a` by `b`, rounded towards zero.
pub open spec fn quot_toward_zero(a: int, b: int) -> int {
    if a >= 0 {
        a / b
    } else {
        -((-a) / b)
    }
}

/// The remainder that belongs to `quot_toward_zero`: it has the sign of `a`.
pub open spec fn rem_toward_zero(a: int, b: int) -> int {
    if a >= 0 {
        a % b
    } else {
        -((-a) % b)
    }
}

/// Quotient and remainder make up the dividend, the remainder is smaller in
/// magnitude than the divisor and has the sign of the dividend, and the
/// quotient is no larger in magnitude than the dividend.
pub proof fn lemma_toward_zero(a: int, b: int)
    requires
        b != 0,
    ensures
        a == b * quot_toward_zero(a, b) + rem_toward_zero(a, b),
        a >= 0 ==> 0 <= rem_toward_zero(a, b),
        a <= 0 ==> rem_toward_zero(a, b) <= 0,
        b > 0 ==> -b < rem_toward_zero(a, b) < b,
        b < 0 ==> b < rem_toward_zero(a, b) < -b,
        a >= 0 ==> -a <= quot_toward_zero(a, b) <= a,
        a <= 0 ==> a <= quot_toward_zero(a, b) <= -a,
{
    let x = if a >= 0 {
        a
    } else {
        -a
    };
    let q = x / b;
    let r = x % b;
    assert(x == b * q + r && 0 <= r && (b > 0 ==> r < b) && (b < 0 ==> r < -b))
        by (nonlinear_arith)
        requires
            b != 0,
            q == x / b,
            r == x % b,
    ;
    assert(-x <= q <= x) by (nonlinear_arith)
        requires
            x >= 0,
            b != 0,
            x == b * q + r,
            0 <= r,
            b > 0 ==> r < b,
            b < 0 ==> r < -b,
    ;
    assert(b * (-q) == -(b * q)) by (nonlinear_arith);
}

/// Whether the machine can divide `a` by `b`: not by zero, and not the least
/// value by minus one, whose quotient has no representation.
pub open spec fn i16_divides(a: i16, b: i16) -> bool {
    b != 0 && !(a == i16::MIN && b == -1)
}

/// The quotient of `a` by `b`, rounded towards zero.
pub open spec fn i16_quot(a: i16, b: i16) -> i16 {
    quot_toward_zero(a as int, b as int) as i16
}

/// The remainder of `a` by `b`, with the sign of `a`.
pub open spec fn i16_rem(a: i16, b: i16) -> i16 {
    rem_toward_zero(a as int, b as int) as i16
}

/// Where the machine can divide, quotient and remainder are those of the
/// integers: both fit the type.
pub proof fn lemma_i16_division(a: i16, b: i16)
    requires
        i16_divides(a, b),
    ensures
        i16_quot(a, b) == quot_toward_zero(a as int, b as int),
        i16_rem(a, b) == rem_toward_zero(a as int, b as int),
{
    lemma_toward_zero(a as int, b as int);
    let q = quot_toward_zero(a as int, b as int);
    let r = rem_toward_zero(a as int, b as int);
    if a == i16::MIN {
        assert(q != -a) by (nonlinear_arith)
            requires
                a as int == b * q + r,
                b != -1,
                b != 0,
                a < 0,
                r <= 0,
                b > 0 ==> -b < r,
                b < 0 ==> b < r,
        ;
    }
}

/// Whether the machine can divide `a` by `b`: not by zero, and not the least
/// value by minus one, whose quotient has no representation.
pub open spec fn i32_divides(a: i32, b: i32) -> bool {
    b != 0 && !(a == i32::MIN && b == -1)
}

/// The quotient of `a` by `b`, rounded towards zero.
pub open spec fn i32_quot(a: i32, b: i32) -> i32 {
    quot_toward_zero(a as int, b as int) as i32
}

/// The remainder of `a` by `b`, with the sign of `a`.
pub open spec fn i32_rem(a: i32, b: i32) -> i32 {
    rem_toward_zero(a as int, b as int) as i32
}

/// Where the machine can divide, quotient and remainder are those of the
/// integers: both fit the type.
pub proof fn lemma_i32_division(a: i32, b: i32)
    requires
        i32_divides(a, b),
    ensures
        i32_quot(a, b) == quot_toward_zero(a as int, b as int),
        i32_rem(a, b) == rem_toward_zero(a as int, b as int),
{
    lemma_toward_zero(a as int, b as int);
    let q = quot_toward_zero(a as int, b as int);
    let r = rem_toward_zero(a as int, b as int);
    if a == i32::MIN {
        assert(q != -a) by (nonlinear_arith)
            requires
                a as int == b * q + r,
                b != -1,
                b != 0,
                a < 0,
                r <= 0,
                b > 0 ==> -b < r,
                b < 0 ==> b < r,
        ;
    }
}

/// Whether the machine can divide `a` by `b`: not by zero, and not the least
/// value by minus one, whose quotient has no representation.
pub open spec fn i64_divides(a: i64, b: i64) -> bool {
    b != 0 && !(a == i64::MIN && b == -1)
}

/// The quotient of `a` by `b`, rounded towards zero.
pub open spec fn i64_quot(a: i64, b: i64) -> i64 {
    quot_toward_zero(a as int, b as int) as i64
}

/// The remainder of `a` by `b`, with the sign of `a`.
pub open spec fn i64_rem(a: i64, b: i64) -> i64 {
    rem_toward_zero(a as int, b as int) as i64
}

/// Where the machine can divide, quotient and remainder are those of the
/// integers: both fit the type.
pub proof fn lemma_i64_division(a: i64, b: i64)
    requires
        i64_divides(a, b),
    ensures
        i64_quot(a, b) == quot_toward_zero(a as int, b as int),
        i64_rem(a, b) == rem_toward_zero(a as int, b as int),
{
    lemma_toward_zero(a as int, b as int);
    let q = quot_toward_zero(a as int, b as int);
    let r = rem_toward_zero(a as int, b as int);
    if a == i64::MIN {
        assert(q != -a) by (nonlinear_arith)
            requires
                a as int == b * q + r,
                b != -1,
                b != 0,
                a < 0,
                r <= 0,
                b > 0 ==> -b < r,
                b < 0 ==> b < r,
        ;
    }
}

/// Whether the machine can divide `a` by `b`: not by zero, and not the least
/// value by minus one, whose quotient has no representation.
pub open spec fn isize_divides(a: isize, b: isize) -> bool {
    b != 0 && !(a == isize::MIN && b == -1)
}

/// The quotient of `a` by `b`, rounded towards zero.
pub open spec fn isize_quot(a: isize, b: isize) -> isize {
    quot_toward_zero(a as int, b as int) as isize
}

/// The remainder of `a` by `b`, with the sign of `a`.
pub open spec fn isize_rem(a: isize, b: isize) -> isize {
    rem_toward_zero(a as int, b as int) as isize
}

/// Where the machine can divide, quotient and remainder are those of the
/// integers: both fit the type.
pub proof fn lemma_isize_division(a: isize, b: isize)
    requires
        isize_divides(a, b),
    ensures
        isize_quot(a, b) == quot_toward_zero(a as int, b as int),
        isize_rem(a, b) == rem_toward_zero(a as int, b as int),
{
    lemma_toward_zero(a as int, b as int);
    let q = quot_toward_zero(a as int, b as int);
    let r = rem_toward_zero(a as int, b as int);
    if a == isize::MIN {
        assert(q != -a) by (nonlinear_arith)
            requires
                a as int == b * q + r,
                b != -1,
                b != 0,
                a < 0,
                r <= 0,
                b > 0 ==> -b < r,
                b < 0 ==> b < r,
        ;
    }
}

} // verus!
