//! Fixed-point scalars.
//!
//! Every coordinate of the library is a signed 16.16 fixed-point number held
//! in an `i32`: the stored integer is the value times [`ONE`]. Products and
//! sums are formed exactly in `i128`; a quotient is rounded toward negative
//! infinity (or, where a caller asks for it, toward positive infinity), and a
//! value that leaves the range of `i32` saturates at the nearest bound.
use vstd::arithmetic::div_mod::lemma_fundamental_div_mod;
use vstd::arithmetic::div_mod::lemma_fundamental_div_mod_converse;
use vstd::prelude::*;

verus! {

/// Number of fractional bits of a fixed-point scalar.
pub const FRACTION_BITS: u32 = 16;

/// The fixed-point representation of the number one.
pub const ONE: i32 = 65536;

/// The integer of `i32` range nearest to `v`.
pub open spec fn spec_saturate(v: int) -> int {
    if v < i32::MIN as int {
        i32::MIN as int
    } else if v > i32::MAX as int {
        i32::MAX as int
    } else {
        v
    }
}

/// The quotient `a / b` rounded toward positive infinity, for `b > 0`.
pub open spec fn spec_div_ceil(a: int, b: int) -> int {
    -((-a) / b)
}

/// Narrows `v` to `i32`, saturating at the bounds of the type.
pub fn saturate(v: i128) -> (r: i32)
    ensures
        r as int == spec_saturate(v as int),
{
    if v < i32::MIN as i128 {
        i32::MIN
    } else if v > i32::MAX as i128 {
        i32::MAX
    } else {
        v as i32
    }
}

/// The product of two `i32` values has magnitude at most 2^62.
pub proof fn lemma_product_bound(a: int, b: int)
    requires
        i32::MIN <= a <= i32::MAX,
        i32::MIN <= b <= i32::MAX,
    ensures
        -0x4000_0000_0000_0000 <= a * b <= 0x4000_0000_0000_0000,
{
    assert(-0x4000_0000_0000_0000 <= a * b <= 0x4000_0000_0000_0000) by (nonlinear_arith)
        requires
            -0x8000_0000 <= a <= 0x7fff_ffff,
            -0x8000_0000 <= b <= 0x7fff_ffff,
    ;
}

/// The exact product of two scalars.
pub fn wide_mul(a: i32, b: i32) -> (p: i128)
    ensures
        p as int == (a as int) * (b as int),
        -0x4000_0000_0000_0000 <= p <= 0x4000_0000_0000_0000,
{
    proof {
        lemma_product_bound(a as int, b as int);
    }
    (a as i128) * (b as i128)
}

/// The difference of two scalars, which always fits 64 bits.
pub fn wide_sub(a: i32, b: i32) -> (d: i64)
    ensures
        d as int == a as int - b as int,
        -0xffff_ffff <= d <= 0xffff_ffff,
{
    (a as i64) - (b as i64)
}

/// The exact product of two differences of scalars.
pub fn wide_mul_diff(a: i64, b: i64) -> (p: i128)
    requires
        -0xffff_ffff <= a <= 0xffff_ffff,
        -0xffff_ffff <= b <= 0xffff_ffff,
    ensures
        p as int == (a as int) * (b as int),
        -0x1_0000_0000_0000_0000 <= p <= 0x1_0000_0000_0000_0000,
{
    assert(-0x1_0000_0000_0000_0000 <= (a as int) * (b as int) <= 0x1_0000_0000_0000_0000)
        by (nonlinear_arith)
        requires
            -0xffff_ffff <= a <= 0xffff_ffff,
            -0xffff_ffff <= b <= 0xffff_ffff,
    ;
    (a as i128) * (b as i128)
}

/// The quotient `a / b` rounded toward negative infinity.
///
/// In contracts `/` on integers is Euclidean division, which for a positive
/// divisor is the floor of the exact quotient.
pub fn div_floor(a: i128, b: i128) -> (q: i128)
    requires
        b > 0,
    ensures
        q as int == (a as int) / (b as int),
{
    if a >= 0 {
        let q: u128 = (a as u128) / (b as u128);
        q as i128
    } else {
        let m: u128 = (-(a + 1)) as u128;
        let qm: u128 = m / (b as u128);
        let rm: u128 = m % (b as u128);
        proof {
            let bi = b as int;
            lemma_fundamental_div_mod(m as int, bi);
            assert(a as int == (-(qm as int) - 1) * bi + (bi - rm as int - 1)) by (nonlinear_arith)
                requires
                    m as int == bi * (qm as int) + rm as int,
                    a as int == -(m as int) - 1,
            ;
            lemma_fundamental_div_mod_converse(
                a as int,
                bi,
                -(qm as int) - 1,
                bi - rm as int - 1,
            );
        }
        -(qm as i128) - 1
    }
}

/// The quotient `a / b` rounded toward positive infinity.
pub fn div_ceil(a: i128, b: i128) -> (q: i128)
    requires
        b > 0,
        a > i128::MIN,
    ensures
        q as int == spec_div_ceil(a as int, b as int),
{
    let f: i128 = div_floor(-a, b);
    proof {
        lemma_floor_div_bounds(-(a as int), b as int);
    }
    -f
}

/// A floor quotient by a positive divisor lies between zero and the
/// dividend; times the divisor, it falls short of the dividend by less than
/// the divisor.
pub proof fn lemma_floor_div_bounds(a: int, b: int)
    requires
        b > 0,
    ensures
        a >= 0 ==> 0 <= a / b <= a,
        a < 0 ==> a <= a / b < 0,
        (a / b) * b <= a < (a / b) * b + b,
{
    lemma_fundamental_div_mod(a, b);
    let q = a / b;
    let r = a % b;
    assert(a == b * q + r);
    assert(0 <= r < b);
    assert(q * b == b * q) by (nonlinear_arith);
    if a >= 0 {
        assert(0 <= q <= a) by (nonlinear_arith)
            requires
                a == b * q + r,
                0 <= r < b,
                b > 0,
                a >= 0,
        ;
    } else {
        assert(a <= q < 0) by (nonlinear_arith)
            requires
                a == b * q + r,
                0 <= r < b,
                b > 0,
                a < 0,
        ;
    }
}

} // verus!
