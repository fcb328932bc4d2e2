//! Fixed-point arithmetic shared by every system of the crate.

use vstd::prelude::*;

verus! {

/// Stored units per world unit: the stored integer `1_000_000` is the
/// quantity 1.0.
pub const SCALE: i64 = 1_000_000;

/// The quotient of `a` by `b`, rounded toward zero.
pub open spec fn toward_zero(a: int, b: int) -> int
    recommends
        b != 0,
{
    if a >= 0 {
        a / b
    } else {
        -((-a) / b)
    }
}

/// The product of two fixed-point quantities as a fixed-point quantity,
/// rounded toward zero.
pub open spec fn scaled_product(a: int, b: int) -> int {
    toward_zero(a * b, SCALE as int)
}

/// `v` rounded to the nearest whole world unit, halves away from zero. The
/// result is again a fixed-point quantity, hence a multiple of [`SCALE`].
pub open spec fn rounded(v: int) -> int {
    if v >= 0 {
        ((v + SCALE / 2) / (SCALE as int)) * SCALE
    } else {
        -(((-v + SCALE / 2) / (SCALE as int)) * SCALE)
    }
}

/// Whether `v` can be stored in an `i64`.
pub open spec fn representable(v: int) -> bool {
    i64::MIN <= v <= i64::MAX
}

/// Multiplies two fixed-point quantities. The result is returned wide, so
/// that no pair of arguments overflows.
pub fn mul_scaled(a: i64, b: i64) -> (p: i128)
    ensures
        p == scaled_product(a as int, b as int),
        -0x4000_0000_0000_0000_0000_0000_0000_0000 <= p <= 0x4000_0000_0000_0000_0000_0000_0000_0000,
{
    assert(-0x4000_0000_0000_0000_0000_0000_0000_0000 <= (a as int) * (b as int)
        <= 0x4000_0000_0000_0000_0000_0000_0000_0000) by (nonlinear_arith)
        requires
            -0x8000_0000_0000_0000 <= a <= 0x7fff_ffff_ffff_ffff,
            -0x8000_0000_0000_0000 <= b <= 0x7fff_ffff_ffff_ffff,
    ;
    let wide: i128 = (a as i128) * (b as i128);
    wide / (SCALE as i128)
}

/// Rounds a fixed-point quantity to the nearest whole world unit, halves away
/// from zero.
pub fn round_units(v: i128) -> (r: i128)
    requires
        -0x4000_0000_0000_0000_0000_0000_0000_0000 <= v <= 0x4000_0000_0000_0000_0000_0000_0000_0000,
    ensures
        r == rounded(v as int),
        v >= 0 ==> 0 <= r <= v + SCALE / 2,
        v < 0 ==> v - SCALE / 2 <= r <= 0,
{
    let half: i128 = (SCALE / 2) as i128;
    if v >= 0 {
        ((v + half) / (SCALE as i128)) * (SCALE as i128)
    } else {
        -(((-v + half) / (SCALE as i128)) * (SCALE as i128))
    }
}

/// Narrows a wide quantity to the stored width, if it fits.
pub fn narrow(v: i128) -> (r: Option<i64>)
    ensures
        r == (if representable(v as int) {
            Some(v as i64)
        } else {
            None::<i64>
        }),
{
    if v >= i64::MIN as i128 && v <= i64::MAX as i128 {
        Some(v as i64)
    } else {
        None
    }
}

/// A whole multiple of [`SCALE`] multiplied by a fixed-point quantity loses
/// nothing to rounding.
pub proof fn lemma_whole_product_exact(units: int, b: int)
    ensures
        scaled_product(units * SCALE, b) == units * b,
        scaled_product(b, units * SCALE) == units * b,
{
    assert((units * SCALE) * b == (units * b) * SCALE) by (nonlinear_arith);
    assert(b * (units * SCALE) == (units * b) * SCALE) by (nonlinear_arith);
    let p = units * b;
    assert(toward_zero(p * SCALE, SCALE as int) == p) by {
        if p >= 0 {
            assert((p * 1_000_000) / 1_000_000 == p);
        } else {
            assert((-(p * 1_000_000)) / 1_000_000 == -p);
        }
    }
}

/// The rounding error of a scaled product is less than one stored unit, and
/// the product is never rounded away from zero.
pub proof fn lemma_scaled_product_error(a: int, b: int)
    ensures
        -SCALE < a * b - SCALE * scaled_product(a, b) < SCALE,
        a * b >= 0 ==> 0 <= SCALE * scaled_product(a, b) <= a * b,
        a * b <= 0 ==> a * b <= SCALE * scaled_product(a, b) <= 0,
        (a * b) % (SCALE as int) == 0 ==> SCALE * scaled_product(a, b) == a * b,
{
    let p = a * b;
    if p >= 0 {
        assert(p == 1_000_000 * (p / 1_000_000) + p % 1_000_000);
    } else {
        assert(-p == 1_000_000 * ((-p) / 1_000_000) + (-p) % 1_000_000);
        assert(p % 1_000_000 == 0 ==> (-p) % 1_000_000 == 0);
    }
}

} // verus!
