//! Fixed-point scalars.
//!
//! A quantity is stored as an `i64` counting `SCALE`-ths of its unit, so
//! one unit is `SCALE` and the smallest representable amount is
//! `1 / SCALE`.  Multiplication and division rescale their exact integer
//! result with truncation toward zero, the rounding of Rust's `/` on
//! machine integers.  Every operation reports overflow through `Option`
//! instead of panicking; callers treat `None` the way a floating-point
//! model would treat a non-finite value.

use vstd::prelude::*;

verus! {

/// Fixed-point units per whole unit.
pub const SCALE: i64 = 1_000_000_000_000;

/// Does a mathematical integer fit in an `i64`?
pub open spec fn fits(x: int) -> bool {
    i64::MIN <= x <= i64::MAX
}

/// Truncating (round-toward-zero) division, the semantics of `/` on
/// Rust's signed machine integers.  Meaningful only for `d != 0`.
pub open spec fn tdiv(x: int, d: int) -> int {
    if x == 0 {
        0
    } else if x > 0 && d > 0 {
        x / d
    } else if x < 0 && d < 0 {
        (x * -1) / (d * -1)
    } else if x < 0 {
        ((x * -1) / d) * -1
    } else {
        (x / (d * -1)) * -1
    }
}

/// The exact value of a fixed-point product before any overflow check.
pub open spec fn mul_val(a: int, b: int) -> int {
    tdiv(a * b, SCALE as int)
}

/// The exact value of a fixed-point quotient before any overflow check.
pub open spec fn div_val(a: int, b: int) -> int {
    tdiv(a * (SCALE as int), b)
}

/// Fixed-point sum.
pub fn fx_add(a: i64, b: i64) -> (r: Option<i64>)
    ensures
        match r {
            Some(v) => v == a + b,
            None => !fits(a + b),
        },
{
    a.checked_add(b)
}

/// Fixed-point difference.
pub fn fx_sub(a: i64, b: i64) -> (r: Option<i64>)
    ensures
        match r {
            Some(v) => v == a - b,
            None => !fits(a - b),
        },
{
    a.checked_sub(b)
}

/// Fixed-point product: `a * b` rescaled by `SCALE` with truncation.
pub fn fx_mul(a: i64, b: i64) -> (r: Option<i64>)
    ensures
        match r {
            Some(v) => v == mul_val(a as int, b as int),
            None => !fits(mul_val(a as int, b as int)),
        },
{
    proof {
        lemma_i64_product_fits_i128(a as int, b as int);
    }
    let p: i128 = (a as i128) * (b as i128);
    match p.checked_div(SCALE as i128) {
        Some(q) => {
            if q > i64::MAX as i128 || q < i64::MIN as i128 {
                None
            } else {
                Some(q as i64)
            }
        },
        None => {
            proof {
                lemma_tdiv_magnitude(p as int, SCALE as int);
            }
            None
        },
    }
}

/// Fixed-point quotient: `a / b` rescaled by `SCALE` with truncation.
/// `None` on division by zero or when the quotient leaves the `i64` range.
pub fn fx_div(a: i64, b: i64) -> (r: Option<i64>)
    ensures
        match r {
            Some(v) => b != 0 && v == div_val(a as int, b as int),
            None => b == 0 || !fits(div_val(a as int, b as int)),
        },
{
    if b == 0 {
        return None;
    }
    proof {
        lemma_i64_product_fits_i128(a as int, SCALE as int);
    }
    let n: i128 = (a as i128) * (SCALE as i128);
    match n.checked_div(b as i128) {
        Some(q) => {
            if q > i64::MAX as i128 || q < i64::MIN as i128 {
                None
            } else {
                Some(q as i64)
            }
        },
        None => {
            proof {
                lemma_tdiv_magnitude(n as int, b as int);
            }
            None
        },
    }
}

/// Division of a fixed-point number by a plain positive count; the
/// result divides the represented value by that count.  Never overflows.
pub fn fx_scale_div(a: i64, d: i64) -> (r: i64)
    requires
        d > 0,
    ensures
        r == tdiv(a as int, d as int),
{
    proof {
        lemma_tdiv_signed_range(a as int, d as int);
    }
    match a.checked_div(d) {
        Some(v) => v,
        None => 0,
    }
}

/// For a divisor `d > 0`, truncating division keeps the sign of the
/// dividend and shrinks its magnitude, so the quotient of an `i64`
/// stays in the `i64` range.
proof fn lemma_tdiv_signed_range(x: int, d: int)
    requires
        d > 0,
        i64::MIN <= x <= i64::MAX,
    ensures
        x >= 0 ==> 0 <= tdiv(x, d) <= x,
        x < 0 ==> x <= tdiv(x, d) <= 0,
        fits(tdiv(x, d)),
{
    if x > 0 {
        lemma_div_nonneg_le(x, d);
    } else if x < 0 {
        lemma_div_nonneg_le(x * -1, d);
    }
}

/// Magnitude of a fixed-point number.
pub fn fx_abs(a: i64) -> (r: Option<i64>)
    ensures
        match r {
            Some(v) => v == abs_val(a as int),
            None => !fits(abs_val(a as int)),
        },
{
    if a == i64::MIN {
        None
    } else if a < 0 {
        Some(-a)
    } else {
        Some(a)
    }
}

/// The absolute value of a mathematical integer.
pub open spec fn abs_val(x: int) -> int {
    if x < 0 {
        -x
    } else {
        x
    }
}

/// Multiplying by a factor no larger than one whole unit cannot grow a
/// number's magnitude, so the product of a representable number and such
/// a factor is itself representable.
pub proof fn lemma_mul_val_shrinks(a: int, b: int)
    requires
        i64::MIN <= a <= i64::MAX,
        0 <= b <= SCALE,
    ensures
        abs_val(mul_val(a, b)) <= abs_val(a),
        fits(mul_val(a, b)),
{
    let p = a * b;
    let aa = abs_val(a);
    assert(aa >= 0 && (a == aa || a == -aa));
    if a >= 0 {
        assert(0 <= p <= aa * (SCALE as int)) by (nonlinear_arith)
            requires
                a == aa,
                aa >= 0,
                0 <= b <= SCALE,
                p == a * b,
        ;
    } else {
        assert(-(aa * (SCALE as int)) <= p <= 0) by (nonlinear_arith)
            requires
                a == -aa,
                aa >= 0,
                0 <= b <= SCALE,
                p == a * b,
        ;
    }
    lemma_tdiv_shrinks_by(p, SCALE as int, aa);
    if p > 0 {
        lemma_div_nonneg_le(p, SCALE as int);
    }
    if p < 0 {
        lemma_div_nonneg_le(p * -1, SCALE as int);
    }
}

/// If `|x| <= m * d` with `d > 0`, then `|tdiv(x, d)| <= m`.
proof fn lemma_tdiv_shrinks_by(x: int, d: int, m: int)
    requires
        d > 0,
        m >= 0,
        abs_val(x) <= m * d,
    ensures
        abs_val(tdiv(x, d)) <= m,
{
    if x == 0 {
    } else if x > 0 {
        assert(0 <= x / d <= m) by (nonlinear_arith)
            requires
                d > 0,
                m >= 0,
                0 < x <= m * d,
        ;
    } else {
        assert(0 <= (x * -1) / d <= m) by (nonlinear_arith)
            requires
                d > 0,
                m >= 0,
                0 < x * -1 <= m * d,
        ;
    }
}

/// For a nonnegative dividend and positive divisor, truncating division
/// stays between zero and the dividend.
pub proof fn lemma_tdiv_bounds(x: int, d: int)
    requires
        x >= 0,
        d > 0,
    ensures
        0 <= tdiv(x, d) <= x,
{
    if x > 0 {
        lemma_div_nonneg_le(x, d);
    }
}

/// A common positive factor of dividend and divisor cancels out of a
/// truncating division.
pub proof fn lemma_tdiv_mul_cancel(z: int, c: int, d: int)
    requires
        c > 0,
        d > 0,
    ensures
        tdiv(c * z, c * d) == tdiv(z, d),
{
    vstd::arithmetic::mul::lemma_mul_strictly_positive(c, d);
    if z == 0 {
        assert(c * z == 0) by (nonlinear_arith)
            requires
                z == 0,
        ;
    } else if z > 0 {
        assert(c * z > 0) by (nonlinear_arith)
            requires
                c > 0,
                z > 0,
        ;
        vstd::arithmetic::div_mod::lemma_div_denominator(c * z, c, d);
        vstd::arithmetic::div_mod::lemma_div_multiples_vanish(z, c);
    } else {
        let w = z * -1;
        assert(c * z < 0 && (c * z) * -1 == c * w && c * w > 0) by (nonlinear_arith)
            requires
                c > 0,
                z < 0,
                w == z * -1,
        ;
        vstd::arithmetic::div_mod::lemma_div_denominator(c * w, c, d);
        vstd::arithmetic::div_mod::lemma_div_multiples_vanish(w, c);
    }
}

/// A fixed-point product of nonnegative factors is nonnegative.
pub proof fn lemma_mul_val_nonneg(a: int, b: int)
    requires
        a >= 0,
        b >= 0,
    ensures
        mul_val(a, b) >= 0,
{
    if a * b == 0 {
    } else {
        assert(a * b > 0) by (nonlinear_arith)
            requires
                a >= 0,
                b >= 0,
                a * b != 0,
        ;
        lemma_div_nonneg_le(a * b, SCALE as int);
    }
}

/// A product of two `i64` values always fits in an `i128`.
proof fn lemma_i64_product_fits_i128(a: int, b: int)
    requires
        i64::MIN <= a <= i64::MAX,
        i64::MIN <= b <= i64::MAX,
    ensures
        i128::MIN <= a * b <= i128::MAX,
        a * b != i128::MIN,
{
    assert(i128::MIN < a * b <= i128::MAX) by (nonlinear_arith)
        requires
            i64::MIN <= a <= i64::MAX,
            i64::MIN <= b <= i64::MAX,
    ;
}

/// Truncating division never grows the magnitude when the divisor is
/// a nonzero integer other than zero's neighbours; in particular the
/// quotient of an `i128` by a nonzero `i128` away from `i128::MIN`
/// stays in range.
pub(crate) proof fn lemma_tdiv_magnitude(x: int, d: int)
    requires
        d != 0,
        i128::MIN < x <= i128::MAX,
    ensures
        abs_val(tdiv(x, d)) <= abs_val(x),
        i128::MIN <= tdiv(x, d) <= i128::MAX,
{
    if x == 0 {
    } else if x > 0 && d > 0 {
        lemma_div_nonneg_le(x, d);
    } else if x < 0 && d < 0 {
        lemma_div_nonneg_le(x * -1, d * -1);
    } else if x < 0 {
        lemma_div_nonneg_le(x * -1, d);
    } else {
        lemma_div_nonneg_le(x, d * -1);
    }
}

/// For nonnegative `n` and positive `d`, `n / d <= n` and `n / d >= 0`.
proof fn lemma_div_nonneg_le(n: int, d: int)
    requires
        n >= 0,
        d > 0,
    ensures
        0 <= n / d <= n,
{
    assert(0 <= n / d <= n) by (nonlinear_arith)
        requires
            n >= 0,
            d > 0,
    ;
}

} // verus!
