//! Fixed-point arithmetic.
//!
//! Every physical quantity in this crate (angles in radians, rates in radians
//! per second, power as a fraction of full power, seconds, metres) is an `i64`
//! counting billionths of its unit. The operations here round toward zero and
//! saturate at the limits of `i64`; none of them can overflow or panic.

use vstd::prelude::*;

verus! {

/// One whole unit.
pub const SCALE: i64 = 1_000_000_000;

/// The nearest value that an `i64` can hold.
pub open spec fn saturate(x: int) -> int {
    if x > i64::MAX {
        i64::MAX as int
    } else if x < i64::MIN {
        i64::MIN as int
    } else {
        x
    }
}

/// Quotient rounded toward zero.
pub open spec fn trunc_div(n: int, d: int) -> int
    recommends
        d != 0,
{
    if n >= 0 && d > 0 {
        n / d
    } else if n < 0 && d > 0 {
        -((-n) / d)
    } else if n >= 0 && d < 0 {
        -(n / (-d))
    } else {
        (-n) / (-d)
    }
}

/// Saturating sum.
pub open spec fn add_spec(a: int, b: int) -> int {
    saturate(a + b)
}

/// Saturating difference.
pub open spec fn sub_spec(a: int, b: int) -> int {
    saturate(a - b)
}

/// Fixed-point product: `a * b / SCALE`, rounded toward zero, saturating.
pub open spec fn mul_spec(a: int, b: int) -> int {
    saturate(trunc_div(a * b, SCALE as int))
}

/// Fixed-point quotient: `a * SCALE / b`, rounded toward zero, saturating.
pub open spec fn div_spec(a: int, b: int) -> int
    recommends
        b != 0,
{
    saturate(trunc_div(a * SCALE, b))
}

/// `x` limited to `[lo, hi]`; the lower limit is tested first.
pub open spec fn clamp_spec(x: int, lo: int, hi: int) -> int {
    if x < lo {
        lo
    } else if x > hi {
        hi
    } else {
        x
    }
}

/// The point of `range_out` that lies where `val` lies in `range_in`.
pub open spec fn map_linear_spec(val: int, range_in: (int, int), range_out: (int, int)) -> int
    recommends
        range_in.0 != range_in.1,
{
    add_spec(
        saturate(
            trunc_div(
                sub_spec(val, range_in.0) * sub_spec(range_out.1, range_out.0),
                sub_spec(range_in.1, range_in.0),
            ),
        ),
        range_out.0,
    )
}

fn narrow(x: i128) -> (r: i64)
    ensures
        r == saturate(x as int),
{
    if x > i64::MAX as i128 {
        i64::MAX
    } else if x < i64::MIN as i128 {
        i64::MIN
    } else {
        x as i64
    }
}

fn div128(n: i128, d: i128) -> (r: i128)
    requires
        d != 0,
        -0x4000_0000_0000_0000_0000_0000_0000_0000 <= n
            <= 0x4000_0000_0000_0000_0000_0000_0000_0000,
    ensures
        r == trunc_div(n as int, d as int),
{
    let q = n.checked_div(d);
    q.unwrap()
}

proof fn lemma_product_fits(a: i64, b: i64)
    ensures
        -0x4000_0000_0000_0000_0000_0000_0000_0000 <= a * b
            <= 0x4000_0000_0000_0000_0000_0000_0000_0000,
{
    assert(-0x4000_0000_0000_0000_0000_0000_0000_0000 <= a * b
        <= 0x4000_0000_0000_0000_0000_0000_0000_0000) by (nonlinear_arith)
        requires
            -0x8000_0000_0000_0000 <= a < 0x8000_0000_0000_0000,
            -0x8000_0000_0000_0000 <= b < 0x8000_0000_0000_0000,
    ;
}

/// Sum, saturating.
pub fn fx_add(a: i64, b: i64) -> (r: i64)
    ensures
        r == add_spec(a as int, b as int),
{
    narrow(a as i128 + b as i128)
}

/// Difference, saturating.
pub fn fx_sub(a: i64, b: i64) -> (r: i64)
    ensures
        r == sub_spec(a as int, b as int),
{
    narrow(a as i128 - b as i128)
}

/// Product of two fixed-point values.
pub fn fx_mul(a: i64, b: i64) -> (r: i64)
    ensures
        r == mul_spec(a as int, b as int),
{
    proof {
        lemma_product_fits(a, b);
    }
    let p: i128 = a as i128 * b as i128;
    narrow(div128(p, SCALE as i128))
}

/// Quotient of two fixed-point values.
pub fn fx_div(a: i64, b: i64) -> (r: i64)
    requires
        b != 0,
    ensures
        r == div_spec(a as int, b as int),
{
    proof {
        lemma_product_fits(a, SCALE);
    }
    let p: i128 = a as i128 * SCALE as i128;
    narrow(div128(p, b as i128))
}

/// The product of two values divided by a third, rounded toward zero,
/// saturating: the product itself is formed exactly.
pub fn fx_mul_div(a: i64, b: i64, d: i64) -> (r: i64)
    requires
        d != 0,
    ensures
        r == saturate(trunc_div(a * b, d as int)),
{
    proof {
        lemma_product_fits(a, b);
    }
    let p: i128 = a as i128 * b as i128;
    narrow(div128(p, d as i128))
}

/// Integer quotient of a fixed-point value by a plain count, rounded toward zero.
pub fn fx_div_int(a: i64, n: i64) -> (r: i64)
    requires
        n != 0,
    ensures
        r == saturate(trunc_div(a as int, n as int)),
{
    narrow(div128(a as i128, n as i128))
}

/// The larger of two values.
pub fn max(a: i64, b: i64) -> (r: i64)
    ensures
        r == (if a > b {
            a
        } else {
            b
        }),
{
    if a > b {
        a
    } else {
        b
    }
}

/// The distance of `x` from zero; the largest value for the one whose
/// distance an `i64` cannot hold.
pub open spec fn abs_spec(x: int) -> int {
    if x < 0 {
        saturate(-x)
    } else {
        x
    }
}

/// The distance of `x` from zero, saturating.
pub fn abs(x: i64) -> (r: i64)
    ensures
        r == abs_spec(x as int),
        r >= 0,
{
    if x < 0 {
        fx_sub(0, x)
    } else {
        x
    }
}

/// Whether `r` is the square root of the fixed-point value `x`, rounded
/// down: the largest `r` whose square does not exceed `x`.
pub open spec fn is_sqrt(x: int, r: int) -> bool {
    &&& r >= 0
    &&& r * r <= x * SCALE
    &&& x * SCALE < (r + 1) * (r + 1)
}

/// The square root of a fixed-point value that is not negative, rounded down.
pub open spec fn sqrt_spec(x: int) -> int
    recommends
        x >= 0,
{
    choose|r: int| is_sqrt(x, r)
}

/// There is only one square root, rounded down.
pub proof fn lemma_sqrt_unique(x: int, r1: int, r2: int)
    requires
        is_sqrt(x, r1),
        is_sqrt(x, r2),
    ensures
        r1 == r2,
{
    if r1 < r2 {
        assert((r1 + 1) * (r1 + 1) <= r2 * r2) by (nonlinear_arith)
            requires
                0 <= r1 + 1 <= r2,
        ;
    } else if r2 < r1 {
        assert((r2 + 1) * (r2 + 1) <= r1 * r1) by (nonlinear_arith)
            requires
                0 <= r2 + 1 <= r1,
        ;
    }
}

/// Square root of a fixed-point value that is not negative, rounded down.
pub fn fx_sqrt(x: i64) -> (r: i64)
    requires
        x >= 0,
    ensures
        is_sqrt(x as int, r as int),
        r == sqrt_spec(x as int),
{
    let n: i128 = x as i128 * SCALE as i128;
    let mut lo: i128 = 0;
    let mut hi: i128 = 0x8000_0000_0000;
    proof {
        assert(n < 0x8000_0000_0000 * 0x8000_0000_0000) by (nonlinear_arith)
            requires
                n == x * 1_000_000_000,
                0 <= x < 0x8000_0000_0000_0000,
        ;
        assert(0 <= n) by (nonlinear_arith)
            requires
                n == x * 1_000_000_000,
                0 <= x,
        ;
    }
    while hi - lo > 1
        invariant
            0 <= lo < hi <= 0x8000_0000_0000,
            lo * lo <= n < hi * hi,
            n == x * SCALE,
        decreases hi - lo,
    {
        let mid: i128 = (lo + hi) / 2;
        proof {
            assert(0 <= mid * mid <= 0x8000_0000_0000 * 0x8000_0000_0000) by (nonlinear_arith)
                requires
                    0 <= mid <= 0x8000_0000_0000,
            ;
        }
        if mid * mid <= n {
            lo = mid;
        } else {
            hi = mid;
        }
    }
    proof {
        assert(is_sqrt(x as int, lo as int));
        lemma_sqrt_unique(x as int, lo as int, sqrt_spec(x as int));
    }
    lo as i64
}

/// Limit `x` to `[lo, hi]`.
pub fn clamp(x: i64, lo: i64, hi: i64) -> (r: i64)
    ensures
        r == clamp_spec(x as int, lo as int, hi as int),
{
    if x < lo {
        lo
    } else if x > hi {
        hi
    } else {
        x
    }
}

/// Map `val` from `range_in` onto `range_out` along the straight line through
/// the two end points. Values outside `range_in` are extrapolated.
pub fn map_linear(val: i64, range_in: (i64, i64), range_out: (i64, i64)) -> (r: i64)
    requires
        range_in.0 != range_in.1,
    ensures
        r == map_linear_spec(
            val as int,
            (range_in.0 as int, range_in.1 as int),
            (range_out.0 as int, range_out.1 as int),
        ),
{
    let offset = fx_sub(val, range_in.0);
    let span_out = fx_sub(range_out.1, range_out.0);
    let span_in = fx_sub(range_in.1, range_in.0);
    proof {
        lemma_product_fits(offset, span_out);
    }
    let p: i128 = offset as i128 * span_out as i128;
    fx_add(narrow(div128(p, span_in as i128)), range_out.0)
}

/// A fixed-point product misses the exact product by less than one part in
/// `SCALE`, and never lies further from zero than it.
pub proof fn lemma_product_rounds_toward_zero(a: int, b: int)
    ensures
        ({
            let q = trunc_div(a * b, SCALE as int);
            &&& a * b >= 0 ==> a * b - SCALE < q * SCALE <= a * b
            &&& a * b <= 0 ==> a * b <= q * SCALE < a * b + SCALE
        }),
{
}

/// Clamping a clamped value changes nothing.
pub proof fn lemma_clamp_idempotent(x: int, lo: int, hi: int)
    requires
        lo <= hi,
    ensures
        clamp_spec(clamp_spec(x, lo, hi), lo, hi) == clamp_spec(x, lo, hi),
        lo <= clamp_spec(x, lo, hi) <= hi,
{
}

/// A map that is given an end point of the input range returns the matching
/// end point of the output range.
pub proof fn lemma_map_linear_end_points(range_in: (i64, i64), range_out: (i64, i64))
    requires
        range_in.0 != range_in.1,
        i64::MIN <= range_in.1 - range_in.0 <= i64::MAX,
        i64::MIN <= range_out.1 - range_out.0 <= i64::MAX,
    ensures
        map_linear_spec(
            range_in.0 as int,
            (range_in.0 as int, range_in.1 as int),
            (range_out.0 as int, range_out.1 as int),
        ) == range_out.0,
        map_linear_spec(
            range_in.1 as int,
            (range_in.0 as int, range_in.1 as int),
            (range_out.0 as int, range_out.1 as int),
        ) == range_out.1,
{
    let d = range_in.1 - range_in.0;
    let s = range_out.1 - range_out.0;
    assert(0 * s == 0);
    assert(trunc_div(0, d) == 0);
    assert(trunc_div(d * s, d) == s) by (nonlinear_arith)
        requires
            d != 0,
    {
        if d > 0 && s >= 0 {
            assert(d * s >= 0);
            assert((d * s) / d == s);
        } else if d > 0 && s < 0 {
            assert(-(d * s) == d * (-s));
            assert((d * (-s)) / d == -s);
            assert(d * s < 0);
        } else if d < 0 && s > 0 {
            assert(d * s == -((-d) * s));
            assert(((-d) * s) / (-d) == s);
            assert(d * s < 0);
        } else if d < 0 && s <= 0 {
            assert(d * s == (-d) * (-s));
            assert(((-d) * (-s)) / (-d) == -s);
            assert(d * s >= 0);
        }
    }
}

} // verus!
