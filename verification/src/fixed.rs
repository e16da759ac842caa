//! Saturating fixed-point arithmetic on `i64` scalars counted in millionths.

use vstd::prelude::*;

verus! {

/// The scalar that stands for 1.
pub const ONE: i64 = 1_000_000;

/// The scalar that stands for 2.
pub const TWO: i64 = 2_000_000;

/// The scalar that stands for 4.
pub const FOUR: i64 = 4_000_000;

/// The scalar that stands for -1.
pub const NEG_ONE: i64 = -1_000_000;

/// The smallest positive scalar; a direction component below it in magnitude
/// counts as zero.
pub const EPSILON: i64 = 1;

/// The offset that keeps a secondary ray off the surface it starts from, and
/// the distance below which a hit is taken for that surface itself.
pub const BIAS: i64 = 1_000;

/// The scalar that plays the part of positive infinity.
pub const INFINITE: i64 = i64::MAX;

/// The scalar that plays the part of negative infinity.
pub const NEG_INFINITE: i64 = i64::MIN;

/// Clamps a mathematical integer into the range of `i64`.
pub open spec fn sat(x: int) -> i64 {
    if x > i64::MAX {
        i64::MAX
    } else if x < i64::MIN {
        i64::MIN
    } else {
        x as i64
    }
}

/// Quotient rounded toward zero. Meaningful for a divisor other than zero.
pub open spec fn tdiv(a: int, b: int) -> int {
    if b > 0 {
        if a >= 0 {
            a / b
        } else {
            -((-a) / b)
        }
    } else {
        if a >= 0 {
            -(a / (-b))
        } else {
            (-a) / (-b)
        }
    }
}

/// The scalar that stands for a small whole number.
pub open spec fn whole(n: int) -> i64 {
    (n * ONE) as i64
}

pub open spec fn sat_add(a: i64, b: i64) -> i64 {
    sat(a + b)
}

pub open spec fn sat_sub(a: i64, b: i64) -> i64 {
    sat(a - b)
}

pub open spec fn sat_neg(a: i64) -> i64 {
    sat(-a)
}

pub open spec fn sat_abs(a: i64) -> i64 {
    if a >= 0 {
        a
    } else {
        sat(-a)
    }
}

/// Fixed-point product: the exact product, scaled back and rounded toward zero.
pub open spec fn sat_mul(a: i64, b: i64) -> i64 {
    sat(tdiv(a * b, ONE as int))
}

/// Fixed-point quotient, rounded toward zero. Meaningful for `b != 0`.
pub open spec fn sat_div(a: i64, b: i64) -> i64 {
    sat(tdiv(a * ONE, b as int))
}

/// `r` is the square root of `n`, rounded down.
pub open spec fn is_int_sqrt(n: int, r: int) -> bool {
    0 <= r && r * r <= n && n < (r + 1) * (r + 1)
}

/// Fixed-point quotient that is 0 where the divisor is 0.
pub open spec fn sat_ratio(a: i64, b: i64) -> i64 {
    if b == 0 {
        0
    } else {
        sat_div(a, b)
    }
}

/// The integer square root: the one `r` with `is_int_sqrt(n, r)`.
pub open spec fn int_sqrt(n: int) -> int {
    choose|r: int| is_int_sqrt(n, r)
}

/// Fixed-point square root, rounded down; zero for a scalar that is not positive.
pub open spec fn sat_sqrt(a: i64) -> i64 {
    if a <= 0 {
        0
    } else {
        int_sqrt(a * ONE) as i64
    }
}

pub open spec fn lesser(a: i64, b: i64) -> i64 {
    if a <= b {
        a
    } else {
        b
    }
}

pub open spec fn greater(a: i64, b: i64) -> i64 {
    if a >= b {
        a
    } else {
        b
    }
}

/// `v` held between `lo` and `hi`; the lower bound wins where they cross.
pub open spec fn clamped(v: i64, lo: i64, hi: i64) -> i64 {
    greater(lo, lesser(hi, v))
}

/// Any `r >= 0` with `r * r <= n < (r + 1) * (r + 1)` is the integer square root of `n`.
pub proof fn lemma_int_sqrt_unique(n: int, r: int)
    requires
        0 <= r,
        r * r <= n,
        n < (r + 1) * (r + 1),
    ensures
        int_sqrt(n) == r,
{
    let s = int_sqrt(n);
    assert(is_int_sqrt(n, r));
    assert(is_int_sqrt(n, s));
    if s < r {
        assert((s + 1) * (s + 1) <= r * r) by (nonlinear_arith)
            requires
                0 <= s,
                s + 1 <= r,
        ;
    } else if r < s {
        assert((r + 1) * (r + 1) <= s * s) by (nonlinear_arith)
            requires
                0 <= r,
                r + 1 <= s,
        ;
    }
}

/// Every number that is not negative has an integer square root.
pub proof fn lemma_int_sqrt_exists(n: int)
    requires
        n >= 0,
    ensures
        is_int_sqrt(n, int_sqrt(n)),
    decreases n,
{
    if n == 0 {
        assert(is_int_sqrt(0, 0));
    } else {
        lemma_int_sqrt_exists(n - 1);
        let r = int_sqrt(n - 1);
        assert(n <= (r + 1) * (r + 1));
        if n < (r + 1) * (r + 1) {
            assert(is_int_sqrt(n, r));
        } else {
            assert((r + 1) * (r + 1) < (r + 2) * (r + 2)) by (nonlinear_arith)
                requires
                    r >= 0,
            ;
            assert(is_int_sqrt(n, r + 1));
        }
    }
}

/// The square root of a positive scalar is not negative, and its square
/// brackets the scalar.
pub proof fn lemma_sat_sqrt_brackets(a: i64)
    requires
        a > 0,
    ensures
        0 <= sat_sqrt(a),
        sat_sqrt(a) * sat_sqrt(a) <= a * ONE,
        a * ONE < (sat_sqrt(a) + 1) * (sat_sqrt(a) + 1),
{
    lemma_int_sqrt_exists(a * ONE);
    let r = int_sqrt(a * ONE);
    assert(r < 0x400_0000_0000) by (nonlinear_arith)
        requires
            r >= 0,
            r * r <= a * 1_000_000,
            a < 0x8000_0000_0000_0000,
    ;
}

/// Multiplying by the scalar of a small whole number multiplies by that number.
pub proof fn lemma_sat_mul_whole(k: int, x: i64)
    requires
        0 <= k <= 1000,
        i64::MIN <= k * x <= i64::MAX,
    ensures
        sat_mul((k * ONE) as i64, x) == k * x,
{
    assert((k * ONE) * x == (k * x) * ONE) by (nonlinear_arith);
    if k * x >= 0 {
        vstd::arithmetic::div_mod::lemma_div_multiples_vanish(k * x, ONE as int);
    } else {
        assert(-((k * x) * ONE) == (-(k * x)) * ONE) by (nonlinear_arith);
        vstd::arithmetic::div_mod::lemma_div_multiples_vanish(-(k * x), ONE as int);
    }
}

/// The truncated quotient grows with the dividend, for a positive divisor.
pub proof fn lemma_tdiv_monotone(a: int, b: int, d: int)
    requires
        a <= b,
        d > 0,
    ensures
        tdiv(a, d) <= tdiv(b, d),
{
    if a >= 0 {
        vstd::arithmetic::div_mod::lemma_div_is_ordered(a, b, d);
    } else if b < 0 {
        vstd::arithmetic::div_mod::lemma_div_is_ordered(-b, -a, d);
    } else {
        vstd::arithmetic::div_mod::lemma_div_pos_is_pos(-a, d);
        vstd::arithmetic::div_mod::lemma_div_pos_is_pos(b, d);
    }
}

/// Negating the dividend or the divisor negates the truncated quotient.
pub proof fn lemma_tdiv_negate(a: int, d: int)
    requires
        d != 0,
    ensures
        tdiv(-a, d) == -tdiv(a, d),
        tdiv(a, -d) == -tdiv(a, d),
{
    if d > 0 {
        vstd::arithmetic::div_mod::lemma_div_basics(d);
    } else {
        vstd::arithmetic::div_mod::lemma_div_basics(-d);
    }
}

/// The fixed-point quotient grows with the dividend for a positive divisor,
/// and shrinks as the dividend grows for a negative one.
pub proof fn lemma_sat_div_monotone(a: i64, b: i64, d: i64)
    requires
        a <= b,
        d != 0,
    ensures
        d > 0 ==> sat_div(a, d) <= sat_div(b, d),
        d < 0 ==> sat_div(a, d) >= sat_div(b, d),
{
    assert(a * ONE <= b * ONE) by (nonlinear_arith)
        requires
            a <= b,
            ONE > 0,
    ;
    if d > 0 {
        lemma_tdiv_monotone(a * ONE, b * ONE, d as int);
    } else {
        lemma_tdiv_negate(a * ONE, d as int);
        lemma_tdiv_negate(b * ONE, d as int);
        lemma_tdiv_monotone(a * ONE, b * ONE, -d);
    }
}

/// Multiplying by 1 changes nothing, and multiplying by 0 gives 0.
pub proof fn lemma_sat_mul_unit(a: i64)
    ensures
        sat_mul(a, ONE) == a,
        sat_mul(ONE, a) == a,
        sat_mul(a, 0) == 0,
        sat_mul(0, a) == 0,
{
    assert(a * ONE == ONE * a) by (nonlinear_arith);
    assert(a * 0 == 0 && 0 * a == 0) by (nonlinear_arith);
    if a >= 0 {
        vstd::arithmetic::div_mod::lemma_div_multiples_vanish(a as int, ONE as int);
    } else {
        assert((-(a * ONE)) == (-a) * ONE) by (nonlinear_arith);
        vstd::arithmetic::div_mod::lemma_div_multiples_vanish(-a, ONE as int);
    }
    assert(tdiv(0, ONE as int) == 0);
}

/// The sign of a fixed-point quotient follows the signs of its operands.
pub proof fn lemma_sat_div_sign(a: i64, d: i64)
    requires
        d != 0,
    ensures
        (a >= 0 && d > 0) || (a <= 0 && d < 0) ==> sat_div(a, d) >= 0,
        (a >= 0 && d < 0) || (a <= 0 && d > 0) ==> sat_div(a, d) <= 0,
{
    if a <= 0 {
        lemma_sat_div_monotone(a, 0, d);
    }
    if a >= 0 {
        lemma_sat_div_monotone(0, a, d);
    }
    assert(0 * ONE == 0);
    if d > 0 {
        vstd::arithmetic::div_mod::lemma_div_basics(d as int);
    } else {
        vstd::arithmetic::div_mod::lemma_div_basics(-d);
    }
    assert(sat_div(0, d) == 0);
}

/// The scalar that stands for a small whole number.
pub(crate) fn to_whole(n: usize) -> (v: i64)
    requires
        n < 1000,
    ensures
        v == whole(n as int),
{
    (n as i64) * 1_000_000
}

pub fn fx_add(a: i64, b: i64) -> (r: i64)
    ensures
        r == sat_add(a, b),
{
    let wide: i128 = a as i128 + b as i128;
    clamp_wide(wide)
}

pub fn fx_sub(a: i64, b: i64) -> (r: i64)
    ensures
        r == sat_sub(a, b),
{
    let wide: i128 = a as i128 - b as i128;
    clamp_wide(wide)
}

pub fn fx_neg(a: i64) -> (r: i64)
    ensures
        r == sat_neg(a),
{
    let wide: i128 = -(a as i128);
    clamp_wide(wide)
}

pub fn fx_abs(a: i64) -> (r: i64)
    ensures
        r == sat_abs(a),
{
    if a >= 0 {
        a
    } else {
        fx_neg(a)
    }
}

pub fn fx_min(a: i64, b: i64) -> (r: i64)
    ensures
        r == lesser(a, b),
{
    if a <= b {
        a
    } else {
        b
    }
}

pub fn fx_max(a: i64, b: i64) -> (r: i64)
    ensures
        r == greater(a, b),
{
    if a >= b {
        a
    } else {
        b
    }
}

pub fn fx_clamp(v: i64, lo: i64, hi: i64) -> (r: i64)
    ensures
        r == clamped(v, lo, hi),
{
    fx_max(lo, fx_min(hi, v))
}

pub fn fx_mul(a: i64, b: i64) -> (r: i64)
    ensures
        r == sat_mul(a, b),
{
    assert(-0x4000_0000_0000_0000_0000_0000_0000_0000 <= a * b
        <= 0x4000_0000_0000_0000_0000_0000_0000_0000) by (nonlinear_arith)
        requires
            -0x8000_0000_0000_0000 <= a <= 0x8000_0000_0000_0000,
            -0x8000_0000_0000_0000 <= b <= 0x8000_0000_0000_0000,
    ;
    let wide: i128 = (a as i128) * (b as i128);
    clamp_wide(div_wide(wide, ONE as i128))
}

pub fn fx_div(a: i64, b: i64) -> (r: i64)
    requires
        b != 0,
    ensures
        r == sat_div(a, b),
{
    let wide: i128 = (a as i128) * 1_000_000;
    assert(wide == a * ONE);
    clamp_wide(div_wide(wide, b as i128))
}

/// Divides where the divisor is not 0, and gives 0 where it is.
pub fn fx_ratio(a: i64, b: i64) -> (r: i64)
    ensures
        r == sat_ratio(a, b),
{
    if b == 0 {
        0
    } else {
        fx_div(a, b)
    }
}

pub fn fx_sqrt(a: i64) -> (r: i64)
    ensures
        r == sat_sqrt(a),
        r >= 0,
        a > 0 ==> r * r <= a * ONE < (r + 1) * (r + 1),
{
    if a <= 0 {
        return 0;
    }
    let n: i128 = (a as i128) * 1_000_000;
    assert(n == a * ONE);
    let mut lo: i128 = 0;
    let mut hi: i128 = 0x400_0000_0000;
    assert(n < hi * hi) by (nonlinear_arith)
        requires
            n < 0x8000_0000_0000_0000 * 1_000_000,
            hi == 0x400_0000_0000,
    ;
    while hi - lo > 1
        invariant
            0 <= lo < hi <= 0x400_0000_0000,
            lo * lo <= n < hi * hi,
        decreases hi - lo,
    {
        let mid: i128 = lo + (hi - lo) / 2;
        assert(mid * mid <= 0x400_0000_0000 * 0x400_0000_0000) by (nonlinear_arith)
            requires
                0 <= mid <= 0x400_0000_0000,
        ;
        if mid * mid <= n {
            lo = mid;
        } else {
            hi = mid;
        }
    }
    proof {
        assert(hi == lo + 1);
        lemma_int_sqrt_unique(n as int, lo as int);
    }
    lo as i64
}

/// Truncated quotient of two wide integers.
fn div_wide(a: i128, b: i128) -> (q: i128)
    requires
        b != 0,
        -0x4000_0000_0000_0000_0000_0000_0000_0000 <= a <= 0x4000_0000_0000_0000_0000_0000_0000_0000,
        -0x4000_0000_0000_0000_0000_0000_0000_0000 <= b <= 0x4000_0000_0000_0000_0000_0000_0000_0000,
    ensures
        q == tdiv(a as int, b as int),
{
    if b > 0 {
        if a >= 0 {
            proof {
                vstd::arithmetic::div_mod::lemma_div_pos_is_pos(a as int, b as int);
                vstd::arithmetic::div_mod::lemma_div_is_ordered_by_denominator(a as int, 1, b as int);
            }
            a / b
        } else {
            proof {
                vstd::arithmetic::div_mod::lemma_div_pos_is_pos(-a as int, b as int);
                vstd::arithmetic::div_mod::lemma_div_is_ordered_by_denominator(-a as int, 1, b as int);
            }
            -((-a) / b)
        }
    } else {
        if a >= 0 {
            proof {
                vstd::arithmetic::div_mod::lemma_div_pos_is_pos(a as int, -b as int);
                vstd::arithmetic::div_mod::lemma_div_is_ordered_by_denominator(a as int, 1, -b as int);
            }
            -(a / (-b))
        } else {
            proof {
                vstd::arithmetic::div_mod::lemma_div_pos_is_pos(-a as int, -b as int);
                vstd::arithmetic::div_mod::lemma_div_is_ordered_by_denominator(-a as int, 1, -b as int);
            }
            (-a) / (-b)
        }
    }
}

/// Clamps a wide integer into `i64`.
fn clamp_wide(x: i128) -> (r: i64)
    ensures
        r == sat(x as int),
{
    if x > i64::MAX as i128 {
        i64::MAX
    } else if x < i64::MIN as i128 {
        i64::MIN
    } else {
        x as i64
    }
}

} // verus!
