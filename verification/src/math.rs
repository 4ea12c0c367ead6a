use vstd::prelude::*;

verus! {

/// Fixed-point scale: one unit is 1e-9, so a value `v` stands for the real
/// number `v / SCALE`. Nine decimal places cover every tolerance the
/// calculations use (the solver tolerance 1e-6, the rounding unit 1e-3).
pub const SCALE: i64 = 1_000_000_000;

/// Largest magnitude a fixed-point value may take (1e9 in real units).
/// Every arithmetic helper saturates here, which keeps all operations total.
pub const FX_MAX: i64 = 1_000_000_000_000_000_000;

/// Rounding division for a positive divisor: nearest integer, halves away
/// from zero.
pub open spec fn rdiv(a: int, b: int) -> int
    recommends
        b >= 1,
{
    if a >= 0 {
        (a + b / 2) / b
    } else {
        -((-a + b / 2) / b)
    }
}

/// Rounding division for any divisor; division by zero yields zero.
pub open spec fn rdiv_any(a: int, b: int) -> int {
    if b > 0 {
        rdiv(a, b)
    } else if b < 0 {
        rdiv(-a, -b)
    } else {
        0
    }
}

/// Saturate a mathematical value into the representable fixed-point range.
pub open spec fn sat_fx(v: int) -> int {
    if v > FX_MAX {
        FX_MAX as int
    } else if v < -FX_MAX {
        -(FX_MAX as int)
    } else {
        v
    }
}

/// Fixed-point product: `a * b / SCALE`, rounded to nearest and saturated.
pub open spec fn fx_mul_spec(a: int, b: int) -> int {
    sat_fx(rdiv(a * b, SCALE as int))
}

/// Fixed-point quotient: `a / b * SCALE`, rounded to nearest and saturated;
/// zero when the divisor is zero.
pub open spec fn fx_div_spec(a: int, b: int) -> int {
    sat_fx(rdiv_any(a * SCALE, b))
}

/// Saturating fixed-point sum.
pub open spec fn fx_add_spec(a: int, b: int) -> int {
    sat_fx(a + b)
}

/// Rounding division on wide integers. The bounds keep `a + b / 2` inside
/// the machine range; every caller stays far below them.
pub(crate) fn rdiv128(a: i128, b: i128) -> (r: i128)
    requires
        1 <= b <= 0x4000_0000_0000_0000_0000_0000_0000_0000i128,
        -0x4000_0000_0000_0000_0000_0000_0000_0000i128 <= a
            <= 0x4000_0000_0000_0000_0000_0000_0000_0000i128,
    ensures
        r as int == rdiv(a as int, b as int),
{
    if a >= 0 {
        (a + b / 2) / b
    } else {
        -((-a + b / 2) / b)
    }
}

/// Saturate a wide intermediate into the fixed-point range.
pub(crate) fn sat_to_i64(v: i128) -> (r: i64)
    ensures
        r as int == sat_fx(v as int),
{
    if v > FX_MAX as i128 {
        FX_MAX
    } else if v < -(FX_MAX as i128) {
        -FX_MAX
    } else {
        v as i64
    }
}

proof fn lemma_mul_i64_fits_i128(a: int, b: int)
    by (nonlinear_arith)
    requires
        -0x8000_0000_0000_0000 <= a <= 0x8000_0000_0000_0000,
        -0x8000_0000_0000_0000 <= b <= 0x8000_0000_0000_0000,
    ensures
        -0x4000_0000_0000_0000_0000_0000_0000_0000 <= a * b
            <= 0x4000_0000_0000_0000_0000_0000_0000_0000,
{
}

/// Fixed-point multiplication of two values.
pub fn fx_mul(a: i64, b: i64) -> (r: i64)
    ensures
        r as int == fx_mul_spec(a as int, b as int),
{
    proof {
        lemma_mul_i64_fits_i128(a as int, b as int);
    }
    let p: i128 = (a as i128) * (b as i128);
    sat_to_i64(rdiv128(p, SCALE as i128))
}

/// Fixed-point division of two values; zero when the divisor is zero.
pub fn fx_div(a: i64, b: i64) -> (r: i64)
    ensures
        r as int == fx_div_spec(a as int, b as int),
{
    if b == 0 {
        return 0;
    }
    proof {
        lemma_mul_i64_fits_i128(a as int, SCALE as int);
    }
    let mut p: i128 = (a as i128) * (SCALE as i128);
    let mut q: i128 = b as i128;
    if q < 0 {
        p = -p;
        q = -q;
    }
    sat_to_i64(rdiv128(p, q))
}

/// Saturating addition of two fixed-point values.
pub fn fx_add(a: i64, b: i64) -> (r: i64)
    ensures
        r as int == fx_add_spec(a as int, b as int),
{
    sat_to_i64((a as i128) + (b as i128))
}

} // verus!

verus! {

use vstd::arithmetic::div_mod::{
    lemma_div_pos_is_pos, lemma_div_decreases, lemma_basic_div, lemma_div_is_ordered,
    lemma_multiply_divide_lt, lemma_mod_bound,
};
use vstd::arithmetic::mul::lemma_mul_nonnegative;

/// Euler's number in fixed point.
pub const E_FX: i64 = 2_718_281_828;

/// The natural logarithm of ten in fixed point.
pub const LN10_FX: i64 = 2_302_585_093;

/// Largest argument the fixed-point exponential distinguishes; beyond it the
/// result saturates (`exp(41)` already exceeds the representable range).
pub const EXP_ARG_MAX: i64 = 41_000_000_000;

/// Number of Taylor terms used for the fractional part of the exponential.
pub const EXP_TERMS: u32 = 15;

proof fn lemma_half_lt(b: int)
    requires
        1 <= b,
    ensures
        0 <= b / 2 < b,
{
    lemma_div_pos_is_pos(b, 2);
    if b == 1 {
        lemma_basic_div(b, 2);
    } else {
        lemma_div_decreases(b, 2);
    }
}

/// Rounding division never grows the magnitude of a non-negative dividend.
pub proof fn lemma_rdiv_le(a: int, b: int)
    requires
        0 <= a,
        1 <= b,
    ensures
        0 <= rdiv(a, b) <= a,
{
    lemma_half_lt(b);
    lemma_div_pos_is_pos(a + b / 2, b);
    if a == 0 {
        lemma_basic_div(b / 2, b);
    } else {
        assert(b * (a + 1) == b * a + b) by (nonlinear_arith);
        assert(b * a >= a) by (nonlinear_arith)
            requires
                1 <= b,
                0 <= a,
        ;
        lemma_multiply_divide_lt(a + b / 2, b, a + 1);
    }
}

/// Rounding division is monotone in a non-negative dividend.
pub proof fn lemma_rdiv_ordered(a1: int, a2: int, b: int)
    requires
        0 <= a1 <= a2,
        1 <= b,
    ensures
        rdiv(a1, b) <= rdiv(a2, b),
{
    lemma_div_is_ordered(a1 + b / 2, a2 + b / 2, b);
}

/// Powers of ten, used to express decimal rounding.
pub open spec fn pow10_int(n: nat) -> int
    decreases n,
{
    if n == 0 {
        1
    } else {
        10 * pow10_int((n - 1) as nat)
    }
}

/// Rounding a fixed-point value to `decimals` decimal places.
pub open spec fn round_spec(v: int, decimals: nat) -> int {
    if decimals >= 9 {
        v
    } else {
        let f = pow10_int((9 - decimals) as nat);
        sat_fx(rdiv(v, f) * f)
    }
}

/// Rounding to three decimal places, the library's reporting precision.
pub open spec fn round3_spec(v: int) -> int {
    round_spec(v, 3)
}

/// The concrete values of the small powers of ten.
proof fn lemma_pow10_values()
    ensures
        pow10_int(0) == 1,
        pow10_int(1) == 10,
        pow10_int(2) == 100,
        pow10_int(3) == 1000,
        pow10_int(4) == 10000,
        pow10_int(5) == 100000,
        pow10_int(6) == 1000000,
        pow10_int(7) == 10000000,
        pow10_int(8) == 100000000,
        pow10_int(9) == 1000000000,
{
    assert(pow10_int(0) == 1);
    assert(pow10_int(1) == 10);
    assert(pow10_int(2) == 100);
    assert(pow10_int(3) == 1000);
    assert(pow10_int(4) == 10000);
    assert(pow10_int(5) == 100000);
    assert(pow10_int(6) == 1000000);
    assert(pow10_int(7) == 10000000);
    assert(pow10_int(8) == 100000000);
    assert(pow10_int(9) == 1000000000);
}

fn pow10_small(k: u32) -> (f: i64)
    requires
        1 <= k <= 9,
    ensures
        f as int == pow10_int(k as nat),
        1 <= f <= 1_000_000_000,
{
    proof {
        lemma_pow10_values();
    }
    if k == 1 {
        10
    } else if k == 2 {
        100
    } else if k == 3 {
        1_000
    } else if k == 4 {
        10_000
    } else if k == 5 {
        100_000
    } else if k == 6 {
        1_000_000
    } else if k == 7 {
        10_000_000
    } else if k == 8 {
        100_000_000
    } else {
        1_000_000_000
    }
}

/// Round a fixed-point value to the given number of decimal places
/// (half away from zero), saturating at the representable range.
pub fn round(value: i64, decimals: u32) -> (r: i64)
    ensures
        r as int == round_spec(value as int, decimals as nat),
{
    if decimals >= 9 {
        return value;
    }
    let f = pow10_small(9 - decimals);
    let q: i128 = rdiv128(value as i128, f as i128);
    proof {
        lemma_rdiv_abs(value as int, f as int);
        lemma_mul_i64_fits_i128(q as int, f as int);
    }
    sat_to_i64(q * (f as i128))
}

/// Rounding division keeps the magnitude of the dividend, whatever its sign.
pub proof fn lemma_rdiv_abs(a: int, b: int)
    requires
        1 <= b,
    ensures
        a >= 0 ==> 0 <= rdiv(a, b) <= a,
        a < 0 ==> a <= rdiv(a, b) <= 0,
{
    if a >= 0 {
        lemma_rdiv_le(a, b);
    } else {
        lemma_rdiv_le(-a, b);
    }
}

/// Round a fixed-point value to three decimal places.
pub fn round3(value: i64) -> (r: i64)
    ensures
        r as int == round3_spec(value as int),
{
    round(value, 3)
}

/// Linear interpolation through the points `(x1, y1)` and `(x2, y2)`,
/// evaluated at `x`; `y1` when the two points share an abscissa.
pub open spec fn interpolate_spec(x1: int, y1: int, x2: int, y2: int, x: int) -> int {
    if x2 == x1 {
        y1
    } else {
        sat_fx(y1 + rdiv_any((y2 - y1) * (x - x1), x2 - x1))
    }
}

/// Linear interpolation between two points of the fixed-point plane.
pub fn interpolate(x1: i64, y1: i64, x2: i64, y2: i64, x: i64) -> (r: i64)
    requires
        -FX_MAX <= x1 <= FX_MAX,
        -FX_MAX <= y1 <= FX_MAX,
        -FX_MAX <= x2 <= FX_MAX,
        -FX_MAX <= y2 <= FX_MAX,
        -FX_MAX <= x <= FX_MAX,
    ensures
        r as int == interpolate_spec(x1 as int, y1 as int, x2 as int, y2 as int, x as int),
{
    if x2 == x1 {
        return y1;
    }
    let dy: i64 = y2 - y1;
    let dx: i64 = x - x1;
    proof {
        lemma_mul_i64_fits_i128(dy as int, dx as int);
    }
    let mut p: i128 = (dy as i128) * (dx as i128);
    let mut d: i128 = (x2 as i128) - (x1 as i128);
    if d < 0 {
        p = -p;
        d = -d;
    }
    let q = rdiv128(p, d);
    sat_to_i64((y1 as i128) + q)
}

} // verus!

verus! {

/// `e^n` for a whole number of units, computed by repeated fixed-point
/// multiplication by `E_FX`.
pub open spec fn exp_int_part(n: nat) -> int
    decreases n,
{
    if n == 0 {
        SCALE as int
    } else {
        sat_fx(rdiv(exp_int_part((n - 1) as nat) * E_FX, SCALE as int))
    }
}

/// Taylor term `f^j / j!` in fixed point, with each step rounded.
pub open spec fn exp_taylor_term(f: int, j: nat) -> int
    decreases j,
{
    if j == 0 {
        SCALE as int
    } else {
        sat_fx(rdiv(exp_taylor_term(f, (j - 1) as nat) * f, SCALE * j))
    }
}

/// Partial Taylor sum of `e^f` up to term `j`.
pub open spec fn exp_taylor_sum(f: int, j: nat) -> int
    decreases j,
{
    if j == 0 {
        exp_taylor_term(f, 0)
    } else {
        sat_fx(exp_taylor_sum(f, (j - 1) as nat) + exp_taylor_term(f, j))
    }
}

/// `e^x` for a non-negative fixed-point argument: the whole part by repeated
/// multiplication, the fractional part by the Taylor series.
pub open spec fn exp_pos_spec(x: int) -> int
    recommends
        0 <= x,
{
    fx_mul_spec(
        exp_int_part((x / (SCALE as int)) as nat),
        exp_taylor_sum(x % (SCALE as int), EXP_TERMS as nat),
    )
}

/// The fixed-point exponential, total on all of `i64`: saturated above
/// `EXP_ARG_MAX`, zero below `-EXP_ARG_MAX`, the reciprocal for other
/// negative arguments.
pub open spec fn exp_fx_spec(x: int) -> int {
    if x >= 0 {
        if x > EXP_ARG_MAX {
            exp_pos_spec(EXP_ARG_MAX as int)
        } else {
            exp_pos_spec(x)
        }
    } else if x < -EXP_ARG_MAX {
        0
    } else {
        sat_fx(rdiv(SCALE * SCALE, exp_pos_spec(-x)))
    }
}

proof fn lemma_exp_int_part_bounds(n: nat)
    ensures
        SCALE <= exp_int_part(n) <= FX_MAX,
    decreases n,
{
    if n != 0 {
        lemma_exp_int_part_bounds((n - 1) as nat);
        let v = exp_int_part((n - 1) as nat);
        assert(v * E_FX >= SCALE * E_FX) by (nonlinear_arith)
            requires
                SCALE <= v,
        ;
        assert(SCALE * E_FX == E_FX * SCALE) by (nonlinear_arith);
        lemma_rdiv_exact(E_FX as int, SCALE as int);
        lemma_rdiv_ordered(E_FX * SCALE, v * E_FX, SCALE as int);
    }
}

proof fn lemma_taylor_term_bounds(f: int, j: nat)
    requires
        0 <= f,
    ensures
        0 <= exp_taylor_term(f, j) <= FX_MAX,
    decreases j,
{
    if j != 0 {
        lemma_taylor_term_bounds(f, (j - 1) as nat);
        let t = exp_taylor_term(f, (j - 1) as nat);
        lemma_mul_nonnegative(t, f);
        assert(SCALE * j >= 1) by (nonlinear_arith)
            requires
                j >= 1,
        ;
        lemma_rdiv_le(t * f, SCALE * j);
    }
}

proof fn lemma_taylor_sum_bounds(f: int, j: nat)
    requires
        0 <= f,
    ensures
        SCALE <= exp_taylor_sum(f, j) <= FX_MAX,
    decreases j,
{
    if j != 0 {
        lemma_taylor_sum_bounds(f, (j - 1) as nat);
        lemma_taylor_term_bounds(f, j);
    }
}

/// The exponential of a non-negative argument is at least one (in fixed
/// point: at least `SCALE`).
pub proof fn lemma_exp_pos_bounds(x: int)
    requires
        0 <= x,
    ensures
        SCALE <= exp_pos_spec(x) <= FX_MAX,
{
    let n = (x / (SCALE as int)) as nat;
    let f = x % (SCALE as int);
    lemma_div_pos_is_pos(x, SCALE as int);
    lemma_mod_bound(x, SCALE as int);
    lemma_exp_int_part_bounds(n);
    lemma_taylor_sum_bounds(f, EXP_TERMS as nat);
    let a = exp_int_part(n);
    let s = exp_taylor_sum(f, EXP_TERMS as nat);
    assert(a * s >= SCALE * SCALE) by (nonlinear_arith)
        requires
            a >= SCALE,
            s >= SCALE,
    ;
    lemma_rdiv_exact(SCALE as int, SCALE as int);
    lemma_rdiv_ordered(SCALE * SCALE, a * s, SCALE as int);
}

/// The exponential of a non-positive argument is at most one (in fixed
/// point: at most `SCALE`).
pub proof fn lemma_exp_nonpos_le_one(x: int)
    requires
        x <= 0,
    ensures
        0 <= exp_fx_spec(x) <= SCALE,
{
    if x == 0 {
        lemma_exp_zero();
    } else if x < -EXP_ARG_MAX {
    } else {
        lemma_exp_pos_bounds(-x);
        let e = exp_pos_spec(-x);
        assert((SCALE + 1) * e == SCALE * e + e) by (nonlinear_arith);
        assert(SCALE * SCALE <= SCALE * e) by (nonlinear_arith)
            requires
                SCALE <= e,
        ;
        lemma_half_lt(e);
        assert(SCALE * SCALE + e / 2 < (SCALE + 1) * e);
        assert((SCALE + 1) * e == e * (SCALE + 1)) by (nonlinear_arith);
        lemma_multiply_divide_lt(SCALE * SCALE + e / 2, e, SCALE + 1);
        lemma_rdiv_le(SCALE * SCALE, e);
    }
}

fn exp_pos(x: i64) -> (r: i64)
    requires
        0 <= x <= EXP_ARG_MAX,
    ensures
        r as int == exp_pos_spec(x as int),
        1 <= r <= FX_MAX,
{
    let n: i64 = x / SCALE;
    let f: i64 = x % SCALE;
    let mut acc: i64 = SCALE;
    let mut i: i64 = 0;
    while i < n
        invariant
            0 <= i <= n <= 41,
            acc as int == exp_int_part(i as nat),
            1 <= acc <= FX_MAX,
        decreases n - i,
    {
        proof {
            lemma_mul_i64_fits_i128(acc as int, E_FX as int);
            lemma_exp_int_part_bounds((i + 1) as nat);
        }
        let p: i128 = (acc as i128) * (E_FX as i128);
        acc = sat_to_i64(rdiv128(p, SCALE as i128));
        i = i + 1;
    }
    let mut term: i64 = SCALE;
    let mut sum: i64 = SCALE;
    let mut j: u32 = 1;
    while j <= EXP_TERMS
        invariant
            1 <= j <= EXP_TERMS + 1,
            0 <= f < SCALE,
            term as int == exp_taylor_term(f as int, (j - 1) as nat),
            sum as int == exp_taylor_sum(f as int, (j - 1) as nat),
            -FX_MAX <= term <= FX_MAX,
            -FX_MAX <= sum <= FX_MAX,
        decreases EXP_TERMS + 1 - j,
    {
        proof {
            lemma_mul_i64_fits_i128(term as int, f as int);
            assert(1 <= SCALE * (j as int) <= 16_000_000_000) by (nonlinear_arith)
                requires
                    1 <= j <= 16,
            ;
        }
        let p: i128 = (term as i128) * (f as i128);
        let d: i128 = (SCALE as i128) * (j as i128);
        term = sat_to_i64(rdiv128(p, d));
        sum = fx_add(sum, term);
        j = j + 1;
    }
    proof {
        lemma_exp_pos_bounds(x as int);
    }
    fx_mul(acc, sum)
}

/// The fixed-point exponential.
pub fn exp_fx(x: i64) -> (r: i64)
    ensures
        r as int == exp_fx_spec(x as int),
        0 <= r <= FX_MAX,
{
    if x >= 0 {
        if x > EXP_ARG_MAX {
            exp_pos(EXP_ARG_MAX)
        } else {
            exp_pos(x)
        }
    } else if x < -EXP_ARG_MAX {
        0
    } else {
        let e = exp_pos(-x);
        let num: i128 = (SCALE as i128) * (SCALE as i128);
        let q = rdiv128(num, e as i128);
        sat_to_i64(q)
    }
}

/// `10^x` in fixed point, via `10^x = e^(x * ln 10)`.
pub open spec fn pow10_fx_spec(x: int) -> int {
    exp_fx_spec(fx_mul_spec(x, LN10_FX as int))
}

/// The fixed-point power of ten.
pub fn pow10_fx(x: i64) -> (r: i64)
    ensures
        r as int == pow10_fx_spec(x as int),
        0 <= r <= FX_MAX,
{
    let y = fx_mul(x, LN10_FX);
    exp_fx(y)
}

/// The exponential of zero is exactly one: the law behind the estimator's
/// zero-length-interval identity.
pub proof fn lemma_exp_zero()
    ensures
        exp_fx_spec(0) == SCALE,
{
    lemma_basic_div(0, SCALE as int);
    vstd::arithmetic::div_mod::lemma_small_mod(0, SCALE as nat);
    lemma_taylor_sum_zero(EXP_TERMS as nat);
    assert(exp_pos_spec(0) == fx_mul_spec(SCALE as int, SCALE as int));
    lemma_rdiv_le(0, SCALE as int);
    assert(rdiv(SCALE * SCALE, SCALE as int) == SCALE);
}

proof fn lemma_taylor_term_zero(j: nat)
    requires
        j >= 1,
    ensures
        exp_taylor_term(0, j) == 0,
    decreases j,
{
    if j == 1 {
        lemma_rdiv_le(0, SCALE * 1);
    } else {
        lemma_taylor_term_zero((j - 1) as nat);
        assert(SCALE * j >= 1) by (nonlinear_arith)
            requires
                j >= 1,
        ;
        lemma_rdiv_le(0, SCALE * j);
    }
}

proof fn lemma_taylor_sum_zero(j: nat)
    ensures
        exp_taylor_sum(0, j) == SCALE,
    decreases j,
{
    if j != 0 {
        lemma_taylor_sum_zero((j - 1) as nat);
        lemma_taylor_term_zero(j);
    }
}

/// Multiplying a fixed-point value by the unit `SCALE` returns it unchanged.
pub proof fn lemma_fx_mul_unit(m: int)
    requires
        -FX_MAX <= m <= FX_MAX,
    ensures
        fx_mul_spec(m, SCALE as int) == m,
{
    if m >= 0 {
        lemma_rdiv_unit(m);
    } else {
        lemma_rdiv_unit(-m);
        assert(m * SCALE == -((-m) * SCALE)) by (nonlinear_arith);
    }
}

proof fn lemma_rdiv_unit(m: int)
    requires
        0 <= m,
    ensures
        rdiv(m * SCALE, SCALE as int) == m,
{
    vstd::arithmetic::div_mod::lemma_div_multiples_vanish_fancy(m, (SCALE / 2) as int, SCALE as int);
    assert(m * SCALE == SCALE * m) by (nonlinear_arith);
}

} // verus!

verus! {

/// Saturating fixed-point difference.
pub open spec fn fx_sub_spec(a: int, b: int) -> int {
    sat_fx(a - b)
}

/// Saturating subtraction of two fixed-point values.
pub fn fx_sub(a: i64, b: i64) -> (r: i64)
    ensures
        r as int == fx_sub_spec(a as int, b as int),
{
    sat_to_i64((a as i128) - (b as i128))
}

/// Saturate a value already held in a machine word.
pub fn sat64(v: i64) -> (r: i64)
    ensures
        r as int == sat_fx(v as int),
{
    if v > FX_MAX {
        FX_MAX
    } else if v < -FX_MAX {
        -FX_MAX
    } else {
        v
    }
}

/// Rounding division is exact on multiples of the divisor.
pub proof fn lemma_rdiv_exact(k: int, m: int)
    requires
        1 <= m,
    ensures
        rdiv(k * m, m) == k,
{
    lemma_half_lt(m);
    if k >= 0 {
        vstd::arithmetic::div_mod::lemma_div_multiples_vanish_fancy(k, m / 2, m);
        assert(k * m == m * k) by (nonlinear_arith);
        assert(k * m >= 0) by (nonlinear_arith)
            requires
                k >= 0,
                m >= 1,
        ;
    } else {
        vstd::arithmetic::div_mod::lemma_div_multiples_vanish_fancy(-k, m / 2, m);
        assert(-(k * m) == m * (-k)) by (nonlinear_arith);
        assert(k * m < 0) by (nonlinear_arith)
            requires
                k < 0,
                m >= 1,
        ;
    }
}

/// Rounding division of zero is zero.
pub proof fn lemma_rdiv_zero(b: int)
    requires
        1 <= b,
    ensures
        rdiv(0, b) == 0,
{
    lemma_rdiv_le(0, b);
}

/// Rounding a non-negative value keeps it non-negative, and rounding to
/// three decimals moves a value by less than half the rounding unit.
pub proof fn lemma_round3_nonneg(v: int)
    requires
        0 <= v,
    ensures
        0 <= round3_spec(v),
{
    lemma_pow10_values();
    lemma_rdiv_le(v, pow10_int(6));
    lemma_mul_nonnegative(rdiv(v, pow10_int(6)), pow10_int(6));
}

} // verus!

verus! {

/// A fixed-point product of non-negatives is non-negative.
pub proof fn lemma_fx_mul_nonneg(a: int, b: int)
    requires
        0 <= a,
        0 <= b,
    ensures
        0 <= fx_mul_spec(a, b) <= FX_MAX,
{
    lemma_mul_nonnegative(a, b);
    lemma_rdiv_le(a * b, SCALE as int);
}

/// A fixed-point quotient of a non-negative by a positive is non-negative.
pub proof fn lemma_fx_div_nonneg(a: int, b: int)
    requires
        0 <= a,
        0 < b,
    ensures
        0 <= fx_div_spec(a, b) <= FX_MAX,
{
    lemma_mul_nonnegative(a, SCALE as int);
    lemma_rdiv_le(a * SCALE, b);
}

} // verus!
