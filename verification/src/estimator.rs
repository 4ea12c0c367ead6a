use vstd::prelude::*;

verus! {

use crate::calculations::CalculationService;
use crate::data::{entries_view, ColumnEntry, EntryView};
use crate::math::{
    exp_fx, exp_fx_spec, fx_add, fx_add_spec, fx_div, fx_div_spec, fx_mul, fx_mul_spec, fx_sub,
    fx_sub_spec, lemma_exp_nonpos_le_one, lemma_exp_zero, lemma_fx_mul_nonneg, lemma_fx_mul_unit,
    lemma_rdiv_abs, lemma_rdiv_exact, lemma_rdiv_le, lemma_rdiv_ordered, lemma_rdiv_zero,
    rdiv128, rdiv_any, sat_fx, sat_to_i64, FX_MAX, SCALE,
};
use vstd::arithmetic::mul::lemma_mul_nonnegative;

/// One half, in fixed point.
pub const HALF_FX: i64 = 500_000_000;

/// Default number of subintervals of the Rayleigh integration.
pub const RESOLUTION_DEFAULT: u32 = 1000;

/// Integrand of the Rayleigh mass balance, `1 / (x_d - x)`, guarded: zero
/// when distillate and bottoms compositions coincide, so the singularity
/// never produces an undefined value.
pub open spec fn integrand_spec(x: int, x_d: int) -> int {
    let d = fx_sub_spec(x_d, x);
    if d == 0 {
        0
    } else {
        fx_div_spec(SCALE as int, d)
    }
}

/// The guarded Rayleigh integrand.
pub fn rayleigh_integrand(x: i64, x_d: i64) -> (r: i64)
    ensures
        r as int == integrand_spec(x as int, x_d as int),
        fx_sub_spec(x_d as int, x as int) == 0 ==> r == 0,
{
    let d = fx_sub(x_d, x);
    if d == 0 {
        0
    } else {
        fx_div(SCALE, d)
    }
}

/// Grid point `i` of `resolution` equal subintervals from `xb0` to `xbf`.
pub open spec fn grid_spec(xb0: int, xbf: int, resolution: int, i: int) -> int
    recommends
        1 <= resolution,
{
    sat_fx(xb0 + rdiv_any((xbf - xb0) * i, resolution))
}

fn grid_point(xb0: i64, xbf: i64, resolution: u32, i: u32) -> (r: i64)
    requires
        1 <= resolution,
    ensures
        r as int == grid_spec(xb0 as int, xbf as int, resolution as int, i as int),
{
    let d: i128 = (xbf as i128) - (xb0 as i128);
    proof {
        assert(-0x4000_0000_0000_0000_0000_0000_0000_0000 <= (xbf as int - xb0 as int) * (
        i as int) <= 0x4000_0000_0000_0000_0000_0000_0000_0000) by (nonlinear_arith)
            requires
                -0x2_0000_0000_0000_0000 <= xbf as int - xb0 as int <= 0x2_0000_0000_0000_0000,
                0 <= i as int <= 0x1_0000_0000,
        ;
    }
    let p: i128 = d * (i as i128);
    let q: i128 = rdiv128_any(p, resolution as i128);
    proof {
        lemma_rdiv_abs(p as int, resolution as int);
    }
    sat_to_i64((xb0 as i128) + q)
}

/// Rounding division on wide integers for either sign of the numerator.
fn rdiv128_any(a: i128, b: i128) -> (r: i128)
    requires
        1 <= b <= 0x4000_0000_0000_0000_0000_0000_0000_0000i128,
        -0x4000_0000_0000_0000_0000_0000_0000_0000i128 <= a
            <= 0x4000_0000_0000_0000_0000_0000_0000_0000i128,
    ensures
        r as int == rdiv_any(a as int, b as int),
{
    rdiv128(a, b)
}

/// One trapezoid of the composite rule: mean of the guarded integrand at
/// the two ends of subinterval `i`, times its width.
pub open spec fn trap_term_spec(xb0: int, xbf: int, x_d: int, resolution: int, i: int) -> int {
    let xa = grid_spec(xb0, xbf, resolution, i);
    let xb = grid_spec(xb0, xbf, resolution, i + 1);
    fx_mul_spec(
        fx_mul_spec(HALF_FX as int, fx_add_spec(integrand_spec(xa, x_d), integrand_spec(xb, x_d))),
        fx_sub_spec(xb, xa),
    )
}

/// The composite trapezoidal sum over the first `k` subintervals.
pub open spec fn trap_sum_spec(xb0: int, xbf: int, x_d: int, resolution: int, k: nat) -> int
    decreases k,
{
    if k == 0 {
        0
    } else {
        fx_add_spec(
            trap_sum_spec(xb0, xbf, x_d, resolution, (k - 1) as nat),
            trap_term_spec(xb0, xbf, x_d, resolution, k as int - 1),
        )
    }
}

/// What `estimate_remaining_mass` returns: the initial mass scaled by the
/// exponential of the trapezoidal Rayleigh integral.
pub open spec fn estimate_spec(
    initial_mass: int,
    xb0: int,
    xbf: int,
    x_d: int,
    resolution: int,
) -> int {
    fx_mul_spec(initial_mass, exp_fx_spec(trap_sum_spec(xb0, xbf, x_d, resolution, resolution as nat)))
}

proof fn lemma_grid_const(xb0: int, resolution: int, i: int)
    requires
        -FX_MAX <= xb0 <= FX_MAX,
        1 <= resolution,
    ensures
        grid_spec(xb0, xb0, resolution, i) == xb0,
{
    assert((xb0 - xb0) * i == 0) by (nonlinear_arith);
    lemma_rdiv_zero(resolution);
}

proof fn lemma_trap_sum_const(xb0: int, x_d: int, resolution: int, k: nat)
    requires
        -FX_MAX <= xb0 <= FX_MAX,
        1 <= resolution,
    ensures
        trap_sum_spec(xb0, xb0, x_d, resolution, k) == 0,
    decreases k,
{
    if k != 0 {
        lemma_trap_sum_const(xb0, x_d, resolution, (k - 1) as nat);
        lemma_grid_const(xb0, resolution, k as int - 1);
        lemma_grid_const(xb0, resolution, k as int);
        let f = fx_mul_spec(
            HALF_FX as int,
            fx_add_spec(integrand_spec(xb0, x_d), integrand_spec(xb0, x_d)),
        );
        assert(f * 0 == 0) by (nonlinear_arith);
        lemma_rdiv_zero(SCALE as int);
    }
}

/// The estimator is exact on a zero-length integration interval: with equal
/// initial and current bottoms compositions the integral is zero and the
/// initial mass comes back unchanged.
pub proof fn lemma_estimate_zero_interval(
    initial_mass: int,
    xb0: int,
    x_d: int,
    resolution: int,
)
    requires
        -FX_MAX <= initial_mass <= FX_MAX,
        -FX_MAX <= xb0 <= FX_MAX,
        1 <= resolution,
    ensures
        estimate_spec(initial_mass, xb0, xb0, x_d, resolution) == initial_mass,
{
    lemma_trap_sum_const(xb0, x_d, resolution, resolution as nat);
    lemma_exp_zero();
    lemma_fx_mul_unit(initial_mass);
}

/// The estimate is bounded above by the charge: with a non-negative
/// initial mass and a non-positive integral — the physical batch case,
/// where the distillate is richer than the bottoms along the whole
/// integration path — the remaining mass never exceeds the initial mass.
pub proof fn lemma_estimate_bounded(
    initial_mass: int,
    xb0: int,
    xbf: int,
    x_d: int,
    resolution: int,
)
    requires
        0 <= initial_mass <= FX_MAX,
        1 <= resolution,
        trap_sum_spec(xb0, xbf, x_d, resolution, resolution as nat) <= 0,
    ensures
        0 <= estimate_spec(initial_mass, xb0, xbf, x_d, resolution) <= initial_mass,
{
    let sum = trap_sum_spec(xb0, xbf, x_d, resolution, resolution as nat);
    lemma_exp_nonpos_le_one(sum);
    let e = exp_fx_spec(sum);
    lemma_mul_nonnegative(initial_mass, e);
    assert(initial_mass * e <= initial_mass * SCALE) by (nonlinear_arith)
        requires
            0 <= initial_mass,
            e <= SCALE,
    ;
    lemma_rdiv_le(initial_mass * e, SCALE as int);
    lemma_rdiv_exact(initial_mass, SCALE as int);
    lemma_rdiv_ordered(initial_mass * e, initial_mass * SCALE, SCALE as int);
}

/// Estimate the mass remaining in the still by the Rayleigh mass balance
/// `ln(m0 / m) = integral of 1 / (x_d - x) dx from xb0 to xbf`, integrated
/// by the composite trapezoidal rule over `resolution` equal subintervals.
/// With `xbf == xb0` the result is exactly `initial_mass`, and the guarded
/// integrand keeps the computation defined even where `x_d` meets the
/// integration path.
pub fn estimate_remaining_mass(
    initial_mass: i64,
    xb0: i64,
    xbf: i64,
    x_d: i64,
    resolution: u32,
) -> (r: i64)
    requires
        1 <= resolution,
        -FX_MAX <= initial_mass <= FX_MAX,
        -FX_MAX <= xb0 <= FX_MAX,
        -FX_MAX <= xbf <= FX_MAX,
        -FX_MAX <= x_d <= FX_MAX,
    ensures
        r as int == estimate_spec(initial_mass as int, xb0 as int, xbf as int, x_d as int,
            resolution as int),
        xb0 == xbf ==> r == initial_mass,
        0 <= initial_mass ==> 0 <= r,
{
    let mut sum: i64 = 0;
    let mut i: u32 = 0;
    while i < resolution
        invariant
            i <= resolution,
            1 <= resolution,
            -FX_MAX <= xb0 <= FX_MAX,
            -FX_MAX <= xbf <= FX_MAX,
            -FX_MAX <= x_d <= FX_MAX,
            sum as int == trap_sum_spec(xb0 as int, xbf as int, x_d as int, resolution as int,
                i as nat),
        decreases resolution - i,
    {
        let xa = grid_point(xb0, xbf, resolution, i);
        let xb = grid_point(xb0, xbf, resolution, i + 1);
        let f_a = rayleigh_integrand(xa, x_d);
        let f_b = rayleigh_integrand(xb, x_d);
        let term = fx_mul(fx_mul(HALF_FX, fx_add(f_a, f_b)), fx_sub(xb, xa));
        sum = fx_add(sum, term);
        i = i + 1;
    }
    proof {
        if xb0 == xbf {
            lemma_estimate_zero_interval(initial_mass as int, xb0 as int, x_d as int,
                resolution as int);
        }
    }
    let e = exp_fx(sum);
    proof {
        if initial_mass >= 0 {
            lemma_fx_mul_nonneg(initial_mass as int, e as int);
        }
    }
    fx_mul(initial_mass, e)
}

} // verus!

verus! {

/// The trapezoidal contribution of one pair of consecutive history
/// entries: the boundary compositions are the first (bottoms) and last
/// (distillate) plates; entries missing a composition, or starting above
/// the initial composition, contribute nothing.
pub open spec fn mass_step_spec(prev: EntryView, next: EntryView, x_0: int) -> int {
    if prev.compositions.len() == 0 || next.compositions.len() == 0 {
        0
    } else {
        let x_b0 = prev.compositions[0].x_1;
        let x_d0 = prev.compositions[prev.compositions.len() - 1].x_1;
        let x_bf = next.compositions[0].x_1;
        let x_df = next.compositions[0].x_1;
        match (x_d0, x_df, x_b0, x_bf) {
            (Some(d0), Some(df), Some(b0), Some(bf)) => {
                if b0 > x_0 {
                    0
                } else {
                    let dx = fx_sub_spec(bf as int, b0 as int);
                    let f_1 = integrand_spec(b0 as int, d0 as int);
                    let f_0 = integrand_spec(bf as int, df as int);
                    fx_mul_spec(fx_mul_spec(HALF_FX as int, fx_add_spec(f_1, f_0)), dx)
                }
            },
            _ => 0,
        }
    }
}

/// The accumulated discrete integral over the first `k` pairs of
/// consecutive history entries.
pub open spec fn mass_integral_spec(h: Seq<EntryView>, x_0: int, k: nat) -> int
    recommends
        k < h.len(),
    decreases k,
{
    if k == 0 {
        0
    } else {
        fx_add_spec(
            mass_integral_spec(h, x_0, (k - 1) as nat),
            mass_step_spec(h[k as int - 1], h[k as int], x_0),
        )
    }
}

/// What `calculate_distilled_mass` returns: zero on degenerate input (a
/// history shorter than two entries, or a missing initial mass or
/// composition), otherwise `m0 - m0 * exp(I)` for the discrete trapezoidal
/// integral `I` across the history.
pub open spec fn distilled_mass_spec(
    h: Seq<EntryView>,
    initial_composition: Option<i64>,
    initial_mass: Option<i64>,
) -> int {
    if h.len() < 2 {
        0
    } else {
        match (initial_composition, initial_mass) {
            (Some(x_0), Some(m_0)) => fx_sub_spec(
                m_0 as int,
                fx_mul_spec(
                    exp_fx_spec(mass_integral_spec(h, x_0 as int, (h.len() - 1) as nat)),
                    m_0 as int,
                ),
            ),
            _ => 0,
        }
    }
}

fn mass_step(prev: &ColumnEntry, next: &ColumnEntry, x_0: i64) -> (r: i64)
    ensures
        r as int == mass_step_spec(prev@, next@, x_0 as int),
{
    if prev.compositions.len() == 0 || next.compositions.len() == 0 {
        return 0;
    }
    let x_b0 = prev.compositions[0].x_1;
    let x_d0 = prev.compositions[prev.compositions.len() - 1].x_1;
    let x_bf = next.compositions[0].x_1;
    let x_df = next.compositions[0].x_1;
    match (x_d0, x_df, x_b0, x_bf) {
        (Some(d0), Some(df), Some(b0), Some(bf)) => {
            if b0 > x_0 {
                0
            } else {
                let dx = fx_sub(bf, b0);
                let f_1 = rayleigh_integrand(b0, d0);
                let f_0 = rayleigh_integrand(bf, df);
                fx_mul(fx_mul(HALF_FX, fx_add(f_1, f_0)), dx)
            }
        },
        _ => 0,
    }
}

impl CalculationService {
    /// Estimate the distilled (removed) mass from a recorded history: a
    /// discrete trapezoidal Rayleigh sum across consecutive entries'
    /// boundary compositions, `m0 - m0 * exp(I)`. Degenerate input — fewer
    /// than two entries, or a missing initial mass or composition — yields
    /// zero rather than an error.
    pub fn calculate_distilled_mass(
        &self,
        initial_composition: Option<i64>,
        initial_mass: Option<i64>,
        history: &Vec<ColumnEntry>,
    ) -> (r: i64)
        ensures
            r as int == distilled_mass_spec(entries_view(history@), initial_composition,
                initial_mass),
    {
        if history.len() < 2 {
            return 0;
        }
        let (x_0, m_0) = match (initial_composition, initial_mass) {
            (Some(c), Some(m)) => (c, m),
            _ => { return 0; },
        };
        let mut inte: i64 = 0;
        let mut i: usize = 0;
        while i < history.len() - 1
            invariant
                2 <= history@.len(),
                i <= history@.len() - 1,
                inte as int == mass_integral_spec(entries_view(history@), x_0 as int, i as nat),
            decreases history@.len() - 1 - i,
        {
            let step = mass_step(&history[i], &history[i + 1], x_0);
            inte = fx_add(inte, step);
            i = i + 1;
        }
        fx_sub(m_0, fx_mul(exp_fx(inte), m_0))
    }
}

} // verus!
