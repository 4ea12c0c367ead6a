use vstd::prelude::*;

verus! {

use crate::errors::{Error, RootError};
use crate::math::{
    fx_add, fx_add_spec, fx_div, fx_div_spec, fx_mul, fx_mul_spec, fx_sub, fx_sub_spec, round3,
    round3_spec, sat64, sat_fx, exp_fx, exp_fx_spec, pow10_fx, pow10_fx_spec, interpolate,
    interpolate_spec, lemma_rdiv_zero, lemma_rdiv_exact, lemma_round3_nonneg, SCALE, FX_MAX,
};

/// Central-difference step of the numerical derivative (1e-6 in real units).
pub const DIFF_STEP: i64 = 1_000;

/// Default initial guess for the root finder (0.5).
pub const X0_DEFAULT: i64 = 500_000_000;

/// Default convergence tolerance of the root finder (1e-6).
pub const TOL_DEFAULT: i64 = 1_000;

/// Default iteration budget of the root finder.
pub const MAX_ITER_DEFAULT: u64 = 1000;

/// Antoine coefficients for the two components, van Laar interaction
/// parameters, and the total system pressure, all in fixed point.
/// Fixed at solver construction and never mutated.
#[derive(Clone, Copy, Debug)]
pub struct EquationParams {
    pub a_1: i64,
    pub b_1: i64,
    pub c_1: i64,
    pub a_van_1: i64,
    pub a_2: i64,
    pub b_2: i64,
    pub c_2: i64,
    pub a_van_2: i64,
    pub p: i64,
}

/// The stock parameter set: an ethanol/water style column at 585 mmHg.
pub open spec fn default_params() -> EquationParams {
    EquationParams {
        a_1: 8_128_750_000,
        b_1: 1_660_871_300_000,
        c_1: 238_131_000_000,
        a_van_1: 1_679_800_000,
        a_2: 8_055_730_000,
        b_2: 1_723_642_500_000,
        c_2: 233_080_000_000,
        a_van_2: 922_700_000,
        p: 585_000_000_000,
    }
}

impl Default for EquationParams {
    fn default() -> (r: Self)
        ensures
            r == default_params(),
    {
        EquationParams {
            a_1: 8_128_750_000,
            b_1: 1_660_871_300_000,
            c_1: 238_131_000_000,
            a_van_1: 1_679_800_000,
            a_2: 8_055_730_000,
            b_2: 1_723_642_500_000,
            c_2: 233_080_000_000,
            a_van_2: 922_700_000,
            p: 585_000_000_000,
        }
    }
}

/// A solved liquid/vapor composition pair for one plate. `None` marks a
/// failed or unavailable solve and must be tolerated downstream, never
/// coerced to zero.
#[derive(Clone, Copy, Debug)]
pub struct CompositionResult {
    pub x_1: Option<i64>,
    pub y_1: Option<i64>,
}

/// Saturation vapor pressure by the Antoine equation:
/// `Psat = 10^(a - b / (c + temp))`; zero if the denominator vanishes.
pub open spec fn ps_spec(temp: int, a: int, b: int, c: int) -> int {
    let d = fx_add_spec(c, temp);
    if d == 0 {
        0
    } else {
        pow10_fx_spec(fx_sub_spec(a, fx_div_spec(b, d)))
    }
}

/// Vapor pressure of one component at the given temperature.
pub fn calculate_ps(temp: i64, a: i64, b: i64, c: i64) -> (r: i64)
    ensures
        r as int == ps_spec(temp as int, a as int, b as int, c as int),
{
    let d = fx_add(c, temp);
    if d == 0 {
        0
    } else {
        pow10_fx(fx_sub(a, fx_div(b, d)))
    }
}

/// Activity coefficients by the two-parameter van Laar model:
/// `γ1 = exp(a12 (a21 x2 / (a12 x1 + a21 x2))^2)` and symmetrically for
/// `γ2`; both one if the denominator vanishes.
pub open spec fn gammas_spec(a_12: int, a_21: int, x_1: int, x_2: int) -> (int, int) {
    let denom = sat_fx(fx_mul_spec(a_12, x_1) + fx_mul_spec(a_21, x_2));
    if denom == 0 {
        (SCALE as int, SCALE as int)
    } else {
        let r_1 = fx_div_spec(fx_mul_spec(a_21, x_2), denom);
        let r_2 = fx_div_spec(fx_mul_spec(a_12, x_1), denom);
        (
            exp_fx_spec(fx_mul_spec(a_12, fx_mul_spec(r_1, r_1))),
            exp_fx_spec(fx_mul_spec(a_21, fx_mul_spec(r_2, r_2))),
        )
    }
}

/// Both van Laar activity coefficients.
pub fn calculate_gammas(a_12: i64, a_21: i64, x_1: i64, x_2: i64) -> (r: (i64, i64))
    ensures
        r.0 as int == gammas_spec(a_12 as int, a_21 as int, x_1 as int, x_2 as int).0,
        r.1 as int == gammas_spec(a_12 as int, a_21 as int, x_1 as int, x_2 as int).1,
{
    let m1 = fx_mul(a_12, x_1);
    let m2 = fx_mul(a_21, x_2);
    let denom = sat64(m1 + m2);
    if denom == 0 {
        (SCALE, SCALE)
    } else {
        let r_1 = fx_div(m2, denom);
        let r_2 = fx_div(m1, denom);
        let g_1 = exp_fx(fx_mul(a_12, fx_mul(r_1, r_1)));
        let g_2 = exp_fx(fx_mul(a_21, fx_mul(r_2, r_2)));
        (g_1, g_2)
    }
}

/// Equilibrium ratio `K = γ Psat / P`.
pub open spec fn ks_spec(gamma: int, ps: int, p: int) -> int {
    fx_div_spec(fx_mul_spec(gamma, ps), p)
}

/// Equilibrium ratio of one component.
pub fn calculate_ks(gamma: i64, ps: i64, p: i64) -> (r: i64)
    ensures
        r as int == ks_spec(gamma as int, ps as int, p as int),
{
    fx_div(fx_mul(gamma, ps), p)
}

/// Vapor fraction `y = K x`.
pub open spec fn y_spec(k: int, x: int) -> int {
    fx_mul_spec(k, x)
}

/// Vapor fraction of one component.
pub fn calculate_y(k: i64, x: i64) -> (r: i64)
    ensures
        r as int == y_spec(k as int, x as int),
{
    fx_mul(k, x)
}

/// The equilibrium residual `r(x1) = y1(x1) + y2(1 - x1) - 1`; its root is
/// the liquid composition at equilibrium.
#[verifier::opaque]
pub open spec fn residual_spec(x_1: int, temp: int, params: EquationParams) -> int {
    let x_2 = fx_sub_spec(SCALE as int, x_1);
    let g = gammas_spec(params.a_van_1 as int, params.a_van_2 as int, x_1, x_2);
    let ps_1 = ps_spec(temp, params.a_1 as int, params.b_1 as int, params.c_1 as int);
    let ps_2 = ps_spec(temp, params.a_2 as int, params.b_2 as int, params.c_2 as int);
    let k_1 = ks_spec(g.0, ps_1, params.p as int);
    let k_2 = ks_spec(g.1, ps_2, params.p as int);
    fx_sub_spec(sat_fx(y_spec(k_1, x_1) + y_spec(k_2, x_2)), SCALE as int)
}

/// The equilibrium residual at a candidate liquid composition.
pub fn calculate_residual(x_1: i64, temp: i64, params: &EquationParams) -> (r: i64)
    ensures
        r as int == residual_spec(x_1 as int, temp as int, *params),
{
    proof {
        reveal(residual_spec);
    }
    let x_2 = fx_sub(SCALE, x_1);
    let g = calculate_gammas(params.a_van_1, params.a_van_2, x_1, x_2);
    let ps_1 = calculate_ps(temp, params.a_1, params.b_1, params.c_1);
    let ps_2 = calculate_ps(temp, params.a_2, params.b_2, params.c_2);
    let k_1 = calculate_ks(g.0, ps_1, params.p);
    let k_2 = calculate_ks(g.1, ps_2, params.p);
    let y_1 = calculate_y(k_1, x_1);
    let y_2 = calculate_y(k_2, x_2);
    fx_sub(sat64(y_1 + y_2), SCALE)
}

/// Central-difference derivative of the residual, step `DIFF_STEP`.
#[verifier::opaque]
pub open spec fn deriv_spec(x: int, temp: int, params: EquationParams) -> int {
    fx_div_spec(
        fx_sub_spec(
            residual_spec(fx_add_spec(x, DIFF_STEP as int), temp, params),
            residual_spec(fx_sub_spec(x, DIFF_STEP as int), temp, params),
        ),
        2 * DIFF_STEP,
    )
}

/// Numerical derivative of the residual at `x`.
pub fn df(x: i64, temp: i64, params: &EquationParams) -> (r: i64)
    ensures
        r as int == deriv_spec(x as int, temp as int, *params),
{
    proof {
        reveal(deriv_spec);
    }
    let r_plus = calculate_residual(fx_add(x, DIFF_STEP), temp, params);
    let r_minus = calculate_residual(fx_sub(x, DIFF_STEP), temp, params);
    fx_div(fx_sub(r_plus, r_minus), 2 * DIFF_STEP)
}

/// One mathematical account of the whole Newton-Raphson run: from guess `x`
/// with `fuel` iterations left, either the accepted root or the error the
/// run ends with. The executable `newton_raphson` returns exactly this.
pub open spec fn newton_spec(
    params: EquationParams,
    temp: int,
    x: int,
    tol: int,
    fuel: nat,
) -> Result<int, RootError>
    decreases fuel,
{
    if fuel == 0 {
        Err(RootError::NotFoundedRoot)
    } else {
        let fx = residual_spec(x, temp, params);
        let fxp = deriv_spec(x, temp, params);
        if fxp == 0 {
            Err(RootError::DivisionByZero)
        } else {
            let xn = fx_sub_spec(x, fx_div_spec(fx, fxp));
            let step = if xn >= x {
                xn - x
            } else {
                x - xn
            };
            if step < tol {
                if xn < 0 {
                    Err(RootError::NegativeRootError)
                } else {
                    Ok(xn)
                }
            } else {
                newton_spec(params, temp, xn, tol, (fuel - 1) as nat)
            }
        }
    }
}

/// Lift an executable root-finder result to its mathematical value.
pub open spec fn root_result_view(r: Result<i64, RootError>) -> Result<int, RootError> {
    match r {
        Ok(v) => Ok(v as int),
        Err(e) => Err(e),
    }
}

/// Newton-Raphson iteration on the equilibrium residual. Converges when two
/// successive iterates differ by less than `tol`; fails with
/// `DivisionByZero` on a vanishing derivative, `NegativeRootError` on a
/// negative converged value, and `NotFoundedRoot` when the budget runs out.
pub fn newton_raphson(
    params: &EquationParams,
    temp: i64,
    x_0: i64,
    tol: i64,
    max_iter: u64,
) -> (r: Result<i64, RootError>)
    ensures
        root_result_view(r) == newton_spec(*params, temp as int, x_0 as int, tol as int,
            max_iter as nat),
{
    let mut x = x_0;
    let mut iter: u64 = 0;
    while iter < max_iter
        invariant
            iter <= max_iter,
            newton_spec(*params, temp as int, x_0 as int, tol as int, max_iter as nat)
                == newton_spec(*params, temp as int, x as int, tol as int, (max_iter - iter) as nat),
        decreases max_iter - iter,
    {
        let fx = calculate_residual(x, temp, params);
        let fxp = df(x, temp, params);
        if fxp == 0 {
            return Err(RootError::DivisionByZero);
        }
        let x_next = fx_sub(x, fx_div(fx, fxp));
        let step128: i128 = (x_next as i128) - (x as i128);
        let step: i128 = if step128 < 0 {
            -step128
        } else {
            step128
        };
        if step < tol as i128 {
            if x_next < 0 {
                return Err(RootError::NegativeRootError);
            }
            return Ok(x_next);
        }
        x = x_next;
        iter = iter + 1;
    }
    Err(RootError::NotFoundedRoot)
}

} // verus!

verus! {

/// An optional value or its default.
pub open spec fn or_i64(o: Option<i64>, d: i64) -> i64 {
    match o {
        Some(v) => v,
        None => d,
    }
}

/// An optional iteration budget or its default.
pub open spec fn or_u64(o: Option<u64>, d: u64) -> u64 {
    match o {
        Some(v) => v,
        None => d,
    }
}

/// Every root the Newton iteration accepts lies in `[0, FX_MAX]`: a
/// negative converged value is rejected and every iterate is saturated.
pub proof fn lemma_newton_ok_bounded(
    params: EquationParams,
    temp: int,
    x: int,
    tol: int,
    fuel: nat,
)
    ensures
        newton_spec(params, temp, x, tol, fuel) matches Ok(v) ==> 0 <= v <= FX_MAX,
    decreases fuel,
{
    if fuel != 0 {
        let fx = residual_spec(x, temp, params);
        let fxp = deriv_spec(x, temp, params);
        if fxp != 0 {
            let xn = fx_sub_spec(x, fx_div_spec(fx, fxp));
            lemma_newton_ok_bounded(params, temp, xn, tol, (fuel - 1) as nat);
        }
    }
}

/// What `calculate_composition` returns: the root accepted by the Newton
/// iteration and the matching vapor fraction from component one's
/// equilibrium ratio, both rounded to three decimals; or the root-finding
/// error, classified.
#[verifier::opaque]
pub open spec fn composition_spec(
    params: EquationParams,
    x_0: Option<i64>,
    temp: int,
    tol: Option<i64>,
    max_iter: Option<u64>,
) -> Result<CompositionResult, Error> {
    let x0v = or_i64(x_0, X0_DEFAULT);
    let tolv = or_i64(tol, TOL_DEFAULT);
    let mi = or_u64(max_iter, MAX_ITER_DEFAULT);
    match newton_spec(params, temp, x0v as int, tolv as int, mi as nat) {
        Err(e) => Err(Error::RootError(e)),
        Ok(x_1) => {
            let x_2 = fx_sub_spec(SCALE as int, x_1);
            let gamma_1 = gammas_spec(params.a_van_1 as int, params.a_van_2 as int, x_1, x_2).0;
            let ps_1 = ps_spec(temp, params.a_1 as int, params.b_1 as int, params.c_1 as int);
            let k_1 = ks_spec(gamma_1, ps_1, params.p as int);
            let y_1 = y_spec(k_1, x_1);
            Ok(
                CompositionResult {
                    x_1: Some(round3_spec(x_1) as i64),
                    y_1: Some(round3_spec(y_1) as i64),
                },
            )
        },
    }
}

/// The equilibrium calculation engine: a fixed parameter set and the pure
/// functions over it.
#[derive(Clone, Copy, Debug)]
pub struct CalculationService {
    pub params: EquationParams,
}

impl CalculationService {
    /// A service over the stock parameter set.
    pub fn new() -> (r: Self)
        ensures
            r.params == default_params(),
    {
        CalculationService { params: EquationParams::default() }
    }

    /// Solve one plate temperature into a liquid/vapor composition pair.
    /// Defaults: guess 0.5, tolerance 1e-6, one thousand iterations.
    pub fn calculate_composition(
        &self,
        x_0: Option<i64>,
        temp: i64,
        tol: Option<i64>,
        max_iter: Option<u64>,
    ) -> (r: Result<CompositionResult, Error>)
        ensures
            r == composition_spec(self.params, x_0, temp as int, tol, max_iter),
            r matches Ok(c) ==> c.x_1 matches Some(v) && 0 <= v,
            r matches Ok(c) ==> c.y_1 is Some,
    {
        let x0v = match x_0 {
            Some(v) => v,
            None => X0_DEFAULT,
        };
        let tolv = match tol {
            Some(v) => v,
            None => TOL_DEFAULT,
        };
        let mi = match max_iter {
            Some(v) => v,
            None => MAX_ITER_DEFAULT,
        };
        proof {
            reveal(composition_spec);
            lemma_newton_ok_bounded(self.params, temp as int, x0v as int, tolv as int, mi as nat);
        }
        match newton_raphson(&self.params, temp, x0v, tolv, mi) {
            Err(e) => Err(Error::RootError(e)),
            Ok(x_1) => {
                let x_2 = fx_sub(SCALE, x_1);
                let gamma_1 = calculate_gammas(self.params.a_van_1, self.params.a_van_2, x_1, x_2).0;
                let ps_1 = calculate_ps(temp, self.params.a_1, self.params.b_1, self.params.c_1);
                let k_1 = calculate_ks(gamma_1, ps_1, self.params.p);
                let y_1 = calculate_y(k_1, x_1);
                proof {
                    lemma_round3_nonneg(x_1 as int);
                }
                Ok(CompositionResult { x_1: Some(round3(x_1)), y_1: Some(round3(y_1)) })
            },
        }
    }
}

} // verus!

verus! {

/// The temperature assigned to plate `i` (zero-based) when `n` plates span
/// the boundary temperatures `t_1` and `t_n` linearly.
pub open spec fn plate_temp_spec(n: int, t_1: int, t_n: int, i: int) -> int {
    round3_spec(interpolate_spec(SCALE as int, t_1, n * SCALE, t_n, (i + 1) * SCALE))
}

impl CalculationService {
    /// Distribute two boundary temperatures linearly across `num_plates`
    /// plates, each value rounded to three decimals. With two plates or
    /// fewer the result is exactly the two rounded boundaries; otherwise
    /// the endpoints equal the rounded boundary inputs exactly.
    pub fn interpolate_temps(&self, num_plates: i32, t_1: i64, t_n: i64) -> (r: Vec<i64>)
        requires
            -FX_MAX <= t_1 <= FX_MAX,
            -FX_MAX <= t_n <= FX_MAX,
            num_plates <= 1_000_000_000,
        ensures
            num_plates <= 2 ==> r@.len() == 2 && r@[0] as int == round3_spec(t_1 as int)
                && r@[1] as int == round3_spec(t_n as int),
            num_plates > 2 ==> r@.len() == num_plates,
            num_plates > 2 ==> forall|j: int|
                0 <= j < num_plates ==> r@[j] as int == plate_temp_spec(
                    num_plates as int,
                    t_1 as int,
                    t_n as int,
                    j,
                ),
            num_plates > 2 ==> r@[0] as int == round3_spec(t_1 as int),
            num_plates > 2 ==> r@[num_plates - 1] as int == round3_spec(t_n as int),
    {
        if num_plates <= 2 {
            let mut v: Vec<i64> = Vec::new();
            v.push(round3(t_1));
            v.push(round3(t_n));
            return v;
        }
        let n = num_plates;
        let x2: i64 = (n as i64) * SCALE;
        let mut v: Vec<i64> = Vec::new();
        let mut i: i32 = 0;
        while i < n
            invariant
                0 <= i <= n,
                2 < n <= 1_000_000_000,
                x2 == n as int * SCALE,
                -FX_MAX <= t_1 <= FX_MAX,
                -FX_MAX <= t_n <= FX_MAX,
                v@.len() == i,
                forall|j: int|
                    0 <= j < i ==> v@[j] as int == plate_temp_spec(
                        n as int,
                        t_1 as int,
                        t_n as int,
                        j,
                    ),
            decreases n - i,
        {
            let x: i64 = (i as i64 + 1) * SCALE;
            let temp = interpolate(SCALE, t_1, x2, t_n, x);
            v.push(round3(temp));
            i = i + 1;
        }
        proof {
            lemma_rdiv_zero(n as int * SCALE - SCALE);
            assert((t_n as int - t_1 as int) * (SCALE as int - SCALE as int) == 0)
                by (nonlinear_arith);
            assert(interpolate_spec(
                SCALE as int,
                t_1 as int,
                n as int * SCALE,
                t_n as int,
                (0 + 1) * SCALE,
            ) == t_1 as int);
            lemma_rdiv_exact(t_n as int - t_1 as int, n as int * SCALE - SCALE);
            assert(interpolate_spec(
                SCALE as int,
                t_1 as int,
                n as int * SCALE,
                t_n as int,
                ((n - 1) + 1) * SCALE,
            ) == t_n as int);
        }
        v
    }
}

} // verus!

verus! {

/// Both members of a composition pair fit the fixed-point range.
pub open spec fn comp_bounded(c: CompositionResult) -> bool {
    &&& (c.x_1 matches Some(v) ==> -FX_MAX <= v <= FX_MAX)
    &&& (c.y_1 matches Some(v) ==> -FX_MAX <= v <= FX_MAX)
}

/// The composition pair recorded for one plate: the solved pair, degraded
/// to an empty pair when the solve fails, never aborting the sample.
pub open spec fn solved_comp_spec(service: CalculationService, temp: i64) -> CompositionResult {
    match composition_spec(service.params, None, temp as int, None, None) {
        Ok(c) => c,
        Err(_) => CompositionResult { x_1: None, y_1: None },
    }
}

/// A solved pair is a pair of saturated roundings, so it always fits the
/// fixed-point range.
pub proof fn lemma_solved_comp_bounded(service: CalculationService, temp: i64)
    ensures
        comp_bounded(solved_comp_spec(service, temp)),
{
    reveal(composition_spec);
}

/// Solve one plate, degrading a failed solve to an empty pair.
pub fn solve_plate(service: &CalculationService, temp: i64) -> (c: CompositionResult)
    ensures
        c == solved_comp_spec(*service, temp),
        comp_bounded(c),
{
    proof {
        lemma_solved_comp_bounded(*service, temp);
    }
    match service.calculate_composition(None, temp, None, None) {
        Ok(c) => c,
        Err(_) => CompositionResult { x_1: None, y_1: None },
    }
}

} // verus!

verus! {

/// `v` is a root the Newton iteration accepts from the iterate `x_prev`:
/// the derivative there is non-vanishing, `v` is the saturated Newton
/// update of `x_prev`, the correction is below the tolerance, and `v` is
/// not negative.
pub open spec fn accepted_root(
    params: EquationParams,
    temp: int,
    tol: int,
    x_prev: int,
    v: int,
) -> bool {
    let fx = residual_spec(x_prev, temp, params);
    let fxp = deriv_spec(x_prev, temp, params);
    &&& fxp != 0
    &&& v == fx_sub_spec(x_prev, fx_div_spec(fx, fxp))
    &&& (if v >= x_prev {
        v - x_prev
    } else {
        x_prev - v
    }) < tol
    &&& 0 <= v <= FX_MAX
}

/// The solver's success guarantee: whatever value the Newton iteration
/// returns is an accepted root — the update of some iterate whose
/// correction fell below the tolerance — and lies in `[0, FX_MAX]`.
#[verifier::rlimit(100)]
#[verifier::spinoff_prover]
pub proof fn lemma_newton_accepts_converged(
    params: EquationParams,
    temp: int,
    x: int,
    tol: int,
    fuel: nat,
)
    ensures
        newton_spec(params, temp, x, tol, fuel) matches Ok(v) ==> exists|x_prev: int|
            accepted_root(params, temp, tol, x_prev, v),
    decreases fuel,
{
    match newton_spec(params, temp, x, tol, fuel) {
        Err(_) => {},
        Ok(v) => {
            let fx = residual_spec(x, temp, params);
            let fxp = deriv_spec(x, temp, params);
            let xn = fx_sub_spec(x, fx_div_spec(fx, fxp));
            let step = if xn >= x {
                xn - x
            } else {
                x - xn
            };
            if step < tol {
                assert(v == xn && 0 <= xn);
                assert(accepted_root(params, temp, tol, x, v));
                assert(exists|x_prev: int| accepted_root(params, temp, tol, x_prev, v));
            } else {
                assert(newton_spec(params, temp, x, tol, fuel) == newton_spec(
                    params,
                    temp,
                    xn,
                    tol,
                    (fuel - 1) as nat,
                ));
                lemma_newton_accepts_converged(params, temp, xn, tol, (fuel - 1) as nat);
            }
        },
    }
}

/// The solved pair a successful composition carries is the three-decimal
/// rounding of an accepted root, with the matching vapor fraction from
/// component one's equilibrium ratio at that root.
#[verifier::rlimit(100)]
#[verifier::spinoff_prover]
pub proof fn lemma_composition_of_accepted_root(
    params: EquationParams,
    x_0: Option<i64>,
    temp: int,
    tol: Option<i64>,
    max_iter: Option<u64>,
)
    ensures
        composition_spec(params, x_0, temp, tol, max_iter) matches Ok(c) ==> exists|
            x_prev: int,
            v: int,
        |
            {
                &&& accepted_root(params, temp, or_i64(tol, TOL_DEFAULT) as int, x_prev, v)
                &&& c.x_1 == Some(round3_spec(v) as i64)
                &&& c.y_1 == Some(
                    round3_spec(
                        y_spec(
                            ks_spec(
                                gammas_spec(
                                    params.a_van_1 as int,
                                    params.a_van_2 as int,
                                    v,
                                    fx_sub_spec(SCALE as int, v),
                                ).0,
                                ps_spec(
                                    temp,
                                    params.a_1 as int,
                                    params.b_1 as int,
                                    params.c_1 as int,
                                ),
                                params.p as int,
                            ),
                            v,
                        ),
                    ) as i64,
                )
            },
{
    reveal(composition_spec);
    let x0v = or_i64(x_0, X0_DEFAULT);
    let tolv = or_i64(tol, TOL_DEFAULT);
    let mi = or_u64(max_iter, MAX_ITER_DEFAULT);
    lemma_newton_accepts_converged(params, temp, x0v as int, tolv as int, mi as nat);
}

} // verus!
