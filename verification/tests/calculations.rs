use distillation_tower_monitor::calculations::{
    CalculationService, EquationParams, newton_raphson, calculate_residual,
};
use distillation_tower_monitor::errors::RootError;
use distillation_tower_monitor::math::SCALE;

// One fixed-point unit is 1e-9, so 80.0 degrees is 80 * SCALE.

#[test]
fn test_calculate_composition() {
    let service = CalculationService::new();
    let result = service
        .calculate_composition(Some(500_000_000), 80 * SCALE, Some(1_000), Some(100))
        .unwrap();

    assert!(result.x_1.unwrap() > 0 && result.x_1.unwrap() < SCALE);
    assert!(result.y_1.unwrap() > 0 && result.y_1.unwrap() < SCALE);
}

#[test]
fn test_interpolate_temps() {
    let service = CalculationService::new();

    let temps = service.interpolate_temps(5, 70 * SCALE, 90 * SCALE);
    assert_eq!(temps.len(), 5);
    assert!(temps[0] == 70 * SCALE);
    assert!(temps[1] == 75 * SCALE);
    assert!(temps[2] == 80 * SCALE);
    assert!(temps[3] == 85 * SCALE);
    assert!(temps[4] == 90 * SCALE);
}

#[test]
fn interpolate_two_plates_returns_boundaries() {
    let service = CalculationService::new();
    let temps = service.interpolate_temps(2, 70 * SCALE, 90 * SCALE);
    assert_eq!(temps, vec![70 * SCALE, 90 * SCALE]);
}

#[test]
fn interpolate_one_plate_still_returns_two_values() {
    let service = CalculationService::new();
    let temps = service.interpolate_temps(1, 64 * SCALE, 91 * SCALE);
    assert_eq!(temps, vec![64 * SCALE, 91 * SCALE]);
}

#[test]
fn interpolate_rounds_to_three_decimals() {
    let service = CalculationService::new();
    // 70 to 90 over 4 plates: step 20/3 = 6.666..., rounded to 6.667.
    let temps = service.interpolate_temps(4, 70 * SCALE, 90 * SCALE);
    assert_eq!(temps.len(), 4);
    assert_eq!(temps[0], 70 * SCALE);
    assert_eq!(temps[1], 76_667_000_000);
    assert_eq!(temps[2], 83_333_000_000);
    assert_eq!(temps[3], 90 * SCALE);
}

#[test]
fn solver_residual_is_small_at_solution() {
    let service = CalculationService::new();
    let result = service
        .calculate_composition(None, 80 * SCALE, None, None)
        .unwrap();
    let x_1 = result.x_1.unwrap();
    // The reported root is rounded to three decimals; the residual there
    // stays within the rounding slack times the residual's slope.
    let r = calculate_residual(x_1, 80 * SCALE, &EquationParams::default());
    assert!(r.abs() < 10_000_000, "residual {r} too large");
}

#[test]
fn solver_defaults_match_explicit_arguments() {
    let service = CalculationService::new();
    let defaulted = service
        .calculate_composition(None, 82 * SCALE, None, None)
        .unwrap();
    let explicit = service
        .calculate_composition(Some(500_000_000), 82 * SCALE, Some(1_000), Some(1000))
        .unwrap();
    assert_eq!(defaulted.x_1, explicit.x_1);
    assert_eq!(defaulted.y_1, explicit.y_1);
}

#[test]
fn newton_zero_budget_reports_not_founded_root() {
    let params = EquationParams::default();
    let r = newton_raphson(&params, 80 * SCALE, 500_000_000, 1_000, 0);
    assert!(matches!(r, Err(RootError::NotFoundedRoot)));
}

#[test]
fn newton_flat_residual_reports_division_by_zero() {
    // All-zero parameters make the residual constant, so the numerical
    // derivative vanishes at the very first step.
    let params = EquationParams {
        a_1: 0,
        b_1: 0,
        c_1: 0,
        a_van_1: 0,
        a_2: 0,
        b_2: 0,
        c_2: 0,
        a_van_2: 0,
        p: 0,
    };
    let r = newton_raphson(&params, 0, 500_000_000, 1_000, 100);
    assert!(matches!(r, Err(RootError::DivisionByZero)));
}

#[test]
fn newton_negative_root_is_rejected() {
    // Vanishing van Laar parameters give unit activity coefficients, and
    // zero Antoine slopes make the residual linear in the composition:
    // k1 = 10^0.5, k2 = 10^0.3 at unit pressure put the root near -0.85.
    let params = EquationParams {
        a_1: 500_000_000,
        b_1: 0,
        c_1: SCALE,
        a_van_1: 0,
        a_2: 300_000_000,
        b_2: 0,
        c_2: SCALE,
        a_van_2: 0,
        p: SCALE,
    };
    let r = newton_raphson(&params, 80 * SCALE, 500_000_000, 1_000, 1000);
    assert!(matches!(r, Err(RootError::NegativeRootError)), "got {r:?}");
}

#[test]
fn default_params_match_the_stock_column() {
    let p = EquationParams::default();
    assert_eq!(p.a_1, 8_128_750_000);
    assert_eq!(p.b_1, 1_660_871_300_000);
    assert_eq!(p.c_1, 238_131_000_000);
    assert_eq!(p.a_van_1, 1_679_800_000);
    assert_eq!(p.a_2, 8_055_730_000);
    assert_eq!(p.b_2, 1_723_642_500_000);
    assert_eq!(p.c_2, 233_080_000_000);
    assert_eq!(p.a_van_2, 922_700_000);
    assert_eq!(p.p, 585_000_000_000);
}
