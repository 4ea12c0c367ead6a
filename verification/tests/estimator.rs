use distillation_tower_monitor::calculations::{CalculationService, CompositionResult};
use distillation_tower_monitor::data::ColumnEntry;
use distillation_tower_monitor::estimator::{estimate_remaining_mass, rayleigh_integrand};
use distillation_tower_monitor::math::SCALE;

fn entry_with_compositions(xs: Vec<Option<i64>>) -> ColumnEntry {
    let compositions: Vec<CompositionResult> = xs
        .iter()
        .map(|x| CompositionResult { x_1: *x, y_1: *x })
        .collect();
    ColumnEntry {
        timestamp: 0,
        temperatures: vec![0; compositions.len()],
        compositions,
        percentage_complete: 0,
        distilled_mass: 0,
    }
}

#[test]
fn estimate_zero_interval_returns_initial_mass_exactly() {
    let m0 = 1000 * SCALE;
    // xb0 == xbf: the integration interval is empty, so the mass comes
    // back exactly, whatever the distillate composition.
    assert_eq!(estimate_remaining_mass(m0, 500_000_000, 500_000_000, 800_000_000, 1000), m0);
    assert_eq!(estimate_remaining_mass(m0, 500_000_000, 500_000_000, 500_000_000, 1000), m0);
    assert_eq!(estimate_remaining_mass(7, 123_456_789, 123_456_789, 1, 1), 7);
}

#[test]
fn estimate_survives_singularity_on_the_path() {
    // The distillate composition lies inside the integration interval, so
    // the raw integrand blows up there; the guard keeps every sample
    // finite and the call total.
    let m0 = 1000 * SCALE;
    let r = estimate_remaining_mass(m0, 300_000_000, 500_000_000, 400_000_000, 1000);
    assert!(r >= 0);
    let r2 = estimate_remaining_mass(m0, 400_000_000, 400_000_000, 400_000_000, 1000);
    assert_eq!(r2, m0);
}

#[test]
fn integrand_guard_returns_zero_at_the_singularity() {
    assert_eq!(rayleigh_integrand(400_000_000, 400_000_000), 0);
    // 1 / (0.9 - 0.5) = 2.5 exactly in fixed point.
    assert_eq!(rayleigh_integrand(500_000_000, 900_000_000), 2_500_000_000);
    // Negative distance gives the negative reciprocal.
    assert_eq!(rayleigh_integrand(900_000_000, 500_000_000), -2_500_000_000);
}

#[test]
fn estimate_decreases_mass_when_distillate_is_richer() {
    // Bottoms falling from 0.5 to 0.4 with distillate at 0.9: the
    // integral is negative, so some mass has left the still.
    let m0 = 1000 * SCALE;
    let r = estimate_remaining_mass(m0, 500_000_000, 400_000_000, 900_000_000, 1000);
    assert!(r < m0);
    assert!(r > 0);
}

#[test]
fn distilled_mass_short_history_is_zero() {
    let service = CalculationService::new();
    let one = vec![entry_with_compositions(vec![Some(500_000_000)])];
    assert_eq!(
        service.calculate_distilled_mass(Some(500_000_000), Some(1000 * SCALE), &one),
        0
    );
    let none: Vec<ColumnEntry> = Vec::new();
    assert_eq!(
        service.calculate_distilled_mass(Some(500_000_000), Some(1000 * SCALE), &none),
        0
    );
}

#[test]
fn distilled_mass_missing_initials_is_zero() {
    let service = CalculationService::new();
    let h = vec![
        entry_with_compositions(vec![Some(500_000_000)]),
        entry_with_compositions(vec![Some(400_000_000)]),
    ];
    assert_eq!(service.calculate_distilled_mass(None, Some(1000 * SCALE), &h), 0);
    assert_eq!(service.calculate_distilled_mass(Some(500_000_000), None, &h), 0);
}

#[test]
fn distilled_mass_stationary_run_is_zero() {
    // Both entries hold the same composition everywhere: every trapezoid
    // degenerates and exp(0) leaves the mass untouched.
    let service = CalculationService::new();
    let h = vec![
        entry_with_compositions(vec![Some(500_000_000), Some(500_000_000)]),
        entry_with_compositions(vec![Some(500_000_000), Some(500_000_000)]),
    ];
    assert_eq!(
        service.calculate_distilled_mass(Some(500_000_000), Some(1000 * SCALE), &h),
        0
    );
}

#[test]
fn distilled_mass_entry_missing_composition_contributes_nothing() {
    let service = CalculationService::new();
    let h = vec![
        entry_with_compositions(vec![None, Some(900_000_000)]),
        entry_with_compositions(vec![Some(400_000_000), Some(900_000_000)]),
    ];
    assert_eq!(
        service.calculate_distilled_mass(Some(500_000_000), Some(1000 * SCALE), &h),
        0
    );
}

#[test]
fn distilled_mass_matches_hand_computed_integral() {
    // First entry: bottoms 0.5, distillate 0.9; second entry: bottoms 0.4.
    // f1 = 1/(0.9-0.5) = 2.5, f0 is guarded to 0 (the second entry's
    // first column serves as both ends), dx = -0.1, so the integral is
    // 0.5 * 2.5 * (-0.1) = -0.125 and the distilled mass is
    // 1000 * (1 - exp(-0.125)) which is close to 117.503.
    let service = CalculationService::new();
    let h = vec![
        entry_with_compositions(vec![Some(500_000_000), Some(900_000_000)]),
        entry_with_compositions(vec![Some(400_000_000), Some(900_000_000)]),
    ];
    let r = service.calculate_distilled_mass(Some(500_000_000), Some(1000 * SCALE), &h);
    assert!(r > 117_400_000_000, "distilled mass {r}");
    assert!(r < 117_600_000_000, "distilled mass {r}");
}
