use orb_base::levitation::{LevitationMode, LevitationState};
use orb_base::safety::{LevitationSafetyVerifier, SafetyCode, SafetyInterlockManager, SafetyResult};

fn make_safe_state() -> LevitationState {
    LevitationState {
        height_um: 15_000,
        velocity_um_s: 0,
        oscillation_amplitude_um: 1_000,
        electromagnet_temp_mc: 50_000,
        wpt_coil_temp_mc: 45_000,
        power_supply_ok: true,
        mode: LevitationMode::Float { height_um: 15_000 },
        orb_present: true,
        stable: true,
    }
}

#[test]
fn test_safe_state() {
    let verifier = LevitationSafetyVerifier::new();
    let state = make_safe_state();

    let result = verifier.compute_barrier(&state);
    assert!(result.safe);
    assert!(result.margin > 500_000);
}

#[test]
fn test_height_violation() {
    let verifier = LevitationSafetyVerifier::new();
    let mut state = make_safe_state();

    // Too high
    state.height_um = 32_000;
    let result = verifier.compute_barrier(&state);
    assert!(!result.safe);
    assert_eq!(result.limiting_constraint, SafetyCode::HeightUpperBound);

    // Too low
    state.height_um = 2_000;
    let result = verifier.compute_barrier(&state);
    assert!(!result.safe);
    assert_eq!(result.limiting_constraint, SafetyCode::HeightLowerBound);
}

#[test]
fn test_thermal_warning() {
    let verifier = LevitationSafetyVerifier::new();
    let mut state = make_safe_state();

    // In warning zone
    state.electromagnet_temp_mc = 70_000;
    let result = verifier.compute_barrier(&state);
    assert!(result.safe);
    assert!(result.margin < 1_000_000);

    // Over limit
    state.electromagnet_temp_mc = 85_000;
    let result = verifier.compute_barrier(&state);
    assert!(!result.safe);
    assert_eq!(result.limiting_constraint, SafetyCode::Thermal);
}

#[test]
fn test_power_failure() {
    let verifier = LevitationSafetyVerifier::new();
    let mut state = make_safe_state();

    state.power_supply_ok = false;
    let result = verifier.compute_barrier(&state);
    assert!(!result.safe);
    assert_eq!(result.limiting_constraint, SafetyCode::PowerFailure);
}

#[test]
fn test_interlock_manager() {
    let mut manager = SafetyInterlockManager::new();
    let verifier = LevitationSafetyVerifier::new();
    let mut state = make_safe_state();

    // Safe state should not trigger emergency
    for _ in 0..10 {
        let result = verifier.compute_barrier(&state);
        assert!(!manager.update(&result));
    }
    assert!(!manager.is_emergency());

    // Violation should trigger after 5 cycles
    state.height_um = 35_000;
    for i in 0..10 {
        let result = verifier.compute_barrier(&state);
        let emergency = manager.update(&result);
        if i >= 4 {
            assert!(emergency);
        }
    }
    assert!(manager.is_emergency());
}

#[test]
fn barrier_values_of_the_nominal_state() {
    let verifier = LevitationSafetyVerifier::default();
    let r = verifier.compute_barrier(&make_safe_state());
    assert_eq!(r.constraints.h_height_upper, 1_500_000);
    assert_eq!(r.constraints.h_height_lower, 2_400_000);
    assert_eq!(r.constraints.h_descent_rate, 1_000_000);
    assert_eq!(r.constraints.h_oscillation, 800_000);
    assert_eq!(r.constraints.h_thermal, 1_000_000);
    assert_eq!(r.constraints.h_power, 1_000_000);
    assert_eq!(r.margin, 800_000);
    assert_eq!(r.limiting_constraint, SafetyCode::Oscillation);
    assert!(verifier.is_safe(&make_safe_state()));
    assert_eq!(verifier.safety_margin(&make_safe_state()), 800_000);
}

#[test]
fn descent_and_thermal_ramps() {
    let verifier = LevitationSafetyVerifier::new();
    let mut s = make_safe_state();
    s.velocity_um_s = -5_000;
    assert_eq!(verifier.compute_barrier(&s).constraints.h_descent_rate, 666_666);
    s.velocity_um_s = -20_000;
    let r = verifier.compute_barrier(&s);
    assert_eq!(r.constraints.h_descent_rate, -333_334);
    assert_eq!(r.limiting_constraint, SafetyCode::DescentRate);
    let mut s = make_safe_state();
    s.wpt_coil_temp_mc = 70_000;
    assert_eq!(verifier.compute_barrier(&s).constraints.h_thermal, 666_666);
    s.wpt_coil_temp_mc = 80_000;
    assert_eq!(verifier.compute_barrier(&s).constraints.h_thermal, -1_000_000);
}

#[test]
fn ties_go_to_the_first_constraint() {
    let verifier = LevitationSafetyVerifier::new();
    let mut s = make_safe_state();
    // At 20 mm with no oscillation, the upper height, descent, oscillation,
    // thermal and power barriers all give exactly one whole.
    s.height_um = 20_000;
    s.oscillation_amplitude_um = 0;
    let r = verifier.compute_barrier(&s);
    assert_eq!(r.margin, 1_000_000);
    assert_eq!(r.limiting_constraint, SafetyCode::HeightUpperBound);
}

#[test]
fn power_fault_is_unsafe_even_when_height_is_worse() {
    let verifier = LevitationSafetyVerifier::new();
    let mut s = make_safe_state();
    s.power_supply_ok = false;
    s.height_um = 50_000;
    let r = verifier.compute_barrier(&s);
    assert!(!r.safe);
    assert_eq!(r.limiting_constraint, SafetyCode::HeightUpperBound);
}

#[test]
fn custom_thresholds() {
    let verifier = LevitationSafetyVerifier::with_thresholds(40_000, 1_000, 10_000, 2_000, 90_000);
    let mut s = make_safe_state();
    s.oscillation_amplitude_um = 500;
    s.electromagnet_temp_mc = 80_000;
    let r = verifier.compute_barrier(&s);
    assert_eq!(r.constraints.h_height_upper, 2_500_000);
    assert_eq!(r.constraints.h_height_lower, 2_800_000);
    assert_eq!(r.constraints.h_oscillation, 750_000);
    assert_eq!(r.constraints.h_thermal, 666_666);
}

fn result(code: SafetyCode, margin: i64) -> SafetyResult {
    let v = LevitationSafetyVerifier::new();
    let mut r = v.compute_barrier(&make_safe_state());
    r.limiting_constraint = code;
    r.margin = margin;
    r.safe = margin > 0;
    r
}

#[test]
fn corrective_actions() {
    let v = LevitationSafetyVerifier::new();
    assert_eq!(v.corrective_action(&result(SafetyCode::HeightUpperBound, 600_000)), 0);
    assert_eq!(v.corrective_action(&result(SafetyCode::HeightUpperBound, 400_000)), -3_000);
    assert_eq!(v.corrective_action(&result(SafetyCode::HeightUpperBound, -200_000)), -5_000);
    assert_eq!(v.corrective_action(&result(SafetyCode::HeightLowerBound, -200_000)), 5_000);
    assert_eq!(v.corrective_action(&result(SafetyCode::HeightLowerBound, 250_000)), 3_750);
    assert_eq!(v.corrective_action(&result(SafetyCode::DescentRate, -1)), 3_000);
    assert_eq!(v.corrective_action(&result(SafetyCode::Oscillation, -1)), 0);
    assert_eq!(v.corrective_action(&result(SafetyCode::Thermal, -1)), 10_000);
    assert_eq!(v.corrective_action(&result(SafetyCode::Thermal, 500_000)), 1_500);
    assert_eq!(v.corrective_action(&result(SafetyCode::PowerFailure, -1_000_000)), 0);
    assert_eq!(v.corrective_action(&result(SafetyCode::NoViolation, -1)), 0);
    assert_eq!(SafetyCode::default(), SafetyCode::NoViolation);
}

fn unsafe_result() -> SafetyResult {
    result(SafetyCode::HeightUpperBound, -100_000)
}

fn safe_result() -> SafetyResult {
    result(SafetyCode::Oscillation, 800_000)
}

#[test]
fn four_violations_never_declare_the_fifth_does() {
    let mut m = SafetyInterlockManager::new();
    for _ in 0..4 {
        assert!(!m.update(&unsafe_result()));
    }
    assert!(m.update(&unsafe_result()));
    assert!(m.is_emergency());
    assert!(!m.is_locked_out());
}

#[test]
fn a_safe_result_restarts_the_violation_count() {
    let mut m = SafetyInterlockManager::new();
    for _ in 0..4 {
        m.update(&unsafe_result());
    }
    assert!(!m.update(&safe_result()));
    for _ in 0..4 {
        assert!(!m.update(&unsafe_result()));
    }
}

#[test]
fn hundred_safe_results_clear_the_emergency() {
    let mut m = SafetyInterlockManager::new();
    for _ in 0..5 {
        m.update(&unsafe_result());
    }
    for _ in 0..99 {
        assert!(m.update(&safe_result()));
    }
    assert!(!m.update(&safe_result()));
    assert!(!m.is_emergency());
}

#[test]
fn lockout_holds_until_reset() {
    let mut m = SafetyInterlockManager::default();
    m.trigger_lockout();
    assert!(m.is_locked_out());
    for _ in 0..1_000 {
        assert!(m.update(&safe_result()));
    }
    assert!(m.is_emergency());
    m.reset();
    assert!(!m.is_emergency());
    assert!(!m.is_locked_out());
}
