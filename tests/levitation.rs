use orb_base::error::BaseError;
use orb_base::levitation::{estimate_efficiency, LevitationMode, LevitationState};

#[test]
fn test_efficiency_estimation() {
    // High coupling should give high efficiency
    let eta_high = estimate_efficiency(700_000);
    assert!(eta_high > 950_000);

    // Low coupling gives lower efficiency: with Q = 200 × 150 the formula
    // k²Q / (1 + k²Q) gives 1200 / 1201 at k = 0.2.
    let eta_low = estimate_efficiency(200_000);
    assert!(eta_low < eta_high);
    assert_eq!(eta_low, 999_167);
}

#[test]
fn efficiency_exact_values() {
    assert_eq!(estimate_efficiency(0), 0);
    // k = 0.7: k²Q = 14700, η = 14700 / 14701.
    assert_eq!(estimate_efficiency(700_000), 999_931);
    // k = 0.01: k²Q = 3, η = 0.75.
    assert_eq!(estimate_efficiency(10_000), 750_000);
    assert!(estimate_efficiency(700_000) > estimate_efficiency(200_000));
}

#[test]
fn defaults() {
    assert_eq!(LevitationMode::default(), LevitationMode::Lifted);
    let s = LevitationState::default();
    assert_eq!(s.height_um, 0);
    assert_eq!(s.mode, LevitationMode::Lifted);
    assert!(!s.power_supply_ok);
}

#[test]
fn error_messages() {
    assert_eq!(BaseError::HeightOutOfRange.message(), "Height out of range (5-25mm)");
    assert_eq!(BaseError::SafetyViolation.message(), "Safety violation: h(x) < 0");
    assert_eq!(BaseError::InvalidCalibration.message(), "Invalid calibration data");
    assert_eq!(BaseError::ProtocolError.message(), "Protocol error");
}
