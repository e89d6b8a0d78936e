use orb_base::calibration::{CalibrationData, CalibrationPoint, WptCalibrationData};
use orb_base::controller::HeightController;
use orb_base::error::BaseError;
use orb_base::estimators::{OscillationDetector, VelocityFilter};
use orb_base::levitation::LevitationMode;
use orb_base::trajectory::Wave;

fn wave_at(phase_utr: i64) -> Wave {
    let theta = 2.0 * std::f64::consts::PI * (phase_utr as f64) / 1_000_000.0;
    Wave {
        sine_ppm: (theta.sin() * 1_000_000.0).round() as i32,
        slope_ppm: (2.0 * std::f64::consts::PI * theta.cos() * 1_000_000.0).round() as i32,
    }
}

fn tick(c: &mut HeightController, adc: u16, power_ok: bool, temp_mc: i32) -> (i32, i32) {
    let w = wave_at(c.upcoming_phase());
    c.update(adc, power_ok, temp_mc, w).unwrap()
}

/// A controller whose last snapshot puts the orb at 15 mm.
fn at_15mm() -> HeightController {
    let mut c = HeightController::new();
    tick(&mut c, 2600, true, 45_000);
    assert_eq!(c.state().height_um, 15_000);
    // 0.3 × 15 mm / 10 ms from the initial height of zero.
    assert_eq!(c.state().velocity_um_s, 450_000);
    c
}

#[test]
fn test_controller_initialization() {
    let controller = HeightController::new();
    assert_eq!(controller.mode(), LevitationMode::Lifted);
    assert!(!controller.is_emergency());
}

#[test]
fn test_bobble_validation() {
    let mut controller = at_15mm();

    // Valid bobble should succeed
    assert!(controller.start_bobble(3_000, 500).is_ok());

    // Invalid amplitude should fail
    controller.stop_bobble().unwrap();
    assert!(controller.start_bobble(15_000, 500).is_err());

    // Invalid frequency should fail
    assert!(controller.start_bobble(3_000, 5_000).is_err());
}

#[test]
fn test_velocity_filter() {
    let mut filter = VelocityFilter::new();

    // Simulate rising at 10 mm/s
    for i in 0..10 {
        let height = 10_000 + i * 100; // 0.1 mm per step
        filter.update(height, 10_000); // 100 Hz = 0.01 s period
    }

    // The rate is 10 mm/s, but the filter starts at height zero, so the first
    // sample counts a jump of 10 mm in one period; with a weight of 0.3 on
    // each sample, ten samples leave about 21.7 mm/s.
    let v = filter.velocity();
    assert!(v > 20_000 && v < 23_000);
}

#[test]
fn test_oscillation_detector() {
    let mut detector = OscillationDetector::new();

    // Simulate 2 mm oscillation
    for i in 0..40 {
        let phase = (i as f32) * 0.2;
        let height = 15_000.0 + 1_000.0 * libm::sinf(phase);
        detector.update(height.round() as i32);
    }

    let amp = detector.amplitude();
    assert!(amp > 1_500 && amp < 2_500);
}

#[test]
fn velocity_filter_exact_values() {
    let mut f = VelocityFilter::default();
    // From height zero: a raw rate of 1 m/s, weighted 0.3.
    f.update(10_000, 10_000);
    assert_eq!(f.velocity(), 300_000);
    f.update(10_100, 10_000);
    assert_eq!(f.velocity(), 213_000);
    f.update(10_200, 10_000);
    assert_eq!(f.velocity(), 152_100);
    // A non-positive period changes nothing, not even the last height.
    f.update(50_000, 0);
    assert_eq!(f.velocity(), 152_100);
    f.update(10_200, 10_000);
    assert_eq!(f.velocity(), 106_470);
}

#[test]
fn oscillation_detector_cold_start() {
    let mut d = OscillationDetector::default();
    for i in 0..31 {
        d.update(if i % 2 == 0 { 10_000 } else { 20_000 });
        assert_eq!(d.amplitude(), 0);
    }
    d.update(12_000);
    assert_eq!(d.amplitude(), 10_000);
    for _ in 0..32 {
        d.update(14_000);
    }
    assert_eq!(d.amplitude(), 0);
}

#[test]
fn bobble_rejections() {
    let mut c = at_15mm();
    assert_eq!(c.start_bobble(500, 500), Err(BaseError::InvalidAmplitude));
    assert_eq!(c.start_bobble(8_001, 500), Err(BaseError::InvalidAmplitude));
    assert_eq!(c.start_bobble(3_000, 50), Err(BaseError::InvalidFrequency));
    assert_eq!(c.start_bobble(3_000, 2_001), Err(BaseError::InvalidFrequency));
    assert_eq!(c.mode(), LevitationMode::Lifted);
    let mut low = HeightController::new();
    tick(&mut low, 3600, true, 45_000);
    assert_eq!(low.start_bobble(3_000, 500), Err(BaseError::HeightOutOfRange));
    assert!(c.start_bobble(8_000, 2_000).is_ok());
    assert_eq!(c.mode(), LevitationMode::Bobble { center_um: 15_000, amplitude_um: 8_000, frequency_mhz: 2_000 });
}

#[test]
fn set_height_checks_range() {
    let mut c = at_15mm();
    assert_eq!(c.set_height(4_999, 1_000), Err(BaseError::HeightOutOfRange));
    assert_eq!(c.set_height(25_001, 1_000), Err(BaseError::HeightOutOfRange));
    assert_eq!(c.set_height(18_000, 1_000), Ok(()));
    assert_eq!(c.mode(), LevitationMode::Float { height_um: 18_000 });
}

#[test]
fn commands_rejected_during_emergency() {
    let mut c = at_15mm();
    c.emergency_land();
    assert!(c.is_emergency());
    assert_eq!(c.mode(), LevitationMode::EmergencyLanding);
    assert_eq!(c.start_charging(), Err(BaseError::EmergencyLanding));
    assert_eq!(c.stop_charging(), Err(BaseError::EmergencyLanding));
    assert_eq!(c.set_height(15_000, 1_000), Err(BaseError::EmergencyLanding));
    assert_eq!(c.start_bobble(3_000, 500), Err(BaseError::EmergencyLanding));
    assert_eq!(c.stop_bobble(), Err(BaseError::EmergencyLanding));
    assert_eq!(c.land(), Err(BaseError::EmergencyLanding));
    assert_eq!(c.mode(), LevitationMode::EmergencyLanding);
    // Placement is ignored under lockout.
    c.on_orb_placed();
    assert_eq!(c.mode(), LevitationMode::EmergencyLanding);
    // Ticks during the emergency command no force.
    assert_eq!(tick(&mut c, 2600, true, 45_000), (0, 0));
    assert_eq!(c.reset(), Ok(()));
    assert!(!c.is_emergency());
    assert_eq!(c.mode(), LevitationMode::Float { height_um: 20_000 });
    assert_eq!(c.start_charging(), Ok(()));
}

#[test]
fn sustained_violation_forces_emergency_landing() {
    let mut c = HeightController::new();
    for _ in 0..4 {
        let (dac, _) = tick(&mut c, 2600, false, 45_000);
        assert!(dac > 0);
    }
    assert_eq!(tick(&mut c, 2600, false, 45_000), (0, 0));
    assert_eq!(c.mode(), LevitationMode::EmergencyLanding);
    assert!(c.is_emergency());
}

#[test]
fn nominal_tick_outputs() {
    let mut c = at_15mm();
    // Idle generator holds the float height: 20 mm gives 1.0 V and 141 kHz.
    assert_eq!(tick(&mut c, 2600, true, 45_000), (1_000_000, 141_000));
    assert!(c.safety_status().safe);
    c.on_orb_lifted();
    assert_eq!(c.mode(), LevitationMode::Lifted);
    assert_eq!(tick(&mut c, 2600, true, 45_000), (2_500_000, 132_000));
}

#[test]
fn charging_and_landing() {
    let mut c = at_15mm();
    assert_eq!(c.start_charging(), Ok(()));
    assert_eq!(c.mode(), LevitationMode::Charging { target_height_um: 5_000, charge_rate_mw: 0 });
    c.set_charge_power(4_500);
    assert_eq!(c.mode(), LevitationMode::Charging { target_height_um: 5_000, charge_rate_mw: 4_500 });
    for _ in 0..200 {
        tick(&mut c, 2600, true, 45_000);
    }
    assert_eq!(tick(&mut c, 2600, true, 45_000), (2_500_000, 132_000));
    assert_eq!(c.stop_charging(), Ok(()));
    assert_eq!(c.mode(), LevitationMode::Float { height_um: 20_000 });
    c.set_charge_power(1);
    assert_eq!(c.mode(), LevitationMode::Float { height_um: 20_000 });
    assert_eq!(c.land(), Ok(()));
    assert_eq!(c.mode(), LevitationMode::Landing { current_height_um: 15_000, descent_rate_um_s: 5_000 });
}

#[test]
fn placement_rises_to_float() {
    let mut c = at_15mm();
    c.on_orb_placed();
    assert_eq!(c.mode(), LevitationMode::Float { height_um: 20_000 });
    let (first, _) = tick(&mut c, 2600, true, 45_000);
    assert!(first < 2_500_000 && first > 2_400_000);
    for _ in 0..200 {
        tick(&mut c, 2600, true, 45_000);
    }
    assert_eq!(tick(&mut c, 2600, true, 45_000), (1_000_000, 141_000));
}

#[test]
fn calibration_load_is_validated() {
    let mut c = HeightController::default();
    let bad = CalibrationData::from_points(&[
        CalibrationPoint { height_um: 5_000, adc_value: 3800, dac_uv: 2_500_000 },
        CalibrationPoint { height_um: 10_000, adc_value: 3200, dac_uv: 2_000_000 },
    ]);
    assert_eq!(c.set_calibration(bad, WptCalibrationData::new()), Err(BaseError::InvalidCalibration));
    let good = CalibrationData::from_points(&[
        CalibrationPoint { height_um: 4_000, adc_value: 4000, dac_uv: 3_000_000 },
        CalibrationPoint { height_um: 14_000, adc_value: 3000, dac_uv: 2_000_000 },
        CalibrationPoint { height_um: 24_000, adc_value: 2000, dac_uv: 500_000 },
    ]);
    assert_eq!(c.set_calibration(good, WptCalibrationData::new()), Ok(()));
    tick(&mut c, 3000, true, 45_000);
    assert_eq!(c.state().height_um, 14_000);
}
