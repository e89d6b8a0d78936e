use orb_base::calibration::{CalibrationData, CalibrationPoint, WptCalibrationData};

fn factory_points() -> Vec<CalibrationPoint> {
    vec![
        CalibrationPoint { height_um: 5_000, adc_value: 3800, dac_uv: 2_500_000 },
        CalibrationPoint { height_um: 10_000, adc_value: 3200, dac_uv: 2_000_000 },
        CalibrationPoint { height_um: 15_000, adc_value: 2600, dac_uv: 1_500_000 },
        CalibrationPoint { height_um: 20_000, adc_value: 2000, dac_uv: 1_000_000 },
        CalibrationPoint { height_um: 25_000, adc_value: 1400, dac_uv: 500_000 },
    ]
}

#[test]
fn test_height_to_dac() {
    let cal = CalibrationData::default();

    // Exact calibration points (within 0.01 V)
    assert!((cal.height_to_dac(5_000) - 2_500_000).abs() < 10_000);
    assert!((cal.height_to_dac(15_000) - 1_500_000).abs() < 10_000);
    assert!((cal.height_to_dac(25_000) - 500_000).abs() < 10_000);

    // Interpolated values
    let v_12 = cal.height_to_dac(12_500);
    assert!(v_12 > 1_500_000 && v_12 < 2_000_000);
}

#[test]
fn test_adc_to_height() {
    let cal = CalibrationData::default();

    // Exact calibration points (within 0.1 mm)
    assert!((cal.adc_to_height(3800) - 5_000).abs() < 100);
    assert!((cal.adc_to_height(2600) - 15_000).abs() < 100);
    assert!((cal.adc_to_height(1400) - 25_000).abs() < 100);

    // Interpolated values
    let h = cal.adc_to_height(2900);
    assert!(h > 12_000 && h < 15_000);
}

#[test]
fn test_calibration_validation() {
    let cal = CalibrationData::default();
    assert!(cal.is_valid());

    // Invalid: heights not monotonic
    let mut points = factory_points();
    points[2].height_um = 5_000;
    let bad_cal = CalibrationData::from_points(&points);
    assert!(!bad_cal.is_valid());
}

#[test]
fn test_wpt_calibration() {
    let wpt = WptCalibrationData::default();

    // Check interpolation
    let f_5 = wpt.optimal_frequency(5_000);
    assert!((f_5 - 132_000).abs() < 100);

    let f_12 = wpt.optimal_frequency(12_500);
    assert!(f_12 > 136_000 && f_12 < 138_000);
}

#[test]
fn interpolation_exact_values() {
    let cal = CalibrationData::new();
    assert_eq!(cal.adc_to_height(2900), 12_500);
    assert_eq!(cal.height_to_dac(12_500), 1_750_000);
    assert_eq!(cal.dac_to_height(1_750_000), 12_500);
    assert_eq!(cal.height_to_dac(12_345), 1_765_500);
    // One third of the way from 3200 to 2600 counts: rounded down.
    assert_eq!(cal.adc_to_height(3000), 11_666);
    let wpt = WptCalibrationData::new();
    assert_eq!(wpt.optimal_frequency(12_500), 137_000);
}

#[test]
fn calibration_clamps_at_the_table_ends() {
    let cal = CalibrationData::new();
    assert_eq!(cal.adc_to_height(4095), 5_000);
    assert_eq!(cal.adc_to_height(0), 25_000);
    assert_eq!(cal.height_to_dac(-3_000), 2_500_000);
    assert_eq!(cal.height_to_dac(40_000), 500_000);
    assert_eq!(cal.dac_to_height(3_300_000), 5_000);
    assert_eq!(cal.dac_to_height(0), 25_000);
    let wpt = WptCalibrationData::new();
    assert_eq!(wpt.optimal_frequency(0), 132_000);
    assert_eq!(wpt.optimal_frequency(24_000), 141_000);
}

#[test]
fn calibration_is_monotone_on_a_valid_table() {
    let cal = CalibrationData::new();
    let mut prev = cal.adc_to_height(0);
    for adc in (0u16..4096).step_by(7) {
        let h = cal.adc_to_height(adc);
        assert!(h <= prev);
        assert!((5_000..=25_000).contains(&h));
        prev = h;
    }
    let mut prev = cal.height_to_dac(-1_000);
    for h in (-1_000i32..31_000).step_by(13) {
        let v = cal.height_to_dac(h);
        assert!(v <= prev);
        assert!((500_000..=2_500_000).contains(&v));
        prev = v;
    }
}

#[test]
fn calibration_validation_rejects_each_fault() {
    assert!(CalibrationData::from_points(&factory_points()).is_valid());
    // Too few points.
    assert!(!CalibrationData::from_points(&factory_points()[..2]).is_valid());
    // Actuator commands not descending.
    let mut p = factory_points();
    p[3].dac_uv = 1_600_000;
    assert!(!CalibrationData::from_points(&p).is_valid());
    // First height below the manufacturing range.
    let mut p = factory_points();
    p[0].height_um = 2_000;
    assert!(!CalibrationData::from_points(&p).is_valid());
    // Last actuator command too high.
    let mut p = factory_points();
    p[4].dac_uv = 1_000_000;
    p[3].dac_uv = 1_200_000;
    assert!(!CalibrationData::from_points(&p).is_valid());
}

#[test]
fn from_points_keeps_at_most_five() {
    let mut p = factory_points();
    p.push(CalibrationPoint { height_um: 30_000, adc_value: 800, dac_uv: 0 });
    let cal = CalibrationData::from_points(&p);
    assert!(cal.is_valid());
    assert_eq!(cal.height_to_dac(25_000), 500_000);
    assert_eq!(cal.adc_to_height(800), 25_000);
}

#[test]
fn version_and_serial() {
    let mut cal = CalibrationData::new();
    assert_eq!(cal.version(), 1);
    assert_eq!(cal.serial(), 0);
    cal.set_version(7);
    cal.set_serial(1234);
    assert_eq!(cal.version(), 7);
    assert_eq!(cal.serial(), 1234);
}

#[test]
fn sensor_mapping_is_monotone_whatever_the_reading_order() {
    let mut p = factory_points();
    p[1].adc_value = 2000;
    p[3].adc_value = 3200;
    let cal = CalibrationData::from_points(&p);
    assert!(cal.is_valid());
    let mut prev = cal.adc_to_height(0);
    for adc in 0u16..4096 {
        let h = cal.adc_to_height(adc);
        assert!(h <= prev);
        assert!((5_000..=25_000).contains(&h));
        prev = h;
    }
    assert_eq!(cal.adc_to_height(3800), 5_000);
    assert_eq!(cal.adc_to_height(1400), 25_000);
}

#[test]
fn actuator_lookup_clamps_at_the_table_ends_not_the_commanded_range() {
    let mut p = factory_points();
    p[0] = CalibrationPoint { height_um: 3_000, adc_value: 4000, dac_uv: 2_500_000 };
    p[4] = CalibrationPoint { height_um: 28_000, adc_value: 1200, dac_uv: 400_000 };
    let cal = CalibrationData::from_points(&p);
    assert!(cal.is_valid());
    assert_eq!(cal.height_to_dac(3_000), 2_500_000);
    assert_eq!(cal.height_to_dac(1_000), 2_500_000);
    assert_eq!(cal.height_to_dac(4_000), 2_428_571);
    assert_eq!(cal.height_to_dac(28_000), 400_000);
    assert_eq!(cal.height_to_dac(35_000), 400_000);
    assert_eq!(cal.height_to_dac(26_000), 550_000);
}
