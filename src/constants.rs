//! Height control constants, in the fixed-point units of the crate.

use vstd::prelude::*;

verus! {

/// Minimum commanded height (µm).
pub const HEIGHT_MIN_UM: i32 = 5_000;

/// Maximum commanded height (µm).
pub const HEIGHT_MAX_UM: i32 = 25_000;

/// Default float height (µm).
pub const HEIGHT_FLOAT_UM: i32 = 20_000;

/// Optimal charging height (µm).
pub const HEIGHT_CHARGE_UM: i32 = 5_000;

/// Maximum descent rate (µm/s).
pub const MAX_DESCENT_RATE_UM_S: i32 = 15_000;

/// Smallest accepted bobble amplitude (µm).
pub const MIN_BOBBLE_AMPLITUDE_UM: i32 = 1_000;

/// Maximum bobble amplitude (µm).
pub const MAX_BOBBLE_AMPLITUDE_UM: i32 = 8_000;

/// Minimum bobble frequency (mHz).
pub const MIN_BOBBLE_FREQ_MHZ: i32 = 100;

/// Maximum bobble frequency (mHz).
pub const MAX_BOBBLE_FREQ_MHZ: i32 = 2_000;

/// Control loop rate (Hz).
pub const CONTROL_RATE_HZ: u32 = 100;

/// Control loop period (ms).
pub const CONTROL_PERIOD_MS: u64 = 10;

/// Control loop period (µs).
pub const CONTROL_PERIOD_US: i64 = 10_000;

/// Actuator command at 5 mm height (µV).
pub const DAC_UV_AT_5MM: i32 = 2_500_000;

/// Actuator command at 25 mm height (µV).
pub const DAC_UV_AT_25MM: i32 = 500_000;

/// Maximum oscillation before instability (µm, peak to peak).
pub const MAX_OSCILLATION_UM: i32 = 5_000;

/// Oscillation below which the orb counts as stable (µm): 70% of the maximum.
pub const STABLE_OSCILLATION_UM: i32 = 3_500;

/// Electromagnet maximum temperature (m°C).
pub const MAX_COIL_TEMP_MC: i32 = 80_000;

/// Temperature warning threshold (m°C).
pub const WARN_COIL_TEMP_MC: i32 = 65_000;

/// One whole in millionths: the unit of barrier values and ratios.
pub const ONE_PPM: i64 = 1_000_000;

} // verus!
