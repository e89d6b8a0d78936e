//! Error types for the base station.

use vstd::prelude::*;

verus! {

/// Base station error types.
#[derive(Debug, Clone, Copy, PartialEq, Eq, Structural)]
pub enum BaseError {
    /// Height out of the valid range (5-25 mm).
    HeightOutOfRange,
    /// Invalid bobble amplitude.
    InvalidAmplitude,
    /// Invalid bobble frequency.
    InvalidFrequency,
    /// Levitation unstable.
    LevitationUnstable,
    /// Emergency landing in progress.
    EmergencyLanding,
    /// A calibration table failed validation and was not loaded.
    InvalidCalibration,
    /// DAC communication failed.
    DacError,
    /// ADC read failed.
    AdcError,
    /// I2C bus error.
    I2cError,
    /// Hall sensor fault.
    HallSensorFault,
    /// Wireless power transfer fault.
    WptFault,
    /// Foreign object detected.
    ForeignObjectDetected,
    /// Coil overtemperature.
    CoilOvertemperature,
    /// Control barrier function violation.
    SafetyViolation,
    /// Power supply fault.
    PowerSupplyFault,
    /// Orb communication timeout.
    OrbTimeout,
    /// Protocol error.
    ProtocolError,
}

/// The human-readable description of each error.
pub open spec fn error_message(e: BaseError) -> Seq<char> {
    match e {
        BaseError::HeightOutOfRange => "Height out of range (5-25mm)"@,
        BaseError::InvalidAmplitude => "Invalid bobble amplitude"@,
        BaseError::InvalidFrequency => "Invalid bobble frequency"@,
        BaseError::LevitationUnstable => "Levitation unstable"@,
        BaseError::EmergencyLanding => "Emergency landing triggered"@,
        BaseError::InvalidCalibration => "Invalid calibration data"@,
        BaseError::DacError => "DAC communication failed"@,
        BaseError::AdcError => "ADC read failed"@,
        BaseError::I2cError => "I2C bus error"@,
        BaseError::HallSensorFault => "Hall sensor fault"@,
        BaseError::WptFault => "Wireless power transfer fault"@,
        BaseError::ForeignObjectDetected => "Foreign object detected"@,
        BaseError::CoilOvertemperature => "Coil overtemperature"@,
        BaseError::SafetyViolation => "Safety violation: h(x) < 0"@,
        BaseError::PowerSupplyFault => "Power supply fault"@,
        BaseError::OrbTimeout => "Orb communication timeout"@,
        BaseError::ProtocolError => "Protocol error"@,
    }
}

impl BaseError {
    /// Describes the error in words.
    pub fn message(&self) -> (r: &'static str)
        ensures
            r@ == error_message(*self),
    {
        match self {
            BaseError::HeightOutOfRange => "Height out of range (5-25mm)",
            BaseError::InvalidAmplitude => "Invalid bobble amplitude",
            BaseError::InvalidFrequency => "Invalid bobble frequency",
            BaseError::LevitationUnstable => "Levitation unstable",
            BaseError::EmergencyLanding => "Emergency landing triggered",
            BaseError::InvalidCalibration => "Invalid calibration data",
            BaseError::DacError => "DAC communication failed",
            BaseError::AdcError => "ADC read failed",
            BaseError::I2cError => "I2C bus error",
            BaseError::HallSensorFault => "Hall sensor fault",
            BaseError::WptFault => "Wireless power transfer fault",
            BaseError::ForeignObjectDetected => "Foreign object detected",
            BaseError::CoilOvertemperature => "Coil overtemperature",
            BaseError::SafetyViolation => "Safety violation: h(x) < 0",
            BaseError::PowerSupplyFault => "Power supply fault",
            BaseError::OrbTimeout => "Orb communication timeout",
            BaseError::ProtocolError => "Protocol error",
        }
    }
}

/// Result type for base station operations.
pub type BaseResult<T> = Result<T, BaseError>;

} // verus!
