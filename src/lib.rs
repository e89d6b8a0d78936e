//! Outer-loop height controller for a magnetically levitated display orb.
//!
//! All physical quantities are fixed-point integers:
//! heights in micrometres, actuator commands in microvolts, times in
//! microseconds, temperatures in millidegrees Celsius, bobble frequencies in
//! millihertz, transfer frequencies in hertz and barrier values in millionths.

pub mod arith;
pub mod calibration;
pub mod constants;
pub mod controller;
pub mod error;
pub mod estimators;
pub mod interp;
pub mod levitation;
pub mod motion;
pub mod safety;
pub mod trajectory;

pub use calibration::{CalibrationData, CalibrationPoint, WptCalibrationData};
pub use controller::HeightController;
pub use error::{BaseError, BaseResult};
pub use levitation::{LevitationMode, LevitationModeSimple, LevitationState};
pub use motion::HeightMotionGenerator;
pub use safety::{LevitationSafetyVerifier, SafetyCode, SafetyInterlockManager, SafetyResult};
pub use trajectory::{BobbleAnimation, HeightTrajectory, Wave};
