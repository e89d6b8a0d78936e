//! The height controller: owns calibration, motion generation, safety
//! verification, the interlock and the estimators, and runs the operating
//! mode state machine. `update` is called once per control period; the
//! command methods may be called at any time from the same context.

use vstd::prelude::*;
use crate::arith::{clamp, div_floor};
use crate::calibration::{
    actuator_from_height, frequency_for_height, height_from_sensor, CalibrationData, CalibrationPoint,
    WptCalibrationData,
};
use crate::constants::{
    CONTROL_PERIOD_US, HEIGHT_CHARGE_UM, HEIGHT_FLOAT_UM, HEIGHT_MAX_UM, HEIGHT_MIN_UM, MAX_BOBBLE_AMPLITUDE_UM,
    MAX_BOBBLE_FREQ_MHZ, MIN_BOBBLE_AMPLITUDE_UM, MIN_BOBBLE_FREQ_MHZ, ONE_PPM, STABLE_OSCILLATION_UM,
};
use crate::error::{BaseError, BaseResult};
use crate::estimators::{raw_rate, smoothed, DetectorView, FilterView, OscillationDetector, VelocityFilter, OSCILLATION_WINDOW};
use crate::levitation::{initial_state, LevitationMode, LevitationState};
use crate::motion::{HeightMotionGenerator, MotionView};
use crate::safety::{
    barrier_result, correction, default_limits, fresh_interlock, limits_wf, InterlockState,
    LevitationSafetyVerifier, SafetyLimits, SafetyResult, SafetyInterlockManager,
};
use crate::trajectory::{BobbleAnimation, HeightTrajectory, Wave};

verus! {

/// Duration of a controlled landing (µs).
pub const LANDING_DURATION_US: i64 = 3_000_000;

/// Descent rate reported while landing (µm/s).
pub const LANDING_RATE_UM_S: i32 = 5_000;

/// Duration of the rise to float height after the orb is placed (µs).
pub const PLACEMENT_RISE_US: i64 = 1_500_000;

/// Actuator command before the first tick (µV).
pub const INITIAL_DAC_UV: i32 = 1_500_000;

/// What a height controller holds.
pub struct ControllerView {
    pub calibration: Seq<CalibrationPoint>,
    pub wpt_table: Seq<(i32, i32)>,
    pub motion: MotionView,
    pub state: LevitationState,
    pub mode: LevitationMode,
    pub limits: SafetyLimits,
    pub interlock: InterlockState,
    pub last_adc_value: u16,
    pub last_dac_uv: i32,
    pub filter: FilterView,
    pub detector: DetectorView,
}

/// `x` held to the range of `i32`.
pub open spec fn saturate_i32(x: int) -> i32 {
    clamp(x, i32::MIN as int, i32::MAX as int) as i32
}

/// The snapshot assembled in a tick from the sensor-derived height, the
/// updated estimators and the inputs; the coil temperature of the wireless
/// power side, the mode and the presence flag carry over.
pub open spec fn tick_state(
    v: ControllerView,
    height: int,
    filter: FilterView,
    detector: DetectorView,
    power_ok: bool,
    coil_temp_mc: i32,
) -> LevitationState {
    LevitationState {
        height_um: height as i32,
        velocity_um_s: saturate_i32(filter.velocity_um_s as int),
        oscillation_amplitude_um: saturate_i32(detector.amplitude()),
        electromagnet_temp_mc: coil_temp_mc,
        wpt_coil_temp_mc: v.state.wpt_coil_temp_mc,
        power_supply_ok: power_ok,
        mode: v.mode,
        orb_present: v.state.orb_present,
        stable: detector.amplitude() < STABLE_OSCILLATION_UM,
    }
}

/// The target height of a tick: the motion generator's target, and when the
/// result is unsafe, that target moved by the corrective rate over one
/// period and held to the commanded range.
pub open spec fn corrected_target(target: int, result: SafetyResult) -> int {
    if !result.safe {
        clamp(target + correction(result) * CONTROL_PERIOD_US / (ONE_PPM as int), HEIGHT_MIN_UM as int, HEIGHT_MAX_UM as int)
    } else {
        target
    }
}

/// The outcome of a tick: the next state and the (actuator command µV,
/// transfer frequency Hz) pair, which is (0, 0) while the emergency is
/// active.
pub open spec fn tick(v: ControllerView, adc: u16, power_ok: bool, coil_temp_mc: i32, wave: Wave) -> (
    ControllerView,
    (i32, i32),
) {
    let h = height_from_sensor(v.calibration, adc as int);
    let filter = v.filter.after(h as i32, CONTROL_PERIOD_US as int);
    let detector = v.detector.after(h as i32);
    let st = tick_state(v, h, filter, detector, power_ok, coil_temp_mc);
    let res = barrier_result(v.limits, st);
    let il = v.interlock.after(res.safe, res.margin);
    let v1 = ControllerView { filter, detector, state: st, interlock: il, ..v };
    if il.emergency_active {
        (ControllerView { mode: LevitationMode::EmergencyLanding, ..v1 }, (0, 0))
    } else {
        let step = v.motion.step(CONTROL_PERIOD_US as int, wave);
        let target = corrected_target(step.height_um, res);
        let dac = actuator_from_height(v.calibration, target) as i32;
        let freq = frequency_for_height(v.wpt_table, target) as i32;
        (ControllerView { motion: step.next, last_adc_value: adc, last_dac_uv: dac, ..v1 }, (dac, freq))
    }
}

/// The outcome of `start_bobble`: rejected during an emergency, for an
/// amplitude or frequency out of bounds, or when the bobble would leave the
/// commanded range around the current height; else accepted.
pub open spec fn bobble_check(v: ControllerView, amplitude_um: int, frequency_mhz: int) -> BaseResult<()> {
    let center = v.state.height_um as int;
    if v.interlock.emergency_active {
        Err(BaseError::EmergencyLanding)
    } else if amplitude_um < MIN_BOBBLE_AMPLITUDE_UM || amplitude_um > MAX_BOBBLE_AMPLITUDE_UM {
        Err(BaseError::InvalidAmplitude)
    } else if frequency_mhz < MIN_BOBBLE_FREQ_MHZ || frequency_mhz > MAX_BOBBLE_FREQ_MHZ {
        Err(BaseError::InvalidFrequency)
    } else if center - amplitude_um < HEIGHT_MIN_UM || center + amplitude_um > HEIGHT_MAX_UM {
        Err(BaseError::HeightOutOfRange)
    } else {
        Ok(())
    }
}

/// The outcome of `set_height`: rejected during an emergency or for a target
/// outside the commanded range; else accepted.
pub open spec fn height_check(v: ControllerView, target_um: int) -> BaseResult<()> {
    if v.interlock.emergency_active {
        Err(BaseError::EmergencyLanding)
    } else if target_um < HEIGHT_MIN_UM || target_um > HEIGHT_MAX_UM {
        Err(BaseError::HeightOutOfRange)
    } else {
        Ok(())
    }
}

/// Height controller for the levitation system.
pub struct HeightController {
    height_cal: CalibrationData,
    wpt_cal: WptCalibrationData,
    motion: HeightMotionGenerator,
    state: LevitationState,
    mode: LevitationMode,
    safety_verifier: LevitationSafetyVerifier,
    interlock: SafetyInterlockManager,
    last_adc_value: u16,
    last_dac_voltage_uv: i32,
    velocity_filter: VelocityFilter,
    oscillation_detector: OscillationDetector,
}

impl View for HeightController {
    type V = ControllerView;

    closed spec fn view(&self) -> ControllerView {
        ControllerView {
            calibration: self.height_cal.table(),
            wpt_table: self.wpt_cal.table(),
            motion: self.motion@,
            state: self.state,
            mode: self.mode,
            limits: self.safety_verifier@,
            interlock: self.interlock@,
            last_adc_value: self.last_adc_value,
            last_dac_uv: self.last_dac_voltage_uv,
            filter: self.velocity_filter@,
            detector: self.oscillation_detector@,
        }
    }
}

impl HeightController {
    /// The controller's parts are consistent: a valid calibration table, at
    /// most one motion primitive, lockout only within an emergency, an
    /// oscillation window of the right size, and a snapshot whose height and
    /// velocity are the velocity filter's last height and estimate.
    pub closed spec fn wf(&self) -> bool {
        &&& self.height_cal.wf()
        &&& crate::calibration::valid_table(self.height_cal.table())
        &&& self.velocity_filter@.last_height_um == self.state.height_um
        &&& self.state.velocity_um_s == saturate_i32(self.velocity_filter@.velocity_um_s as int)
        &&& self.motion@.wf()
        &&& self.interlock@.wf()
        &&& limits_wf(self.safety_verifier@)
        &&& self.oscillation_detector@.samples.len() == OSCILLATION_WINDOW
        &&& 0 <= self.oscillation_detector@.index < OSCILLATION_WINDOW
    }

    /// A controller with the factory calibration, at rest, orb lifted.
    pub fn new() -> (r: Self)
        ensures
            r.wf(),
            r@.calibration == crate::calibration::default_points(),
            r@.wpt_table == crate::calibration::default_wpt_points(),
            r@.motion.idle(),
            r@.motion.baseline_um == HEIGHT_FLOAT_UM,
            r@.state == initial_state(),
            r@.mode == LevitationMode::Lifted,
            r@.limits == default_limits(),
            r@.interlock == fresh_interlock(),
            r@.last_adc_value == 0,
            r@.last_dac_uv == INITIAL_DAC_UV,
            r@.filter == (FilterView { last_height_um: 0, velocity_um_s: 0 }),
            !r@.detector.filled,
            r@.detector.index == 0,
    {
        let verifier = LevitationSafetyVerifier::new();
        HeightController {
            height_cal: CalibrationData::new(),
            wpt_cal: WptCalibrationData::new(),
            motion: HeightMotionGenerator::new(),
            state: LevitationState::default(),
            mode: LevitationMode::Lifted,
            safety_verifier: verifier,
            interlock: SafetyInterlockManager::new(),
            last_adc_value: 0,
            last_dac_voltage_uv: INITIAL_DAC_UV,
            velocity_filter: VelocityFilter::new(),
            oscillation_detector: OscillationDetector::new(),
        }
    }

    /// Loads calibration tables. A height table that fails validation is
    /// rejected and nothing changes.
    pub fn set_calibration(&mut self, height: CalibrationData, wpt: WptCalibrationData) -> (r: BaseResult<()>)
        requires
            old(self).wf(),
        ensures
            final(self).wf(),
            crate::calibration::valid_table(height.table()) ==> r == Ok::<(), BaseError>(()) && final(self)@
                == (ControllerView { calibration: height.table(), wpt_table: wpt.table(), ..old(self)@ }),
            !crate::calibration::valid_table(height.table()) ==> r == Err::<(), BaseError>(
                BaseError::InvalidCalibration,
            ) && final(self)@ == old(self)@,
    {
        if !height.is_valid() {
            return Err(BaseError::InvalidCalibration);
        }
        self.height_cal = height;
        self.wpt_cal = wpt;
        Ok(())
    }

    /// The phase (millionths of a turn) at which the next `update` samples
    /// an active animation; zero when none will run. The caller evaluates the
    /// `Wave` there.
    pub fn upcoming_phase(&self) -> (r: i64)
        ensures
            r == self@.motion.upcoming_phase(CONTROL_PERIOD_US as int),
    {
        self.motion.upcoming_phase(CONTROL_PERIOD_US)
    }

    /// One control tick. Maps the sensor reading to a height, updates the
    /// estimators, assembles the snapshot, verifies it and feeds the
    /// interlock. During an emergency the mode becomes `EmergencyLanding` and
    /// (0, 0) is returned, removing all active force. Otherwise the motion
    /// generator advances (`wave` is the wave at `upcoming_phase()`), an
    /// unsafe result blends in the corrective action, and the target maps to
    /// an (actuator command µV, transfer frequency Hz) pair.
    pub fn update(&mut self, adc_value: u16, power_ok: bool, coil_temp_mc: i32, wave: Wave) -> (r: BaseResult<
        (i32, i32),
    >)
        requires
            old(self).wf(),
            wave.wf(),
        ensures
            final(self).wf(),
            final(self)@ == tick(old(self)@, adc_value, power_ok, coil_temp_mc, wave).0,
            r == Ok::<(i32, i32), BaseError>(tick(old(self)@, adc_value, power_ok, coil_temp_mc, wave).1),
            final(self)@.state.velocity_um_s == saturate_i32(
                smoothed(
                    old(self)@.filter.velocity_um_s as int,
                    raw_rate(
                        old(self)@.state.height_um as int,
                        final(self)@.state.height_um as int,
                        CONTROL_PERIOD_US as int,
                    ),
                ),
            ),
    {
        let ghost old_view = self@;
        let dt = CONTROL_PERIOD_US;
        let height = self.height_cal.adc_to_height(adc_value);
        self.velocity_filter.update(height, dt);
        let velocity = self.velocity_filter.velocity();
        self.oscillation_detector.update(height);
        let oscillation = self.oscillation_detector.amplitude();
        let velocity32: i32 = if velocity > i32::MAX as i64 {
            i32::MAX
        } else if velocity < i32::MIN as i64 {
            i32::MIN
        } else {
            velocity as i32
        };
        let oscillation32: i32 = if oscillation > i32::MAX as i64 {
            i32::MAX
        } else {
            oscillation as i32
        };
        self.state = LevitationState {
            height_um: height,
            velocity_um_s: velocity32,
            oscillation_amplitude_um: oscillation32,
            electromagnet_temp_mc: coil_temp_mc,
            wpt_coil_temp_mc: self.state.wpt_coil_temp_mc,
            power_supply_ok: power_ok,
            mode: self.mode,
            orb_present: self.state.orb_present,
            stable: oscillation < STABLE_OSCILLATION_UM as i64,
        };
        let safety_result = self.safety_verifier.compute_barrier(&self.state);
        let emergency = self.interlock.update(&safety_result);
        if emergency {
            self.mode = LevitationMode::EmergencyLanding;
            return Ok((0, 0));
        }
        let (target, _target_velocity) = self.motion.update(dt, wave);
        let corrected: i64 = if !safety_result.safe {
            let correction = self.safety_verifier.corrective_action(&safety_result);
            let shift = div_floor(correction as i128 * CONTROL_PERIOD_US as i128, ONE_PPM as i128);
            let moved = target as i128 + shift;
            if moved < HEIGHT_MIN_UM as i128 {
                HEIGHT_MIN_UM as i64
            } else if moved > HEIGHT_MAX_UM as i128 {
                HEIGHT_MAX_UM as i64
            } else {
                moved as i64
            }
        } else {
            target
        };
        let command_height: i32 = if corrected > i32::MAX as i64 {
            i32::MAX
        } else if corrected < i32::MIN as i64 {
            i32::MIN
        } else {
            corrected as i32
        };
        let dac_voltage = self.height_cal.height_to_dac(command_height);
        let wpt_freq = self.wpt_cal.optimal_frequency(command_height);
        self.last_adc_value = adc_value;
        self.last_dac_voltage_uv = dac_voltage;
        proof {
            let h = clamp(corrected as int, HEIGHT_MIN_UM as int, HEIGHT_MAX_UM as int);
            assert(clamp(command_height as int, HEIGHT_MIN_UM as int, HEIGHT_MAX_UM as int) == h);
            let t = self.height_cal.table();
            assert(t[0].height_um <= 10_000);
            assert(actuator_from_height(t, command_height as int) == actuator_from_height(t, corrected as int));
        }
        Ok((dac_voltage, wpt_freq))
    }

    /// Command: sink to the charging height over two seconds.
    pub fn start_charging(&mut self) -> (r: BaseResult<()>)
        requires
            old(self).wf(),
        ensures
            final(self).wf(),
            old(self)@.interlock.emergency_active ==> r == Err::<(), BaseError>(BaseError::EmergencyLanding)
                && final(self)@ == old(self)@,
            !old(self)@.interlock.emergency_active ==> r == Ok::<(), BaseError>(()) && final(self)@ == (
            ControllerView {
                motion: old(self)@.motion.with_trajectory(
                    HeightTrajectory {
                        start_height_um: old(self)@.state.height_um,
                        target_height_um: HEIGHT_CHARGE_UM,
                        duration_us: 2_000_000,
                        elapsed_us: 0,
                    },
                ),
                mode: LevitationMode::Charging { target_height_um: HEIGHT_CHARGE_UM, charge_rate_mw: 0 },
                ..old(self)@
            }),
    {
        if self.interlock.is_emergency() {
            return Err(BaseError::EmergencyLanding);
        }
        let trajectory = HeightTrajectory::to_charging(self.state.height_um);
        self.motion.start_trajectory(trajectory);
        self.mode = LevitationMode::Charging { target_height_um: HEIGHT_CHARGE_UM, charge_rate_mw: 0 };
        Ok(())
    }

    /// Command: stop charging and rise to the float height over 1.5 seconds.
    pub fn stop_charging(&mut self) -> (r: BaseResult<()>)
        requires
            old(self).wf(),
        ensures
            final(self).wf(),
            old(self)@.interlock.emergency_active ==> r == Err::<(), BaseError>(BaseError::EmergencyLanding)
                && final(self)@ == old(self)@,
            !old(self)@.interlock.emergency_active ==> r == Ok::<(), BaseError>(()) && final(self)@ == (
            ControllerView {
                motion: old(self)@.motion.with_trajectory(
                    HeightTrajectory {
                        start_height_um: old(self)@.state.height_um,
                        target_height_um: HEIGHT_FLOAT_UM,
                        duration_us: 1_500_000,
                        elapsed_us: 0,
                    },
                ),
                mode: LevitationMode::Float { height_um: HEIGHT_FLOAT_UM },
                ..old(self)@
            }),
    {
        if self.interlock.is_emergency() {
            return Err(BaseError::EmergencyLanding);
        }
        let trajectory = HeightTrajectory::to_float(self.state.height_um);
        self.motion.start_trajectory(trajectory);
        self.mode = LevitationMode::Float { height_um: HEIGHT_FLOAT_UM };
        Ok(())
    }

    /// Command: move to `target_um` over `duration_ms` (at least 100 ms).
    pub fn set_height(&mut self, target_um: i32, duration_ms: u32) -> (r: BaseResult<()>)
        requires
            old(self).wf(),
        ensures
            final(self).wf(),
            r == height_check(old(self)@, target_um as int),
            r is Err ==> final(self)@ == old(self)@,
            r is Ok ==> final(self)@ == (ControllerView {
                motion: old(self)@.motion.with_trajectory(
                    HeightTrajectory {
                        start_height_um: old(self)@.state.height_um,
                        target_height_um: target_um,
                        duration_us: if duration_ms as int * 1000 < 100_000 {
                            100_000
                        } else {
                            (duration_ms as int * 1000) as i64
                        },
                        elapsed_us: 0,
                    },
                ),
                mode: LevitationMode::Float { height_um: target_um },
                ..old(self)@
            }),
    {
        if self.interlock.is_emergency() {
            return Err(BaseError::EmergencyLanding);
        }
        if target_um < HEIGHT_MIN_UM || target_um > HEIGHT_MAX_UM {
            return Err(BaseError::HeightOutOfRange);
        }
        let duration_us = duration_ms as i64 * 1000;
        let trajectory = HeightTrajectory::new(self.state.height_um, target_um, duration_us);
        self.motion.start_trajectory(trajectory);
        self.mode = LevitationMode::Float { height_um: target_um };
        Ok(())
    }

    /// Command: bobble around the current height with `amplitude_um` (µm)
    /// at `frequency_mhz` (mHz).
    pub fn start_bobble(&mut self, amplitude_um: i32, frequency_mhz: i32) -> (r: BaseResult<()>)
        requires
            old(self).wf(),
        ensures
            final(self).wf(),
            r == bobble_check(old(self)@, amplitude_um as int, frequency_mhz as int),
            r is Err ==> final(self)@ == old(self)@,
            r is Ok ==> final(self)@ == (ControllerView {
                motion: old(self)@.motion.with_animation(
                    BobbleAnimation::new_spec(old(self)@.state.height_um, amplitude_um, frequency_mhz),
                ),
                mode: LevitationMode::Bobble {
                    center_um: old(self)@.state.height_um,
                    amplitude_um,
                    frequency_mhz,
                },
                ..old(self)@
            }),
    {
        if self.interlock.is_emergency() {
            return Err(BaseError::EmergencyLanding);
        }
        if amplitude_um < MIN_BOBBLE_AMPLITUDE_UM || amplitude_um > MAX_BOBBLE_AMPLITUDE_UM {
            return Err(BaseError::InvalidAmplitude);
        }
        if frequency_mhz < MIN_BOBBLE_FREQ_MHZ || frequency_mhz > MAX_BOBBLE_FREQ_MHZ {
            return Err(BaseError::InvalidFrequency);
        }
        let center = self.state.height_um;
        if (center as i64) - (amplitude_um as i64) < HEIGHT_MIN_UM as i64 || (center as i64) + (amplitude_um as i64)
            > HEIGHT_MAX_UM as i64 {
            return Err(BaseError::HeightOutOfRange);
        }
        let animation = BobbleAnimation::new(center, amplitude_um, frequency_mhz);
        self.motion.start_animation(animation);
        self.mode = LevitationMode::Bobble { center_um: center, amplitude_um, frequency_mhz };
        Ok(())
    }

    /// Command: stop the bobble and hold the current height. Rejected
    /// during an emergency.
    pub fn stop_bobble(&mut self) -> (r: BaseResult<()>)
        requires
            old(self).wf(),
        ensures
            final(self).wf(),
            old(self)@.interlock.emergency_active ==> r == Err::<(), BaseError>(BaseError::EmergencyLanding)
                && final(self)@ == old(self)@,
            !old(self)@.interlock.emergency_active ==> r == Ok::<(), BaseError>(()) && final(self)@ == (
            ControllerView {
                motion: old(self)@.motion.stopped(old(self)@.state.height_um),
                mode: LevitationMode::Float { height_um: old(self)@.state.height_um },
                ..old(self)@
            }),
    {
        if self.interlock.is_emergency() {
            return Err(BaseError::EmergencyLanding);
        }
        self.motion.stop(self.state.height_um);
        self.mode = LevitationMode::Float { height_um: self.state.height_um };
        Ok(())
    }

    /// Command: controlled landing to the minimum height over three seconds.
    /// Rejected during an emergency, which lands passively.
    pub fn land(&mut self) -> (r: BaseResult<()>)
        requires
            old(self).wf(),
        ensures
            final(self).wf(),
            old(self)@.interlock.emergency_active ==> r == Err::<(), BaseError>(BaseError::EmergencyLanding)
                && final(self)@ == old(self)@,
            !old(self)@.interlock.emergency_active ==> r == Ok::<(), BaseError>(()) && final(self)@ == (
            ControllerView {
                motion: old(self)@.motion.with_trajectory(
                    HeightTrajectory {
                        start_height_um: old(self)@.state.height_um,
                        target_height_um: HEIGHT_MIN_UM,
                        duration_us: LANDING_DURATION_US,
                        elapsed_us: 0,
                    },
                ),
                mode: LevitationMode::Landing {
                    current_height_um: old(self)@.state.height_um,
                    descent_rate_um_s: LANDING_RATE_UM_S,
                },
                ..old(self)@
            }),
    {
        if self.interlock.is_emergency() {
            return Err(BaseError::EmergencyLanding);
        }
        let trajectory = HeightTrajectory::new(self.state.height_um, HEIGHT_MIN_UM, LANDING_DURATION_US);
        self.motion.start_trajectory(trajectory);
        self.mode = LevitationMode::Landing {
            current_height_um: self.state.height_um,
            descent_rate_um_s: LANDING_RATE_UM_S,
        };
        Ok(())
    }

    /// Command: emergency landing; locks the interlock out until a reset.
    pub fn emergency_land(&mut self)
        requires
            old(self).wf(),
        ensures
            final(self).wf(),
            final(self)@ == (ControllerView {
                interlock: old(self)@.interlock.locked_out(),
                mode: LevitationMode::EmergencyLanding,
                ..old(self)@
            }),
    {
        self.interlock.trigger_lockout();
        self.mode = LevitationMode::EmergencyLanding;
    }

    /// Reset after manual intervention: clears the interlock, holds the
    /// current height, mode float at the default height.
    pub fn reset(&mut self) -> (r: BaseResult<()>)
        requires
            old(self).wf(),
        ensures
            final(self).wf(),
            r == Ok::<(), BaseError>(()),
            final(self)@ == (ControllerView {
                interlock: old(self)@.interlock.cleared(),
                motion: old(self)@.motion.stopped(old(self)@.state.height_um),
                mode: LevitationMode::Float { height_um: HEIGHT_FLOAT_UM },
                ..old(self)@
            }),
    {
        self.interlock.reset();
        self.motion.stop(self.state.height_um);
        self.mode = LevitationMode::Float { height_um: HEIGHT_FLOAT_UM };
        Ok(())
    }

    /// The current snapshot.
    pub fn state(&self) -> (r: &LevitationState)
        ensures
            *r == self@.state,
    {
        &self.state
    }

    /// The current mode.
    pub fn mode(&self) -> (r: LevitationMode)
        ensures
            r == self@.mode,
    {
        self.mode
    }

    /// The result on the current snapshot.
    pub fn safety_status(&self) -> (r: SafetyResult)
        ensures
            r == barrier_result(self@.limits, self@.state),
    {
        self.safety_verifier.compute_barrier(&self.state)
    }

    /// Whether the emergency is active.
    pub fn is_emergency(&self) -> (r: bool)
        ensures
            r == self@.interlock.emergency_active,
    {
        self.interlock.is_emergency()
    }

    /// Notification: the orb was lifted off the base.
    pub fn on_orb_lifted(&mut self)
        requires
            old(self).wf(),
        ensures
            final(self).wf(),
            final(self)@ == (ControllerView {
                motion: old(self)@.motion.stopped(0),
                mode: LevitationMode::Lifted,
                ..old(self)@
            }),
    {
        self.mode = LevitationMode::Lifted;
        self.motion.stop(0);
    }

    /// Notification: the orb was placed on the base. Unless locked out, it
    /// rises from the minimum to the float height.
    pub fn on_orb_placed(&mut self)
        requires
            old(self).wf(),
        ensures
            final(self).wf(),
            old(self)@.interlock.lockout ==> final(self)@ == old(self)@,
            !old(self)@.interlock.lockout ==> final(self)@ == (ControllerView {
                motion: old(self)@.motion.with_trajectory(
                    HeightTrajectory {
                        start_height_um: HEIGHT_MIN_UM,
                        target_height_um: HEIGHT_FLOAT_UM,
                        duration_us: PLACEMENT_RISE_US,
                        elapsed_us: 0,
                    },
                ),
                mode: LevitationMode::Float { height_um: HEIGHT_FLOAT_UM },
                ..old(self)@
            }),
    {
        if !self.interlock.is_locked_out() {
            self.mode = LevitationMode::Float { height_um: HEIGHT_FLOAT_UM };
            let trajectory = HeightTrajectory::new(HEIGHT_MIN_UM, HEIGHT_FLOAT_UM, PLACEMENT_RISE_US);
            self.motion.start_trajectory(trajectory);
        }
    }

    /// Records the charging power (mW) reported by the wireless-power side;
    /// only the charging mode carries it.
    pub fn set_charge_power(&mut self, power_mw: i32)
        requires
            old(self).wf(),
        ensures
            final(self).wf(),
            final(self)@ == (ControllerView {
                mode: match old(self)@.mode {
                    LevitationMode::Charging { target_height_um, .. } => LevitationMode::Charging {
                        target_height_um,
                        charge_rate_mw: power_mw,
                    },
                    m => m,
                },
                ..old(self)@
            }),
    {
        if let LevitationMode::Charging { target_height_um, .. } = self.mode {
            self.mode = LevitationMode::Charging { target_height_um, charge_rate_mw: power_mw };
        }
    }
}

impl Default for HeightController {
    fn default() -> (r: Self)
        ensures
            r.wf(),
            r@.mode == LevitationMode::Lifted,
            r@.interlock == fresh_interlock(),
    {
        Self::new()
    }
}

/// An amplitude above the bound is rejected at any center, so is a
/// frequency above the bound, and a bobble of 3 mm at 0.5 Hz is accepted at
/// a center of 15 mm when no emergency is active.
pub proof fn lemma_bobble_bounds(v: ControllerView)
    ensures
        bobble_check(v, 15_000, 500) is Err,
        bobble_check(v, 3_000, 5_000) is Err,
        !v.interlock.emergency_active && v.state.height_um == 15_000 ==> bobble_check(v, 3_000, 500) == Ok::<
            (),
            BaseError,
        >(()),
{
}

} // verus!
