//! Control-barrier-function safety verification for levitation, and the
//! interlock that debounces its results.
//!
//! Each barrier value is in millionths: one whole means comfortably safe,
//! zero is the boundary and negative is a violation.

use vstd::prelude::*;
use crate::arith::div_floor;
use crate::constants::{
    HEIGHT_MAX_UM, HEIGHT_MIN_UM, MAX_COIL_TEMP_MC, MAX_DESCENT_RATE_UM_S, MAX_OSCILLATION_UM, ONE_PPM,
    WARN_COIL_TEMP_MC,
};
use crate::levitation::LevitationState;

verus! {

/// Safety violation codes.
#[derive(Debug, Clone, Copy, PartialEq, Eq, Structural)]
pub enum SafetyCode {
    /// No violation.
    NoViolation,
    /// Height too high.
    HeightUpperBound,
    /// Height too low.
    HeightLowerBound,
    /// Descending too fast.
    DescentRate,
    /// Excessive oscillation.
    Oscillation,
    /// Coil overtemperature.
    Thermal,
    /// Power supply failure.
    PowerFailure,
}

impl Default for SafetyCode {
    fn default() -> (r: Self)
        ensures
            r == SafetyCode::NoViolation,
    {
        SafetyCode::NoViolation
    }
}

/// Individual barrier values (millionths).
#[derive(Debug, Clone, Copy, PartialEq, Eq, Structural)]
pub struct SafetyConstraints {
    pub h_height_upper: i64,
    pub h_height_lower: i64,
    pub h_descent_rate: i64,
    pub h_oscillation: i64,
    pub h_thermal: i64,
    pub h_power: i64,
}

impl Default for SafetyConstraints {
    fn default() -> (r: Self)
        ensures
            r == (SafetyConstraints {
                h_height_upper: 0,
                h_height_lower: 0,
                h_descent_rate: 0,
                h_oscillation: 0,
                h_thermal: 0,
                h_power: 0,
            }),
    {
        SafetyConstraints {
            h_height_upper: 0,
            h_height_lower: 0,
            h_descent_rate: 0,
            h_oscillation: 0,
            h_thermal: 0,
            h_power: 0,
        }
    }
}

/// Safety verification result.
#[derive(Debug, Clone, Copy, PartialEq, Eq, Structural)]
pub struct SafetyResult {
    /// The smallest barrier value is positive.
    pub safe: bool,
    /// The smallest barrier value (millionths).
    pub margin: i64,
    /// The constraint that gave the smallest value.
    pub limiting_constraint: SafetyCode,
    /// All six barrier values.
    pub constraints: SafetyConstraints,
}

/// The thresholds of a safety verifier.
pub struct SafetyLimits {
    /// Ceiling (µm).
    pub max_height_um: i32,
    /// Floor (µm).
    pub min_height_um: i32,
    /// Largest safe descent rate (µm/s).
    pub max_descent_rate_um_s: i32,
    /// Largest safe peak-to-peak oscillation (µm).
    pub max_oscillation_um: i32,
    /// Hard temperature limit (m°C).
    pub max_coil_temp_mc: i32,
    /// Temperature at which the thermal barrier starts to fall (m°C).
    pub warn_coil_temp_mc: i32,
}

/// Upper height barrier: one whole 10 mm below the ceiling.
pub open spec fn h_height_upper(l: SafetyLimits, s: LevitationState) -> int {
    (l.max_height_um - s.height_um) * 100
}

/// Lower height barrier: one whole 5 mm above the floor.
pub open spec fn h_height_lower(l: SafetyLimits, s: LevitationState) -> int {
    (s.height_um - l.min_height_um) * 200
}

/// Descent-rate barrier: one whole when rising or still.
pub open spec fn h_descent_rate(l: SafetyLimits, s: LevitationState) -> int {
    if s.velocity_um_s >= 0 {
        ONE_PPM as int
    } else {
        (l.max_descent_rate_um_s + s.velocity_um_s) * ONE_PPM / (l.max_descent_rate_um_s as int)
    }
}

/// Oscillation barrier.
pub open spec fn h_oscillation(l: SafetyLimits, s: LevitationState) -> int {
    (l.max_oscillation_um - s.oscillation_amplitude_um) * ONE_PPM / (l.max_oscillation_um as int)
}

/// The hotter of the two monitored coils (m°C).
pub open spec fn hottest(s: LevitationState) -> int {
    if s.electromagnet_temp_mc >= s.wpt_coil_temp_mc {
        s.electromagnet_temp_mc as int
    } else {
        s.wpt_coil_temp_mc as int
    }
}

/// Thermal barrier: one whole below the warning temperature, minus one whole
/// at or above the maximum, linear in between.
pub open spec fn h_thermal(l: SafetyLimits, s: LevitationState) -> int {
    let t = hottest(s);
    if t < l.warn_coil_temp_mc {
        ONE_PPM as int
    } else if t >= l.max_coil_temp_mc {
        -ONE_PPM
    } else {
        (l.max_coil_temp_mc - t) * ONE_PPM / (l.max_coil_temp_mc - l.warn_coil_temp_mc)
    }
}

/// Power barrier: one whole when the supply is OK, else minus one whole.
pub open spec fn h_power(s: LevitationState) -> int {
    if s.power_supply_ok {
        ONE_PPM as int
    } else {
        -ONE_PPM
    }
}

/// The smallest barrier value and the first constraint, in the order
/// upper, lower, descent, oscillation, thermal, power, that gives it.
pub open spec fn limiting(c: SafetyConstraints) -> (i64, SafetyCode) {
    let (m, k) = (c.h_height_upper, SafetyCode::HeightUpperBound);
    let (m, k) = if c.h_height_lower < m { (c.h_height_lower, SafetyCode::HeightLowerBound) } else { (m, k) };
    let (m, k) = if c.h_descent_rate < m { (c.h_descent_rate, SafetyCode::DescentRate) } else { (m, k) };
    let (m, k) = if c.h_oscillation < m { (c.h_oscillation, SafetyCode::Oscillation) } else { (m, k) };
    let (m, k) = if c.h_thermal < m { (c.h_thermal, SafetyCode::Thermal) } else { (m, k) };
    if c.h_power < m { (c.h_power, SafetyCode::PowerFailure) } else { (m, k) }
}

/// The result for a snapshot under a verifier's limits.
pub open spec fn barrier_result(l: SafetyLimits, s: LevitationState) -> SafetyResult {
    let c = SafetyConstraints {
        h_height_upper: h_height_upper(l, s) as i64,
        h_height_lower: h_height_lower(l, s) as i64,
        h_descent_rate: h_descent_rate(l, s) as i64,
        h_oscillation: h_oscillation(l, s) as i64,
        h_thermal: h_thermal(l, s) as i64,
        h_power: h_power(s) as i64,
    };
    SafetyResult { safe: limiting(c).0 > 0, margin: limiting(c).0, limiting_constraint: limiting(c).1, constraints: c }
}

/// Thresholds a verifier can work with: positive rate and oscillation
/// limits, and a warning temperature below the maximum.
pub open spec fn limits_wf(l: SafetyLimits) -> bool {
    &&& l.max_descent_rate_um_s > 0
    &&& l.max_oscillation_um > 0
    &&& l.warn_coil_temp_mc < l.max_coil_temp_mc
}

/// Recommended height-rate adjustment (µm/s, positive rises) for a result.
pub open spec fn correction(r: SafetyResult) -> int {
    let m = r.margin as int;
    let m0 = if m > 0 { m } else { 0 };
    if r.safe && m > ONE_PPM / 2 {
        0
    } else {
        match r.limiting_constraint {
            SafetyCode::HeightUpperBound => -5_000 * (ONE_PPM - m0) / (ONE_PPM as int),
            SafetyCode::HeightLowerBound => 5_000 * (ONE_PPM - m0) / (ONE_PPM as int),
            SafetyCode::DescentRate => 3_000,
            SafetyCode::Oscillation => 0,
            SafetyCode::Thermal => if m < 0 {
                10_000
            } else {
                3_000 * (ONE_PPM - m) / (ONE_PPM as int)
            },
            SafetyCode::PowerFailure => 0,
            SafetyCode::NoViolation => 0,
        }
    }
}

/// Floor division by a positive divisor keeps a value within a range that
/// holds zero.
proof fn lemma_div_within(n: int, d: int, lo: int, hi: int)
    requires
        d >= 1,
        lo <= 0 <= hi,
        lo <= n <= hi,
    ensures
        lo <= n / d <= hi,
{
    vstd::arithmetic::div_mod::lemma_div_is_ordered(lo, n, d);
    vstd::arithmetic::div_mod::lemma_div_is_ordered(n, hi, d);
    vstd::arithmetic::div_mod::lemma_div_is_ordered_by_denominator(hi, 1, d);
    vstd::arithmetic::div_mod::lemma_fundamental_div_mod(lo, d);
    vstd::arithmetic::div_mod::lemma_mod_bound(lo, d);
    assert(lo <= lo / d) by (nonlinear_arith)
        requires
            d >= 1,
            lo <= 0,
            lo == d * (lo / d) + lo % d,
            0 <= lo % d < d,
    ;
}

/// Under usable limits, the computed barrier values fit their ranges.
pub proof fn lemma_barrier_ranges(l: SafetyLimits, s: LevitationState)
    requires
        limits_wf(l),
    ensures
        -0x8_0000_0000_0000 <= h_descent_rate(l, s) <= ONE_PPM,
        -0x10_0000_0000_0000 <= h_oscillation(l, s) <= 0x10_0000_0000_0000,
        -ONE_PPM <= h_thermal(l, s) <= ONE_PPM,
{
    if s.velocity_um_s < 0 {
        let d = l.max_descent_rate_um_s as int;
        let n = (d + s.velocity_um_s) * ONE_PPM;
        assert(n <= d * ONE_PPM);
        vstd::arithmetic::div_mod::lemma_div_multiples_vanish(ONE_PPM as int, d);
        vstd::arithmetic::div_mod::lemma_div_is_ordered(n, d * ONE_PPM, d);
        lemma_div_within(n, d, -0x8000_0000 * ONE_PPM, 0x8000_0000 * ONE_PPM);
    }
    let m = l.max_oscillation_um as int;
    lemma_div_within(
        (m - s.oscillation_amplitude_um) * ONE_PPM,
        m,
        -0x1_0000_0000 * ONE_PPM,
        0x1_0000_0000 * ONE_PPM,
    );
    let t = hottest(s);
    if l.warn_coil_temp_mc <= t < l.max_coil_temp_mc {
        let span = l.max_coil_temp_mc - l.warn_coil_temp_mc;
        let n = (l.max_coil_temp_mc - t) * ONE_PPM;
        assert(0 < n <= span * ONE_PPM);
        vstd::arithmetic::div_mod::lemma_div_multiples_vanish(ONE_PPM as int, span);
        vstd::arithmetic::div_mod::lemma_div_is_ordered(0, n, span);
        vstd::arithmetic::div_mod::lemma_div_is_ordered(n, span * ONE_PPM, span);
    }
}

/// Levitation safety verifier: computes the barrier values of a snapshot.
#[derive(Debug, Clone, Copy)]
pub struct LevitationSafetyVerifier {
    max_height_um: i32,
    min_height_um: i32,
    max_descent_rate_um_s: i32,
    max_oscillation_um: i32,
    max_coil_temp_mc: i32,
    warn_coil_temp_mc: i32,
}

impl View for LevitationSafetyVerifier {
    type V = SafetyLimits;

    closed spec fn view(&self) -> SafetyLimits {
        SafetyLimits {
            max_height_um: self.max_height_um,
            min_height_um: self.min_height_um,
            max_descent_rate_um_s: self.max_descent_rate_um_s,
            max_oscillation_um: self.max_oscillation_um,
            max_coil_temp_mc: self.max_coil_temp_mc,
            warn_coil_temp_mc: self.warn_coil_temp_mc,
        }
    }
}

/// The default limits: ceiling 5 mm above the commanded range, floor 2 mm
/// below it, and the rate, oscillation and temperature limits of the system.
pub open spec fn default_limits() -> SafetyLimits {
    SafetyLimits {
        max_height_um: (HEIGHT_MAX_UM + 5_000) as i32,
        min_height_um: (HEIGHT_MIN_UM - 2_000) as i32,
        max_descent_rate_um_s: MAX_DESCENT_RATE_UM_S,
        max_oscillation_um: MAX_OSCILLATION_UM,
        max_coil_temp_mc: MAX_COIL_TEMP_MC,
        warn_coil_temp_mc: WARN_COIL_TEMP_MC,
    }
}

impl LevitationSafetyVerifier {
    #[verifier::type_invariant]
    spec fn usable(&self) -> bool {
        limits_wf(self@)
    }

    /// A verifier with the default thresholds.
    pub fn new() -> (r: Self)
        ensures
            r@ == default_limits(),
            limits_wf(r@),
    {
        LevitationSafetyVerifier {
            max_height_um: HEIGHT_MAX_UM + 5_000,
            min_height_um: HEIGHT_MIN_UM - 2_000,
            max_descent_rate_um_s: MAX_DESCENT_RATE_UM_S,
            max_oscillation_um: MAX_OSCILLATION_UM,
            max_coil_temp_mc: MAX_COIL_TEMP_MC,
            warn_coil_temp_mc: WARN_COIL_TEMP_MC,
        }
    }

    /// A verifier with custom thresholds; the warning temperature is 15 °C
    /// below `max_temp_mc`.
    pub fn with_thresholds(
        max_height_um: i32,
        min_height_um: i32,
        max_descent_rate_um_s: i32,
        max_oscillation_um: i32,
        max_temp_mc: i32,
    ) -> (r: Self)
        requires
            max_descent_rate_um_s > 0,
            max_oscillation_um > 0,
            max_temp_mc >= i32::MIN + 15_000,
        ensures
            r@ == (SafetyLimits {
                max_height_um,
                min_height_um,
                max_descent_rate_um_s,
                max_oscillation_um,
                max_coil_temp_mc: max_temp_mc,
                warn_coil_temp_mc: (max_temp_mc - 15_000) as i32,
            }),
            limits_wf(r@),
    {
        LevitationSafetyVerifier {
            max_height_um,
            min_height_um,
            max_descent_rate_um_s,
            max_oscillation_um,
            max_coil_temp_mc: max_temp_mc,
            warn_coil_temp_mc: max_temp_mc - 15_000,
        }
    }

    fn descent_barrier(&self, state: &LevitationState) -> (r: i64)
        ensures
            r == h_descent_rate(self@, *state),
            -0x8_0000_0000_0000 <= r <= ONE_PPM,
    {
        proof {
            use_type_invariant(self);
        }
        if state.velocity_um_s >= 0 {
            return ONE_PPM;
        }
        let rate = self.max_descent_rate_um_s as i128;
        let n = (rate + state.velocity_um_s as i128) * 1_000_000;
        let r = div_floor(n, rate);
        proof {
            lemma_barrier_ranges(self@, *state);
        }
        r as i64
    }

    fn oscillation_barrier(&self, state: &LevitationState) -> (r: i64)
        ensures
            r == h_oscillation(self@, *state),
            -0x10_0000_0000_0000 <= r <= 0x10_0000_0000_0000,
    {
        proof {
            use_type_invariant(self);
        }
        let lim = self.max_oscillation_um as i128;
        let n = (lim - state.oscillation_amplitude_um as i128) * 1_000_000;
        let r = div_floor(n, lim);
        proof {
            lemma_barrier_ranges(self@, *state);
        }
        r as i64
    }

    fn thermal_barrier(&self, state: &LevitationState) -> (r: i64)
        ensures
            r == h_thermal(self@, *state),
            -ONE_PPM <= r <= ONE_PPM,
    {
        proof {
            use_type_invariant(self);
        }
        let t = if state.electromagnet_temp_mc >= state.wpt_coil_temp_mc {
            state.electromagnet_temp_mc
        } else {
            state.wpt_coil_temp_mc
        };
        if t < self.warn_coil_temp_mc {
            ONE_PPM
        } else if t >= self.max_coil_temp_mc {
            -ONE_PPM
        } else {
            let span = self.max_coil_temp_mc as i128 - self.warn_coil_temp_mc as i128;
            let n = (self.max_coil_temp_mc as i128 - t as i128) * 1_000_000;
            let r = div_floor(n, span);
            proof {
                lemma_barrier_ranges(self@, *state);
            }
            r as i64
        }
    }

    /// Computes the six barrier values of `state`, their minimum as the
    /// margin, the first constraint that gives it, and whether it is positive.
    pub fn compute_barrier(&self, state: &LevitationState) -> (r: SafetyResult)
        ensures
            r == barrier_result(self@, *state),
            r.constraints.h_height_upper == h_height_upper(self@, *state),
            r.constraints.h_height_lower == h_height_lower(self@, *state),
            r.constraints.h_descent_rate == h_descent_rate(self@, *state),
            r.constraints.h_oscillation == h_oscillation(self@, *state),
            r.constraints.h_thermal == h_thermal(self@, *state),
            r.constraints.h_power == h_power(*state),
            limits_wf(self@),
    {
        proof {
            use_type_invariant(self);
        }
        let constraints = SafetyConstraints {
            h_height_upper: (self.max_height_um as i64 - state.height_um as i64) * 100,
            h_height_lower: (state.height_um as i64 - self.min_height_um as i64) * 200,
            h_descent_rate: self.descent_barrier(state),
            h_oscillation: self.oscillation_barrier(state),
            h_thermal: self.thermal_barrier(state),
            h_power: if state.power_supply_ok {
                ONE_PPM
            } else {
                -ONE_PPM
            },
        };
        let mut m = constraints.h_height_upper;
        let mut k = SafetyCode::HeightUpperBound;
        if constraints.h_height_lower < m {
            m = constraints.h_height_lower;
            k = SafetyCode::HeightLowerBound;
        }
        if constraints.h_descent_rate < m {
            m = constraints.h_descent_rate;
            k = SafetyCode::DescentRate;
        }
        if constraints.h_oscillation < m {
            m = constraints.h_oscillation;
            k = SafetyCode::Oscillation;
        }
        if constraints.h_thermal < m {
            m = constraints.h_thermal;
            k = SafetyCode::Thermal;
        }
        if constraints.h_power < m {
            m = constraints.h_power;
            k = SafetyCode::PowerFailure;
        }
        SafetyResult { safe: m > 0, margin: m, limiting_constraint: k, constraints }
    }

    /// Whether `state` is safe: every barrier value positive.
    pub fn is_safe(&self, state: &LevitationState) -> (r: bool)
        ensures
            r == barrier_result(self@, *state).safe,
    {
        self.compute_barrier(state).safe
    }

    /// The safety margin of `state`: its smallest barrier value.
    pub fn safety_margin(&self, state: &LevitationState) -> (r: i64)
        ensures
            r == barrier_result(self@, *state).margin,
    {
        self.compute_barrier(state).margin
    }

    /// Recommended height-rate adjustment (µm/s, positive rises) for a
    /// result: none when safe with a margin above one half; a counter-move
    /// scaled by one minus the margin for height and thermal limits; a fixed
    /// upward nudge for excess descent; none for oscillation and power loss.
    pub fn corrective_action(&self, result: &SafetyResult) -> (r: i64)
        ensures
            r == correction(*result),
    {
        let m = result.margin;
        if result.safe && m > ONE_PPM / 2 {
            return 0;
        }
        let one = ONE_PPM as i128;
        let m0: i128 = if m > 0 {
            m as i128
        } else {
            0
        };
        let r: i128 = match result.limiting_constraint {
            SafetyCode::HeightUpperBound => div_floor(-5_000 * (one - m0), one),
            SafetyCode::HeightLowerBound => div_floor(5_000 * (one - m0), one),
            SafetyCode::DescentRate => 3_000,
            SafetyCode::Oscillation => 0,
            SafetyCode::Thermal => if m < 0 {
                10_000
            } else {
                div_floor(3_000 * (one - m as i128), one)
            },
            SafetyCode::PowerFailure => 0,
            SafetyCode::NoViolation => 0,
        };
        proof {
            let b = 0x8000_0000_0000_0000int * 5_000;
            let x = if result.limiting_constraint == SafetyCode::HeightUpperBound {
                -5_000 * (one - m0)
            } else if result.limiting_constraint == SafetyCode::HeightLowerBound {
                5_000 * (one - m0)
            } else {
                3_000 * (one - m)
            };
            assert(-b <= x <= b);
            vstd::arithmetic::div_mod::lemma_div_is_ordered(-b, x, one as int);
            vstd::arithmetic::div_mod::lemma_div_is_ordered(x, b, one as int);
        }
        r as i64
    }
}

impl Default for LevitationSafetyVerifier {
    fn default() -> (r: Self)
        ensures
            r@ == default_limits(),
    {
        Self::new()
    }
}

/// A result is safe exactly when all six barrier values are positive.
pub proof fn lemma_safe_iff_all_positive(l: SafetyLimits, s: LevitationState)
    requires
        limits_wf(l),
    ensures
        barrier_result(l, s).safe <==> {
            &&& h_height_upper(l, s) > 0
            &&& h_height_lower(l, s) > 0
            &&& h_descent_rate(l, s) > 0
            &&& h_oscillation(l, s) > 0
            &&& h_thermal(l, s) > 0
            &&& h_power(s) > 0
        },
{
    lemma_barrier_ranges(l, s);
}

/// A power fault is always unsafe, whatever the other values; power is the
/// limiting constraint whenever every other barrier value is above minus
/// one whole.
pub proof fn lemma_power_fault_unsafe(l: SafetyLimits, s: LevitationState)
    requires
        limits_wf(l),
        !s.power_supply_ok,
    ensures
        !barrier_result(l, s).safe,
        barrier_result(l, s).margin <= -ONE_PPM,
        ({
            &&& h_height_upper(l, s) > -ONE_PPM
            &&& h_height_lower(l, s) > -ONE_PPM
            &&& h_descent_rate(l, s) > -ONE_PPM
            &&& h_oscillation(l, s) > -ONE_PPM
            &&& h_thermal(l, s) > -ONE_PPM
        }) ==> barrier_result(l, s).limiting_constraint == SafetyCode::PowerFailure,
{
    lemma_barrier_ranges(l, s);
}

/// Consecutive violations that declare an emergency.
pub const EMERGENCY_AFTER_VIOLATIONS: u32 = 5;

/// Consecutive safe cycles that clear an emergency not under lockout.
pub const CLEAR_AFTER_SAFE_CYCLES: u32 = 100;

/// What an interlock manager holds.
pub struct InterlockState {
    pub safe_cycles: u32,
    pub violation_cycles: u32,
    pub last_margin: i64,
    pub emergency_active: bool,
    pub lockout: bool,
}

/// `n + 1`, held at the largest `u32`.
pub open spec fn count_up(n: u32) -> u32 {
    if n < u32::MAX {
        (n + 1) as u32
    } else {
        n
    }
}

impl InterlockState {
    /// Lockout only ever stands with an emergency.
    pub open spec fn wf(self) -> bool {
        self.lockout ==> self.emergency_active
    }

    /// The state after one result: a safe one counts up the safe cycles and
    /// clears the emergency at the clearing count unless locked out; an
    /// unsafe one counts up the violations and declares the emergency at the
    /// declaring count. Each resets the other counter.
    pub open spec fn after(self, safe: bool, margin: i64) -> InterlockState {
        if safe {
            let sc = count_up(self.safe_cycles);
            InterlockState {
                safe_cycles: sc,
                violation_cycles: 0,
                last_margin: margin,
                emergency_active: if sc >= CLEAR_AFTER_SAFE_CYCLES && !self.lockout {
                    false
                } else {
                    self.emergency_active
                },
                lockout: self.lockout,
            }
        } else {
            let vc = count_up(self.violation_cycles);
            InterlockState {
                safe_cycles: 0,
                violation_cycles: vc,
                last_margin: margin,
                emergency_active: if vc >= EMERGENCY_AFTER_VIOLATIONS {
                    true
                } else {
                    self.emergency_active
                },
                lockout: self.lockout,
            }
        }
    }

    /// The state after lockout.
    pub open spec fn locked_out(self) -> InterlockState {
        InterlockState { emergency_active: true, lockout: true, ..self }
    }

    /// The state after a manual reset: counters zeroed, flags cleared.
    pub open spec fn cleared(self) -> InterlockState {
        InterlockState {
            safe_cycles: 0,
            violation_cycles: 0,
            last_margin: self.last_margin,
            emergency_active: false,
            lockout: false,
        }
    }
}

/// The state after `n` results that are all `safe` (or all unsafe).
pub open spec fn feed(v: InterlockState, safe: bool, margin: i64, n: nat) -> InterlockState
    decreases n,
{
    if n == 0 {
        v
    } else {
        feed(v, safe, margin, (n - 1) as nat).after(safe, margin)
    }
}

/// Safety interlock manager: a two-counter hysteresis filter over
/// successive results that declares and clears the emergency.
#[derive(Debug)]
pub struct SafetyInterlockManager {
    safe_cycles: u32,
    violation_cycles: u32,
    last_margin: i64,
    emergency_active: bool,
    lockout: bool,
}

impl View for SafetyInterlockManager {
    type V = InterlockState;

    closed spec fn view(&self) -> InterlockState {
        InterlockState {
            safe_cycles: self.safe_cycles,
            violation_cycles: self.violation_cycles,
            last_margin: self.last_margin,
            emergency_active: self.emergency_active,
            lockout: self.lockout,
        }
    }
}

/// A fresh interlock: no counts, no emergency.
pub open spec fn fresh_interlock() -> InterlockState {
    InterlockState { safe_cycles: 0, violation_cycles: 0, last_margin: 0, emergency_active: false, lockout: false }
}

impl SafetyInterlockManager {
    /// A fresh interlock.
    pub fn new() -> (r: Self)
        ensures
            r@ == fresh_interlock(),
    {
        SafetyInterlockManager {
            safe_cycles: 0,
            violation_cycles: 0,
            last_margin: 0,
            emergency_active: false,
            lockout: false,
        }
    }

    /// Feeds one result; returns whether the emergency is active.
    pub fn update(&mut self, result: &SafetyResult) -> (r: bool)
        ensures
            final(self)@ == old(self)@.after(result.safe, result.margin),
            r == final(self)@.emergency_active,
    {
        if result.safe {
            if self.safe_cycles < u32::MAX {
                self.safe_cycles = self.safe_cycles + 1;
            }
            self.violation_cycles = 0;
            if self.safe_cycles >= CLEAR_AFTER_SAFE_CYCLES && !self.lockout {
                self.emergency_active = false;
            }
        } else {
            if self.violation_cycles < u32::MAX {
                self.violation_cycles = self.violation_cycles + 1;
            }
            self.safe_cycles = 0;
            if self.violation_cycles >= EMERGENCY_AFTER_VIOLATIONS {
                self.emergency_active = true;
            }
        }
        self.last_margin = result.margin;
        self.emergency_active
    }

    /// Whether the emergency is active.
    pub fn is_emergency(&self) -> (r: bool)
        ensures
            r == self@.emergency_active,
    {
        self.emergency_active
    }

    /// Whether the interlock is locked out.
    pub fn is_locked_out(&self) -> (r: bool)
        ensures
            r == self@.lockout,
    {
        self.lockout
    }

    /// Declares the emergency under lockout, until a manual reset.
    pub fn trigger_lockout(&mut self)
        ensures
            final(self)@ == old(self)@.locked_out(),
    {
        self.lockout = true;
        self.emergency_active = true;
    }

    /// Manual reset, for maintenance: zeroes the counters and clears both flags.
    pub fn reset(&mut self)
        ensures
            final(self)@ == old(self)@.cleared(),
    {
        self.lockout = false;
        self.emergency_active = false;
        self.safe_cycles = 0;
        self.violation_cycles = 0;
    }
}

impl Default for SafetyInterlockManager {
    fn default() -> (r: Self)
        ensures
            r@ == fresh_interlock(),
    {
        Self::new()
    }
}

/// Every operation keeps lockout within an emergency.
pub proof fn lemma_interlock_wf(v: InterlockState, safe: bool, margin: i64)
    requires
        v.wf(),
    ensures
        v.after(safe, margin).wf(),
        v.locked_out().wf(),
        v.cleared().wf(),
{
}

proof fn lemma_violation_count(v: InterlockState, margin: i64, n: nat)
    requires
        !v.emergency_active,
        v.violation_cycles == 0,
        n <= EMERGENCY_AFTER_VIOLATIONS,
    ensures
        feed(v, false, margin, n).violation_cycles == n,
        feed(v, false, margin, n).emergency_active == (n >= EMERGENCY_AFTER_VIOLATIONS),
    decreases n,
{
    if n > 0 {
        lemma_violation_count(v, margin, (n - 1) as nat);
    }
}

/// Starting without an emergency and after a safe result (or fresh), four
/// consecutive unsafe results never declare the emergency, and the fifth
/// does.
pub proof fn lemma_fifth_violation_declares(v: InterlockState, margin: i64, n: nat)
    requires
        !v.emergency_active,
        v.violation_cycles == 0,
    ensures
        1 <= n <= 4 ==> !feed(v, false, margin, n).emergency_active,
        feed(v, false, margin, 5).emergency_active,
{
    if n <= 4 {
        lemma_violation_count(v, margin, n);
    }
    lemma_violation_count(v, margin, 5);
}

proof fn lemma_safe_count(v: InterlockState, margin: i64, n: nat)
    requires
        n <= CLEAR_AFTER_SAFE_CYCLES,
    ensures
        feed(v, true, margin, n).safe_cycles >= n,
        feed(v, true, margin, n).lockout == v.lockout,
    decreases n,
{
    if n > 0 {
        lemma_safe_count(v, margin, (n - 1) as nat);
    }
}

/// An emergency not under lockout is cleared by a hundred consecutive safe
/// results.
pub proof fn lemma_hundred_safe_clear(v: InterlockState, margin: i64)
    requires
        !v.lockout,
    ensures
        !feed(v, true, margin, 100).emergency_active,
{
    lemma_safe_count(v, margin, 100);
}

proof fn lemma_locked_stays(v: InterlockState, margin: i64, n: nat)
    requires
        v.lockout,
        v.emergency_active,
    ensures
        feed(v, true, margin, n).lockout,
        feed(v, true, margin, n).emergency_active,
    decreases n,
{
    if n > 0 {
        lemma_locked_stays(v, margin, (n - 1) as nat);
    }
}

/// After lockout no number of safe results clears the emergency; a manual
/// reset does.
pub proof fn lemma_lockout_sticky(v: InterlockState, margin: i64, n: nat)
    ensures
        feed(v.locked_out(), true, margin, n).emergency_active,
        feed(v.locked_out(), true, margin, n).lockout,
        !feed(v.locked_out(), true, margin, n).cleared().emergency_active,
        !feed(v.locked_out(), true, margin, n).cleared().lockout,
{
    lemma_locked_stays(v.locked_out(), margin, n);
}

} // verus!
