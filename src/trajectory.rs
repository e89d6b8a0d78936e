//! Motion primitives for height control: smoothstep moves between two
//! heights, sinusoidal bobble animations, and the generator that runs at most
//! one of them on top of a held baseline.

use vstd::prelude::*;
use crate::arith::{clamp, div_floor, mod_floor, sat_add_i64, saturating_add_i64};
use crate::constants::{HEIGHT_CHARGE_UM, HEIGHT_FLOAT_UM, ONE_PPM};
use crate::interp::{between, lemma_lerp, lerp};

verus! {

/// Shortest trajectory duration (µs).
pub const MIN_TRAJECTORY_US: i64 = 100_000;

/// Largest magnitude of `Wave::slope_ppm`: 2π in millionths, rounded up.
pub const MAX_SLOPE_PPM: i32 = 6_283_186;

/// Fraction of the way through `dur` at time `t`, in millionths, rounded down.
pub open spec fn progress_ppm(t: int, dur: int) -> int {
    t * ONE_PPM / dur
}

/// Smoothstep `3s² − 2s³` of a progress `s` in millionths, in millionths.
pub open spec fn smoothstep_ppm(s: int) -> int {
    s * s * (3 * ONE_PPM - 2 * s) / (ONE_PPM * ONE_PPM)
}

/// Derivative `6s(1 − s)` of smoothstep at a progress `s` in millionths, in millionths.
pub open spec fn smoothstep_slope_ppm(s: int) -> int {
    6 * s * (ONE_PPM - s) / (ONE_PPM as int)
}

/// Height (µm) at time `t` (µs) of a smoothstep move from `start` to `target`
/// lasting `dur`.
pub open spec fn trajectory_position(start: int, target: int, dur: int, t: int) -> int {
    if t >= dur {
        target
    } else if t <= 0 {
        start
    } else {
        lerp(0, ONE_PPM as int, start, target, smoothstep_ppm(progress_ppm(t, dur)))
    }
}

/// Vertical velocity (µm/s) at time `t` (µs) of that move: zero outside the
/// open interval `(0, dur)`.
pub open spec fn trajectory_velocity(start: int, target: int, dur: int, t: int) -> int {
    if t <= 0 || t >= dur {
        0
    } else {
        (target - start) * smoothstep_slope_ppm(progress_ppm(t, dur)) / dur
    }
}

proof fn lemma_smoothstep_bounds(s: int)
    requires
        0 <= s <= ONE_PPM,
    ensures
        0 <= smoothstep_ppm(s) <= ONE_PPM,
        0 <= smoothstep_slope_ppm(s) <= 3 * ONE_PPM / 2,
        0 <= s * s * (3 * ONE_PPM - 2 * s) <= ONE_PPM * ONE_PPM * ONE_PPM,
        0 <= 6 * s * (ONE_PPM - s) <= 3 * ONE_PPM * ONE_PPM / 2,
{
    let one = ONE_PPM as int;
    assert(0 <= s * s * (3 * one - 2 * s) <= one * one * one) by (nonlinear_arith)
        requires
            0 <= s <= one,
            one == 1_000_000,
    {
        assert(one * one * one - s * s * (3 * one - 2 * s) == (one - s) * (one - s) * (one + 2 * s));
        assert((one - s) * (one - s) >= 0);
        assert((one - s) * (one - s) * (one + 2 * s) >= 0);
    }
    vstd::arithmetic::div_mod::lemma_div_is_ordered(0, s * s * (3 * one - 2 * s), one * one);
    vstd::arithmetic::div_mod::lemma_div_is_ordered(s * s * (3 * one - 2 * s), one * one * one, one * one);
    vstd::arithmetic::div_mod::lemma_div_multiples_vanish(one, one * one);
    assert(0 <= 6 * s * (one - s) <= 3 * one * one / 2) by (nonlinear_arith)
        requires
            0 <= s <= one,
            one == 1_000_000,
    {
        assert(one * one - 4 * s * (one - s) == (one - 2 * s) * (one - 2 * s));
    }
    vstd::arithmetic::div_mod::lemma_div_is_ordered(0, 6 * s * (one - s), one);
    vstd::arithmetic::div_mod::lemma_div_is_ordered(6 * s * (one - s), 3 * one * one / 2, one);
}

proof fn lemma_progress_bounds(t: int, dur: int)
    requires
        0 < t < dur,
    ensures
        0 <= progress_ppm(t, dur) < ONE_PPM,
{
    vstd::arithmetic::div_mod::lemma_div_is_ordered(0, t * ONE_PPM, dur);
    assert(t * ONE_PPM <= dur * ONE_PPM - ONE_PPM) by (nonlinear_arith)
        requires
            0 < t < dur,
    ;
    vstd::arithmetic::div_mod::lemma_div_is_ordered(t * ONE_PPM, dur * ONE_PPM - 1, dur);
    assert((dur * ONE_PPM - 1) / dur < ONE_PPM) by {
        vstd::arithmetic::div_mod::lemma_fundamental_div_mod(dur * ONE_PPM - 1, dur);
        vstd::arithmetic::div_mod::lemma_mod_bound(dur * ONE_PPM - 1, dur);
        let q = (dur * ONE_PPM - 1) / dur;
        assert(q < ONE_PPM) by (nonlinear_arith)
            requires
                dur > 0,
                dur * ONE_PPM - 1 == dur * q + (dur * ONE_PPM - 1) % dur,
                0 <= (dur * ONE_PPM - 1) % dur,
        ;
    }
}

/// Trajectory generator for smooth height transitions: a smoothstep
/// profile, with zero velocity at both ends.
#[derive(Debug, Clone, Copy, PartialEq, Eq, Structural)]
pub struct HeightTrajectory {
    /// Starting height (µm).
    pub start_height_um: i32,
    /// Target height (µm).
    pub target_height_um: i32,
    /// Total duration (µs).
    pub duration_us: i64,
    /// Elapsed time (µs).
    pub elapsed_us: i64,
}

impl HeightTrajectory {
    /// Height (µm) at time `t` (µs).
    pub open spec fn position(&self, t: int) -> int {
        trajectory_position(self.start_height_um as int, self.target_height_um as int, self.duration_us as int, t)
    }

    /// Velocity (µm/s) at time `t` (µs).
    pub open spec fn velocity(&self, t: int) -> int {
        trajectory_velocity(self.start_height_um as int, self.target_height_um as int, self.duration_us as int, t)
    }

    /// The trajectory after `dt` more microseconds.
    pub open spec fn advanced(&self, dt: int) -> Self {
        HeightTrajectory { elapsed_us: sat_add_i64(self.elapsed_us as int, dt) as i64, ..*self }
    }

    /// Whether the elapsed time has reached the duration.
    pub open spec fn done(&self) -> bool {
        self.elapsed_us >= self.duration_us
    }

    /// A move from `start` to `target` (µm) over `duration_us`, held to at
    /// least the shortest duration.
    pub fn new(start: i32, target: i32, duration_us: i64) -> (r: Self)
        ensures
            r.start_height_um == start,
            r.target_height_um == target,
            r.duration_us == if duration_us < MIN_TRAJECTORY_US { MIN_TRAJECTORY_US } else { duration_us },
            r.elapsed_us == 0,
    {
        HeightTrajectory {
            start_height_um: start,
            target_height_um: target,
            duration_us: if duration_us < MIN_TRAJECTORY_US { MIN_TRAJECTORY_US } else { duration_us },
            elapsed_us: 0,
        }
    }

    /// A two-second move from `current_height` down to the charging height.
    pub fn to_charging(current_height: i32) -> (r: Self)
        ensures
            r == (HeightTrajectory {
                start_height_um: current_height,
                target_height_um: HEIGHT_CHARGE_UM,
                duration_us: 2_000_000,
                elapsed_us: 0,
            }),
    {
        Self::new(current_height, HEIGHT_CHARGE_UM, 2_000_000)
    }

    /// A 1.5-second move from `current_height` to the float height.
    pub fn to_float(current_height: i32) -> (r: Self)
        ensures
            r == (HeightTrajectory {
                start_height_um: current_height,
                target_height_um: HEIGHT_FLOAT_UM,
                duration_us: 1_500_000,
                elapsed_us: 0,
            }),
    {
        Self::new(current_height, HEIGHT_FLOAT_UM, 1_500_000)
    }

    /// Height (µm) at time `t` (µs): the start at or before 0, the target
    /// from the duration on, and the smoothstep blend in between.
    pub fn sample(&self, t: i64) -> (r: i32)
        ensures
            r == self.position(t as int),
            between(r as int, self.start_height_um as int, self.target_height_um as int),
    {
        if t >= self.duration_us {
            return self.target_height_um;
        }
        if t <= 0 {
            return self.start_height_um;
        }
        let one = ONE_PPM as i128;
        let s = div_floor(t as i128 * one, self.duration_us as i128);
        proof {
            lemma_progress_bounds(t as int, self.duration_us as int);
            lemma_smoothstep_bounds(s as int);
            assert(0 <= s * s <= 1_000_000_000_000) by (nonlinear_arith)
                requires
                    0 <= s <= 1_000_000,
            ;
        }
        let blend = div_floor(s * s * (3 * one - 2 * s), one * one);
        let dh = self.target_height_um as i128 - self.start_height_um as i128;
        proof {
            assert(-0x2_0000_0000 * 1_000_000 <= blend * dh <= 0x2_0000_0000 * 1_000_000) by (nonlinear_arith)
                requires
                    -0x2_0000_0000 <= dh <= 0x2_0000_0000,
                    0 <= blend <= 1_000_000,
            ;
        }
        let step = div_floor(blend * dh, one);
        proof {
            lemma_lerp(
                0,
                ONE_PPM as int,
                self.start_height_um as int,
                self.target_height_um as int,
                blend as int,
                blend as int,
            );
        }
        (self.start_height_um as i128 + step) as i32
    }

    /// Velocity (µm/s) at time `t` (µs): the derivative of the smoothstep,
    /// zero at and beyond both ends.
    pub fn sample_velocity(&self, t: i64) -> (r: i64)
        ensures
            r == self.velocity(t as int),
    {
        if t <= 0 || t >= self.duration_us {
            return 0;
        }
        let one = ONE_PPM as i128;
        let s = div_floor(t as i128 * one, self.duration_us as i128);
        proof {
            lemma_progress_bounds(t as int, self.duration_us as int);
            lemma_smoothstep_bounds(s as int);
        }
        let slope = div_floor(6 * s * (one - s), one);
        let dh = self.target_height_um as i128 - self.start_height_um as i128;
        proof {
            assert(-0x2_0000_0000 * 2_000_000 <= dh * slope <= 0x2_0000_0000 * 2_000_000) by (nonlinear_arith)
                requires
                    -0x2_0000_0000 <= dh <= 0x2_0000_0000,
                    0 <= slope <= 1_500_000,
            ;
        }
        let v = div_floor(dh * slope, self.duration_us as i128);
        proof {
            let n = dh * slope;
            let d = self.duration_us as int;
            if n >= 0 {
                vstd::arithmetic::div_mod::lemma_div_is_ordered(0, n, d);
                vstd::arithmetic::div_mod::lemma_div_is_ordered_by_denominator(n, 1, d);
            } else {
                vstd::arithmetic::div_mod::lemma_div_is_ordered(n, 0, d);
                assert(n <= n / d) by {
                    vstd::arithmetic::div_mod::lemma_fundamental_div_mod(n, d);
                    vstd::arithmetic::div_mod::lemma_mod_bound(n, d);
                    assert(n <= n / d) by (nonlinear_arith)
                        requires
                            d > 0,
                            n < 0,
                            n == d * (n / d) + n % d,
                            0 <= n % d < d,
                    ;
                }
            }
        }
        v as i64
    }

    /// Advances the elapsed time by `dt` (µs, saturating); reports whether the
    /// trajectory is complete.
    pub fn update(&mut self, dt: i64) -> (r: bool)
        ensures
            *final(self) == old(self).advanced(dt as int),
            r == final(self).done(),
    {
        self.elapsed_us = saturating_add_i64(self.elapsed_us, dt);
        self.elapsed_us >= self.duration_us
    }

    /// Height (µm) at the elapsed time.
    pub fn current(&self) -> (r: i32)
        ensures
            r == self.position(self.elapsed_us as int),
    {
        self.sample(self.elapsed_us)
    }

    /// Velocity (µm/s) at the elapsed time.
    pub fn current_velocity(&self) -> (r: i64)
        ensures
            r == self.velocity(self.elapsed_us as int),
    {
        self.sample_velocity(self.elapsed_us)
    }

    /// Whether the trajectory is complete.
    pub fn is_complete(&self) -> (r: bool)
        ensures
            r == self.done(),
    {
        self.elapsed_us >= self.duration_us
    }

    /// Progress in millionths: elapsed over duration, held to `[0, 1]`.
    pub fn progress(&self) -> (r: i64)
        requires
            self.duration_us > 0,
        ensures
            r == clamp(progress_ppm(self.elapsed_us as int, self.duration_us as int), 0, ONE_PPM as int),
    {
        let p = div_floor(self.elapsed_us as i128 * ONE_PPM as i128, self.duration_us as i128);
        if p < 0 {
            0
        } else if p > ONE_PPM as i128 {
            ONE_PPM
        } else {
            p as i64
        }
    }
}

/// Half an odd duration, rounded down, is just short of the middle: the
/// progress there is within six millionths of one half, the smoothstep
/// within nine, and the slope still at least one whole.
proof fn lemma_odd_middle(d: int)
    requires
        d >= MIN_TRAJECTORY_US,
        d % 2 == 1,
    ensures
        499_994 <= progress_ppm(d / 2, d) <= 499_999,
        499_991 <= smoothstep_ppm(progress_ppm(d / 2, d)) <= 500_000,
        smoothstep_slope_ppm(progress_ppm(d / 2, d)) >= ONE_PPM,
{
    let h = d / 2;
    assert(2 * h == d - 1);
    let n = h * ONE_PPM;
    assert(499_994 * d <= n < 500_000 * d);
    let s = n / d;
    vstd::arithmetic::div_mod::lemma_fundamental_div_mod(n, d);
    vstd::arithmetic::div_mod::lemma_mod_bound(n, d);
    assert(499_994 <= s <= 499_999) by (nonlinear_arith)
        requires
            d > 0,
            n == d * s + n % d,
            0 <= n % d < d,
            499_994 * d <= n < 500_000 * d,
    ;
    let e = 500_000 - s;
    let one = ONE_PPM as int;
    assert(s * s * (3 * one - 2 * s) == 500_000_000_000_000_000 - 1_500_000_000_000 * e + 2 * e * e * e)
        by (nonlinear_arith)
        requires
            s == 500_000 - e,
            one == 1_000_000,
    ;
    assert(0 <= e * e * e <= 216) by (nonlinear_arith)
        requires
            1 <= e <= 6,
    ;
    let f = s * s * (3 * one - 2 * s);
    assert(one * one == 1_000_000_000_000) by (nonlinear_arith)
        requires
            one == 1_000_000,
    ;
    assert(499_991_000_000_000_000 <= f <= 500_000_000_000_000_000) by (nonlinear_arith)
        requires
            f == 500_000_000_000_000_000 - 1_500_000_000_000 * e + 2 * e * e * e,
            0 <= e * e * e <= 216,
            1 <= e <= 6,
    ;
    assert(499_991 * (one * one) <= f <= 500_000 * (one * one));
    vstd::arithmetic::div_mod::lemma_div_multiples_vanish(499_991, one * one);
    vstd::arithmetic::div_mod::lemma_div_multiples_vanish(500_000, one * one);
    vstd::arithmetic::div_mod::lemma_div_is_ordered(499_991 * (one * one), f, one * one);
    vstd::arithmetic::div_mod::lemma_div_is_ordered(f, 500_000 * (one * one), one * one);
    assert(6 * s * (one - s) == 1_500_000_000_000 - 6 * e * e) by (nonlinear_arith)
        requires
            s == 500_000 - e,
            one == 1_000_000,
    ;
    assert(6 * e * e <= 216) by (nonlinear_arith)
        requires
            1 <= e <= 6,
    ;
    vstd::arithmetic::div_mod::lemma_div_multiples_vanish(1_000_000, one);
    vstd::arithmetic::div_mod::lemma_div_is_ordered(one * one, 6 * s * (one - s), one);
}

/// A smoothstep within nine millionths of one half puts a move of at most
/// 40 m within half a millimetre of its midpoint.
proof fn lemma_near_half(blend: int, dh: int)
    requires
        499_991 <= blend <= 500_000,
        -40_000_000 <= dh <= 40_000_000,
    ensures
        -1000 <= 2 * (blend * dh / 1_000_000) - dh <= 1000,
{
    let c = 500_000 - blend;
    let n = blend * dh;
    assert(n == 500_000 * dh - c * dh) by (nonlinear_arith)
        requires
            c == 500_000 - blend,
            n == blend * dh,
    ;
    assert(-360_000_000 <= c * dh <= 360_000_000) by (nonlinear_arith)
        requires
            0 <= c <= 9,
            -40_000_000 <= dh <= 40_000_000,
    ;
    vstd::arithmetic::div_mod::lemma_fundamental_div_mod(n, 1_000_000);
    vstd::arithmetic::div_mod::lemma_mod_bound(n, 1_000_000);
}

/// A slope of at least one whole makes the speed at least the average speed
/// of the move, up to rounding.
proof fn lemma_fast_middle(dh: int, slope: int, d: int)
    requires
        slope >= ONE_PPM,
        d > 0,
    ensures
        dh >= 0 ==> dh * slope / d >= dh * ONE_PPM / d,
        dh < 0 ==> dh * slope / d <= dh * ONE_PPM / d,
{
    if dh >= 0 {
        assert(dh * slope >= dh * ONE_PPM) by (nonlinear_arith)
            requires
                dh >= 0,
                slope >= ONE_PPM,
        ;
        vstd::arithmetic::div_mod::lemma_div_is_ordered(dh * ONE_PPM, dh * slope, d);
    } else {
        assert(dh * slope <= dh * ONE_PPM) by (nonlinear_arith)
            requires
                dh < 0,
                slope >= ONE_PPM,
        ;
        vstd::arithmetic::div_mod::lemma_div_is_ordered(dh * slope, dh * ONE_PPM, d);
    }
}

/// The start, the end and the middle of every trajectory: it begins at its
/// start height and ends at its target height, both with zero velocity; at
/// half its duration it is within half a millimetre of the midpoint of the
/// two heights (within one micrometre when the duration is even; an odd
/// duration needs a move of at most 40 m), and its speed there is at least
/// the average speed of the move, up to the rounding of each: one and a half
/// times it, rounded down, when the duration is even.
pub proof fn lemma_trajectory_shape(tr: HeightTrajectory)
    requires
        tr.duration_us >= MIN_TRAJECTORY_US,
        tr.duration_us % 2 == 0 || -40_000_000 <= tr.target_height_um - tr.start_height_um <= 40_000_000,
    ensures
        tr.position(0) == tr.start_height_um,
        tr.position(tr.duration_us as int) == tr.target_height_um,
        tr.velocity(0) == 0,
        tr.velocity(tr.duration_us as int) == 0,
        ({
            let mid = tr.position(tr.duration_us as int / 2);
            let twice_mid = tr.start_height_um + tr.target_height_um;
            &&& -1000 <= 2 * mid - twice_mid <= 1000
            &&& tr.duration_us % 2 == 0 ==> -2 <= 2 * mid - twice_mid <= 2
        }),
        ({
            let dh = tr.target_height_um - tr.start_height_um;
            let v = tr.velocity(tr.duration_us as int / 2);
            &&& dh >= 0 ==> v >= dh * ONE_PPM / (tr.duration_us as int)
            &&& dh < 0 ==> v <= dh * ONE_PPM / (tr.duration_us as int)
            &&& tr.duration_us % 2 == 0 ==> v == dh * 1_500_000 / (tr.duration_us as int)
        }),
{
    let d = tr.duration_us as int;
    let h = d / 2;
    let dh = tr.target_height_um - tr.start_height_um;
    if d % 2 == 0 {
        assert(d == 2 * h);
        assert(h * ONE_PPM == 500_000 * d);
        vstd::arithmetic::div_mod::lemma_div_multiples_vanish(500_000, d);
        assert(progress_ppm(h, d) == 500_000);
        assert(500_000int * 500_000 * (3 * 1_000_000 - 2 * 500_000) == 500_000 * (1_000_000int * 1_000_000))
            by (nonlinear_arith);
        vstd::arithmetic::div_mod::lemma_div_multiples_vanish(500_000, 1_000_000int * 1_000_000);
        assert(smoothstep_ppm(500_000) == 500_000);
        assert(6 * 500_000int * (1_000_000 - 500_000) == 1_500_000 * 1_000_000int) by (nonlinear_arith);
        vstd::arithmetic::div_mod::lemma_div_multiples_vanish(1_500_000, 1_000_000);
        assert(smoothstep_slope_ppm(500_000) == 1_500_000);
        assert(2 * (500_000 * dh / 1_000_000) - dh <= 2 && 2 * (500_000 * dh / 1_000_000) - dh >= -2) by {
            vstd::arithmetic::div_mod::lemma_fundamental_div_mod(500_000 * dh, 1_000_000);
            vstd::arithmetic::div_mod::lemma_mod_bound(500_000 * dh, 1_000_000);
        }
        lemma_fast_middle(dh, 1_500_000, d);
    } else {
        lemma_odd_middle(d);
        let s = progress_ppm(h, d);
        lemma_near_half(smoothstep_ppm(s), dh);
        lemma_fast_middle(dh, smoothstep_slope_ppm(s), d);
    }
}

/// The sine of an animation's phase and its derivative per turn, computed
/// by the caller: `sine_ppm` is `sin(2πθ)` and `slope_ppm` is `2π·cos(2πθ)`,
/// both in millionths, for the phase `θ` in turns.
#[derive(Debug, Clone, Copy, PartialEq, Eq, Structural)]
pub struct Wave {
    /// `sin(2πθ)` in millionths.
    pub sine_ppm: i32,
    /// `2π·cos(2πθ)` in millionths.
    pub slope_ppm: i32,
}

impl Wave {
    /// Both values lie in the range that a sine and its slope can take.
    pub open spec fn wf(&self) -> bool {
        &&& -ONE_PPM <= self.sine_ppm <= ONE_PPM
        &&& -MAX_SLOPE_PPM <= self.slope_ppm <= MAX_SLOPE_PPM
    }

    /// The wave at phase zero: sine 0, slope 2π.
    pub fn at_zero_phase() -> (r: Self)
        ensures
            r.sine_ppm == 0,
            r.slope_ppm == 6_283_185,
            r.wf(),
    {
        Wave { sine_ppm: 0, slope_ppm: 6_283_185 }
    }
}

/// Sinusoidal bobble animation around a center height.
#[derive(Debug, Clone, Copy, PartialEq, Eq, Structural)]
pub struct BobbleAnimation {
    /// Center height (µm).
    pub center_height_um: i32,
    /// Oscillation amplitude (µm).
    pub amplitude_um: i32,
    /// Oscillation frequency (mHz).
    pub frequency_mhz: i32,
    /// Phase offset (millionths of a turn).
    pub phase_utr: i32,
    /// Optional duration limit (µs); `None` runs forever.
    pub duration_us: Option<i64>,
    /// Elapsed time (µs).
    pub elapsed_us: i64,
}

impl BobbleAnimation {
    /// Phase at time `t` (µs), in millionths of a turn, in `[0, 1)` turns.
    pub open spec fn phase_at(&self, t: int) -> int {
        (self.frequency_mhz * t / 1000 + self.phase_utr) % (ONE_PPM as int)
    }

    /// Whether a bounded animation has run its course by time `t`.
    pub open spec fn finished_at(&self, t: int) -> bool {
        match self.duration_us {
            Some(d) => t >= d,
            None => false,
        }
    }

    /// Height (µm) at time `t`, given `sine_ppm` of the phase at `t`.
    pub open spec fn position(&self, t: int, sine_ppm: int) -> int {
        if self.finished_at(t) {
            self.center_height_um as int
        } else {
            self.center_height_um + self.amplitude_um * sine_ppm / (ONE_PPM as int)
        }
    }

    /// Velocity (µm/s) at time `t`, given `slope_ppm` of the phase at `t`.
    pub open spec fn velocity(&self, t: int, slope_ppm: int) -> int {
        if self.finished_at(t) {
            0
        } else {
            self.amplitude_um * self.frequency_mhz * slope_ppm / 1_000_000_000
        }
    }

    /// The animation after `dt` more microseconds.
    pub open spec fn advanced(&self, dt: int) -> Self {
        BobbleAnimation { elapsed_us: sat_add_i64(self.elapsed_us as int, dt) as i64, ..*self }
    }

    /// Whether the elapsed time has reached a set duration.
    pub open spec fn done(&self) -> bool {
        self.finished_at(self.elapsed_us as int)
    }

    /// An unbounded animation with phase zero.
    pub fn new(center: i32, amplitude: i32, frequency_mhz: i32) -> (r: Self)
        ensures
            r == (BobbleAnimation {
                center_height_um: center,
                amplitude_um: amplitude,
                frequency_mhz,
                phase_utr: 0,
                duration_us: None,
                elapsed_us: 0,
            }),
    {
        BobbleAnimation {
            center_height_um: center,
            amplitude_um: amplitude,
            frequency_mhz,
            phase_utr: 0,
            duration_us: None,
            elapsed_us: 0,
        }
    }

    /// The same animation, ending after `duration_us`.
    pub fn with_duration(self, duration_us: i64) -> (r: Self)
        ensures
            r == (BobbleAnimation { duration_us: Some(duration_us), ..self }),
    {
        BobbleAnimation { duration_us: Some(duration_us), ..self }
    }

    /// The same animation, starting at phase `phase_utr` (millionths of a turn).
    pub fn with_phase(self, phase_utr: i32) -> (r: Self)
        ensures
            r == (BobbleAnimation { phase_utr, ..self }),
    {
        BobbleAnimation { phase_utr, ..self }
    }

    /// A gentle breathing animation: 3 mm at 0.3 Hz.
    pub fn breathing(center: i32) -> (r: Self)
        ensures
            r == Self::new_spec(center, 3_000, 300),
    {
        Self::new(center, 3_000, 300)
    }

    /// An excited animation: 5 mm at 0.8 Hz.
    pub fn excited(center: i32) -> (r: Self)
        ensures
            r == Self::new_spec(center, 5_000, 800),
    {
        Self::new(center, 5_000, 800)
    }

    /// A nod: 4 mm at 1.2 Hz, for two seconds.
    pub fn nod(center: i32) -> (r: Self)
        ensures
            r == (BobbleAnimation { duration_us: Some(2_000_000), ..Self::new_spec(center, 4_000, 1_200) }),
    {
        Self::new(center, 4_000, 1_200).with_duration(2_000_000)
    }

    /// What `new` returns.
    pub open spec fn new_spec(center: i32, amplitude: i32, frequency_mhz: i32) -> Self {
        BobbleAnimation {
            center_height_um: center,
            amplitude_um: amplitude,
            frequency_mhz,
            phase_utr: 0,
            duration_us: None,
            elapsed_us: 0,
        }
    }

    /// Phase (millionths of a turn) at time `t` (µs): the value whose sine
    /// and slope `sample` and `sample_velocity` take.
    pub fn phase(&self, t: i64) -> (r: i64)
        ensures
            r == self.phase_at(t as int),
            0 <= r < ONE_PPM,
    {
        proof {
            assert(-0x8000_0000_0000_0000_0000_0000int <= self.frequency_mhz * t <= 0x8000_0000_0000_0000_0000_0000int)
                by (nonlinear_arith)
                requires
                    -0x8000_0000 <= self.frequency_mhz <= 0x8000_0000,
                    -0x8000_0000_0000_0000 <= t <= 0x8000_0000_0000_0000,
            ;
        }
        let turns = div_floor(self.frequency_mhz as i128 * t as i128, 1000);
        proof {
            let n = self.frequency_mhz as int * t;
            if n >= 0 {
                vstd::arithmetic::div_mod::lemma_div_is_ordered(0, n, 1000);
                vstd::arithmetic::div_mod::lemma_div_is_ordered_by_denominator(n, 1, 1000);
            } else {
                vstd::arithmetic::div_mod::lemma_div_is_ordered(n, 0, 1000);
                vstd::arithmetic::div_mod::lemma_div_is_ordered(n, n / 1000, 1000);
            }
        }
        mod_floor(turns + self.phase_utr as i128, ONE_PPM as i128) as i64
    }

    /// Height (µm) at time `t` (µs), given `wave` at the phase at `t`: the
    /// center once a bounded animation has ended.
    pub fn sample(&self, t: i64, wave: Wave) -> (r: i64)
        ensures
            r == self.position(t as int, wave.sine_ppm as int),
    {
        if let Some(d) = self.duration_us {
            if t >= d {
                return self.center_height_um as i64;
            }
        }
        proof {
            assert(-0x4000_0000_0000_0000 <= self.amplitude_um as int * wave.sine_ppm <= 0x4000_0000_0000_0000)
                by (nonlinear_arith)
                requires
                    -0x8000_0000 <= self.amplitude_um <= 0x8000_0000,
                    -0x8000_0000 <= wave.sine_ppm <= 0x8000_0000,
            ;
        }
        let swing = div_floor(self.amplitude_um as i128 * wave.sine_ppm as i128, ONE_PPM as i128);
        proof {
            let n = self.amplitude_um as int * wave.sine_ppm;
            if n >= 0 {
                vstd::arithmetic::div_mod::lemma_div_is_ordered(0, n, ONE_PPM as int);
                vstd::arithmetic::div_mod::lemma_div_is_ordered_by_denominator(n, 1, ONE_PPM as int);
            } else {
                vstd::arithmetic::div_mod::lemma_div_is_ordered(n, 0, ONE_PPM as int);
                vstd::arithmetic::div_mod::lemma_div_is_ordered(-0x4000_0000_0000_0000, n, ONE_PPM as int);
            }
        }
        (self.center_height_um as i128 + swing) as i64
    }

    /// Velocity (µm/s) at time `t` (µs), given `wave` at the phase at `t`:
    /// zero once a bounded animation has ended.
    pub fn sample_velocity(&self, t: i64, wave: Wave) -> (r: i64)
        requires
            wave.wf(),
        ensures
            r == self.velocity(t as int, wave.slope_ppm as int),
    {
        if let Some(d) = self.duration_us {
            if t >= d {
                return 0;
            }
        }
        proof {
            assert(-0x4000_0000_0000_0000 <= self.amplitude_um as int * self.frequency_mhz <= 0x4000_0000_0000_0000)
                by (nonlinear_arith)
                requires
                    -0x8000_0000 <= self.amplitude_um <= 0x8000_0000,
                    -0x8000_0000 <= self.frequency_mhz <= 0x8000_0000,
            ;
        }
        let af = self.amplitude_um as i128 * self.frequency_mhz as i128;
        proof {
            assert(-0x4000_0000_0000_0000 * 0x80_0000 <= af * wave.slope_ppm <= 0x4000_0000_0000_0000 * 0x80_0000)
                by (nonlinear_arith)
                requires
                    -0x4000_0000_0000_0000 <= af <= 0x4000_0000_0000_0000,
                    -0x80_0000 <= wave.slope_ppm <= 0x80_0000,
            ;
        }
        let v = div_floor(af * wave.slope_ppm as i128, 1_000_000_000);
        proof {
            let n = af * wave.slope_ppm;
            let lim = 0x4000_0000_0000_0000 * 0x80_0000int;
            if n >= 0 {
                vstd::arithmetic::div_mod::lemma_div_is_ordered(0, n, 1_000_000_000);
                vstd::arithmetic::div_mod::lemma_div_is_ordered(n, lim, 1_000_000_000);
            } else {
                vstd::arithmetic::div_mod::lemma_div_is_ordered(n, 0, 1_000_000_000);
                vstd::arithmetic::div_mod::lemma_div_is_ordered(-lim, n, 1_000_000_000);
            }
        }
        v as i64
    }

    /// Advances the elapsed time by `dt` (µs, saturating); reports whether a
    /// bounded animation has ended. An unbounded one never ends.
    pub fn update(&mut self, dt: i64) -> (r: bool)
        ensures
            *final(self) == old(self).advanced(dt as int),
            r == final(self).done(),
    {
        self.elapsed_us = saturating_add_i64(self.elapsed_us, dt);
        self.is_complete()
    }

    /// Height (µm) at the elapsed time, given `wave` at the current phase.
    pub fn current(&self, wave: Wave) -> (r: i64)
        ensures
            r == self.position(self.elapsed_us as int, wave.sine_ppm as int),
    {
        self.sample(self.elapsed_us, wave)
    }

    /// Velocity (µm/s) at the elapsed time, given `wave` at the current phase.
    pub fn current_velocity(&self, wave: Wave) -> (r: i64)
        requires
            wave.wf(),
        ensures
            r == self.velocity(self.elapsed_us as int, wave.slope_ppm as int),
    {
        self.sample_velocity(self.elapsed_us, wave)
    }

    /// Whether a bounded animation has ended.
    pub fn is_complete(&self) -> (r: bool)
        ensures
            r == self.done(),
    {
        match self.duration_us {
            Some(d) => self.elapsed_us >= d,
            None => false,
        }
    }
}

} // verus!
