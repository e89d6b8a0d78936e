//! Estimators fed with each height sample: a smoothed vertical velocity and
//! the peak-to-peak oscillation over a fixed window.

use vstd::prelude::*;
use crate::arith::div_floor;
use crate::constants::ONE_PPM;

verus! {

/// Largest velocity magnitude the filter can hold (µm/s).
pub const VELOCITY_BOUND: i64 = 0x1_0000_0000 * 1_000_000;

/// Number of height samples in the oscillation window.
pub const OSCILLATION_WINDOW: usize = 32;

/// What a velocity filter holds.
pub struct FilterView {
    pub last_height_um: i32,
    pub velocity_um_s: i64,
}

/// Finite-difference rate (µm/s) from `last` to `height` (µm) over `dt` (µs).
pub open spec fn raw_rate(last: int, height: int, dt: int) -> int {
    (height - last) * ONE_PPM / dt
}

/// Exponential moving average with weight three tenths on the new sample.
pub open spec fn smoothed(previous: int, raw: int) -> int {
    (3 * raw + 7 * previous) / 10
}

impl FilterView {
    /// The filter after a sample `height` taken `dt` after the previous one:
    /// with a positive `dt` the average takes in the rate since the last
    /// height, which becomes `height`; otherwise nothing changes.
    pub open spec fn after(self, height: i32, dt: int) -> FilterView {
        if dt > 0 {
            FilterView {
                last_height_um: height,
                velocity_um_s: smoothed(
                    self.velocity_um_s as int,
                    raw_rate(self.last_height_um as int, height as int, dt),
                ) as i64,
            }
        } else {
            self
        }
    }
}

/// Velocity estimator: an exponential moving average of the finite-difference
/// height rate, weighted towards responsiveness.
#[derive(Debug, Clone, Copy)]
pub struct VelocityFilter {
    last_height_um: i32,
    velocity_um_s: i64,
}

impl View for VelocityFilter {
    type V = FilterView;

    closed spec fn view(&self) -> FilterView {
        FilterView { last_height_um: self.last_height_um, velocity_um_s: self.velocity_um_s }
    }
}

impl VelocityFilter {
    #[verifier::type_invariant]
    spec fn bounded(&self) -> bool {
        -VELOCITY_BOUND <= self.velocity_um_s <= VELOCITY_BOUND
    }

    /// A filter at rest at height zero.
    pub fn new() -> (r: Self)
        ensures
            r@ == (FilterView { last_height_um: 0, velocity_um_s: 0 }),
    {
        VelocityFilter { last_height_um: 0, velocity_um_s: 0 }
    }

    /// Feeds a height sample (µm) taken `dt_us` after the previous one.
    pub fn update(&mut self, height_um: i32, dt_us: i64)
        ensures
            final(self)@ == old(self)@.after(height_um, dt_us as int),
            dt_us > 0 ==> final(self)@.velocity_um_s == smoothed(
                old(self)@.velocity_um_s as int,
                raw_rate(old(self)@.last_height_um as int, height_um as int, dt_us as int),
            ),
    {
        proof {
            use_type_invariant(&*self);
        }
        if dt_us > 0 {
            let diff = height_um as i128 - self.last_height_um as i128;
            let ghost b = VELOCITY_BOUND as int;
            let raw = div_floor(diff * 1_000_000, dt_us as i128);
            proof {
                let n = diff * 1_000_000;
                assert(-b <= n <= b);
                vstd::arithmetic::div_mod::lemma_div_is_ordered(-b, n, dt_us as int);
                vstd::arithmetic::div_mod::lemma_div_is_ordered(n, b, dt_us as int);
                vstd::arithmetic::div_mod::lemma_div_is_ordered_by_denominator(b, 1, dt_us as int);
                vstd::arithmetic::div_mod::lemma_fundamental_div_mod(-b, dt_us as int);
                vstd::arithmetic::div_mod::lemma_mod_bound(-b, dt_us as int);
                assert(-b <= -b / (dt_us as int)) by (nonlinear_arith)
                    requires
                        dt_us > 0,
                        b > 0,
                        -b == dt_us * (-b / (dt_us as int)) + (-b) % (dt_us as int),
                        0 <= (-b) % (dt_us as int) < dt_us,
                ;
            }
            let v = div_floor(3 * raw + 7 * self.velocity_um_s as i128, 10);
            proof {
                let n = 3 * raw + 7 * self.velocity_um_s;
                assert(-10 * b <= n <= 10 * b);
                vstd::arithmetic::div_mod::lemma_div_is_ordered(-10 * b, n, 10);
                vstd::arithmetic::div_mod::lemma_div_is_ordered(n, 10 * b, 10);
            }
            self.velocity_um_s = v as i64;
            self.last_height_um = height_um;
        }
    }

    /// The smoothed velocity (µm/s).
    pub fn velocity(&self) -> (r: i64)
        ensures
            r == self@.velocity_um_s,
    {
        self.velocity_um_s
    }
}

impl Default for VelocityFilter {
    fn default() -> (r: Self)
        ensures
            r@ == (FilterView { last_height_um: 0, velocity_um_s: 0 }),
    {
        Self::new()
    }
}

/// Largest of the first `n` samples; the smallest `i32` when `n` is zero.
pub open spec fn max_prefix(s: Seq<i32>, n: int) -> int
    decreases n,
{
    if n <= 0 {
        i32::MIN as int
    } else {
        let m = max_prefix(s, n - 1);
        if s[n - 1] > m {
            s[n - 1] as int
        } else {
            m
        }
    }
}

/// Smallest of the first `n` samples; the largest `i32` when `n` is zero.
pub open spec fn min_prefix(s: Seq<i32>, n: int) -> int
    decreases n,
{
    if n <= 0 {
        i32::MAX as int
    } else {
        let m = min_prefix(s, n - 1);
        if s[n - 1] < m {
            s[n - 1] as int
        } else {
            m
        }
    }
}

/// What an oscillation detector holds.
pub struct DetectorView {
    pub samples: Seq<i32>,
    pub index: int,
    pub filled: bool,
}

impl DetectorView {
    /// The detector after recording `height` at the write position, which
    /// then moves on round the window; the window counts as filled once the
    /// position has wrapped.
    pub open spec fn after(self, height: i32) -> DetectorView {
        let next = (self.index + 1) % (OSCILLATION_WINDOW as int);
        DetectorView {
            samples: self.samples.update(self.index, height),
            index: next,
            filled: self.filled || next == 0,
        }
    }

    /// Peak-to-peak amplitude over the whole window (µm); zero until the
    /// window has been filled once.
    pub open spec fn amplitude(self) -> int {
        if self.filled {
            max_prefix(self.samples, OSCILLATION_WINDOW as int) - min_prefix(self.samples, OSCILLATION_WINDOW as int)
        } else {
            0
        }
    }
}

/// Oscillation amplitude detector over the most recent height samples.
#[derive(Debug, Clone, Copy)]
pub struct OscillationDetector {
    samples: [i32; 32],
    index: usize,
    filled: bool,
}

impl View for OscillationDetector {
    type V = DetectorView;

    closed spec fn view(&self) -> DetectorView {
        DetectorView { samples: self.samples@, index: self.index as int, filled: self.filled }
    }
}

impl OscillationDetector {
    #[verifier::type_invariant]
    spec fn in_window(&self) -> bool {
        self.index < OSCILLATION_WINDOW
    }

    /// An empty detector: all samples zero, not yet filled.
    pub fn new() -> (r: Self)
        ensures
            r@.samples == Seq::new(32, |i: int| 0i32),
            r@.index == 0,
            !r@.filled,
    {
        let r = OscillationDetector { samples: [0; 32], index: 0, filled: false };
        assert(r@.samples =~= Seq::new(32, |i: int| 0i32));
        r
    }

    /// Records a height sample (µm).
    pub fn update(&mut self, height_um: i32)
        ensures
            final(self)@ == old(self)@.after(height_um),
            final(self)@.samples.len() == OSCILLATION_WINDOW,
            0 <= final(self)@.index < OSCILLATION_WINDOW,
    {
        proof {
            use_type_invariant(&*self);
        }
        let mut samples = self.samples;
        samples[self.index] = height_um;
        let next = (self.index + 1) % OSCILLATION_WINDOW;
        let filled = self.filled || next == 0;
        *self = OscillationDetector { samples, index: next, filled };
    }

    /// Peak-to-peak amplitude over the window (µm); zero until it has been
    /// filled once.
    pub fn amplitude(&self) -> (r: i64)
        ensures
            r == self@.amplitude(),
            0 <= r <= 0xFFFF_FFFF,
    {
        if !self.filled {
            return 0;
        }
        let mut lo: i32 = i32::MAX;
        let mut hi: i32 = i32::MIN;
        let mut i: usize = 0;
        while i < OSCILLATION_WINDOW
            invariant
                i <= OSCILLATION_WINDOW,
                lo == min_prefix(self.samples@, i as int),
                hi == max_prefix(self.samples@, i as int),
                i > 0 ==> lo <= hi,
            decreases OSCILLATION_WINDOW - i,
        {
            let s = self.samples[i];
            if s < lo {
                lo = s;
            }
            if s > hi {
                hi = s;
            }
            i = i + 1;
        }
        hi as i64 - lo as i64
    }
}

impl Default for OscillationDetector {
    fn default() -> (r: Self)
        ensures
            r@.samples == Seq::new(32, |i: int| 0i32),
            r@.index == 0,
            !r@.filled,
    {
        Self::new()
    }
}

} // verus!
