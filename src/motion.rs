//! The motion generator: at most one active primitive on top of a held
//! baseline height. A trajectory always overrides an animation, and starting
//! either cancels the other.

use vstd::prelude::*;
use crate::arith::sat_add_i64;
use crate::constants::HEIGHT_FLOAT_UM;
use crate::trajectory::{BobbleAnimation, HeightTrajectory, Wave};

verus! {

/// What a motion generator holds.
pub struct MotionView {
    pub trajectory: Option<HeightTrajectory>,
    pub animation: Option<BobbleAnimation>,
    pub baseline_um: i32,
}

/// The outcome of one tick: the next state, and the target height (µm) and
/// velocity (µm/s) reported for the tick.
pub struct MotionStep {
    pub next: MotionView,
    pub height_um: int,
    pub velocity_um_s: int,
}

impl MotionView {
    /// At most one primitive is active.
    pub open spec fn wf(self) -> bool {
        !(self.trajectory is Some && self.animation is Some)
    }

    /// Neither primitive is active.
    pub open spec fn idle(self) -> bool {
        self.trajectory is None && self.animation is None
    }

    pub open spec fn with_trajectory(self, traj: HeightTrajectory) -> MotionView {
        MotionView { trajectory: Some(traj), animation: None, baseline_um: self.baseline_um }
    }

    pub open spec fn with_animation(self, anim: BobbleAnimation) -> MotionView {
        MotionView { trajectory: None, animation: Some(anim), baseline_um: self.baseline_um }
    }

    pub open spec fn stopped(self, height_um: i32) -> MotionView {
        MotionView { trajectory: None, animation: None, baseline_um: height_um }
    }

    /// One tick of `dt` µs, with `wave` the wave at the animation's phase
    /// after the tick. A primitive that completes this tick is dropped and
    /// the tick reports the baseline with zero velocity; a completing
    /// trajectory first makes its target the baseline.
    pub open spec fn step(self, dt: int, wave: Wave) -> MotionStep {
        match self.trajectory {
            Some(t) => {
                let t2 = t.advanced(dt);
                if t2.done() {
                    MotionStep {
                        next: MotionView { trajectory: None, animation: self.animation, baseline_um: t.target_height_um },
                        height_um: t.target_height_um as int,
                        velocity_um_s: 0,
                    }
                } else {
                    MotionStep {
                        next: MotionView { trajectory: Some(t2), ..self },
                        height_um: t2.position(t2.elapsed_us as int),
                        velocity_um_s: t2.velocity(t2.elapsed_us as int),
                    }
                }
            },
            None => match self.animation {
                Some(a) => {
                    let a2 = a.advanced(dt);
                    if a2.done() {
                        MotionStep {
                            next: MotionView { animation: None, ..self },
                            height_um: self.baseline_um as int,
                            velocity_um_s: 0,
                        }
                    } else {
                        MotionStep {
                            next: MotionView { animation: Some(a2), ..self },
                            height_um: a2.position(a2.elapsed_us as int, wave.sine_ppm as int),
                            velocity_um_s: a2.velocity(a2.elapsed_us as int, wave.slope_ppm as int),
                        }
                    }
                },
                None => MotionStep { next: self, height_um: self.baseline_um as int, velocity_um_s: 0 },
            },
        }
    }

    /// The phase (millionths of a turn) at which the next tick samples the
    /// animation; zero when no animation will run.
    pub open spec fn upcoming_phase(self, dt: int) -> int {
        match (self.trajectory, self.animation) {
            (None, Some(a)) => a.phase_at(sat_add_i64(a.elapsed_us as int, dt)),
            _ => 0,
        }
    }
}

/// The state after running ticks of the given lengths and waves in turn.
pub open spec fn run(v: MotionView, ticks: Seq<(int, Wave)>) -> MotionView
    decreases ticks.len(),
{
    if ticks.len() == 0 {
        v
    } else {
        run(v.step(ticks[0].0, ticks[0].1).next, ticks.drop_first())
    }
}

/// Combined height motion generator.
#[derive(Debug)]
pub struct HeightMotionGenerator {
    trajectory: Option<HeightTrajectory>,
    animation: Option<BobbleAnimation>,
    baseline_height_um: i32,
}

impl View for HeightMotionGenerator {
    type V = MotionView;

    closed spec fn view(&self) -> MotionView {
        MotionView {
            trajectory: self.trajectory,
            animation: self.animation,
            baseline_um: self.baseline_height_um,
        }
    }
}

impl HeightMotionGenerator {
    /// At most one primitive is active.
    #[verifier::type_invariant]
    spec fn one_at_most(&self) -> bool {
        self@.wf()
    }

    /// An idle generator holding the default float height.
    pub fn new() -> (r: Self)
        ensures
            r@.idle(),
            r@.baseline_um == HEIGHT_FLOAT_UM,
    {
        HeightMotionGenerator { trajectory: None, animation: None, baseline_height_um: HEIGHT_FLOAT_UM }
    }

    /// Starts a trajectory, cancelling any animation.
    pub fn start_trajectory(&mut self, traj: HeightTrajectory)
        ensures
            final(self)@ == old(self)@.with_trajectory(traj),
            final(self)@.wf(),
    {
        self.animation = None;
        self.trajectory = Some(traj);
    }

    /// Starts an animation, cancelling any trajectory.
    pub fn start_animation(&mut self, anim: BobbleAnimation)
        ensures
            final(self)@ == old(self)@.with_animation(anim),
            final(self)@.wf(),
    {
        self.trajectory = None;
        self.animation = Some(anim);
    }

    /// Stops all motion and holds `current_height` (µm).
    pub fn stop(&mut self, current_height: i32)
        ensures
            final(self)@ == old(self)@.stopped(current_height),
            final(self)@.wf(),
    {
        self.trajectory = None;
        self.animation = None;
        self.baseline_height_um = current_height;
    }

    /// The phase (millionths of a turn) at which the next `update(dt, ..)`
    /// samples the animation: the caller computes the wave there.
    pub fn upcoming_phase(&self, dt: i64) -> (r: i64)
        ensures
            r == self@.upcoming_phase(dt as int),
    {
        match (&self.trajectory, &self.animation) {
            (None, Some(a)) => a.phase(crate::arith::saturating_add_i64(a.elapsed_us, dt)),
            _ => 0,
        }
    }

    /// Advances the generator by `dt` µs; returns the target height (µm) and
    /// velocity (µm/s) for this tick.
    pub fn update(&mut self, dt: i64, wave: Wave) -> (r: (i64, i64))
        requires
            wave.wf(),
        ensures
            final(self)@ == old(self)@.step(dt as int, wave).next,
            r.0 == old(self)@.step(dt as int, wave).height_um,
            r.1 == old(self)@.step(dt as int, wave).velocity_um_s,
            old(self)@.wf(),
            final(self)@.wf(),
    {
        proof {
            use_type_invariant(&*self);
        }
        if let Some(traj) = self.trajectory {
            let mut t = traj;
            if t.update(dt) {
                self.baseline_height_um = t.target_height_um;
                self.trajectory = None;
                return (self.baseline_height_um as i64, 0);
            }
            self.trajectory = Some(t);
            return (t.current() as i64, t.current_velocity());
        }
        if let Some(anim) = self.animation {
            let mut a = anim;
            if a.update(dt) {
                self.animation = None;
                return (self.baseline_height_um as i64, 0);
            }
            self.animation = Some(a);
            return (a.current(wave), a.current_velocity(wave));
        }
        (self.baseline_height_um as i64, 0)
    }

    /// Whether a trajectory or an animation is active.
    pub fn is_active(&self) -> (r: bool)
        ensures
            r == !self@.idle(),
            self@.wf(),
    {
        proof {
            use_type_invariant(self);
        }
        self.trajectory.is_some() || self.animation.is_some()
    }
}

impl Default for HeightMotionGenerator {
    fn default() -> (r: Self)
        ensures
            r@.idle(),
            r@.baseline_um == HEIGHT_FLOAT_UM,
    {
        Self::new()
    }
}

/// Every operation keeps at most one primitive active.
pub proof fn lemma_one_primitive_at_most(v: MotionView, traj: HeightTrajectory, anim: BobbleAnimation, h: i32, dt: int, wave: Wave)
    requires
        v.wf(),
    ensures
        v.with_trajectory(traj).wf(),
        v.with_animation(anim).wf(),
        v.stopped(h).wf(),
        v.step(dt, wave).next.wf(),
{
}

/// Starting an animation right after a trajectory leaves nothing of the
/// trajectory: the state is the one that starting the animation alone gives.
pub proof fn lemma_animation_discards_trajectory(v: MotionView, traj: HeightTrajectory, anim: BobbleAnimation)
    ensures
        v.with_trajectory(traj).with_animation(anim) == v.with_animation(anim),
{
}

/// Once a trajectory completes, its target is the baseline and nothing is
/// active; from then on every tick reports that baseline with zero velocity
/// and changes nothing, however many ticks run, until a new motion starts.
pub proof fn lemma_baseline_held_after_completion(
    v: MotionView,
    dt: int,
    wave: Wave,
    later_dt: int,
    later_wave: Wave,
    ticks: Seq<(int, Wave)>,
)
    requires
        v.wf(),
        v.trajectory is Some,
        v.trajectory->0.advanced(dt).done(),
    ensures
        ({
            let s = v.step(dt, wave);
            let target = v.trajectory->0.target_height_um;
            &&& s.height_um == target
            &&& s.velocity_um_s == 0
            &&& s.next.idle()
            &&& s.next.baseline_um == target
            &&& s.next.step(later_dt, later_wave) == (MotionStep {
                next: s.next,
                height_um: target as int,
                velocity_um_s: 0,
            })
            &&& run(s.next, ticks) == s.next
        }),
{
    lemma_idle_run(v.step(dt, wave).next, ticks);
}

/// Ticks leave an idle generator unchanged.
pub proof fn lemma_idle_run(v: MotionView, ticks: Seq<(int, Wave)>)
    requires
        v.idle(),
    ensures
        run(v, ticks) == v,
    decreases ticks.len(),
{
    if ticks.len() > 0 {
        lemma_idle_run(v, ticks.drop_first());
    }
}

} // verus!
