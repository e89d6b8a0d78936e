use orb_base::motion::HeightMotionGenerator;
use orb_base::trajectory::{BobbleAnimation, HeightTrajectory, Wave};

/// The wave at a phase given in millionths of a turn.
fn wave_at(phase_utr: i64) -> Wave {
    let theta = 2.0 * std::f64::consts::PI * (phase_utr as f64) / 1_000_000.0;
    Wave {
        sine_ppm: (theta.sin() * 1_000_000.0).round() as i32,
        slope_ppm: (2.0 * std::f64::consts::PI * theta.cos() * 1_000_000.0).round() as i32,
    }
}

fn anim_sample(anim: &BobbleAnimation, t_us: i64) -> i64 {
    anim.sample(t_us, wave_at(anim.phase(t_us)))
}

#[test]
fn test_trajectory_smoothstep() {
    let traj = HeightTrajectory::new(20_000, 5_000, 2_000_000);

    // At t=0, should be at start
    assert!((traj.sample(0) - 20_000).abs() < 10);

    // At t=duration, should be at target
    assert!((traj.sample(2_000_000) - 5_000).abs() < 10);

    // At t=duration/2, should be at midpoint
    assert!((traj.sample(1_000_000) - 12_500).abs() < 500);

    // Velocity should be zero at endpoints
    assert!(traj.sample_velocity(0).abs() < 10);
    assert!(traj.sample_velocity(2_000_000).abs() < 10);

    // Velocity should be maximum at midpoint
    let v_mid = traj.sample_velocity(1_000_000);
    assert!(v_mid.abs() > 5_000); // Should be moving fast
}

#[test]
fn test_bobble_animation() {
    let anim = BobbleAnimation::new(20_000, 5_000, 1_000);

    // At t=0, should be at center (sin(0) = 0)
    assert!((anim_sample(&anim, 0) - 20_000).abs() < 10);

    // At t=0.25 (quarter period), should be at max
    assert!((anim_sample(&anim, 250_000) - 25_000).abs() < 500);

    // At t=0.75 (3/4 period), should be at min
    assert!((anim_sample(&anim, 750_000) - 15_000).abs() < 500);

    // At t=1.0 (full period), should be back at center
    assert!((anim_sample(&anim, 1_000_000) - 20_000).abs() < 500);
}

#[test]
fn test_motion_generator() {
    let mut gen = HeightMotionGenerator::new();

    // Start a trajectory
    gen.start_trajectory(HeightTrajectory::new(20_000, 5_000, 1_000_000));
    assert!(gen.is_active());

    // Update halfway
    let (h, v) = gen.update(500_000, wave_at(gen.upcoming_phase(500_000)));
    assert!(h > 5_000 && h < 20_000);
    assert!(v.abs() > 0);

    // Complete the trajectory
    gen.update(600_000, wave_at(gen.upcoming_phase(600_000)));
    assert!(!gen.is_active());
}

#[test]
fn trajectory_exact_values() {
    let traj = HeightTrajectory::new(20_000, 5_000, 2_000_000);
    assert_eq!(traj.sample(1_000_000), 12_500);
    assert_eq!(traj.sample_velocity(1_000_000), -11_250);
    // A quarter of the way: smoothstep 0.15625.
    assert_eq!(traj.sample(500_000), 20_000 - 2_344);
    assert_eq!(traj.sample(-5), 20_000);
    assert_eq!(traj.sample(9_000_000), 5_000);
    assert_eq!(traj.sample_velocity(-1), 0);
    assert_eq!(traj.sample_velocity(2_000_001), 0);
}

#[test]
fn trajectory_duration_is_floored() {
    let traj = HeightTrajectory::new(0, 1_000, 5);
    assert_eq!(traj.duration_us, 100_000);
    assert_eq!(traj.elapsed_us, 0);
    let c = HeightTrajectory::to_charging(18_000);
    assert_eq!((c.start_height_um, c.target_height_um, c.duration_us), (18_000, 5_000, 2_000_000));
    let f = HeightTrajectory::to_float(7_000);
    assert_eq!((f.start_height_um, f.target_height_um, f.duration_us), (7_000, 20_000, 1_500_000));
}

#[test]
fn trajectory_progress_and_completion() {
    let mut traj = HeightTrajectory::new(10_000, 20_000, 1_000_000);
    assert_eq!(traj.progress(), 0);
    assert!(!traj.update(250_000));
    assert_eq!(traj.progress(), 250_000);
    assert_eq!(traj.current(), traj.sample(250_000));
    assert_eq!(traj.current_velocity(), traj.sample_velocity(250_000));
    assert!(!traj.is_complete());
    assert!(traj.update(750_000));
    assert!(traj.is_complete());
    assert_eq!(traj.progress(), 1_000_000);
    traj.update(5_000_000);
    assert_eq!(traj.progress(), 1_000_000);
    assert_eq!(traj.current(), 20_000);
    // Elapsed time saturates instead of overflowing.
    traj.update(i64::MAX);
    assert_eq!(traj.elapsed_us, i64::MAX);
}

#[test]
fn bobble_sample_takes_the_given_wave() {
    let anim = BobbleAnimation::new(20_000, 5_000, 1_000);
    let w = Wave { sine_ppm: 500_000, slope_ppm: 1_000_000 };
    assert_eq!(anim.sample(0, w), 22_500);
    // 5000 µm × 1 Hz × 1.0 slope = 5000 µm/s.
    assert_eq!(anim.sample_velocity(0, w), 5_000);
    let w = Wave { sine_ppm: -1, slope_ppm: 0 };
    assert_eq!(anim.sample(0, w), 19_999);
}

#[test]
fn bobble_phase() {
    let anim = BobbleAnimation::new(20_000, 5_000, 1_000);
    assert_eq!(anim.phase(250_000), 250_000);
    assert_eq!(anim.phase(1_250_000), 250_000);
    assert_eq!(anim.phase(-250_000), 750_000);
    let shifted = anim.with_phase(500_000);
    assert_eq!(shifted.phase(250_000), 750_000);
    let slow = BobbleAnimation::new(0, 1_000, 300);
    assert_eq!(slow.phase(1_000_000), 300_000);
}

#[test]
fn bounded_bobble_settles_at_center() {
    let mut anim = BobbleAnimation::nod(18_000);
    assert_eq!(anim.duration_us, Some(2_000_000));
    assert_eq!((anim.amplitude_um, anim.frequency_mhz), (4_000, 1_200));
    let w = Wave { sine_ppm: 1_000_000, slope_ppm: 0 };
    assert_eq!(anim.sample(2_000_000, w), 18_000);
    assert_eq!(anim.sample_velocity(2_000_000, w), 0);
    assert!(!anim.update(1_000_000));
    assert!(!anim.is_complete());
    assert_eq!(anim.current(w), 22_000);
    assert_eq!(anim.current_velocity(Wave { sine_ppm: 0, slope_ppm: 1_000_000 }), 4_800);
    assert!(anim.update(1_000_000));
    assert!(anim.is_complete());
    assert_eq!(anim.current(w), 18_000);
}

#[test]
fn unbounded_bobble_never_completes() {
    let mut anim = BobbleAnimation::breathing(15_000);
    assert_eq!((anim.amplitude_um, anim.frequency_mhz), (3_000, 300));
    for _ in 0..100 {
        assert!(!anim.update(1_000_000_000));
    }
    assert!(!anim.is_complete());
    let e = BobbleAnimation::excited(15_000);
    assert_eq!((e.amplitude_um, e.frequency_mhz, e.duration_us), (5_000, 800, None));
}

#[test]
fn animation_discards_trajectory() {
    let mut a = HeightMotionGenerator::new();
    a.start_trajectory(HeightTrajectory::new(20_000, 5_000, 1_000_000));
    a.start_animation(BobbleAnimation::new(20_000, 5_000, 1_000));
    let mut b = HeightMotionGenerator::new();
    b.start_animation(BobbleAnimation::new(20_000, 5_000, 1_000));
    for _ in 0..50 {
        let wa = wave_at(a.upcoming_phase(10_000));
        let wb = wave_at(b.upcoming_phase(10_000));
        assert_eq!(a.update(10_000, wa), b.update(10_000, wb));
    }
}

#[test]
fn baseline_held_after_trajectory_completes() {
    let mut gen = HeightMotionGenerator::new();
    gen.start_trajectory(HeightTrajectory::new(20_000, 8_000, 100_000));
    for _ in 0..9 {
        let (h, _) = gen.update(10_000, Wave::at_zero_phase());
        assert!(h > 8_000 && h <= 20_000);
    }
    assert_eq!(gen.update(10_000, Wave::at_zero_phase()), (8_000, 0));
    assert!(!gen.is_active());
    for _ in 0..20 {
        assert_eq!(gen.update(10_000, Wave::at_zero_phase()), (8_000, 0));
    }
}

#[test]
fn generator_idle_and_stop() {
    let mut gen = HeightMotionGenerator::default();
    assert!(!gen.is_active());
    assert_eq!(gen.update(10_000, Wave::at_zero_phase()), (20_000, 0));
    assert_eq!(gen.upcoming_phase(10_000), 0);
    gen.start_animation(BobbleAnimation::new(15_000, 3_000, 500));
    assert_eq!(gen.upcoming_phase(500_000), 250_000);
    gen.stop(12_000);
    assert!(!gen.is_active());
    assert_eq!(gen.update(10_000, Wave::at_zero_phase()), (12_000, 0));
}

#[test]
fn completed_animation_returns_to_baseline() {
    let mut gen = HeightMotionGenerator::new();
    gen.start_animation(BobbleAnimation::new(18_000, 2_000, 1_000).with_duration(20_000));
    let (h, _) = gen.update(10_000, Wave { sine_ppm: 1_000_000, slope_ppm: 0 });
    assert_eq!(h, 20_000);
    assert_eq!(gen.update(10_000, Wave { sine_ppm: 1_000_000, slope_ppm: 0 }), (20_000, 0));
    assert!(!gen.is_active());
}

#[test]
fn odd_duration_midpoint_and_speed() {
    let traj = HeightTrajectory::new(5_000, 25_000, 1_500_001);
    let mid = traj.sample(1_500_001 / 2);
    assert!((2 * mid - 30_000).abs() <= 1_000);
    let v = traj.sample_velocity(1_500_001 / 2);
    assert!(v >= 20_000 * 1_000_000 / 1_500_001);
}
