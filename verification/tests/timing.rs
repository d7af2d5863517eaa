use emu3ds::timing::{TimingModel, CPU_HZ, VIDEO_HZ};

#[test]
fn deterministic_for_equal_cycle_input() {
    let mut a = TimingModel::new();
    let mut b = TimingModel::new();

    for _ in 0..64 {
        a.tick(1024);
        b.tick(1024);
    }

    assert_eq!(a.snapshot(), b.snapshot());
}

#[test]
fn stable_frame_and_audio_counts() {
    let mut timing = TimingModel::new();
    for _ in 0..1_000 {
        timing.tick(4_096);
    }
    let first = timing.snapshot();

    timing.reset();

    for _ in 0..1_000 {
        timing.tick(4_096);
    }
    let second = timing.snapshot();

    assert_eq!(first.video_frames_due, second.video_frames_due);
    assert_eq!(first.audio_samples_due, second.audio_samples_due);
}

#[test]
fn drift_policy_scales_budget() {
    let mut timing = TimingModel::new();
    timing.set_wall_time_anchor_us(0);
    timing.tick((CPU_HZ / VIDEO_HZ) as u32);

    let slow_down = timing.recommended_cycle_budget(1_000, 10_000);
    assert!(slow_down < 10_000);

    timing.reset();
    let speed_up = timing.recommended_cycle_budget(50_000, 10_000);
    assert!(speed_up > 10_000);
}
