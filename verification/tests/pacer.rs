use mini_sdl::clock::{IDLE_COARSE_STEP_NANOS, IDLE_FINE_STEP_NANOS};
use mini_sdl::{FrameClock, IdleAction, Timing};

const SIXTIETH: u64 = 16_666_667;

#[test]
fn frame_start_vsync_limited_quantizes_and_clamps() {
    let mut clock = FrameClock::new(Timing::VsyncLimitFPS(60), 1_000);
    clock.frame_start(1_000 + SIXTIETH);
    assert_eq!(clock.elapsed_time_raw_nanos(), SIXTIETH);
    // Quantized to 24 * 694_444 = 16_666_656, then lifted to the 1/60 s floor.
    assert_eq!(clock.elapsed_time_nanos(), 16_666_666);
    assert_eq!(clock.fps(), 60);
}

#[test]
fn frame_start_vsync_unlimited_only_quantizes() {
    let mut clock = FrameClock::new(Timing::Vsync, 0);
    clock.frame_start(SIXTIETH);
    assert_eq!(clock.elapsed_time_raw_nanos(), SIXTIETH);
    assert_eq!(clock.elapsed_time_nanos(), 16_666_656);
}

#[test]
fn frame_start_immediate_reports_raw() {
    let mut clock = FrameClock::new(Timing::Immediate, 0);
    clock.frame_start(SIXTIETH);
    assert_eq!(clock.elapsed_time_nanos(), SIXTIETH);
    assert_eq!(clock.elapsed_time_raw_nanos(), SIXTIETH);
    assert_eq!(clock.fps(), 59);
}

#[test]
fn smoothed_elapsed_is_clamped_into_limit_range() {
    // A five-second stall still reports at most one second.
    let mut clock = FrameClock::new(Timing::VsyncLimitFPS(60), 0);
    clock.frame_start(5_000_000_000);
    assert_eq!(clock.elapsed_time_nanos(), 1_000_000_000);
    // A near-instant frame still reports at least one frame at the limit.
    let mut fast = FrameClock::new(Timing::ImmediateLimitFPS(60), 0);
    fast.frame_start(1_000);
    assert_eq!(fast.elapsed_time_nanos(), 16_666_666);
    // Both stay within [1/60 s, 1 s], per the limited-mode guarantee.
    for dt in [0u64, 1, 1_000_000, 16_666_667, 999_999_999, 7_777_777_777] {
        let mut c = FrameClock::new(Timing::VsyncLimitFPS(60), 0);
        c.frame_start(dt);
        assert!(clock_in_limit_range(c.elapsed_time_nanos()));
    }
}

fn clock_in_limit_range(smoothed: u64) -> bool {
    16_666_666 <= smoothed && smoothed <= 1_000_000_000
}

#[test]
fn idle_wait_sleeps_until_just_before_deadline() {
    // Frame work ended after only 5 ms; the idle loop must run the clock up
    // to within a fine step of (1/60 s - coarse margin).
    let clock = FrameClock::new(Timing::VsyncLimitFPS(60), 0);
    let target = 16_666_666 - IDLE_COARSE_STEP_NANOS;
    let mut now: u64 = 5_000_000;
    let mut rounds = 0;
    loop {
        match clock.idle_action(now) {
            IdleAction::SleepCoarse => now += IDLE_COARSE_STEP_NANOS,
            IdleAction::SleepFine => now += IDLE_FINE_STEP_NANOS,
            IdleAction::Done => break,
        }
        rounds += 1;
        assert!(rounds < 100_000, "idle loop failed to settle");
    }
    assert!(now >= target - IDLE_FINE_STEP_NANOS);
    assert!(now <= target);
}

#[test]
fn idle_wait_past_deadline_is_done_immediately() {
    let clock = FrameClock::new(Timing::ImmediateLimitFPS(60), 0);
    assert_eq!(clock.idle_action(16_666_666), IdleAction::Done);
    assert_eq!(clock.idle_action(999_999_999_999), IdleAction::Done);
}

#[test]
fn immediate_mode_never_sleeps() {
    let clock = FrameClock::new(Timing::Immediate, 0);
    for now in [0u64, 1, 5_000_000, 16_666_666, 1_000_000_000_000] {
        assert_eq!(clock.idle_action(now), IdleAction::Done);
    }
    let vsync = FrameClock::new(Timing::Vsync, 0);
    assert_eq!(vsync.idle_action(0), IdleAction::Done);
}

#[test]
fn update_time_window_averages_recorded_frames() {
    let mut clock = FrameClock::new(Timing::Vsync, 0);
    // The window starts pre-filled with 1/120 s.
    assert_eq!(clock.update_time_nanos(), 8_333_333);
    // Within the startup grace period nothing is recorded.
    clock.frame_finish_record(400_000_000);
    assert_eq!(clock.update_time_nanos(), 8_333_333);
    // Past the grace period, a 20 ms update lands in the window.
    clock.frame_start(600_000_000);
    clock.frame_finish_record(620_000_000);
    assert_eq!(
        clock.update_time_nanos(),
        (59 * 8_333_333u64 + 20_000_000) / 60
    );
}

#[test]
fn fps_log_timer_restarts_on_each_due_log() {
    let mut clock = FrameClock::new(Timing::Vsync, 0);
    // No interval configured: never due.
    assert!(!clock.fps_log_due(10_000_000_000));
    clock.set_log_interval(Some(1_000_000_000));
    // The timer counts from creation, so a log is long overdue ...
    assert!(clock.fps_log_due(10_500_000_000));
    // ... and the timer restarts from that log.
    assert!(!clock.fps_log_due(11_000_000_000));
    assert!(clock.fps_log_due(11_500_000_001));
    assert!(!clock.fps_log_due(11_600_000_000));
}

#[test]
fn time_counts_from_creation() {
    let clock = FrameClock::new(Timing::Vsync, 1_000_000);
    assert_eq!(clock.time_nanos(1_000_000), 0);
    assert_eq!(clock.time_nanos(3_500_000), 2_500_000);
}
