use modelers::loop_clock::{LoopClock, SIXTY_FPS_FRAME_MICROS};

#[test]
fn early_frames_wait_for_the_rest_of_the_frame() {
    let clock = LoopClock::start_clock(60);
    assert_eq!(clock.get_wait_duration(10_000), Some(6_666));
    assert_eq!(clock.get_wait_duration(0), Some(16_666));
}

#[test]
fn a_full_frame_redraws_at_once() {
    let clock = LoopClock::start_clock(60);
    assert_eq!(clock.get_wait_duration(SIXTY_FPS_FRAME_MICROS), None);
    assert_eq!(clock.get_wait_duration(20_000), None);
}

#[test]
fn a_slower_clock_waits_longer() {
    let clock = LoopClock::start_clock(30);
    assert_eq!(clock.get_wait_duration(16_000), Some(33_333 - 16_000));
}

#[test]
fn a_faster_clock_still_measures_against_sixty() {
    // The elapsed time is always held against a sixty-frames-per-second
    // frame, so a shorter configured frame leaves a wait of nothing.
    let clock = LoopClock::start_clock(100);
    assert_eq!(clock.get_wait_duration(12_000), Some(0));
    assert_eq!(clock.get_wait_duration(9_000), Some(1_000));
}

#[test]
fn tick_reports_nothing_before_the_threshold() {
    let mut clock = LoopClock::start_clock(60);
    for _ in 0..300 {
        assert_eq!(clock.tick(16_000), None);
    }
}
