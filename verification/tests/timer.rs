use clock_timer::timer::{Phase, TimerState, DEFAULT_DURATION_MS};

#[test]
fn default_state_is_idle_one_minute() {
    let t = TimerState::default();
    assert_eq!(t.remaining_ms, DEFAULT_DURATION_MS);
    assert_eq!(t.duration_ms, DEFAULT_DURATION_MS);
    assert_eq!(t.phase, Phase::Idle);
    assert!(!t.alert_fired);
}

#[test]
fn five_second_timer_three_two_second_ticks() {
    // configured duration 5 s; ticks of 2 s, 2 s, 2 s.
    let mut t = TimerState::default();
    t.set_duration(5000);
    t.start();
    t.tick(2000);
    assert!(!t.poll_alert());
    t.tick(2000);
    assert!(!t.poll_alert());
    assert_eq!(t.remaining_ms, 1000);
    assert_eq!(t.phase, Phase::Running);
    t.tick(2000);
    assert_eq!(t.remaining_ms, 0);
    assert_eq!(t.phase, Phase::Elapsed);
    // The alert fires once, on the frame that reached zero, and not again.
    assert!(t.poll_alert());
    assert!(!t.poll_alert());
}

#[test]
fn stop_before_expiry_keeps_remaining() {
    // start, then stop at 30 s of 60 s: idle, clock kept, no alert.
    let mut t = TimerState::default();
    t.start();
    t.tick(30000);
    assert!(!t.poll_alert());
    t.stop();
    assert_eq!(t.phase, Phase::Idle);
    assert_eq!(t.remaining_ms, 30000);
    assert!(!t.poll_alert());
    assert!(!t.alert_fired);
}

#[test]
fn any_split_of_the_duration_drains_the_clock() {
    // The same total, split differently across ticks, ends the same way.
    let splits: [&[u64]; 4] = [
        &[5000],
        &[2500, 2500],
        &[1, 4998, 1],
        &[1000, 0, 1000, 1000, 0, 1000, 1000],
    ];
    for ticks in splits {
        assert_eq!(ticks.iter().sum::<u64>(), 5000);
        let mut t = TimerState::default();
        t.set_duration(5000);
        t.start();
        for &dt in ticks {
            t.tick(dt);
        }
        assert_eq!(t.remaining_ms, 0);
        assert_eq!(t.phase, Phase::Elapsed);
    }
}

#[test]
fn overshooting_frames_fire_exactly_once() {
    // Frames keep overshooting past zero; the alert fires on one of them.
    let mut t = TimerState::default();
    t.set_duration(3000);
    t.start();
    let mut fires: u32 = 0;
    for dt in [2000u64, 2000, 2000, 2000] {
        t.tick(dt);
        if t.poll_alert() {
            fires += 1;
        }
    }
    assert_eq!(fires, 1);
    assert_eq!(t.remaining_ms, 0);
    assert_eq!(t.phase, Phase::Elapsed);
    assert!(t.alert_fired);
}

#[test]
fn ticks_while_elapsed_change_nothing() {
    let mut t = TimerState::default();
    t.set_duration(1000);
    t.start();
    t.tick(5000);
    assert!(t.poll_alert());
    let elapsed = t;
    t.tick(700);
    t.tick(0);
    assert_eq!(t, elapsed);
    assert!(!t.poll_alert());
}

#[test]
fn restart_from_elapsed_opens_a_new_episode() {
    // Starting again, even while elapsed, reloads the configured duration,
    // clears the guard, and a later expiry re-fires.
    let mut t = TimerState::default();
    t.set_duration(2000);
    t.start();
    t.tick(2000);
    assert!(t.poll_alert());
    t.start();
    assert_eq!(t.phase, Phase::Running);
    assert_eq!(t.remaining_ms, 2000);
    assert!(!t.alert_fired);
    t.tick(9000);
    assert!(t.poll_alert());
    assert!(!t.poll_alert());
}

#[test]
fn start_while_running_reloads_the_clock() {
    let mut t = TimerState::default();
    t.set_duration(10000);
    t.start();
    t.tick(4000);
    assert_eq!(t.remaining_ms, 6000);
    t.start();
    assert_eq!(t.remaining_ms, 10000);
    assert_eq!(t.phase, Phase::Running);
}

#[test]
fn reset_during_running_restores_the_default() {
    let mut t = TimerState::default();
    t.set_duration(10000);
    t.start();
    t.tick(3000);
    t.reset();
    assert_eq!(t, TimerState::default());
}

#[test]
fn reset_during_elapsed_restores_the_default() {
    let mut t = TimerState::default();
    t.set_duration(1000);
    t.start();
    t.tick(1000);
    assert!(t.poll_alert());
    t.reset();
    assert_eq!(t, TimerState::default());
    assert!(!t.poll_alert());
}

#[test]
fn stop_outside_running_does_nothing() {
    let mut t = TimerState::default();
    let idle = t;
    t.stop();
    assert_eq!(t, idle);
    t.set_duration(1000);
    t.start();
    t.tick(1000);
    let elapsed = t;
    t.stop();
    assert_eq!(t, elapsed);
}

#[test]
fn set_duration_leaves_a_running_countdown_alone() {
    let mut t = TimerState::default();
    t.set_duration(8000);
    t.start();
    t.tick(1000);
    t.set_duration(20000);
    assert_eq!(t.remaining_ms, 7000);
    assert_eq!(t.phase, Phase::Running);
    assert_eq!(t.duration_ms, 20000);
    t.start();
    assert_eq!(t.remaining_ms, 20000);
}

#[test]
fn toggle_starts_then_stops() {
    let mut t = TimerState::default();
    t.set_duration(5000);
    t.toggle();
    assert_eq!(t.phase, Phase::Running);
    assert_eq!(t.remaining_ms, 5000);
    t.tick(2000);
    t.toggle();
    assert_eq!(t.phase, Phase::Idle);
    assert_eq!(t.remaining_ms, 3000);
}

#[test]
fn zero_ticks_while_running_change_nothing() {
    let mut t = TimerState::default();
    t.set_duration(5000);
    t.start();
    t.tick(0);
    assert_eq!(t.remaining_ms, 5000);
    assert_eq!(t.phase, Phase::Running);
    assert!(!t.poll_alert());
}
