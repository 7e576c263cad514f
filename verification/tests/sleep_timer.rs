use carechords::sleep_timer::{
    fade_step, FadeAction, SleepTimer, TimerUpdate, FADE_DURATION_NS, FADE_GRACE_NS, FADE_STEPS,
    FADE_STEP_NS,
};

const SEC: u64 = 1_000_000_000;

#[test]
fn new_timer_has_nothing_pending() {
    let t: SleepTimer<f64> = SleepTimer::new(0.5);
    assert!(!t.is_armed());
    assert_eq!(t.initial_volume(), 0.5);
    assert_eq!(t.remaining_time(0), None);
}

#[test]
fn arming_captures_the_volume_and_sets_the_deadline() {
    let mut t: SleepTimer<f64> = SleepTimer::new(0.5);
    assert_eq!(
        t.set_timer(10 * SEC, 60 * SEC, 0.8),
        TimerUpdate { restore_volume: None, schedule_after_ns: Some(60 * SEC) }
    );
    assert!(t.is_armed());
    assert_eq!(t.initial_volume(), 0.8);
    assert_eq!(t.remaining_time(10 * SEC), Some(60 * SEC));
    assert_eq!(t.remaining_time(69 * SEC + 1), Some(SEC - 1));
    assert_eq!(t.remaining_time(70 * SEC), None);
    assert_eq!(t.remaining_time(71 * SEC), None);
}

#[test]
fn scenario_zero_delay_restores_at_once() {
    let mut t: SleepTimer<f64> = SleepTimer::new(0.5);
    t.set_timer(0, 60 * SEC, 0.8);
    assert!(t.remaining_time(5 * SEC).unwrap() > 0);
    assert_eq!(
        t.set_timer(5 * SEC, 0, 0.3),
        TimerUpdate { restore_volume: Some(0.8), schedule_after_ns: None }
    );
    assert_eq!(t.remaining_time(5 * SEC), None);
    assert_eq!(t.remaining_time(6 * SEC), None);
    assert!(!t.is_armed());
}

#[test]
fn zero_delay_on_an_idle_timer_does_nothing() {
    let mut t: SleepTimer<f64> = SleepTimer::new(0.5);
    assert_eq!(
        t.set_timer(5 * SEC, 0, 0.3),
        TimerUpdate { restore_volume: None, schedule_after_ns: None }
    );
    assert_eq!(t.initial_volume(), 0.5);
    assert_eq!(t.remaining_time(5 * SEC), None);
}

#[test]
fn rearming_keeps_the_first_volume_and_one_countdown() {
    let mut t: SleepTimer<f64> = SleepTimer::new(0.5);
    t.set_timer(0, 60 * SEC, 0.8);
    assert_eq!(
        t.set_timer(20 * SEC, 30 * SEC, 0.8),
        TimerUpdate { restore_volume: Some(0.8), schedule_after_ns: Some(30 * SEC) }
    );
    assert_eq!(t.initial_volume(), 0.8);
    assert_eq!(t.remaining_time(20 * SEC), Some(30 * SEC));
    assert_eq!(t.remaining_time(50 * SEC), None);
}

#[test]
fn rearming_during_the_fade_goes_back_to_the_captured_volume() {
    let mut t: SleepTimer<f64> = SleepTimer::new(0.5);
    t.set_timer(0, 10 * SEC, 0.8);
    let update = t.set_timer(15 * SEC, 10 * SEC, 0.4);
    assert_eq!(update.restore_volume, Some(0.8));
    assert_eq!(t.initial_volume(), 0.8);
}

#[test]
fn fade_constants_agree() {
    assert_eq!(FADE_STEPS, 100);
    assert_eq!(FADE_DURATION_NS, 10 * SEC);
    assert_eq!(FADE_STEP_NS * FADE_STEPS as u64, FADE_DURATION_NS);
    assert_eq!(FADE_GRACE_NS, SEC);
}

#[test]
fn fade_descends_linearly_then_pauses_and_restores() {
    assert_eq!(fade_step(0), FadeAction::SetLevel { elapsed: 1, total: 100, wait_ns: 100_000_000 });
    assert_eq!(
        fade_step(49),
        FadeAction::SetLevel { elapsed: 50, total: 100, wait_ns: 100_000_000 }
    );
    assert_eq!(
        fade_step(99),
        FadeAction::SetLevel { elapsed: 100, total: 100, wait_ns: 100_000_000 }
    );
    assert_eq!(fade_step(100), FadeAction::PauseAndWait { wait_ns: SEC });
    assert_eq!(fade_step(101), FadeAction::RestoreVolume);
    assert_eq!(fade_step(102), FadeAction::Finished);
    assert_eq!(fade_step(u32::MAX), FadeAction::Finished);
    let mut waited = 0u64;
    for step in 0..100 {
        if let FadeAction::SetLevel { elapsed, total, wait_ns } = fade_step(step) {
            assert_eq!(elapsed, step + 1);
            assert_eq!(total, 100);
            waited += wait_ns;
        } else {
            panic!("step {} sets no level", step);
        }
    }
    assert_eq!(waited, FADE_DURATION_NS);
}
