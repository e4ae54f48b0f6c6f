use dead_man_switch::clock::epoch_now;
use dead_man_switch::state::PersistedState;
use dead_man_switch::timer::{
    expired_at, loop_decision, remaining_at, remaining_percent_at, LoopAction, Timer, TimerType,
};

#[test]
fn timer_creation() {
    let warning_timer = Timer::new(TimerType::Warning, 60);
    assert_eq!(warning_timer.get_type(), TimerType::Warning);
    assert!(warning_timer.duration == 60);
}

#[test]
fn timer_elapsed_less_than_duration() {
    let timer = Timer::new(TimerType::Warning, 60);
    assert!(timer.elapsed() < 60);
}

#[test]
fn timer_update_to_dead_man() {
    let mut timer = Timer::new(TimerType::Warning, 1);
    // Simulate elapsed time by passing it in directly.
    timer.update(2, 3600);
    assert_eq!(timer.get_type(), TimerType::DeadMan);
    assert_eq!(timer.duration, 3600);
    assert!(!timer.expired());
}

#[test]
fn update_is_idempotent() {
    let mut timer = Timer::new(TimerType::Warning, 1);
    let first = timer.update(2, 3600);
    assert!(first);
    let second = timer.update(2, 3600);
    assert!(!second);
    assert_eq!(timer.get_type(), TimerType::DeadMan);
    assert_eq!(timer.duration, 3600);
}

#[test]
fn update_before_expiry_is_noop() {
    let mut timer = Timer::new(TimerType::Warning, 100);
    let transitioned = timer.update(5, 3600);
    assert!(!transitioned);
    assert_eq!(timer.get_type(), TimerType::Warning);
    assert_eq!(timer.duration, 100);
}

#[test]
fn scenario_short_warning_escalates() {
    // Config with a 2 s warning period and a 120 s dead-man period; after
    // 3 s have elapsed, one update escalates to dead-man mode.
    let mut timer = Timer::new(TimerType::Warning, 2);
    let transitioned = timer.update(3, 120);
    assert!(transitioned);
    assert_eq!(timer.get_type(), TimerType::DeadMan);
    assert_eq!(timer.duration, 120);
    assert!(!timer.expired());
}

#[test]
fn scenario_rehydration_preserves_elapsed_time() {
    // A state persisted 10000 s ago with a 14-day warning period leaves
    // about 1209600 - 10000 seconds remaining.
    let now = epoch_now().unwrap();
    let persisted = PersistedState { mode: TimerType::Warning, last_modified: now - 10000 };
    let timer = Timer::from_persisted(&persisted, 1209600, 604800).unwrap();
    assert_eq!(timer.get_type(), TimerType::Warning);
    assert_eq!(timer.duration, 1209600);
    let remaining = timer.remaining();
    assert!(remaining <= 1199600);
    assert!(remaining >= 1199590);
}

#[test]
fn rehydration_clamps_future_checkpoint() {
    let now = epoch_now().unwrap();
    let persisted = PersistedState { mode: TimerType::DeadMan, last_modified: now + 5000 };
    let timer = Timer::from_persisted(&persisted, 1209600, 604800).unwrap();
    assert_eq!(timer.get_type(), TimerType::DeadMan);
    assert_eq!(timer.duration, 604800);
    // A checkpoint in the future must not grant extra time.
    assert!(timer.remaining() <= 604800);
    assert!(timer.remaining() >= 604790);
}

#[test]
fn reset_on_warning_keeps_duration() {
    let mut config = dead_man_switch::config::Config::default();
    config.timer_warning = 55;
    let mut timer = Timer::new(TimerType::Warning, 100);
    timer.reset(&config);
    assert_eq!(timer.get_type(), TimerType::Warning);
    assert_eq!(timer.duration, 100);
}

#[test]
fn reset_on_dead_man_demotes_to_warning() {
    let mut config = dead_man_switch::config::Config::default();
    config.timer_warning = 77;
    let mut timer = Timer::new(TimerType::DeadMan, 100);
    timer.reset(&config);
    assert_eq!(timer.get_type(), TimerType::Warning);
    assert_eq!(timer.duration, 77);
}

#[test]
fn zero_duration_is_expired_at_once() {
    let timer = Timer::new(TimerType::Warning, 0);
    assert!(timer.expired());
    assert_eq!(timer.remaining_percent(), 0);
    assert_eq!(timer.remaining(), 0);
    assert_eq!(timer.label(), "0 second(s)");
}

#[test]
fn fresh_timer_is_nearly_full() {
    let timer = Timer::new(TimerType::Warning, 60);
    assert!(timer.remaining_percent() >= 98);
    assert!(timer.remaining_percent() <= 100);
}

#[test]
fn remaining_percent_exact_values() {
    assert_eq!(remaining_percent_at(200, 50), 75);
    assert_eq!(remaining_percent_at(60, 0), 100);
    assert_eq!(remaining_percent_at(60, 60), 0);
    assert_eq!(remaining_percent_at(60, 61), 0);
    assert_eq!(remaining_percent_at(0, 5), 0);
    // Floor rounding: less than one percent remaining reads as zero.
    assert_eq!(remaining_percent_at(1000, 995), 0);
}

#[test]
fn remaining_and_expired_helpers() {
    assert_eq!(remaining_at(60, 20), 40);
    assert_eq!(remaining_at(60, 80), 0);
    assert!(expired_at(60, 60));
    assert!(!expired_at(60, 59));
}

#[test]
fn loop_decision_follows_mode_and_expiry() {
    assert_eq!(loop_decision(TimerType::Warning, false), LoopAction::Continue);
    assert_eq!(loop_decision(TimerType::DeadMan, false), LoopAction::Continue);
    assert_eq!(loop_decision(TimerType::Warning, true), LoopAction::SendWarning);
    assert_eq!(loop_decision(TimerType::DeadMan, true), LoopAction::SendDeadMan);
}

#[test]
fn timer_title_names_the_mode() {
    assert_eq!(Timer::new(TimerType::Warning, 5).title(), "Warning");
    assert_eq!(Timer::new(TimerType::DeadMan, 5).title(), "Dead Man's Switch");
}

#[test]
fn snapshot_carries_mode_and_checkpoint() {
    let timer = Timer::new(TimerType::Warning, 60);
    let snap = timer.snapshot(4242);
    assert_eq!(snap.mode, TimerType::Warning);
    assert_eq!(snap.last_modified, 4242);
}
