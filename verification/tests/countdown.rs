use countdown_timer::alarm::AlarmTimer;
use countdown_timer::controller::Config;
use countdown_timer::controller::CountdownController;
use countdown_timer::display::render;
use countdown_timer::display::render_state;
use countdown_timer::segments::decode;

fn standard_controller() -> CountdownController {
    CountdownController::startup(Config::standard(), 0)
}

#[test]
fn startup_state() {
    let controller = standard_controller();
    assert_eq!(controller.minutes_remaining, 15);
    assert!(controller.power_on);
    assert!(controller.tick_deadline.armed);
    assert_eq!(controller.tick_deadline.deadline, 1);
    assert!(controller.power_deadline.armed);
    assert_eq!(controller.power_deadline.deadline, 15);
}

#[test]
fn unarmed_alarm_never_finished() {
    let timer = AlarmTimer::unarmed();
    assert!(!timer.finished(0));
    assert!(!timer.finished(u64::MAX));
}

#[test]
fn alarm_finishes_at_deadline_and_stays_finished() {
    let mut timer = AlarmTimer::unarmed();
    timer.schedule(0, 5);
    assert!(!timer.finished(0));
    assert!(!timer.finished(4));
    assert!(timer.finished(5));
    assert!(timer.finished(6));
    assert!(timer.finished(u64::MAX));
}

#[test]
fn reschedule_clears_finished_observation() {
    let mut timer = AlarmTimer::unarmed();
    timer.schedule(0, 2);
    assert!(timer.finished(3));
    timer.schedule(3, 2);
    assert!(!timer.finished(3));
    assert!(!timer.finished(4));
    assert!(timer.finished(5));
}

#[test]
fn display_splits_minutes_in_base_ten() {
    let mut controller = standard_controller();
    assert_eq!(controller.display_digits(), (1, 5));
    controller.minutes_remaining = 9;
    assert_eq!(controller.display_digits(), (0, 9));
    controller.minutes_remaining = 10;
    assert_eq!(controller.display_digits(), (1, 0));
}

#[test]
fn display_handles_largest_two_digit_count() {
    let config = Config { initial_minutes: 99, tick_interval: 1, session_duration: 99 };
    let controller = CountdownController::startup(config, 0);
    assert_eq!(controller.display_digits(), (9, 9));
}

#[test]
fn terminal_override_shows_ones_not_zeros() {
    let mut controller = standard_controller();
    controller.minutes_remaining = 0;
    assert_eq!(controller.display_digits(), (1, 1));
    let frame = render_state(&controller);
    assert_eq!(frame.tens, decode(1));
    assert_eq!(frame.ones, decode(1));
    assert_ne!(frame.tens, decode(0));
}

#[test]
fn render_decodes_both_digit_groups() {
    let frame = render(1, 5);
    assert_eq!(frame.tens, [false, true, true, false, false, false, false]);
    assert_eq!(frame.ones, [true, false, true, true, false, true, true]);
}

#[test]
fn tick_expiry_decrements_and_rearms() {
    let mut controller = standard_controller();
    controller.handle_tick(0);
    assert_eq!(controller.minutes_remaining, 15);
    controller.handle_tick(1);
    assert_eq!(controller.minutes_remaining, 14);
    assert_eq!(controller.tick_deadline.deadline, 2);
    assert!(controller.power_on);
}

#[test]
fn tick_expiry_at_zero_minutes_does_nothing() {
    let mut controller = standard_controller();
    controller.minutes_remaining = 0;
    let before = controller;
    controller.handle_tick(20);
    assert_eq!(controller, before);
}

#[test]
fn power_expiry_cuts_power_only() {
    let mut controller = standard_controller();
    controller.handle_power(14);
    assert!(controller.power_on);
    controller.handle_power(15);
    assert!(!controller.power_on);
    assert_eq!(controller.minutes_remaining, 15);
    assert_eq!(controller.tick_deadline.deadline, 1);
}

#[test]
fn reset_is_idempotent_under_repetition() {
    let mut once = standard_controller();
    let mut twice = standard_controller();
    for now in 1u64..=4u64 {
        once.step(false, now);
        twice.step(false, now);
    }
    once.step(true, 4);
    twice.step(true, 4);
    twice.step(true, 4);
    assert_eq!(once, twice);
    assert_eq!(twice.minutes_remaining, 15);
    assert!(twice.power_on);
    assert!(twice.tick_deadline.armed);
    assert_eq!(twice.tick_deadline.deadline, 5);
    assert!(twice.power_deadline.armed);
    assert_eq!(twice.power_deadline.deadline, 19);
}

#[test]
fn power_and_tick_alarms_are_independent() {
    let config = Config { initial_minutes: 15, tick_interval: 1, session_duration: 5 };
    let mut controller = CountdownController::startup(config, 0);
    for now in 1u64..=5u64 {
        controller.step(false, now);
    }
    assert!(!controller.power_on);
    assert_eq!(controller.minutes_remaining, 10);
    controller.step(false, 6);
    assert_eq!(controller.minutes_remaining, 9);
    assert!(!controller.power_on);
    assert_eq!(controller.display_digits(), (0, 9));
}

#[test]
fn default_session_counts_down_to_terminal_state() {
    let mut controller = standard_controller();
    for now in 1u64..=15u64 {
        controller.step(false, now);
    }
    assert_eq!(controller.minutes_remaining, 0);
    assert_eq!(controller.display_digits(), (1, 1));
    assert!(!controller.power_on);
}

#[test]
fn reset_after_five_ticks_restores_full_count() {
    let mut controller = standard_controller();
    for now in 1u64..=5u64 {
        controller.step(false, now);
    }
    assert_eq!(controller.minutes_remaining, 10);
    controller.step(true, 5);
    assert_eq!(controller.minutes_remaining, 15);
    assert!(controller.power_on);
    assert!(controller.tick_deadline.armed);
    assert_eq!(controller.tick_deadline.deadline, 6);
    assert_eq!(controller.power_deadline.deadline, 20);
}

#[test]
fn expired_state_persists_until_reset() {
    let mut controller = standard_controller();
    for now in 1u64..=20u64 {
        controller.step(false, now);
    }
    assert_eq!(controller.minutes_remaining, 0);
    assert!(!controller.power_on);
    controller.step(true, 21);
    assert_eq!(controller.minutes_remaining, 15);
    assert!(controller.power_on);
}
