use rpos::hrt::Timespec;
use rpos::lock_step::LockStepClock;

#[test]
fn clock_starts_at_origin_and_follows_driver() {
    let mut clock = LockStepClock::new();
    assert_eq!(clock.get_time_now().to_nano(), 0);

    clock.lock_step_update_time(Timespec { sec: 0, nsec: 100_000_000 });
    assert_eq!(clock.get_time_now().to_nano(), 100_000_000);

    clock.lock_step_update_time(Timespec { sec: 2, nsec: 0 });
    assert_eq!(clock.get_time_now().to_nano(), 2_000_000_000);
}

#[test]
fn virtual_sleep_ends_when_clock_reaches_deadline() {
    let mut clock = LockStepClock::new();
    let deadline = clock.sleep_deadline(500_000_000);
    assert_eq!(deadline.to_nano(), 500_000_000);

    // the clock has not reached the deadline: keep waiting
    assert_eq!(clock.lock_step_sleep_poll(deadline), None);

    clock.lock_step_update_time(Timespec { sec: 0, nsec: 400_000_000 });
    assert_eq!(clock.lock_step_sleep_poll(deadline), None);

    // the driver moves past the deadline: the sleep is over, nothing left
    clock.lock_step_update_time(Timespec { sec: 0, nsec: 600_000_000 });
    assert_eq!(clock.lock_step_sleep_poll(deadline), Some(0));
}

#[test]
fn early_wake_is_consumed_and_returns_remainder() {
    let mut clock = LockStepClock::new();
    clock.lock_step_update_time(Timespec { sec: 1, nsec: 0 });

    let deadline = clock.sleep_deadline(999_999_999);
    assert_eq!(clock.lock_step_sleep_poll(deadline), None);

    // a signal raises the early-wake flag while the sleeper waits
    clock.set_early_waken();
    let ret = clock.lock_step_sleep_poll(deadline).unwrap();
    assert_ne!(ret, 0);
    assert_eq!(ret, 999_999_999);

    // the flag was consumed: a second sleeper waits normally
    assert!(!clock.early_waken);
    assert_eq!(clock.lock_step_sleep_poll(deadline), None);
}

#[test]
fn sleep_already_due_ignores_early_wake_flag() {
    let mut clock = LockStepClock::new();
    clock.lock_step_update_time(Timespec::from_secs(5));
    clock.set_early_waken();

    // a deadline already reached ends the sleep without touching the flag
    let deadline = Timespec::from_secs(3);
    assert_eq!(clock.lock_step_sleep_poll(deadline), Some(0));
    assert!(clock.early_waken);
}
