use dragsim::driver::{AnimationDriver, DriverAction, TICKS_PER_WAKE, TICK_MICROS, WAKE_INTERVAL_MS};

#[test]
fn the_cadence_is_sixteen_ticks_every_sixteen_milliseconds() {
    assert_eq!(WAKE_INTERVAL_MS, 16);
    assert_eq!(TICKS_PER_WAKE, 16);
    assert_eq!(TICK_MICROS, 16_667);
}

#[test]
fn a_new_driver_sleeps_first() {
    let mut driver = AnimationDriver::new();
    assert_eq!(driver.next_action(), DriverAction::Sleep { millis: 16 });
}

#[test]
fn every_sleep_is_followed_by_sixteen_ticks() {
    let mut driver = AnimationDriver::new();
    for _ in 0..5 {
        assert_eq!(driver.next_action(), DriverAction::Sleep { millis: 16 });
        for _ in 0..16 {
            assert_eq!(driver.next_action(), DriverAction::Tick { dt_micros: 16_667 });
        }
    }
    assert_eq!(driver.next_action(), DriverAction::Sleep { millis: 16 });
}

#[test]
fn the_action_is_a_sleep_exactly_at_multiples_of_seventeen() {
    let mut driver = AnimationDriver::new();
    for n in 0..200u32 {
        let action = driver.next_action();
        assert_eq!(action == DriverAction::Sleep { millis: 16 }, n % 17 == 0);
    }
}
