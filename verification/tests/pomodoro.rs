use pomodoro::Clock;
use pomodoro::StateTracker;

#[test]
fn test_clock_ms() {
    let mut clock = Clock::new();
    clock.set_time_ms(60000);
    assert_eq!(clock.get_time(), "01:00");
}

#[test]
fn test_clock_minutes() {
    let mut clock = Clock::new();
    clock.set_time_minutes(25);
    assert_eq!(clock.get_time(), "25:00");
}

#[test]
fn test_start_cycle() {
    let mut pstate = StateTracker::new();
    pstate.increment_cycle();
    assert_eq!(pstate.get_order().unwrap(), 1);
}

#[test]
fn test_increment_cycle() {
    let mut pstate = StateTracker::new();
    pstate.increment_cycle();
    pstate.increment_cycle();
    assert_eq!(pstate.get_order().unwrap(), 2);
}

#[test]
fn test_cycle_loop() {
    let mut pstate = StateTracker::new();
    pstate.increment_cycle();
    pstate.increment_cycle();
    pstate.increment_cycle();
    pstate.increment_cycle();
    pstate.increment_cycle();
    assert_eq!(pstate.get_order(), None);
}

#[test]
fn test_cycle_restart() {
    let mut pstate = StateTracker::new();
    pstate.restart_cycle();
    assert_eq!(pstate.get_order(), None);
}

#[test]
fn test_clock_new_reads_zero() {
    let clock = Clock::new();
    assert_eq!(clock.get_time(), "00:00");
}

#[test]
fn test_clock_ms_general_formula() {
    // 3723000 ms: (3723000 / 60000) % 60 == 2 minutes, (3723000 / 1000) % 60 == 3 seconds.
    let mut clock = Clock::new();
    clock.set_time_ms(3723000);
    assert_eq!(clock.get_time(), "02:03");

    // A fraction of a second is dropped.
    clock.set_time_ms(59999);
    assert_eq!(clock.get_time(), "00:59");

    // An hour or more truncates the minutes field.
    clock.set_time_ms(3600000);
    assert_eq!(clock.get_time(), "00:00");
    clock.set_time_ms(3661000);
    assert_eq!(clock.get_time(), "01:01");
}

#[test]
fn test_clock_minutes_wrap_at_sixty() {
    let mut clock = Clock::new();
    clock.set_time_minutes(60);
    assert_eq!(clock.get_time(), "00:00");
    clock.set_time_minutes(61);
    assert_eq!(clock.get_time(), "01:00");
}

#[test]
fn test_decrement_one_second() {
    let mut clock = Clock::new();
    clock.set_time_minutes(1);
    clock.decrement_one_second();
    assert_eq!(clock.get_time(), "00:59");
    assert_eq!(clock.get_ms_from_time(), 59000);
    clock.decrement_one_second();
    assert_eq!(clock.get_time(), "00:58");
}

#[test]
fn test_countdown_tick_count() {
    // Three whole seconds take exactly three ticks and end at zero.
    let mut clock = Clock::new();
    clock.set_time_ms(3000);
    assert_eq!(clock.countdown(), 3);
    assert_eq!(clock.get_ms_from_time(), 0);
    assert_eq!(clock.get_time(), "00:00");

    // A whole minute takes exactly sixty ticks.
    clock.set_time_minutes(1);
    assert_eq!(clock.countdown(), 60);
    assert_eq!(clock.get_ms_from_time(), 0);
}

#[test]
fn test_cycle_sequence_wraps_and_restarts() {
    let mut pstate = StateTracker::new();
    assert_eq!(pstate.get_order(), None);
    let mut seen = Vec::new();
    for _ in 0..5 {
        pstate.increment_cycle();
        seen.push(pstate.get_order());
    }
    assert_eq!(seen, vec![Some(1), Some(2), Some(3), Some(4), None]);
    pstate.increment_cycle();
    assert_eq!(pstate.get_order(), Some(1));
}

#[test]
fn test_restart_from_any_position() {
    let mut pstate = StateTracker::new();
    pstate.increment_cycle();
    pstate.increment_cycle();
    pstate.increment_cycle();
    pstate.restart_cycle();
    assert_eq!(pstate.get_order(), None);
}

#[test]
fn test_break_selection_by_position() {
    // Positions one through three call for a five-minute short break.
    for n in 1..=3 {
        let mut pstate = StateTracker::new();
        for _ in 0..n {
            pstate.increment_cycle();
        }
        pstate.set_break();
        let clock = pstate.start_break().expect("a break is owed");
        assert_eq!(clock.get_time(), "05:00");
    }

    // Position four calls for a thirty-minute long break.
    let mut pstate = StateTracker::new();
    for _ in 0..4 {
        pstate.increment_cycle();
    }
    pstate.set_break();
    let clock = pstate.start_break().expect("a break is owed");
    assert_eq!(clock.get_time(), "30:00");

    // An unset position calls for no break.
    let mut pstate = StateTracker::new();
    pstate.set_break();
    assert!(pstate.start_break().is_none());
}

#[test]
fn test_work_interval_end_to_end() {
    // The first work interval: position unset to 1, then a short break of
    // exactly five minutes.
    let mut pstate = StateTracker::new();
    let work = pstate.start_work();
    assert_eq!(work.get_time(), "25:00");
    assert_eq!(pstate.get_order(), Some(1));
    pstate.set_break();
    let brk = pstate.start_break().expect("a break is owed");
    assert_eq!(brk.get_time(), "05:00");

    // After the fourth work interval the break is long: exactly thirty
    // minutes.
    for _ in 0..3 {
        let work = pstate.start_work();
        assert_eq!(work.get_time(), "25:00");
    }
    assert_eq!(pstate.get_order(), Some(4));
    pstate.set_break();
    let brk = pstate.start_break().expect("a break is owed");
    assert_eq!(brk.get_time(), "30:00");
}
