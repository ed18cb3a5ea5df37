use timed_dispatch::gesture::{Gesture, PointerStep, PRIMARY_BUTTON};
use timed_dispatch::report::{decimal_string, Report};
use timed_dispatch::schedule::{Schedule, Tick};

#[test]
fn standard_schedule_is_four_seconds_by_hundred_milliseconds() {
    let schedule = Schedule::standard();
    assert_eq!(schedule.duration_ms(), 4000);
    assert_eq!(schedule.interval_ms(), 100);
}

#[test]
fn schedule_keeps_what_it_was_made_with() {
    let schedule = Schedule::new(750, 30);
    assert_eq!(schedule.duration_ms(), 750);
    assert_eq!(schedule.interval_ms(), 30);
}

#[test]
fn tick_on_a_multiple_fires() {
    let schedule = Schedule::standard();
    assert_eq!(schedule.classify(0), Tick::Fire);
    assert_eq!(schedule.classify(100), Tick::Fire);
    assert_eq!(schedule.classify(3900), Tick::Fire);
}

#[test]
fn tick_between_multiples_idles() {
    let schedule = Schedule::standard();
    assert_eq!(schedule.classify(1), Tick::Idle);
    assert_eq!(schedule.classify(99), Tick::Idle);
    assert_eq!(schedule.classify(101), Tick::Idle);
    assert_eq!(schedule.classify(3999), Tick::Idle);
}

#[test]
fn tick_at_or_past_the_deadline_expires() {
    let schedule = Schedule::standard();
    assert_eq!(schedule.classify(4000), Tick::Expired);
    assert_eq!(schedule.classify(4001), Tick::Expired);
    assert_eq!(schedule.classify(4100), Tick::Expired);
    assert_eq!(schedule.classify(u128::MAX), Tick::Expired);
}

#[test]
fn deadline_wins_over_a_multiple() {
    let schedule = Schedule::new(300, 100);
    assert_eq!(schedule.classify(200), Tick::Fire);
    assert_eq!(schedule.classify(299), Tick::Idle);
    assert_eq!(schedule.classify(300), Tick::Expired);
}

#[test]
fn zero_duration_expires_at_once() {
    let schedule = Schedule::new(0, 100);
    assert_eq!(schedule.classify(0), Tick::Expired);
}

#[test]
fn interval_of_one_fires_on_every_millisecond() {
    let schedule = Schedule::new(5, 1);
    for elapsed in 0..5u128 {
        assert_eq!(schedule.classify(elapsed), Tick::Fire);
    }
    assert_eq!(schedule.classify(5), Tick::Expired);
}

#[test]
fn interval_longer_than_duration_fires_only_at_zero() {
    let schedule = Schedule::new(50, 80);
    assert_eq!(schedule.classify(0), Tick::Fire);
    for elapsed in 1..50u128 {
        assert_eq!(schedule.classify(elapsed), Tick::Idle);
    }
    assert_eq!(schedule.classify(80), Tick::Expired);
}

#[test]
fn click_is_move_press_release_on_the_mouse() {
    let gesture = Gesture::click();
    assert_eq!(gesture.source(), "mouse");
    assert_eq!(
        gesture.steps(),
        &vec![
            PointerStep::MoveToTarget { x: 0, y: 0 },
            PointerStep::Press { button: 0 },
            PointerStep::Release { button: 0 },
        ]
    );
}

#[test]
fn primary_button_is_button_zero() {
    assert_eq!(PRIMARY_BUTTON, 0);
}

#[test]
fn click_is_the_same_every_time() {
    assert_eq!(Gesture::click(), Gesture::click());
}

#[test]
fn gesture_keeps_its_source_and_steps() {
    let steps = vec![
        PointerStep::Press { button: 2 },
        PointerStep::MoveToTarget { x: -3, y: 14 },
        PointerStep::Release { button: 2 },
    ];
    let gesture = Gesture::new("pen".to_string(), steps.clone());
    assert_eq!(gesture.source(), "pen");
    assert_eq!(gesture.steps(), &steps);
}

#[test]
fn empty_gesture_has_no_steps() {
    let gesture = Gesture::new(String::new(), Vec::new());
    assert_eq!(gesture.source(), "");
    assert!(gesture.steps().is_empty());
}

#[test]
fn decimal_of_zero_is_one_digit() {
    assert_eq!(decimal_string(0), "0");
}

#[test]
fn decimal_of_single_digits() {
    let expected = ["0", "1", "2", "3", "4", "5", "6", "7", "8", "9"];
    for n in 0..10u64 {
        assert_eq!(decimal_string(n), expected[n as usize]);
    }
}

#[test]
fn decimal_keeps_inner_and_trailing_zeros() {
    assert_eq!(decimal_string(10), "10");
    assert_eq!(decimal_string(40), "40");
    assert_eq!(decimal_string(1000), "1000");
    assert_eq!(decimal_string(1_002_003), "1002003");
}

#[test]
fn decimal_orders_digits_most_significant_first() {
    assert_eq!(decimal_string(1234567890), "1234567890");
    assert_eq!(decimal_string(987), "987");
}

#[test]
fn decimal_of_the_largest_count() {
    assert_eq!(decimal_string(u64::MAX), "18446744073709551615");
}

#[test]
fn decimal_agrees_with_the_standard_formatter() {
    let mut n: u64 = 1;
    for _ in 0..64 {
        assert_eq!(decimal_string(n), format!("{}", n));
        assert_eq!(decimal_string(n - 1), format!("{}", n - 1));
        n = n.wrapping_mul(3).wrapping_add(7);
    }
}

#[test]
fn report_lines_are_readout_then_count() {
    let report = Report { readout: "1234".to_string(), dispatches: 7 };
    assert_eq!(report.lines(), vec!["1234".to_string(), "7".to_string()]);
}

#[test]
fn report_keeps_the_readout_text_as_it_was_read() {
    let report = Report { readout: " 1,234 cookies\n".to_string(), dispatches: 40 };
    assert_eq!(report.lines(), vec![" 1,234 cookies\n".to_string(), "40".to_string()]);
}

#[test]
fn report_of_an_empty_readout_still_has_two_lines() {
    let report = Report { readout: String::new(), dispatches: 0 };
    assert_eq!(report.lines(), vec![String::new(), "0".to_string()]);
}
