use wasting_time::clock::{format_time, Clock};
use wasting_time::game_win::{update_timer, FastTime};

#[test]
fn display_of_sixty_five_point_seven_seconds() {
    assert_eq!(Clock::from_millis(65_700).display(), "01:05");
}

#[test]
fn display_of_negative_time_is_zero() {
    assert_eq!(Clock::from_millis(-3_000).display(), "00:00");
}

#[test]
fn display_of_one_second_short_of_an_hour() {
    assert_eq!(Clock::from_millis(3_599_000).display(), "59:59");
}

#[test]
fn display_of_zero_and_of_a_fraction_of_a_second() {
    assert_eq!(Clock::from_millis(0).display(), "00:00");
    assert_eq!(Clock::from_millis(999).display(), "00:00");
    assert_eq!(Clock::from_millis(1_000).display(), "00:01");
}

#[test]
fn display_caps_minutes_at_ninety_nine() {
    assert_eq!(Clock::from_millis(99 * 60_000 + 59_000).display(), "99:59");
    assert_eq!(Clock::from_millis(100 * 60_000).display(), "99:00");
    assert_eq!(format_time(i64::MAX), "99:55");
}

#[test]
fn new_clock_holds_seconds_at_natural_speed() {
    let clock = Clock::new(300);
    assert_eq!(clock.time, 300_000);
    assert_eq!(clock.speed, 1000);
    assert_eq!(clock.display(), "05:00");
    assert!(!clock.is_expired());
}

#[test]
fn tick_subtracts_speed_times_dt() {
    let mut clock = Clock::new(300);
    clock.tick(16);
    assert_eq!(clock.time, 299_984);
    clock.speed = 2500;
    clock.tick(16);
    assert_eq!(clock.time, 299_984 - 40);
    clock.speed = 1;
    clock.tick(999);
    assert_eq!(clock.time, 299_944);
    clock.tick(1000);
    assert_eq!(clock.time, 299_943);
}

#[test]
fn tick_never_raises_the_clock() {
    let mut clock = Clock::from_millis(50);
    let mut last: i64 = clock.time;
    let mut i: u32 = 0;
    while i < 20 {
        clock.tick(i);
        assert!(clock.time <= last);
        last = clock.time;
        i += 1;
    }
    assert_eq!(clock.time, 50 - 190);
    assert!(clock.is_expired());
}

#[test]
fn sub_seconds_is_instant() {
    let mut clock = Clock::new(300);
    clock.sub_seconds(30);
    assert_eq!(clock.time, 270_000);
    assert_eq!(clock.speed, 1000);
    clock.sub_seconds(0);
    assert_eq!(clock.time, 270_000);
    clock.sub_seconds(300);
    assert_eq!(clock.time, -30_000);
    assert!(clock.is_expired());
}

#[test]
fn clock_holds_at_the_lowest_value() {
    let mut clock = Clock::from_millis(i64::MIN + 5);
    clock.sub_seconds(30);
    assert_eq!(clock.time, i64::MIN);
    clock.tick(1000);
    assert_eq!(clock.time, i64::MIN);
}

#[test]
fn minutes_and_seconds_round_down() {
    let clock = Clock::from_millis(65_700);
    assert_eq!(clock.minutes(), 1);
    assert_eq!(clock.seconds(), 5);
    let below = Clock::from_millis(-1);
    assert_eq!(below.minutes(), -1);
    assert_eq!(below.seconds(), 59);
    let minute_below = Clock::from_millis(-60_000);
    assert_eq!(minute_below.minutes(), -1);
    assert_eq!(minute_below.seconds(), 0);
    let lowest = Clock::from_millis(i64::MIN);
    assert_eq!(lowest.minutes(), i64::MIN.div_euclid(60_000));
    assert_eq!(lowest.seconds(), i64::MIN.rem_euclid(60_000) / 1000);
}

#[test]
fn expired_at_zero_exactly() {
    assert!(Clock::from_millis(0).is_expired());
    assert!(!Clock::from_millis(1).is_expired());
    assert!(Clock::from_millis(-1).is_expired());
}

#[test]
fn win_counter_starts_at_eight_hundred_seconds() {
    let timer = FastTime::new();
    assert_eq!(timer.time, 800_000);
}

#[test]
fn win_counter_runs_twenty_times_faster() {
    let mut timer = FastTime::new();
    let text = update_timer(&mut timer, 1000);
    assert_eq!(timer.time, 820_000);
    assert_eq!(text, "13:40");
    let text = update_timer(&mut timer, 16);
    assert_eq!(timer.time, 820_320);
    assert_eq!(text, "13:40");
    let text = update_timer(&mut timer, 0);
    assert_eq!(timer.time, 820_320);
    assert_eq!(text, "13:40");
}

#[test]
fn win_counter_holds_at_the_highest_value() {
    let mut timer = FastTime { time: i64::MAX - 10 };
    let text = update_timer(&mut timer, 1);
    assert_eq!(timer.time, i64::MAX);
    assert_eq!(text, "99:55");
}
