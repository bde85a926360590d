use kajiya_kay_demo::refresh_rate::{Refresh, RefreshRate, NANOS_AT_UNIT_RATE};

const HERTZ: u64 = 1_000_000;

#[test]
fn sixty_hertz_is_a_sixtieth_of_a_second() {
    let rate = RefreshRate::new(60 * HERTZ, 0);
    assert_eq!(rate.interval(), 16_666_666);
    let seconds = rate.interval() as f64 / 1e9;
    assert!((seconds - 1.0 / 60.0).abs() < 1e-9);
}

#[test]
fn interval_is_one_second_over_the_rate() {
    assert_eq!(RefreshRate::new(HERTZ, 0).interval(), 1_000_000_000);
    assert_eq!(RefreshRate::new(61 * HERTZ, 0).interval(), 16_393_442);
    assert_eq!(RefreshRate::new(59_940_000, 0).interval(), 16_683_350);
    assert_eq!(RefreshRate::new(HERTZ / 2, 0).interval(), 2_000_000_000);
    assert_eq!(RefreshRate::new(1, 0).interval(), NANOS_AT_UNIT_RATE);
    assert_eq!(RefreshRate::new(NANOS_AT_UNIT_RATE, 0).interval(), 1);
    assert_eq!(RefreshRate::new(u64::MAX, 0).interval(), 0);
}

#[test]
fn first_deadline_is_one_interval_after_construction() {
    let mut rate = RefreshRate::new(60 * HERTZ, 1_000);
    let refresh = rate.refresh_now(5_000);
    assert_eq!(refresh, Refresh { next_update: 16_667_666, elapsed: 4_000 });
}

#[test]
fn deadline_counts_from_the_refresh_before() {
    let mut rate = RefreshRate::new(100 * HERTZ, 0);
    assert_eq!(rate.refresh_now(3), Refresh { next_update: 10_000_000, elapsed: 3 });
    assert_eq!(
        rate.refresh_now(10_000_500),
        Refresh { next_update: 10_000_003, elapsed: 10_000_497 }
    );
    assert_eq!(
        rate.refresh_now(25_000_000),
        Refresh { next_update: 20_000_500, elapsed: 14_999_500 }
    );
    // a slow tick is not made up for
    assert_eq!(
        rate.refresh_now(25_000_001),
        Refresh { next_update: 35_000_000, elapsed: 1 }
    );
}

#[test]
fn consecutive_deadlines_increase() {
    let mut rate = RefreshRate::new(60 * HERTZ, 0);
    let mut now: u64 = 0;
    let mut last: Option<u128> = None;
    for step in 1..200u64 {
        now += 1 + (step * 7_919) % 40_000_000;
        let refresh = rate.refresh_now(now);
        if let Some(before) = last {
            assert!(before < refresh.next_update);
        }
        last = Some(refresh.next_update);
    }
}

#[test]
fn deadlines_stand_still_when_the_clock_does() {
    let mut rate = RefreshRate::new(60 * HERTZ, 7);
    let first = rate.refresh_now(7);
    let second = rate.refresh_now(7);
    assert_eq!(first.next_update, second.next_update);
    assert_eq!(second.elapsed, 0);
}

#[test]
fn a_clock_that_goes_back_gives_no_elapsed_time() {
    let mut rate = RefreshRate::new(60 * HERTZ, 1_000);
    let refresh = rate.refresh_now(400);
    assert_eq!(refresh.elapsed, 0);
    assert_eq!(rate.refresh_now(1_400), Refresh { next_update: 16_667_066, elapsed: 1_000 });
}

#[test]
fn deadline_goes_beyond_the_last_instant_that_comes_in() {
    let mut rate = RefreshRate::new(1, u64::MAX - 5);
    let interval = NANOS_AT_UNIT_RATE as u128;
    assert_eq!(
        rate.refresh_now(u64::MAX),
        Refresh { next_update: (u64::MAX - 5) as u128 + interval, elapsed: 5 }
    );
    assert_eq!(
        rate.refresh_now(0),
        Refresh { next_update: u64::MAX as u128 + interval, elapsed: 0 }
    );
    assert_eq!(rate.refresh_now(1), Refresh { next_update: interval, elapsed: 1 });
}

#[test]
fn deadlines_increase_up_to_the_last_instant() {
    let mut rate = RefreshRate::new(1, u64::MAX - 2);
    let first = rate.refresh_now(u64::MAX - 1);
    let second = rate.refresh_now(u64::MAX);
    let third = rate.refresh_now(u64::MAX);
    assert!(first.next_update < second.next_update);
    assert_eq!(second.next_update + 1, third.next_update);
}

#[test]
fn refreshing_keeps_the_interval() {
    let mut rate = RefreshRate::new(60 * HERTZ, 0);
    rate.refresh_now(123_456_789);
    rate.refresh_now(987_654_321);
    assert_eq!(rate.interval(), 16_666_666);
}
