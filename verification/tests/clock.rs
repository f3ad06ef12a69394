use jetx_monitor::clock::{adjusted_now, date_of, shift_clock, time_of, CLOCK_OFFSET};

#[test]
fn writes_the_date_of_a_moment() {
    assert_eq!(date_of(0), "1970-01-01");
    assert_eq!(date_of(1_431_648_000), "2015-05-15");
    assert_eq!(date_of(1_700_000_000), "2023-11-14");
    assert_eq!(date_of(-1), "1969-12-31");
}

#[test]
fn writes_the_time_of_day_of_a_moment() {
    assert_eq!(time_of(0), "00:00:00");
    assert_eq!(time_of(1_700_000_000), "22:13:20");
    assert_eq!(time_of(-1), "23:59:59");
}

#[test]
fn writes_nothing_for_a_moment_out_of_range() {
    assert_eq!(date_of(i64::MAX), "");
    assert_eq!(time_of(i64::MIN), "");
}

#[test]
fn moves_a_reading_ahead_by_two_hours() {
    assert_eq!(CLOCK_OFFSET, 7_200);
    assert_eq!(shift_clock(0), 7_200);
    assert_eq!(shift_clock(1_700_000_000), 1_700_007_200);
    assert_eq!(shift_clock(-7_200), 0);
    assert_eq!(shift_clock(i64::MAX - 7_200), i64::MAX);
    assert_eq!(shift_clock(i64::MAX - 7_199), i64::MAX);
    assert_eq!(shift_clock(i64::MAX), i64::MAX);
}

#[test]
fn the_wall_clock_runs_after_the_year_2020() {
    let now = adjusted_now();
    assert!(now > 1_577_836_800);
    let later = adjusted_now();
    assert!(later >= now - 5);
}
