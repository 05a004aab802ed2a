use chat_app::clock::{format_timestamp, push_decimal, push_two_digits, ClockTime};

fn hhmm(hours: u32, minutes: u32) -> String {
    format_timestamp(ClockTime { hours, minutes })
}

#[test]
fn time_of_day_is_written_in_two_digits_each() {
    assert_eq!(hhmm(22, 13), "22:13");
    assert_eq!(hhmm(7, 5), "07:05");
    assert_eq!(hhmm(0, 0), "00:00");
    assert_eq!(hhmm(23, 59), "23:59");
    assert_eq!(hhmm(10, 9), "10:09");
    assert_eq!(hhmm(9, 10), "09:10");
}

#[test]
fn time_of_day_agrees_with_std_formatting() {
    for hours in 0..24 {
        for minutes in 0..60 {
            assert_eq!(hhmm(hours, minutes), format!("{:02}:{:02}", hours, minutes));
        }
    }
    assert_eq!(hhmm(100, 4_000_000_000), format!("{:02}:{:02}", 100, 4_000_000_000u32));
}

#[test]
fn decimal_has_no_leading_zeros() {
    let mut out = String::from("n=");
    push_decimal(&mut out, 0);
    push_decimal(&mut out, 7);
    push_decimal(&mut out, 10);
    push_decimal(&mut out, 1_000);
    push_decimal(&mut out, u32::MAX);
    assert_eq!(out, "n=071010004294967295");
}

#[test]
fn two_digits_pads_single_digits_only() {
    let mut out = String::new();
    push_two_digits(&mut out, 3);
    out.push(' ');
    push_two_digits(&mut out, 42);
    out.push(' ');
    push_two_digits(&mut out, 123);
    assert_eq!(out, "03 42 123");
}

#[test]
fn timestamp_1700000000000_in_utc() {
    let time = ClockTime::at_utc_offset(1_700_000_000_000, 0);
    assert_eq!(time, ClockTime { hours: 22, minutes: 13 });
    assert_eq!(format_timestamp(time), "22:13");
}

#[test]
fn timestamp_1700000000000_east_of_utc() {
    let time = ClockTime::at_utc_offset(1_700_000_000_000, 330);
    assert_eq!(time, ClockTime { hours: 3, minutes: 43 });
    assert_eq!(format_timestamp(time), "03:43");
    let time = ClockTime::at_utc_offset(1_700_000_000_000, 540);
    assert_eq!(format_timestamp(time), "07:13");
}

#[test]
fn timestamp_1700000000000_west_of_utc() {
    let time = ClockTime::at_utc_offset(1_700_000_000_000, -480);
    assert_eq!(time, ClockTime { hours: 14, minutes: 13 });
    assert_eq!(format_timestamp(time), "14:13");
    let time = ClockTime::at_utc_offset(1_700_000_000_000, -1_440);
    assert_eq!(format_timestamp(time), "22:13");
}

#[test]
fn clock_wraps_around_midnight() {
    assert_eq!(ClockTime::at_utc_offset(0, 0), ClockTime { hours: 0, minutes: 0 });
    assert_eq!(ClockTime::at_utc_offset(0, -1), ClockTime { hours: 23, minutes: 59 });
    assert_eq!(ClockTime::at_utc_offset(59_999, 0), ClockTime { hours: 0, minutes: 0 });
    assert_eq!(ClockTime::at_utc_offset(60_000, 0), ClockTime { hours: 0, minutes: 1 });
    assert_eq!(ClockTime::at_utc_offset(86_400_000, 0), ClockTime { hours: 0, minutes: 0 });
    assert_eq!(ClockTime::at_utc_offset(86_340_000, 1), ClockTime { hours: 0, minutes: 0 });
}

#[test]
fn clock_takes_extreme_arguments() {
    let far = ClockTime::at_utc_offset(u64::MAX, i32::MAX);
    assert!(far.hours < 24 && far.minutes < 60);
    let expected = ((u64::MAX / 60_000) as i128 + i32::MAX as i128).rem_euclid(1_440);
    assert_eq!(far.hours as i128, expected / 60);
    assert_eq!(far.minutes as i128, expected % 60);
    let back = ClockTime::at_utc_offset(0, i32::MIN);
    let expected = (i32::MIN as i128).rem_euclid(1_440);
    assert_eq!(back.hours as i128, expected / 60);
    assert_eq!(back.minutes as i128, expected % 60);
}
