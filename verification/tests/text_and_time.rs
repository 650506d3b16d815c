use chrono::{Datelike, NaiveDate, Timelike};
use ticket_scanner::logline::format_log_line;
use ticket_scanner::text::{i64_text, u64_text};
use ticket_scanner::timestamp::{format_clock, format_timestamp, time_of, DateTimeFields};

fn at(year: i32, month: u32, day: u32, hour: u32, minute: u32, second: u32) -> DateTimeFields {
    DateTimeFields { year, month, day, hour, minute, second, nanosecond: 0 }
}

#[test]
fn decimal_texts() {
    assert_eq!(u64_text(0), "0");
    assert_eq!(u64_text(1234), "1234");
    assert_eq!(u64_text(u64::MAX), "18446744073709551615");
    assert_eq!(i64_text(-7), "-7");
    assert_eq!(i64_text(i64::MIN), "-9223372036854775808");
    assert_eq!(i64_text(42), "42");
}

#[test]
fn stored_timestamp_form() {
    assert_eq!(format_timestamp(&at(2024, 3, 5, 7, 8, 9)), "2024-03-05 07:08:09");
    assert_eq!(format_timestamp(&at(812, 12, 31, 23, 59, 59)), "0812-12-31 23:59:59");
    assert_eq!(format_timestamp(&at(12345, 1, 1, 0, 0, 0)), "+12345-01-01 00:00:00");
    assert_eq!(format_timestamp(&at(-5, 1, 1, 0, 0, 0)), "-0005-01-01 00:00:00");
    let leap = DateTimeFields { nanosecond: 1_000_000_000, ..at(2016, 12, 31, 23, 59, 59) };
    assert_eq!(format_timestamp(&leap), "2016-12-31 23:59:60");
}

#[test]
fn stored_timestamps_match_chrono_format() {
    let dt = NaiveDate::from_ymd_opt(2023, 11, 2).unwrap().and_hms_opt(14, 3, 7).unwrap();
    let f = DateTimeFields {
        year: dt.year(),
        month: dt.month(),
        day: dt.day(),
        hour: dt.hour(),
        minute: dt.minute(),
        second: dt.second(),
        nanosecond: dt.nanosecond(),
    };
    assert_eq!(format_timestamp(&f), dt.format("%Y-%m-%d %H:%M:%S").to_string());
    assert_eq!(format_clock(&f), dt.format("%-I:%M:%S %p").to_string());
}

#[test]
fn twelve_hour_clock() {
    assert_eq!(format_clock(&at(2024, 1, 1, 0, 5, 9)), "12:05:09 AM");
    assert_eq!(format_clock(&at(2024, 1, 1, 12, 0, 0)), "12:00:00 PM");
    assert_eq!(format_clock(&at(2024, 1, 1, 13, 4, 59)), "1:04:59 PM");
    assert_eq!(format_clock(&at(2024, 1, 1, 11, 59, 30)), "11:59:30 AM");
}

#[test]
fn time_of_reformats_stored_timestamps() {
    assert_eq!(time_of("2024-01-05 13:04:09"), "1:04:09 PM");
    assert_eq!(time_of("2024-01-05 00:00:00"), "12:00:00 AM");
}

#[test]
fn time_of_keeps_other_text() {
    assert_eq!(time_of("yesterday"), "yesterday");
    assert_eq!(time_of("2024-02-30 10:00:00"), "2024-02-30 10:00:00");
    assert_eq!(time_of(""), "");
}

#[test]
fn stored_timestamps_sort_as_text_in_time_order() {
    let times = [
        at(2023, 12, 31, 23, 59, 59),
        at(2024, 1, 1, 0, 0, 0),
        at(2024, 1, 1, 9, 0, 0),
        at(2024, 1, 1, 10, 0, 0),
        at(2024, 1, 1, 10, 0, 1),
        at(2024, 2, 1, 0, 0, 0),
    ];
    for i in 0..times.len() {
        for j in 0..times.len() {
            let a = format_timestamp(&times[i]);
            let b = format_timestamp(&times[j]);
            assert_eq!(a <= b, i <= j, "{a} vs {b}");
        }
    }
}

#[test]
fn log_lines() {
    let line = format_log_line(&at(2024, 6, 1, 8, 30, 0), "SCAN", "#1234 accepted");
    assert_eq!(line, "[2024-06-01 08:30:00] SCAN       #1234 accepted\n");
    let long = format_log_line(&at(2024, 6, 1, 8, 30, 0), "VERYLONGKIND", "x");
    assert_eq!(long, "[2024-06-01 08:30:00] VERYLONGKIND x\n");
}
