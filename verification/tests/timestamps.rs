use chrono::{Datelike, NaiveDate, NaiveDateTime, NaiveTime, Timelike};
use log_manager::time::{
    accept_optional, accept_required, parse_optional, parse_required, parse_timestamp,
    TIMESTAMP_FORMAT,
};
use log_manager::{LocalTimestamp, StoreError, Timestamp};

fn at(year: i32, month: u32, day: u32, hour: u32, minute: u32, second: u32) -> Timestamp {
    Timestamp { year, month, day, hour, minute, second, nanosecond: 0 }
}

fn fields(value: NaiveDateTime) -> Timestamp {
    Timestamp {
        year: value.year(),
        month: value.month(),
        day: value.day(),
        hour: value.hour(),
        minute: value.minute(),
        second: value.second(),
        nanosecond: value.nanosecond(),
    }
}

#[test]
fn format_is_year_month_day_hour_minute_second() {
    assert_eq!(TIMESTAMP_FORMAT, "%Y-%m-%d %H:%M:%S");
}

#[test]
fn parse_timestamp_reads_the_fields() {
    assert_eq!(parse_timestamp("2024-01-15 09:00:00"), Ok(at(2024, 1, 15, 9, 0, 0)));
    assert_eq!(parse_timestamp("1999-12-31 23:59:59"), Ok(at(1999, 12, 31, 23, 59, 59)));
    assert_eq!(parse_timestamp("2024-02-29 00:00:00"), Ok(at(2024, 2, 29, 0, 0, 0)));
}

#[test]
fn parse_timestamp_reads_a_leap_second() {
    let read = parse_timestamp("2015-06-30 23:59:60").unwrap();
    assert_eq!(
        read,
        Timestamp {
            year: 2015,
            month: 6,
            day: 30,
            hour: 23,
            minute: 59,
            second: 59,
            nanosecond: 1_000_000_000,
        }
    );
    assert!(read.is_valid());
}

#[test]
fn parse_timestamp_gives_the_reason_for_a_failure() {
    assert_eq!(
        parse_timestamp("not-a-date"),
        Err("input contains invalid characters".to_string())
    );
    assert_eq!(parse_timestamp(""), Err("premature end of input".to_string()));
    assert_eq!(parse_timestamp("2024-01-15 09:00:00 and more"), Err("trailing input".to_string()));
    assert_eq!(parse_timestamp("2024-13-01 00:00:00"), Err("input is out of range".to_string()));
}

#[test]
fn parse_timestamp_agrees_with_chrono() {
    let texts = [
        "2024-01-15 09:00:00",
        "2024-1-5 9:0:0",
        " 2024-01-15 09:00:00",
        "2024-01-15  09:00:00",
        "2024-01-15T09:00:00",
        "2024-01-15 09:00",
        "2024-01-15",
        "2023-02-29 00:00:00",
        "2024-02-30 00:00:00",
        "2024-04-31 12:00:00",
        "2024-00-10 12:00:00",
        "2024-01-00 12:00:00",
        "2024-01-15 24:00:00",
        "2024-01-15 23:60:00",
        "2024-01-15 23:59:60",
        "2024-01-15 23:59:61",
        "10000-01-01 00:00:00",
        "+10000-01-01 00:00:00",
        "-0001-01-01 00:00:00",
        "+262142-12-31 23:59:59",
        "+262143-01-01 00:00:00",
        "-262143-01-01 00:00:00",
        "-262144-12-31 00:00:00",
        "0000-01-01 00:00:00",
        "garbage",
        "not-a-date",
        "",
        "2024-01-15 09:00:00Z",
        "２０２４-01-15 09:00:00",
    ];
    for text in texts {
        let expected = NaiveDateTime::parse_from_str(text, "%Y-%m-%d %H:%M:%S")
            .map(fields)
            .map_err(|e| e.to_string());
        assert_eq!(parse_timestamp(text), expected, "for {:?}", text);
        if let Ok(read) = parse_timestamp(text) {
            assert!(read.is_valid(), "for {:?}", text);
        }
    }
}

#[test]
fn optional_field_that_cannot_be_read_is_absent() {
    assert_eq!(accept_optional(Err("trailing input".to_string())), None);
    assert_eq!(accept_optional(Ok(at(2024, 1, 15, 9, 0, 0))), Some(at(2024, 1, 15, 9, 0, 0)));
    assert_eq!(parse_optional(&None), None);
    assert_eq!(parse_optional(&Some("garbage".to_string())), None);
    assert_eq!(
        parse_optional(&Some("2024-01-15 09:00:00".to_string())),
        Some(at(2024, 1, 15, 9, 0, 0))
    );
}

#[test]
fn required_field_that_cannot_be_read_is_malformed() {
    assert_eq!(
        accept_required(Err("trailing input".to_string())),
        Err(StoreError::Malformed("trailing input".to_string()))
    );
    assert_eq!(accept_required(Ok(at(2024, 1, 15, 9, 0, 0))), Ok(at(2024, 1, 15, 9, 0, 0)));
    assert_eq!(
        parse_required(&"not-a-date".to_string()),
        Err(StoreError::Malformed("input contains invalid characters".to_string()))
    );
    assert_eq!(parse_required(&"2024-01-15 09:00:00".to_string()), Ok(at(2024, 1, 15, 9, 0, 0)));
}

#[test]
fn valid_dates_are_those_of_the_calendar() {
    assert!(at(2024, 2, 29, 0, 0, 0).is_valid());
    assert!(!at(2023, 2, 29, 0, 0, 0).is_valid());
    assert!(at(2000, 2, 29, 0, 0, 0).is_valid());
    assert!(!at(1900, 2, 29, 0, 0, 0).is_valid());
    assert!(!at(2100, 2, 29, 0, 0, 0).is_valid());
    assert!(at(2024, 1, 31, 0, 0, 0).is_valid());
    assert!(!at(2024, 4, 31, 0, 0, 0).is_valid());
    assert!(!at(2024, 0, 1, 0, 0, 0).is_valid());
    assert!(!at(2024, 13, 1, 0, 0, 0).is_valid());
    assert!(!at(2024, 1, 0, 0, 0, 0).is_valid());
    assert!(!at(2024, 1, 32, 0, 0, 0).is_valid());
    assert!(at(0, 2, 29, 0, 0, 0).is_valid());
    assert!(at(-4, 2, 29, 0, 0, 0).is_valid());
    assert!(!at(-1, 2, 29, 0, 0, 0).is_valid());
    assert!(!at(-100, 2, 29, 0, 0, 0).is_valid());
    assert!(at(-400, 2, 29, 0, 0, 0).is_valid());
}

#[test]
fn valid_dates_agree_with_chrono() {
    let years = [
        i32::MIN, -262_144, -262_143, -262_142, -2001, -2000, -401, -400, -101, -100, -5, -4, -3,
        -2, -1, 0, 1, 2, 3, 4, 100, 400, 1600, 1700, 1900, 1970, 1999, 2000, 2001, 2023, 2024,
        2100, 2400, 9999, 10_000, 262_141, 262_142, 262_143, i32::MAX,
    ];
    for year in years {
        for month in 0..=13u32 {
            for day in 0..=32u32 {
                let ours = at(year, month, day, 12, 0, 0).is_valid();
                let theirs = NaiveDate::from_ymd_opt(year, month, day).is_some();
                assert_eq!(ours, theirs, "for {}-{}-{}", year, month, day);
            }
        }
    }
}

#[test]
fn valid_times_agree_with_chrono() {
    let hours = [0u32, 1, 12, 23, 24, 25, u32::MAX];
    let sixties = [0u32, 1, 30, 58, 59, 60, 61, u32::MAX];
    let nanos = [
        0u32, 1, 999_999_999, 1_000_000_000, 1_000_000_001, 1_999_999_999, 2_000_000_000,
        u32::MAX,
    ];
    for hour in hours {
        for minute in sixties {
            for second in sixties {
                for nanosecond in nanos {
                    let ours = Timestamp {
                        year: 2024,
                        month: 1,
                        day: 15,
                        hour,
                        minute,
                        second,
                        nanosecond,
                    }
                    .is_valid();
                    let theirs =
                        NaiveTime::from_hms_nano_opt(hour, minute, second, nanosecond).is_some();
                    assert_eq!(ours, theirs, "for {}:{}:{}.{}", hour, minute, second, nanosecond);
                }
            }
        }
    }
}

#[test]
fn local_timestamp_offset_stays_under_a_day() {
    let local = at(2024, 1, 15, 9, 0, 0);
    assert!(LocalTimestamp { local, utc_offset_seconds: 0 }.is_valid());
    assert!(LocalTimestamp { local, utc_offset_seconds: 8 * 3600 }.is_valid());
    assert!(LocalTimestamp { local, utc_offset_seconds: 86_399 }.is_valid());
    assert!(LocalTimestamp { local, utc_offset_seconds: -86_399 }.is_valid());
    assert!(!LocalTimestamp { local, utc_offset_seconds: 86_400 }.is_valid());
    assert!(!LocalTimestamp { local, utc_offset_seconds: -86_400 }.is_valid());
    let unreal = at(2023, 2, 29, 0, 0, 0);
    assert!(!LocalTimestamp { local: unreal, utc_offset_seconds: 0 }.is_valid());
}
