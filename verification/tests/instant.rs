use chrono::{TimeZone, Utc};
use krabby_do::instant::{day_number, second_of_day, Timestamp, SECONDS_PER_DAY};

fn at(year: i32, month: u32, day: u32, hour: u32, minute: u32, second: u32) -> Timestamp {
    let date = Utc.with_ymd_and_hms(year, month, day, hour, minute, second).unwrap();
    Timestamp::new(date.timestamp(), date.timestamp_subsec_nanos())
}

#[test]
fn new_keeps_both_parts() {
    let instant = Timestamp::new(1_704_877_200, 42);
    assert_eq!(instant.secs, 1_704_877_200);
    assert_eq!(instant.nanos, 42);
    assert_eq!(instant, Timestamp { secs: at(2024, 1, 10, 9, 0, 0).secs, nanos: 42 });
    assert_ne!(instant, Timestamp::new(1_704_877_200, 43));
    assert_ne!(instant, Timestamp::new(1_704_877_201, 42));
}

#[test]
fn encode_writes_rfc3339_in_utc() {
    assert_eq!(
        at(2024, 1, 10, 9, 0, 0).encode(),
        Some(String::from("2024-01-10T09:00:00+00:00"))
    );
    assert_eq!(Timestamp::new(0, 0).encode(), Some(String::from("1970-01-01T00:00:00+00:00")));
    assert_eq!(Timestamp::new(-1, 0).encode(), Some(String::from("1969-12-31T23:59:59+00:00")));
}

#[test]
fn encode_keeps_the_fraction_of_a_second() {
    assert_eq!(
        Timestamp::new(1_700_000_000, 500_000_000).encode(),
        Some(String::from("2023-11-14T22:13:20.500+00:00"))
    );
    assert_eq!(
        Timestamp::new(1_700_000_000, 123_456_000).encode(),
        Some(String::from("2023-11-14T22:13:20.123456+00:00"))
    );
    assert_eq!(
        Timestamp::new(1_700_000_000, 123_456_789).encode(),
        Some(String::from("2023-11-14T22:13:20.123456789+00:00"))
    );
}

#[test]
fn decode_reads_what_encode_wrote() {
    for instant in [
        Timestamp::new(0, 0),
        Timestamp::new(-1, 999_999_999),
        Timestamp::new(1_700_000_000, 123_456_789),
        at(2024, 2, 29, 23, 59, 59),
        at(0, 1, 1, 0, 0, 0),
        at(9999, 12, 31, 23, 59, 59),
        Timestamp::new(59, 1_500_000_000),
    ] {
        let text = instant.encode().unwrap();
        assert_eq!(Timestamp::decode(&text), Some(instant));
    }
}

#[test]
fn decode_reads_other_offsets_as_the_same_instant() {
    let expected = Some(at(2024, 1, 10, 9, 0, 0));
    assert_eq!(Timestamp::decode("2024-01-10T09:00:00Z"), expected);
    assert_eq!(Timestamp::decode("2024-01-10T10:00:00+01:00"), expected);
    assert_eq!(Timestamp::decode("2024-01-10T01:00:00-08:00"), expected);
    assert_eq!(Timestamp::decode("2024-01-10 09:00:00+00:00"), expected);
}

#[test]
fn decode_rejects_what_is_no_date_and_time() {
    assert_eq!(Timestamp::decode(""), None);
    assert_eq!(Timestamp::decode("tomorrow"), None);
    assert_eq!(Timestamp::decode("2024-01-10"), None);
    assert_eq!(Timestamp::decode("2024-01-10T09:00:00"), None);
    assert_eq!(Timestamp::decode("2024-13-10T09:00:00Z"), None);
    assert_eq!(Timestamp::decode("2024-01-10 00:00:00"), None);
    assert_eq!(Timestamp::decode("+10000-01-01T00:00:00+00:00"), None);
}

#[test]
fn encode_refuses_what_would_not_read_back() {
    let first_second_of_year_10000 = Timestamp::new(253_402_300_800, 0);
    assert_eq!(first_second_of_year_10000.encode(), None);
    assert_eq!(Timestamp::new(253_402_300_799, 0).encode().as_deref(), Some("9999-12-31T23:59:59+00:00"));

    let last_second_before_year_0 = Timestamp::new(-62_167_219_201, 0);
    assert_eq!(last_second_before_year_0.encode(), None);
    assert_eq!(Timestamp::new(-62_167_219_200, 0).encode().as_deref(), Some("0000-01-01T00:00:00+00:00"));

    assert_eq!(Timestamp::new(i64::MAX, 0).encode(), None);
    assert_eq!(Timestamp::new(i64::MIN, 0).encode(), None);
    assert_eq!(Timestamp::new(0, 2_000_000_000).encode(), None);
    assert_eq!(Timestamp::new(0, 1_000_000_000).encode(), None);
}

#[test]
fn confirm_hands_out_the_text_only_for_the_same_instant() {
    let instant = Timestamp::new(10, 20);
    assert_eq!(instant.confirm(String::from("text"), Some(instant)), Some(String::from("text")));
    assert_eq!(instant.confirm(String::from("text"), Some(Timestamp::new(10, 21))), None);
    assert_eq!(instant.confirm(String::from("text"), Some(Timestamp::new(11, 20))), None);
    assert_eq!(instant.confirm(String::from("text"), None), None);
}

#[test]
fn due_window_is_half_open() {
    let start = at(2024, 1, 10, 0, 0, 0);
    let now = at(2024, 1, 10, 15, 30, 0);
    assert_eq!(start.secs, 1_704_844_800);
    assert!(Timestamp::new(start.secs, 0).is_due_on_day_of(&now));
    assert!(!Timestamp::new(start.secs - 1, 0).is_due_on_day_of(&now));
    assert!(!Timestamp::new(start.secs - 1, 999_999_999).is_due_on_day_of(&now));
    assert!(Timestamp::new(start.secs + 86_400 - 1, 0).is_due_on_day_of(&now));
    assert!(Timestamp::new(start.secs + 86_400 - 1, 999_999_999).is_due_on_day_of(&now));
    assert!(!Timestamp::new(start.secs + 86_400, 0).is_due_on_day_of(&now));
    assert!(now.is_due_on_day_of(&now));
}

#[test]
fn due_window_does_not_depend_on_the_time_of_day_of_now() {
    let start = at(2024, 1, 10, 0, 0, 0);
    let probe = at(2024, 1, 10, 9, 0, 0);
    for past in [0, 1, 3_600, 43_200, 86_399] {
        let now = Timestamp::new(start.secs + past, 7);
        assert!(probe.is_due_on_day_of(&now));
        assert_eq!(now.start_of_day(), Some(start));
        assert_eq!(now.start_of_next_day(), Some(at(2024, 1, 11, 0, 0, 0)));
    }
}

#[test]
fn due_window_before_the_epoch() {
    let now = Timestamp::new(-1, 0);
    assert!(Timestamp::new(-86_400, 0).is_due_on_day_of(&now));
    assert!(!Timestamp::new(-86_401, 0).is_due_on_day_of(&now));
    assert!(!Timestamp::new(0, 0).is_due_on_day_of(&now));
    assert_eq!(now.start_of_day(), Some(Timestamp::new(-86_400, 0)));
    assert_eq!(now.start_of_next_day(), Some(Timestamp::new(0, 0)));
}

#[test]
fn days_at_the_ends_of_the_count() {
    assert_eq!(Timestamp::new(i64::MIN, 0).start_of_day(), None);
    assert_eq!(Timestamp::new(i64::MAX, 0).start_of_next_day(), None);
    assert!(Timestamp::new(i64::MAX, 0).start_of_day().is_some());
    assert!(Timestamp::new(i64::MIN, 0).start_of_next_day().is_some());
    assert!(Timestamp::new(i64::MIN, 0).is_due_on_day_of(&Timestamp::new(i64::MIN + 1, 0)));
    assert!(!Timestamp::new(i64::MIN, 0).is_due_on_day_of(&Timestamp::new(i64::MAX, 0)));
}

#[test]
fn day_number_and_second_of_day() {
    assert_eq!(SECONDS_PER_DAY, 86_400);
    assert_eq!(day_number(0), 0);
    assert_eq!(day_number(86_399), 0);
    assert_eq!(day_number(86_400), 1);
    assert_eq!(day_number(-1), -1);
    assert_eq!(day_number(-86_400), -1);
    assert_eq!(day_number(-86_401), -2);
    assert_eq!(day_number(1_704_877_200), 19_732);
    assert_eq!(second_of_day(0), 0);
    assert_eq!(second_of_day(-1), 86_399);
    assert_eq!(second_of_day(1_704_877_200), 32_400);
    assert_eq!(second_of_day(i64::MIN), 30_592);
    assert_eq!(day_number(i64::MIN), -106_751_991_167_301);
}

#[test]
fn hour_and_minute_of_the_day() {
    let instant = at(2023, 6, 9, 15, 9, 41);
    assert_eq!(instant.hour(), 15);
    assert_eq!(instant.minute(), 9);
    assert_eq!(Timestamp::new(-1, 0).hour(), 23);
    assert_eq!(Timestamp::new(-1, 0).minute(), 59);
    assert_eq!(Timestamp::new(0, 0).hour(), 0);
    assert_eq!(Timestamp::new(0, 0).minute(), 0);
}
