use protoncode::models::{can_expire, OtpNotification};
use protoncode::timestamp::{Timestamp, MAX_LOCAL_NANOS, MIN_LOCAL_NANOS};

#[test]
fn notification_is_masked_and_expires() {
    let shown = OtpNotification::new(
        "Acme".to_owned(),
        "123456".to_owned(),
        Timestamp::unix_epoch(),
        8,
    );
    assert_eq!(shown.source_label, "Acme");
    assert_eq!(shown.raw_code, "123456");
    assert_eq!(shown.masked_code, "******");
    assert_eq!(shown.received_at, Timestamp::unix_epoch());
    assert_eq!(shown.expires_at, Timestamp::new(8_000_000_000, 0).expect("in range"));
    assert_eq!(shown.expires_at.millis_since(&shown.received_at), 8000);
    assert_eq!(shown.clone(), shown);
}

#[test]
fn masking_shows_at_least_four_asterisks() {
    for (code, masked) in [("", "****"), ("12", "****"), ("1234", "****"), ("12345", "*****")] {
        let shown = OtpNotification::new(
            String::new(),
            code.to_owned(),
            Timestamp::unix_epoch(),
            1,
        );
        assert_eq!(shown.masked_code, masked);
    }
}

#[test]
fn expiry_has_to_be_representable() {
    let last = Timestamp::new(MAX_LOCAL_NANOS, 0).expect("in range");
    assert!(!can_expire(&last, 1));
    assert!(can_expire(&last, 0));
    let first = Timestamp::new(MIN_LOCAL_NANOS, 0).expect("in range");
    assert!(can_expire(&first, 1));
    for at in [first, last] {
        assert!(!can_expire(&at, i64::MAX as u64));
        assert!(!can_expire(&at, i64::MAX as u64 + 1));
        assert!(!can_expire(&at, u64::MAX));
    }
    assert!(!can_expire(&Timestamp::unix_epoch(), i64::MAX as u64));
}

#[test]
fn codes_of_the_same_length_look_the_same() {
    let first = OtpNotification::new("A".to_owned(), "123456".to_owned(), Timestamp::unix_epoch(), 1);
    let second = OtpNotification::new("B".to_owned(), "987654".to_owned(), Timestamp::unix_epoch(), 9);
    assert_eq!(first.masked_code, second.masked_code);
    assert_eq!(first.masked_code, "******");
}

#[test]
fn timestamps_have_limits() {
    assert!(Timestamp::new(MAX_LOCAL_NANOS, 93_599).is_some());
    assert!(Timestamp::new(MAX_LOCAL_NANOS + 1, 0).is_none());
    assert!(Timestamp::new(MIN_LOCAL_NANOS - 1, 0).is_none());
    assert!(Timestamp::new(0, 93_600).is_none());
    assert!(Timestamp::new(0, -93_600).is_none());
}

#[test]
fn limits_are_those_of_the_clock() {
    assert_eq!(
        time::PrimitiveDateTime::MAX.assume_utc().unix_timestamp_nanos(),
        MAX_LOCAL_NANOS
    );
    assert_eq!(
        time::PrimitiveDateTime::MIN.assume_utc().unix_timestamp_nanos(),
        MIN_LOCAL_NANOS
    );
    assert!(time::UtcOffset::from_whole_seconds(93_599).is_ok());
    assert!(time::UtcOffset::from_whole_seconds(93_600).is_err());
}

#[test]
fn clock_shows_local_hours_and_minutes() {
    let minute: i128 = 60_000_000_000;
    let shown = |local: i128, offset: i32| Timestamp::new(local, offset).expect("in range").clock();
    assert_eq!(shown(0, 0).as_deref(), Some("00:00"));
    assert_eq!(shown(minute * 545, 0).as_deref(), Some("09:05"));
    assert_eq!(shown(minute * 1439 + 1, 7200).as_deref(), Some("23:59"));
    assert_eq!(shown(-1, -3600).as_deref(), Some("23:59"));
}

#[test]
fn equal_timestamps_mean_the_same_moment() {
    let utc = Timestamp::new(0, 0).expect("in range");
    let ahead = Timestamp::new(3_600_000_000_000, 3600).expect("in range");
    assert_eq!(utc, ahead);
    assert_eq!(ahead.millis_since(&utc), 0);
    assert_ne!(utc, Timestamp::new(1, 0).expect("in range"));
}

#[test]
fn time_passes_in_whole_milliseconds() {
    let start = Timestamp::new(0, 0).expect("in range");
    let end = Timestamp::new(1_999_999, 0).expect("in range");
    assert_eq!(end.millis_since(&start), 1);
    assert_eq!(start.millis_since(&end), -1);
    let moved = start.plus_seconds(-5);
    assert_eq!(moved, Timestamp::new(-5_000_000_000, 0).expect("in range"));
}

#[test]
fn moving_keeps_the_offset() {
    let at = Timestamp::new(0, 3600).expect("in range");
    assert_eq!(at.plus_seconds(60).clock().as_deref(), Some("00:01"));
    assert!(at.can_move(60));
    assert!(!at.can_move(i64::MAX));
}

#[test]
fn now_is_later_than_this_library() {
    let then = Timestamp::new(1_700_000_000_000_000_000, 0).expect("in range");
    assert!(Timestamp::now_utc().millis_since(&then) > 0);
}
