use plustwo::ids::{id_from_text, message_id_from_text};
use plustwo::time::{timestamp_to_time, Timestamp};

#[test]
fn a_feed_timestamp_is_read_to_the_nanosecond() {
    assert_eq!(
        timestamp_to_time("2019-11-16T10:11:12.123Z"),
        Some(Timestamp { secs: 1573899072, nanos: 123_000_000 })
    );
    assert_eq!(
        timestamp_to_time("2019-11-16T10:11:12.634234626Z"),
        Some(Timestamp { secs: 1573899072, nanos: 634_234_626 })
    );
}

#[test]
fn a_feed_timestamp_without_a_fraction_is_read() {
    assert_eq!(
        timestamp_to_time("2025-03-13T20:00:00Z"),
        Some(Timestamp { secs: 1741896000, nanos: 0 })
    );
}

#[test]
fn a_time_before_the_epoch_has_negative_seconds() {
    assert_eq!(
        timestamp_to_time("1969-12-31T23:59:59.5Z"),
        Some(Timestamp { secs: -1, nanos: 500_000_000 })
    );
}

#[test]
fn what_is_no_timestamp_is_refused() {
    assert_eq!(timestamp_to_time(""), None);
    assert_eq!(timestamp_to_time("yesterday"), None);
    assert_eq!(timestamp_to_time("2019-11-16"), None);
    assert_eq!(timestamp_to_time("2019-13-16T10:11:12Z"), None);
    assert_eq!(timestamp_to_time("2019-11-16T25:11:12Z"), None);
}

#[test]
fn seconds_are_added_to_the_seconds() {
    let start = Timestamp { secs: 1741896000, nanos: 250 };
    assert_eq!(start.after_seconds(0), Some(start));
    assert_eq!(start.after_seconds(3600), Some(Timestamp { secs: 1741899600, nanos: 250 }));
    let early = Timestamp { secs: -10, nanos: 7 };
    assert_eq!(early.after_seconds(4), Some(Timestamp { secs: -6, nanos: 7 }));
}

#[test]
fn a_time_that_cannot_be_held_is_none() {
    let late = Timestamp { secs: i64::MAX - 5, nanos: 0 };
    assert_eq!(late.after_seconds(5), Some(Timestamp { secs: i64::MAX, nanos: 0 }));
    assert_eq!(late.after_seconds(6), None);
    assert_eq!(late.after_seconds(u64::MAX), None);
    let early = Timestamp { secs: i64::MIN, nanos: 1 };
    assert_eq!(early.after_seconds(u64::MAX), Some(Timestamp { secs: i64::MAX, nanos: 1 }));
}

#[test]
fn times_are_ordered_by_seconds_then_nanoseconds() {
    let a = Timestamp { secs: 5, nanos: 900 };
    let b = Timestamp { secs: 6, nanos: 0 };
    let c = Timestamp { secs: 6, nanos: 1 };
    assert!(a.precedes(b));
    assert!(b.precedes(c));
    assert!(a.precedes(c));
    assert!(!b.precedes(a));
    assert!(!c.precedes(b));
    assert!(!a.precedes(a));
}

#[test]
fn an_identity_is_a_decimal_number() {
    assert_eq!(id_from_text("12826"), Some(12826));
    assert_eq!(id_from_text("0"), Some(0));
    assert_eq!(id_from_text("007"), Some(7));
    assert_eq!(id_from_text("+15"), Some(15));
    assert_eq!(id_from_text("-15"), Some(-15));
    assert_eq!(id_from_text("-0"), Some(0));
    assert_eq!(id_from_text("9223372036854775807"), Some(i64::MAX));
    assert_eq!(id_from_text("-9223372036854775808"), Some(i64::MIN));
}

#[test]
fn what_is_no_number_is_refused() {
    assert_eq!(id_from_text(""), None);
    assert_eq!(id_from_text("+"), None);
    assert_eq!(id_from_text("-"), None);
    assert_eq!(id_from_text("12a"), None);
    assert_eq!(id_from_text(" 12"), None);
    assert_eq!(id_from_text("12 "), None);
    assert_eq!(id_from_text("1_000"), None);
    assert_eq!(id_from_text("--1"), None);
    assert_eq!(id_from_text("1.0"), None);
    assert_eq!(id_from_text("٣"), None);
}

#[test]
fn a_number_that_does_not_fit_is_refused() {
    assert_eq!(id_from_text("9223372036854775808"), None);
    assert_eq!(id_from_text("-9223372036854775809"), None);
    assert_eq!(id_from_text("99999999999999999999999"), None);
}

#[test]
fn a_message_identifier_is_read_as_its_number() {
    assert_eq!(
        message_id_from_text("550e8400-e29b-41d4-a716-446655440000"),
        Some(113059749145936325402354257176981405696)
    );
    assert_eq!(
        message_id_from_text("befa7b53-d79d-478f-86b9-120f112b044e"),
        Some(253853894792815876999139314480855057486)
    );
    assert_eq!(message_id_from_text("00000000-0000-0000-0000-000000000001"), Some(1));
}

#[test]
fn what_is_no_identifier_is_refused() {
    assert_eq!(message_id_from_text(""), None);
    assert_eq!(message_id_from_text("12826"), None);
    assert_eq!(message_id_from_text("550e8400-e29b-41d4-a716-44665544000g"), None);
}
