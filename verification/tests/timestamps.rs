use ateam::timestamp::{MAX_SECS, MIN_SECS, NANOS_PER_HOUR, NANOS_PER_SEC};
use ateam::Timestamp;
use chrono::{DateTime, Utc};

fn at(secs: i64, nanos: u32) -> Timestamp {
    Timestamp::new(secs, nanos).unwrap()
}

#[test]
fn new_keeps_seconds_and_nanoseconds() {
    let t = at(1_431_648_000, 123_456_789);
    assert_eq!(t.seconds(), 1_431_648_000);
    assert_eq!(t.subsec_nanos(), 123_456_789);

    let before_epoch = at(-1, 999_999_999);
    assert_eq!(before_epoch.seconds(), -1);
    assert_eq!(before_epoch.subsec_nanos(), 999_999_999);
}

#[test]
fn new_accepts_the_whole_range() {
    assert!(Timestamp::new(MIN_SECS, 0).is_some());
    assert!(Timestamp::new(MAX_SECS, 999_999_999).is_some());
    assert!(Timestamp::new(0, 0).is_some());
}

#[test]
fn new_rejects_what_lies_outside() {
    assert!(Timestamp::new(MIN_SECS - 1, 0).is_none());
    assert!(Timestamp::new(MIN_SECS - 1, 999_999_999).is_none());
    assert!(Timestamp::new(MAX_SECS + 1, 0).is_none());
    assert!(Timestamp::new(i64::MIN, 0).is_none());
    assert!(Timestamp::new(i64::MAX, 0).is_none());
    assert!(Timestamp::new(0, 1_000_000_000).is_none());
    assert!(Timestamp::new(59, 1_500_000_000).is_none());
    assert!(Timestamp::new(0, u32::MAX).is_none());
}

#[test]
fn range_is_the_range_of_chrono() {
    assert_eq!(DateTime::<Utc>::MIN_UTC.timestamp(), MIN_SECS);
    assert_eq!(DateTime::<Utc>::MIN_UTC.timestamp_subsec_nanos(), 0);
    assert_eq!(DateTime::<Utc>::MAX_UTC.timestamp(), MAX_SECS);
    assert_eq!(DateTime::<Utc>::MAX_UTC.timestamp_subsec_nanos(), 999_999_999);
    assert!(DateTime::from_timestamp(MIN_SECS, 0).is_some());
    assert!(DateTime::from_timestamp(MAX_SECS, 999_999_999).is_some());
    assert!(DateTime::from_timestamp(MIN_SECS - 1, 999_999_999).is_none());
    assert!(DateTime::from_timestamp(MAX_SECS + 1, 0).is_none());
}

#[test]
fn constants_are_what_they_say() {
    assert_eq!(NANOS_PER_SEC, 1_000_000_000);
    assert_eq!(NANOS_PER_HOUR, 3600 * 1_000_000_000);
}

#[test]
fn hours_since_counts_whole_hours() {
    let start = at(1_000_000, 0);
    assert_eq!(start.hours_since(&start), 0);
    assert_eq!(at(1_000_000 + 3599, 999_999_999).hours_since(&start), 0);
    assert_eq!(at(1_000_000 + 3600, 0).hours_since(&start), 1);
    assert_eq!(at(1_000_000 + 7199, 999_999_999).hours_since(&start), 1);
    assert_eq!(at(1_000_000 + 7200, 0).hours_since(&start), 2);
    assert_eq!(at(1_000_000 + 86_400 * 3, 0).hours_since(&start), 72);
}

#[test]
fn hours_since_looks_at_the_nanoseconds() {
    let start = at(500, 1);
    assert_eq!(at(500 + 3600, 0).hours_since(&start), 0);
    assert_eq!(at(500 + 3600, 1).hours_since(&start), 1);
    assert_eq!(at(500 + 3600, 2).hours_since(&start), 1);
}

#[test]
fn hours_since_rounds_toward_zero_when_negative() {
    let later = at(1_000_000, 0);
    assert_eq!(at(1_000_000 - 1800, 0).hours_since(&later), 0);
    assert_eq!(at(1_000_000 - 3599, 1).hours_since(&later), 0);
    assert_eq!(at(1_000_000 - 3600, 0).hours_since(&later), -1);
    assert_eq!(at(1_000_000 - 5400, 0).hours_since(&later), -1);
    assert_eq!(at(1_000_000 - 7200, 0).hours_since(&later), -2);
    assert_eq!(at(1_000_000 - 7201, 999_999_999).hours_since(&later), -2);
}

#[test]
fn hours_since_is_not_one_of_its_arguments() {
    let earlier = at(10, 0);
    let later = at(10 + 5 * 3600, 0);
    let hours = later.hours_since(&earlier);
    assert_eq!(hours, 5);
    assert_ne!(hours, later.seconds());
    assert_ne!(hours, earlier.seconds());
    assert_eq!(earlier.hours_since(&later), -5);
}

#[test]
fn hours_since_across_the_epoch() {
    let before = at(-7200, 0);
    let after = at(3600, 0);
    assert_eq!(after.hours_since(&before), 3);
    assert_eq!(before.hours_since(&after), -3);
}

#[test]
fn hours_since_over_the_whole_range() {
    let first = at(MIN_SECS, 0);
    let last = at(MAX_SECS, 999_999_999);
    let hours = (MAX_SECS - MIN_SECS) / 3600;
    assert_eq!(hours, 4_595_796_695);
    assert_eq!(last.hours_since(&first), hours);
    assert_eq!(first.hours_since(&last), -hours);
}

#[test]
fn hours_since_agrees_with_chrono() {
    let a = DateTime::from_timestamp(1_700_000_000, 250_000_000).unwrap();
    let b = DateTime::from_timestamp(1_600_000_123, 750_000_000).unwrap();
    let ta = at(a.timestamp(), a.timestamp_subsec_nanos());
    let tb = at(b.timestamp(), b.timestamp_subsec_nanos());
    assert_eq!(ta.hours_since(&tb), (a - b).num_hours());
    assert_eq!(tb.hours_since(&ta), (b - a).num_hours());
    assert_eq!(ta.hours_since(&tb), 27_777);
}

#[test]
fn now_is_a_present_instant() {
    let before = Utc::now();
    let now = Timestamp::now();
    let after = Utc::now();
    assert!(before.timestamp() <= now.seconds());
    assert!(now.seconds() <= after.timestamp());
    assert!(now.subsec_nanos() < NANOS_PER_SEC);
    assert!(now.seconds() > 1_600_000_000);
}
