use chrono::{DateTime, Utc};
use osc_cost::clock::{Timestamp, FIRST_SECOND, LAST_SECOND};

#[test]
fn the_text_of_a_timestamp_is_rfc3339() {
    assert_eq!(Timestamp::new(0, 0).unwrap().to_rfc3339(), "1970-01-01T00:00:00+00:00");
    assert_eq!(Timestamp::new(1431648000, 0).unwrap().to_rfc3339(), "2015-05-15T00:00:00+00:00");
    assert_eq!(
        Timestamp::new(1_600_000_000, 123_000_000).unwrap().to_rfc3339(),
        "2020-09-13T12:26:40.123+00:00"
    );
    assert_eq!(Timestamp::new(-1, 0).unwrap().to_rfc3339(), "1969-12-31T23:59:59+00:00");
}

#[test]
fn a_leap_second_ends_a_minute() {
    assert_eq!(
        Timestamp::new(1_483_228_799, 1_000_000_000).unwrap().to_rfc3339(),
        "2016-12-31T23:59:60+00:00"
    );
    assert!(Timestamp::new(-1, 1_000_000_000).is_some());
    assert!(Timestamp::new(0, 1_000_000_000).is_none());
    assert!(Timestamp::new(1, 1_999_999_999).is_none());
    assert!(Timestamp::new(59, 2_000_000_000).is_none());
}

#[test]
fn the_calendar_ends_where_that_of_the_clock_ends() {
    assert_eq!(DateTime::<Utc>::MIN_UTC.timestamp(), FIRST_SECOND);
    assert_eq!(DateTime::<Utc>::MAX_UTC.timestamp(), LAST_SECOND);
    for secs in [i64::MIN, FIRST_SECOND - 1, FIRST_SECOND, -60, -1, 0, 59, LAST_SECOND, LAST_SECOND + 1, i64::MAX] {
        for nanos in [0, 999_999_999, 1_000_000_000, 1_999_999_999, 2_000_000_000, u32::MAX] {
            let known = DateTime::<Utc>::from_timestamp(secs, nanos);
            let ours = Timestamp::new(secs, nanos);
            assert_eq!(ours.map(|t| t.to_rfc3339()), known.map(|t| t.to_rfc3339()));
        }
    }
}

#[test]
fn the_present_has_a_text() {
    let before = Utc::now();
    let now = DateTime::parse_from_rfc3339(&Timestamp::now().to_rfc3339()).unwrap();
    assert!(before <= now);
    assert!(now <= Utc::now());
}
