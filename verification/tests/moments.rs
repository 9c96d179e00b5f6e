use chrono::DateTime;
use workstation_app::moment::{Moment, FIRST_SECOND, LAST_SECOND};

#[test]
fn the_instants_are_those_the_calendar_has() {
    for (seconds, nanos) in [
        (FIRST_SECOND, 0),
        (FIRST_SECOND, 999_999_999),
        (LAST_SECOND, 0),
        (LAST_SECOND, 999_999_999),
        (0, 0),
        (-1, 5),
    ] {
        assert!(DateTime::from_timestamp(seconds, nanos).is_some());
        let moment = Moment::new(seconds, nanos).expect("an instant in range");
        assert_eq!((moment.seconds(), moment.nanos()), (seconds, nanos));
        let _ = moment.rfc3339();
    }
    assert!(DateTime::from_timestamp(FIRST_SECOND - 1, 0).is_none());
    assert!(Moment::new(FIRST_SECOND - 1, 0).is_none());
    assert!(DateTime::from_timestamp(LAST_SECOND + 1, 0).is_none());
    assert!(Moment::new(LAST_SECOND + 1, 0).is_none());
    assert!(Moment::new(0, 1_000_000_000).is_none());
}

#[test]
fn whole_seconds_are_counted_towards_zero() {
    let at = |seconds, nanos| Moment::new(seconds, nanos).unwrap();
    assert_eq!(at(10, 0).seconds_since(&at(7, 0)), 3);
    assert_eq!(at(10, 0).seconds_since(&at(7, 1)), 2);
    assert_eq!(at(7, 1).seconds_since(&at(10, 0)), -2);
    assert_eq!(at(7, 0).seconds_since(&at(10, 0)), -3);
    assert_eq!(at(7, 999_999_999).seconds_since(&at(7, 0)), 0);
    assert_eq!(
        at(LAST_SECOND, 0).seconds_since(&at(FIRST_SECOND, 0)),
        LAST_SECOND - FIRST_SECOND
    );
    assert!(at(7, 1).is_after(&at(7, 0)));
    assert!(!at(7, 0).is_after(&at(7, 0)));
    assert!(at(8, 0).is_after(&at(7, 999_999_999)));
}

#[test]
fn an_instant_is_written_in_universal_time_to_the_second() {
    assert_eq!(Moment::new(0, 0).unwrap().rfc3339(), "1970-01-01T00:00:00Z");
    assert_eq!(
        Moment::new(1_786_878_482, 123_456_789).unwrap().rfc3339(),
        "2026-08-16T11:08:02Z"
    );
}
