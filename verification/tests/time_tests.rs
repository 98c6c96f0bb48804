use siafu::{Instant, ScheduleTime, ScheduleTimeError, Span};
use std::time::{SystemTime, UNIX_EPOCH};

fn now_nanos() -> u128 {
    SystemTime::now().duration_since(UNIX_EPOCH).unwrap().as_nanos()
}

#[test]
fn test_at() {
    let system_time = Instant::from_nanos(now_nanos());
    let schedule_time = ScheduleTime::At(system_time.clone());
    if let ScheduleTime::At(inner_time) = schedule_time {
        assert_eq!(system_time, inner_time);
    } else {
        panic!("Expected ScheduleTime::At variant.");
    }
}

// Parsing a human-readable delay gives the exact duration.
#[test]
fn test_delay_parsing() {
    let expected = Span::from_secs(3661);
    let parsed: ScheduleTime = "delay:1h 1m 1s".parse().unwrap();
    match parsed {
        ScheduleTime::Delay(d) => assert_eq!(d, expected),
        _ => panic!("Expected ScheduleTime::Delay variant."),
    }
}

// Parsing and displaying a fixed RFC3339 timestamp reproduces the string.
#[test]
fn test_at_parsing_and_display() {
    let timestamp_str = "2020-01-01T12:34:56Z";
    let input = format!("at:{}", timestamp_str);
    let parsed: ScheduleTime = input.parse().unwrap();
    match &parsed {
        ScheduleTime::At(_) => {
            let formatted = parsed.to_string();
            assert_eq!(formatted, input);
            assert_eq!(formatted.strip_prefix("at:").unwrap(), timestamp_str);
        }
        _ => panic!("Expected ScheduleTime::At variant."),
    }
}

// Formatting a parsed delay round-trips back to the same string.
#[test]
fn test_round_trip_delay() {
    let orig = "delay:15m";
    let sched: ScheduleTime = orig.parse().unwrap();
    assert_eq!(sched.to_string(), orig);
}

// Formatting a 90-minute delay and re-parsing it yields the same delay value.
#[test]
fn test_round_trip_delay_ninety_minutes() {
    let delay = ScheduleTime::Delay(Span::from_secs(90 * 60));
    let text = delay.to_string();
    assert_eq!(text, "delay:1h 30m");
    let parsed: ScheduleTime = text.parse().unwrap();
    assert_eq!(parsed, delay);
}

#[test]
fn test_error_invalid_format() {
    let err = "".parse::<ScheduleTime>().unwrap_err();
    assert!(matches!(err, ScheduleTimeError::InvalidFormat));
}

#[test]
fn test_error_unknown_tag() {
    let err = "foo:10s".parse::<ScheduleTime>().unwrap_err();
    assert!(matches!(err, ScheduleTimeError::UnknownTag(_)));
}

#[test]
fn test_error_duration_parse() {
    let err = "delay:abc".parse::<ScheduleTime>().unwrap_err();
    assert!(matches!(err, ScheduleTimeError::DurationParseError(_)));
}

#[test]
fn test_error_timestamp_parse() {
    let err = "at:abc".parse::<ScheduleTime>().unwrap_err();
    assert!(matches!(err, ScheduleTimeError::TimestampParseError(_)));
}

// The tag is matched case-insensitively, and the tag carried by an
// unknown-tag error has been lower-cased.
#[test]
fn test_tag_case_insensitive() {
    let parsed: ScheduleTime = "DELAY:5s".parse().unwrap();
    assert_eq!(parsed, ScheduleTime::Delay(Span::from_secs(5)));
    let parsed2: ScheduleTime = " At : 2020-01-01T12:34:56Z".parse().unwrap();
    assert!(matches!(parsed2, ScheduleTime::At(_)));
    let err = "FOO:10s".parse::<ScheduleTime>().unwrap_err();
    match err {
        ScheduleTimeError::UnknownTag(tag) => assert_eq!(tag, "foo"),
        _ => panic!("Expected ScheduleTimeError::UnknownTag variant."),
    }
}

// Error messages carry their descriptive text.
#[test]
fn test_error_messages() {
    assert_eq!(
        ScheduleTimeError::InvalidFormat.message(),
        "Invalid format: expected 'delay:<duration>' or 'at:<timestamp>'"
    );
    assert_eq!(
        ScheduleTimeError::UnknownTag("foo".to_string()).message(),
        "Unknown schedule type tag: 'foo'"
    );
}

// A delay resolves against the given instant; an absolute time stands as it
// is, whatever "now" says.
#[test]
fn test_resolution() {
    let now = Instant::from_nanos(1_000);
    assert_eq!(
        ScheduleTime::Delay(Span::from_nanos(5)).resolve(now),
        Instant::from_nanos(1_005)
    );
    assert_eq!(
        ScheduleTime::At(Instant::from_nanos(77)).resolve(now),
        Instant::from_nanos(77)
    );
    // far-future delays saturate instead of wrapping
    assert_eq!(
        ScheduleTime::Delay(Span::from_nanos(u128::MAX)).resolve(now),
        Instant::from_nanos(u128::MAX)
    );
}
