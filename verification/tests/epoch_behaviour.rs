use std::rc::Rc;

use cfn_guard::date_time::{
    epoch_entry, epoch_from_seconds, now, now_at, parse_epoch, MAX_EPOCH_SECONDS,
    MIN_EPOCH_SECONDS,
};
use cfn_guard::decimal::decimal_string;
use cfn_guard::error::Error;
use cfn_guard::path_value::{Path, PathAwareValue, QueryResult, UnResolved};

fn resolved(value: PathAwareValue) -> QueryResult {
    QueryResult::Resolved(Rc::new(value))
}

fn string_at(pointer: &str, value: &str) -> QueryResult {
    resolved(PathAwareValue::String((
        Path::new(pointer.to_string(), 3, 7),
        value.to_string(),
    )))
}

fn int_at(name: &str, value: i64) -> PathAwareValue {
    PathAwareValue::Int((Path::try_from(name).unwrap(), value))
}

fn single_epoch(out: &[Option<PathAwareValue>]) -> i64 {
    assert_eq!(out.len(), 1);
    match out[0].as_ref().unwrap() {
        PathAwareValue::Int((_, t)) => *t,
        _ => unreachable!(),
    }
}

#[test]
fn path_try_from_names_the_string_without_location() {
    let p = Path::try_from("parse_epoch").unwrap();
    assert_eq!(p, Path::new("parse_epoch".to_string(), 0, 0));
}

#[test]
fn parse_epoch_keeps_position_and_skips_non_strings() {
    let args = vec![
        resolved(PathAwareValue::Int((Path::try_from("/a").unwrap(), 5))),
        string_at("/b", "2024-08-21T00:00:00Z"),
        QueryResult::UnResolved(UnResolved {
            traversed_to: Rc::new(PathAwareValue::Null(Path::try_from("/c").unwrap())),
            remaining_query: "Properties".to_string(),
            reason: None,
        }),
        QueryResult::Literal(Rc::new(PathAwareValue::String((
            Path::try_from("/d").unwrap(),
            "1970-01-01T00:00:00Z".to_string(),
        )))),
        resolved(PathAwareValue::Bool((Path::try_from("/e").unwrap(), true))),
        resolved(PathAwareValue::Char((Path::try_from("/f").unwrap(), '1'))),
        resolved(PathAwareValue::Regex((Path::try_from("/g").unwrap(), "2024".to_string()))),
    ];
    let out = parse_epoch(&args).unwrap();
    assert_eq!(
        out,
        vec![
            None,
            Some(int_at("parse_epoch", 1724198400)),
            None,
            Some(int_at("parse_epoch", 0)),
            None,
            None,
            None,
        ]
    );
}

#[test]
fn parse_epoch_of_nothing_is_nothing() {
    assert_eq!(parse_epoch(&[]).unwrap(), Vec::new());
}

#[test]
fn parse_epoch_reads_offsets_fractions_and_lower_case() {
    let args = vec![
        string_at("/a", "2024-08-21T02:00:00+02:00"),
        string_at("/b", "2024-08-20T19:30:00-04:30"),
        string_at("/c", "2024-08-21t00:00:00.999z"),
        string_at("/d", "2024-08-21 00:00:01Z"),
        string_at("/e", "1969-12-31T23:59:59Z"),
    ];
    let out = parse_epoch(&args).unwrap();
    assert_eq!(
        out,
        vec![
            Some(int_at("parse_epoch", 1724198400)),
            Some(int_at("parse_epoch", 1724198400)),
            Some(int_at("parse_epoch", 1724198400)),
            Some(int_at("parse_epoch", 1724198401)),
            Some(int_at("parse_epoch", -1)),
        ]
    );
}

#[test]
fn parse_epoch_reports_the_first_unreadable_string() {
    let args = vec![
        string_at("/ok", "2024-08-21T00:00:00Z"),
        resolved(PathAwareValue::Int((Path::try_from("/n").unwrap(), 1))),
        string_at("/first", "not-a-date"),
        string_at("/second", "also-not-a-date"),
    ];
    match parse_epoch(&args) {
        Err(Error::ParseError(msg)) => {
            assert_eq!(
                msg,
                "Failed to parse datetime: not-a-date at /first: premature end of input"
            );
        }
        other => panic!("expected an error, got {:?}", other),
    }
}

#[test]
fn parse_epoch_refuses_dates_that_do_not_exist() {
    for text in ["2023-02-29T00:00:00Z", "2024-13-01T00:00:00Z", "2024-08-21T00:00:00", ""] {
        assert!(parse_epoch(&[string_at("/x", text)]).is_err(), "{}", text);
    }
}

#[test]
fn epoch_entry_builds_the_value_or_the_message() {
    let at = Path::try_from("/Resources/F/Properties/T").unwrap();
    assert_eq!(
        epoch_entry("whatever", &at, Ok(42)).unwrap(),
        int_at("parse_epoch", 42)
    );
    assert_eq!(
        epoch_entry("tomorrow", &at, Err("input contains invalid characters".to_string())),
        Err(Error::ParseError(
            "Failed to parse datetime: tomorrow at /Resources/F/Properties/T: input contains invalid characters"
                .to_string()
        ))
    );
}

#[test]
fn epoch_from_seconds_is_identity_inside_chrono_range() {
    for s in [0, 1, -1, 1723507200, MIN_EPOCH_SECONDS, MAX_EPOCH_SECONDS] {
        let out = epoch_from_seconds(s).unwrap();
        assert_eq!(out, vec![Some(int_at("epoch_from_seconds", s))]);
    }
}

#[test]
fn epoch_from_seconds_fails_outside_chrono_range() {
    assert_eq!(
        epoch_from_seconds(MAX_EPOCH_SECONDS + 1),
        Err(Error::ParseError(
            "Failed to create NaiveDateTime from seconds: 8210266876800".to_string()
        ))
    );
    assert_eq!(
        epoch_from_seconds(MIN_EPOCH_SECONDS - 1),
        Err(Error::ParseError(
            "Failed to create NaiveDateTime from seconds: -8334601228801".to_string()
        ))
    );
    assert_eq!(
        epoch_from_seconds(i64::MIN),
        Err(Error::ParseError(
            "Failed to create NaiveDateTime from seconds: -9223372036854775808".to_string()
        ))
    );
    assert_eq!(
        epoch_from_seconds(i64::MAX),
        Err(Error::ParseError(
            "Failed to create NaiveDateTime from seconds: 9223372036854775807".to_string()
        ))
    );
}

#[test]
fn parsed_epochs_round_trip_through_epoch_from_seconds() {
    let args = vec![
        string_at("/a", "2023-04-21T13:45:32Z"),
        string_at("/b", "0000-01-01T00:00:00+23:59"),
        string_at("/c", "9999-12-31T23:59:59-23:59"),
    ];
    for entry in parse_epoch(&args).unwrap() {
        let t = match entry.unwrap() {
            PathAwareValue::Int((_, t)) => t,
            _ => unreachable!(),
        };
        assert_eq!(
            epoch_from_seconds(t).unwrap(),
            vec![Some(int_at("epoch_from_seconds", t))]
        );
    }
}

#[test]
fn now_round_trips_through_epoch_from_seconds() {
    let t = single_epoch(&now().unwrap());
    assert!(t >= 0);
    assert_eq!(single_epoch(&epoch_from_seconds(t).unwrap()), t);
}

#[test]
fn now_at_reports_the_given_second() {
    assert_eq!(now_at(1724198400).unwrap(), vec![Some(int_at("now", 1724198400))]);
    assert_eq!(now_at(-5).unwrap(), vec![Some(int_at("now", -5))]);
}

#[test]
fn decimal_string_writes_integers() {
    assert_eq!(decimal_string(0), "0");
    assert_eq!(decimal_string(7), "7");
    assert_eq!(decimal_string(10), "10");
    assert_eq!(decimal_string(-120), "-120");
    assert_eq!(decimal_string(i64::MAX), i64::MAX.to_string());
    assert_eq!(decimal_string(i64::MIN), i64::MIN.to_string());
}

#[test]
fn epoch_from_seconds_is_idempotent() {
    for s in [1723507200, -1723507200, MAX_EPOCH_SECONDS] {
        let first = epoch_from_seconds(s).unwrap();
        let again = epoch_from_seconds(single_epoch(&first)).unwrap();
        assert_eq!(first, again);
    }
}

#[test]
fn parse_epoch_reports_chrono_reason() {
    let cases = [
        ("2024-08-21T00:00:00", "premature end of input"),
        ("2024-08-21T00:00:00Zjunk", "trailing input"),
        ("2024-13-01T00:00:00Z", "input is out of range"),
        ("2024/08/21T00:00:00Z", "input contains invalid characters"),
    ];
    for (text, reason) in cases {
        assert_eq!(
            parse_epoch(&[string_at("/x", text)]),
            Err(Error::ParseError(format!(
                "Failed to parse datetime: {} at /x: {}",
                text, reason
            )))
        );
    }
}

#[test]
fn utc_text_of_every_second_reads_back() {
    let seconds = [
        -62167219200,
        -62167219199,
        -62162035200,
        -2208988800,
        -2203891200,
        -1,
        0,
        951782400,
        951868800,
        1682084732,
        1723507200,
        1724198400,
        4107542400,
        4107628800,
        253402300799,
    ];
    for s in seconds {
        let text = chrono::DateTime::from_timestamp(s, 0)
            .unwrap()
            .format("%Y-%m-%dT%H:%M:%SZ")
            .to_string();
        let out = parse_epoch(&[string_at("/t", &text)]).unwrap();
        assert_eq!(out, vec![Some(int_at("parse_epoch", s))], "{}", text);
        assert_eq!(
            epoch_from_seconds(s).unwrap(),
            vec![Some(int_at("epoch_from_seconds", s))]
        );
    }
}
