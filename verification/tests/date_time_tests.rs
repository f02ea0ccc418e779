use std::rc::Rc;

use cfn_guard::date_time::{epoch_from_seconds, now, parse_epoch};
use cfn_guard::path_value::{Path, PathAwareValue, QueryResult};
use chrono::Utc;

fn string_at(pointer: &str, value: &str) -> QueryResult {
    QueryResult::Resolved(Rc::new(PathAwareValue::String((
        Path::new(pointer.to_string(), 0, 0),
        value.to_string(),
    ))))
}

#[test]
fn date_time_tests_test_parse_epoch() {
    let results = vec![string_at(
        "/Resources/LambdaFunction/Properties/UpdatedAt",
        "2024-08-21T00:00:00Z",
    )];
    match results[0].clone() {
        QueryResult::Literal(val) | QueryResult::Resolved(val) => {
            assert!(matches!(&*val, PathAwareValue::String(_)));
        }
        _ => unreachable!(),
    }
    let epoch_values = parse_epoch(&results).unwrap();
    assert!(matches!(
        epoch_values[0].as_ref().unwrap(),
        PathAwareValue::Int((_, 1724198400))
    ));

    let results = vec![string_at(
        "/Resources/LambdaFunction/Properties/CreatedAt",
        "2024-08-13T00:00:00Z",
    )];
    match results[0].clone() {
        QueryResult::Literal(val) | QueryResult::Resolved(val) => {
            assert!(matches!(&*val, PathAwareValue::String(_)));
        }
        _ => unreachable!(),
    }
    let epoch_values = parse_epoch(&results).unwrap();
    assert!(matches!(
        epoch_values[0].as_ref().unwrap(),
        PathAwareValue::Int((_, 1723507200))
    ));

    let results = vec![string_at(
        "/Resources/LambdaFunction/Properties/BadValue",
        "not-a-date",
    )];
    match results[0].clone() {
        QueryResult::Literal(val) | QueryResult::Resolved(val) => {
            assert!(matches!(&*val, PathAwareValue::String(_)));
        }
        _ => unreachable!(),
    }
    assert!(parse_epoch(&results).is_err());
}

#[test]
fn test_now() {
    let now_result = now();
    assert!(now_result.is_ok());

    let now_vec = now_result.unwrap();
    assert_eq!(now_vec.len(), 1);

    let now_option = now_vec.first().unwrap();
    assert!(now_option.is_some());

    let now_value = now_option.as_ref().unwrap();
    assert!(matches!(now_value, PathAwareValue::Int((_, _))));

    let timestamp = match now_value {
        PathAwareValue::Int((_, timestamp)) => *timestamp,
        _ => unreachable!(),
    };

    let now = Utc::now().timestamp();

    assert!((now - timestamp).abs() <= 1);
}

#[test]
fn test_epoch_from_seconds() {
    let valid_seconds = 1723507200;
    let epoch_from_seconds_result = epoch_from_seconds(valid_seconds);
    assert!(epoch_from_seconds_result.is_ok());

    let epoch_from_seconds_vec = epoch_from_seconds_result.unwrap();
    assert_eq!(epoch_from_seconds_vec.len(), 1);

    let epoch_from_seconds_option = epoch_from_seconds_vec.first().unwrap();
    assert!(epoch_from_seconds_option.is_some());

    let epoch_from_seconds_value = epoch_from_seconds_option.as_ref().unwrap();
    assert!(matches!(
        epoch_from_seconds_value,
        PathAwareValue::Int((path, value)) if path == &Path::try_from("epoch_from_seconds").unwrap() && *value == valid_seconds
    ));

    let negative_seconds = -1723507200;
    let epoch_from_seconds_result = epoch_from_seconds(negative_seconds);
    assert!(epoch_from_seconds_result.is_ok());

    let epoch_from_seconds_vec = epoch_from_seconds_result.unwrap();
    assert_eq!(epoch_from_seconds_vec.len(), 1);

    let epoch_from_seconds_option = epoch_from_seconds_vec.first().unwrap();
    assert!(epoch_from_seconds_option.is_some());

    let epoch_from_seconds_value = epoch_from_seconds_option.as_ref().unwrap();
    assert!(matches!(
        epoch_from_seconds_value,
        PathAwareValue::Int((path, value)) if path == &Path::try_from("epoch_from_seconds").unwrap() && *value == negative_seconds
    ));
}
