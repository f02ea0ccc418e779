use std::rc::Rc;

use cfn_guard::date_time::parse_epoch;
use cfn_guard::path_value::{Path, PathAwareValue, QueryResult};

fn literal_string(pointer: &str, value: &str) -> QueryResult {
    QueryResult::Literal(Rc::new(PathAwareValue::String((
        Path::new(pointer.to_string(), 0, 0),
        value.to_string(),
    ))))
}

#[test]
fn converters_tests_test_parse_epoch() {
    let results = vec![literal_string(
        "/Resources/LambdaFunction/Properties/LastModified",
        "2023-04-21T13:45:32Z",
    )];
    match results[0].clone() {
        QueryResult::Literal(val) | QueryResult::Resolved(val) => {
            assert!(matches!(&*val, PathAwareValue::String(_)));
        }
        _ => unreachable!(),
    }
    let epoch_values = parse_epoch(&results).unwrap();
    assert!(matches!(
        epoch_values[0].as_ref().unwrap(),
        PathAwareValue::Int((_, 1682084732))
    ));

    let results = vec![literal_string(
        "/Resources/LambdaFunction/Properties/CreationTime",
        "2022-01-01T00:00:00Z",
    )];
    match results[0].clone() {
        QueryResult::Literal(val) | QueryResult::Resolved(val) => {
            assert!(matches!(&*val, PathAwareValue::String(_)));
        }
        _ => unreachable!(),
    }
    let epoch_values = parse_epoch(&results).unwrap();
    assert!(matches!(
        epoch_values[0].as_ref().unwrap(),
        PathAwareValue::Int((_, 1640995200))
    ));

    let results = vec![literal_string(
        "/Resources/LambdaFunction/Properties/BadValue",
        "not-a-date",
    )];
    match results[0].clone() {
        QueryResult::Literal(val) | QueryResult::Resolved(val) => {
            assert!(matches!(&*val, PathAwareValue::String(_)));
        }
        _ => unreachable!(),
    }
    assert!(parse_epoch(&results).is_err());
}
