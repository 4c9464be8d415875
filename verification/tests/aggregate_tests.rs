use chaos::aggregate::{aggregate, AggregateError, DataRequest, DataResponse};
use chaos::value::JsonValue;

#[test]
fn empty_input_yields_zero_counts() {
    let values: Vec<JsonValue> = vec![];
    assert_eq!(
        aggregate(&values),
        Ok(DataResponse { string_len: 0, int_sum: 0 })
    );
}

#[test]
fn mixed_strings_and_integers() {
    let values = vec![
        JsonValue::Str,
        JsonValue::Str,
        JsonValue::Integer(1),
        JsonValue::Integer(2),
        JsonValue::Integer(3),
    ];
    assert_eq!(
        aggregate(&values),
        Ok(DataResponse { string_len: 2, int_sum: 6 })
    );
}

#[test]
fn non_string_non_number_tags_are_ignored() {
    let values = vec![
        JsonValue::Bool,
        JsonValue::Null,
        JsonValue::Object,
        JsonValue::Array,
    ];
    assert_eq!(
        aggregate(&values),
        Ok(DataResponse { string_len: 0, int_sum: 0 })
    );
}

#[test]
fn non_integer_number_is_rejected() {
    let values = vec![JsonValue::NonIntNumber];
    assert_eq!(
        aggregate(&values),
        Err(AggregateError::InvalidNumericElement { index: 0 })
    );
}

#[test]
fn first_non_integer_number_is_named() {
    let values = vec![
        JsonValue::Integer(1),
        JsonValue::NonIntNumber,
        JsonValue::NonIntNumber,
    ];
    assert_eq!(
        aggregate(&values),
        Err(AggregateError::InvalidNumericElement { index: 1 })
    );
}

#[test]
fn sum_overflow_is_rejected() {
    let values = vec![JsonValue::Integer(i64::MAX), JsonValue::Integer(1)];
    assert_eq!(aggregate(&values), Err(AggregateError::IntegerOverflow));
}

#[test]
fn sum_underflow_is_rejected() {
    let values = vec![JsonValue::Integer(i64::MIN), JsonValue::Integer(-1)];
    assert_eq!(aggregate(&values), Err(AggregateError::IntegerOverflow));
}

#[test]
fn partial_sums_may_exceed_the_range() {
    let values = vec![
        JsonValue::Integer(i64::MAX),
        JsonValue::Integer(1),
        JsonValue::Integer(-5),
    ];
    assert_eq!(
        aggregate(&values),
        Ok(DataResponse { string_len: 0, int_sum: i64::MAX - 4 })
    );
}

#[test]
fn invalid_element_is_reported_before_overflow() {
    let values = vec![
        JsonValue::Integer(i64::MAX),
        JsonValue::Integer(1),
        JsonValue::NonIntNumber,
    ];
    assert_eq!(
        aggregate(&values),
        Err(AggregateError::InvalidNumericElement { index: 2 })
    );
}

#[test]
fn string_count_never_exceeds_length() {
    let values = vec![
        JsonValue::Str,
        JsonValue::Integer(4),
        JsonValue::Str,
        JsonValue::Null,
    ];
    let response = aggregate(&values).unwrap();
    assert_eq!(response.string_len, 2);
    assert!(response.string_len <= values.len());
}

#[test]
fn sum_is_order_independent() {
    let forward = vec![
        JsonValue::Integer(10),
        JsonValue::Str,
        JsonValue::Integer(-3),
        JsonValue::Integer(7),
    ];
    let shuffled = vec![
        JsonValue::Integer(7),
        JsonValue::Integer(-3),
        JsonValue::Str,
        JsonValue::Integer(10),
    ];
    let a = aggregate(&forward).unwrap();
    let b = aggregate(&shuffled).unwrap();
    assert_eq!(a.int_sum, 14);
    assert_eq!(a.int_sum, b.int_sum);
    assert_eq!(a.string_len, b.string_len);
}

#[test]
fn repeated_calls_agree() {
    let values = vec![
        JsonValue::Str,
        JsonValue::Integer(5),
        JsonValue::Bool,
        JsonValue::NonIntNumber,
    ];
    assert_eq!(aggregate(&values), aggregate(&values));
    let plain = vec![JsonValue::Integer(2), JsonValue::Str];
    assert_eq!(aggregate(&plain), aggregate(&plain));
}

#[test]
fn request_aggregates_its_data() {
    let request = DataRequest {
        data: vec![JsonValue::Str, JsonValue::Integer(41), JsonValue::Integer(1)],
    };
    assert_eq!(
        request.aggregate(),
        Ok(DataResponse { string_len: 1, int_sum: 42 })
    );
}
