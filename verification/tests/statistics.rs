use parq::footer::{format_statistics_min_max, StatisticsBounds};

fn texts(min: &str, max: &str) -> (Option<String>, Option<String>) {
    (Some(min.to_string()), Some(max.to_string()))
}

#[test]
fn integer_and_boolean_bounds() {
    let b = StatisticsBounds::Boolean { min: Some(false), max: Some(true) };
    assert_eq!(format_statistics_min_max(&b), texts("false", "true"));
    let b = StatisticsBounds::Int32 { min: Some(-2147483648), max: Some(42) };
    assert_eq!(format_statistics_min_max(&b), texts("-2147483648", "42"));
    let b = StatisticsBounds::Int64 { min: None, max: Some(i64::MAX) };
    assert_eq!(format_statistics_min_max(&b), (None, Some("9223372036854775807".to_string())));
    let b = StatisticsBounds::Int64 { min: Some(i64::MIN), max: None };
    assert_eq!(format_statistics_min_max(&b), (Some("-9223372036854775808".to_string()), None));
}

#[test]
fn int96_bounds_as_debug() {
    let b = StatisticsBounds::Int96 { min: Some([1, 2, 3]), max: Some([0, 0, 4294967295]) };
    assert_eq!(
        format_statistics_min_max(&b),
        texts("Int96 { value: [1, 2, 3] }", "Int96 { value: [0, 0, 4294967295] }")
    );
}

#[test]
fn float_bounds_pass_through() {
    let b = StatisticsBounds::Double { min: Some("1.5".to_string()), max: None };
    assert_eq!(format_statistics_min_max(&b), (Some("1.5".to_string()), None));
}

#[test]
fn byte_array_bounds_as_text_or_bytes() {
    let b = StatisticsBounds::ByteArray { min: Some(b"apple".to_vec()), max: Some("zoë".as_bytes().to_vec()) };
    assert_eq!(format_statistics_min_max(&b), texts("apple", "zoë"));
    let b = StatisticsBounds::FixedLenByteArray { min: Some(vec![255, 0, 7]), max: Some(vec![]) };
    assert_eq!(format_statistics_min_max(&b), texts("[255, 0, 7]", ""));
    let b = StatisticsBounds::ByteArray { min: Some(vec![0xc3]), max: None };
    assert_eq!(format_statistics_min_max(&b), (Some("[195]".to_string()), None));
}
