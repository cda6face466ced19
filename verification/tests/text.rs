use parq::text::{bytes_debug, int_to_text, join_texts, nat_to_text};

#[test]
fn decimal_texts() {
    assert_eq!(nat_to_text(0), "0");
    assert_eq!(nat_to_text(1024), "1024");
    assert_eq!(nat_to_text(u64::MAX), u64::MAX.to_string());
    assert_eq!(int_to_text(-7), "-7");
    assert_eq!(int_to_text(i64::MIN), i64::MIN.to_string());
    assert_eq!(int_to_text(0), "0");
}

#[test]
fn joins_and_byte_lists() {
    assert_eq!(join_texts(&vec![], ", "), "");
    assert_eq!(join_texts(&vec!["a".to_string()], ", "), "a");
    assert_eq!(join_texts(&vec!["a".to_string(), "b".to_string(), "c".to_string()], ", "), "a, b, c");
    assert_eq!(bytes_debug(&vec![]), "[]");
    assert_eq!(bytes_debug(&vec![1, 20, 255]), format!("{:?}", [1u8, 20, 255]));
}
