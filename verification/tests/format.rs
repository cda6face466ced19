use parq::format::{byte_count_suffix, format_number};

#[test]
fn test_format_number() {
    assert_eq!(format_number(1024), "1,024");
    assert_eq!(format_number(123), "123");
}

#[test]
fn format_number_groups_in_threes() {
    assert_eq!(format_number(0), "0");
    assert_eq!(format_number(999), "999");
    assert_eq!(format_number(1000), "1,000");
    assert_eq!(format_number(1024000), "1,024,000");
    assert_eq!(format_number(1000001), "1,000,001");
    assert_eq!(format_number(u64::MAX), "18,446,744,073,709,551,615");
}

#[test]
fn byte_count_suffix_follows_the_unit() {
    assert_eq!(byte_count_suffix(1024), " (1,024 bytes)");
    assert_eq!(byte_count_suffix(1), "");
    assert_eq!(byte_count_suffix(1000), "");
    assert_eq!(byte_count_suffix(1023), "");
    assert_eq!(byte_count_suffix(1024000), " (1,024,000 bytes)");
    assert_eq!(byte_count_suffix(1024000000), " (1,024,000,000 bytes)");
}
