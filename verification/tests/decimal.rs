use tgrc::decimal::{format_i64, parse_i32, parse_i64};

#[test]
fn parses_like_std() {
    for s in ["0", "7", "-7", "+7", "007", "2147483647", "-2147483648", "9223372036854775807",
              "-9223372036854775808", "", "+", "-", " 1", "1 ", "1_000", "12a", "--1", "+-1",
              "9223372036854775808", "-9223372036854775809", "99999999999999999999", "٣"] {
        assert_eq!(parse_i64(s), s.parse::<i64>().ok(), "i64 {:?}", s);
        assert_eq!(parse_i32(s), s.parse::<i32>().ok(), "i32 {:?}", s);
    }
}

#[test]
fn i32_range_edges() {
    assert_eq!(parse_i32("2147483648"), None);
    assert_eq!(parse_i32("-2147483649"), None);
    assert_eq!(parse_i32("-2147483648"), Some(i32::MIN));
}

#[test]
fn formats_like_display() {
    for n in [0i64, 5, -5, 10, 1234567890, i64::MAX, i64::MIN, -1000] {
        assert_eq!(format_i64(n), n.to_string());
    }
}

#[test]
fn format_then_parse_roundtrips() {
    for n in [0i64, 1, -1, 42, -1001234567890, i64::MAX, i64::MIN] {
        assert_eq!(parse_i64(&format_i64(n)), Some(n));
    }
}
