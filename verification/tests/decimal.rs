use qrt_rust_utils::decimal::{parse_u32, parse_u64, push_decimal, u64_to_decimal};

#[test]
fn parse_u64_reads_decimal_numbers() {
    assert_eq!(parse_u64("0"), Some(0));
    assert_eq!(parse_u64("007"), Some(7));
    assert_eq!(parse_u64("+12"), Some(12));
    assert_eq!(parse_u64("18446744073709551615"), Some(u64::MAX));
}

#[test]
fn parse_u64_refuses_what_str_parse_refuses() {
    for text in ["", "+", "-1", "1a", " 1", "1 ", "18446744073709551616", "1.0", "++1"] {
        assert_eq!(parse_u64(text), None, "{}", text);
        assert_eq!(parse_u64(text), text.parse::<u64>().ok(), "{}", text);
    }
}

#[test]
fn parse_u32_limits() {
    assert_eq!(parse_u32("4294967295"), Some(u32::MAX));
    assert_eq!(parse_u32("4294967296"), None);
    assert_eq!(parse_u32("+0"), Some(0));
}

#[test]
fn decimal_text_matches_to_string() {
    for n in [0u64, 1, 9, 10, 123, 1000, 987654321, u64::MAX] {
        assert_eq!(u64_to_decimal(n), n.to_string());
        assert_eq!(parse_u64(&u64_to_decimal(n)), Some(n));
    }
    let mut out = String::from("n=");
    push_decimal(42, &mut out);
    assert_eq!(out, "n=42");
}
