use mononoke_cmdlib::text::{parse_i64, parse_u16, parse_u32, parse_u64, parse_usize, str_eq};

#[test]
fn unsigned_accepts_digits_and_plus() {
    assert_eq!(parse_u64("0"), Some(0));
    assert_eq!(parse_u64("42"), Some(42));
    assert_eq!(parse_u64("+7"), Some(7));
    assert_eq!(parse_u64("007"), Some(7));
    assert_eq!(parse_u64("18446744073709551615"), Some(u64::MAX));
    assert_eq!(parse_u32("4294967295"), Some(u32::MAX));
    assert_eq!(parse_u16("65535"), Some(65535));
    assert_eq!(parse_usize("20"), Some(20));
}

#[test]
fn unsigned_rejects_what_std_rejects() {
    for text in ["", "+", "-", "-1", "-0", "1a", " 1", "1 ", "+-1", "1_000", "\u{ff11}"] {
        assert_eq!(parse_u64(text), None, "{:?}", text);
        assert_eq!(text.parse::<u64>().ok(), None, "{:?}", text);
    }
    assert_eq!(parse_u64("18446744073709551616"), None);
    assert_eq!(parse_u32("4294967296"), None);
    assert_eq!(parse_u16("65536"), None);
    assert_eq!(parse_u16("99999999999999999999999"), None);
}

#[test]
fn signed_range_and_signs() {
    assert_eq!(parse_i64("-9223372036854775808"), Some(i64::MIN));
    assert_eq!(parse_i64("9223372036854775807"), Some(i64::MAX));
    assert_eq!(parse_i64("-9223372036854775809"), None);
    assert_eq!(parse_i64("9223372036854775808"), None);
    assert_eq!(parse_i64("-0"), Some(0));
    assert_eq!(parse_i64("+5"), Some(5));
    assert_eq!(parse_i64("-12"), Some(-12));
    assert_eq!(parse_i64("-"), None);
    assert_eq!(parse_i64("-+1"), None);
    assert_eq!(parse_i64("--1"), None);
}

#[test]
fn parsers_agree_with_std() {
    let samples = [
        "0", "1", "+1", "-1", "255", "256", "65535", "65536", "4294967295", "4294967296",
        "18446744073709551615", "18446744073709551616", "-9223372036854775808", "+", "", "x",
        "12x", "0012",
    ];
    for text in samples {
        assert_eq!(parse_u64(text), text.parse::<u64>().ok(), "{:?}", text);
        assert_eq!(parse_u32(text), text.parse::<u32>().ok(), "{:?}", text);
        assert_eq!(parse_u16(text), text.parse::<u16>().ok(), "{:?}", text);
        assert_eq!(parse_usize(text), text.parse::<usize>().ok(), "{:?}", text);
        assert_eq!(parse_i64(text), text.parse::<i64>().ok(), "{:?}", text);
    }
}

#[test]
fn text_equality() {
    assert!(str_eq("abc", "abc"));
    assert!(str_eq("", ""));
    assert!(!str_eq("abc", "abd"));
    assert!(!str_eq("abc", "ab"));
    assert!(str_eq("é", "é"));
}
