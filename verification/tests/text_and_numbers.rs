use kybe_backend::num::{parse_int_error_debug, parse_u64, u64_to_string, IntErrorKind};
use kybe_backend::text::{is_blank_str, starts_with, str_eq, to_lowercase, to_uppercase, trim, url_encode};

#[test]
fn trim_removes_unicode_white_space_at_both_ends() {
    assert_eq!(trim("  hello world \t\n"), "hello world");
    assert_eq!(trim("\u{3000}x\u{a0}"), "x");
    assert_eq!(trim("   "), "");
    assert_eq!(trim(""), "");
    assert_eq!(trim("a b"), "a b");
}

#[test]
fn blank_means_trimmed_empty() {
    assert!(is_blank_str(""));
    assert!(is_blank_str(" \t\r\n\u{2028}"));
    assert!(!is_blank_str(" a "));
    for s in ["", " ", "x", " x ", "\u{85}"] {
        assert_eq!(is_blank_str(s), s.trim().is_empty());
    }
}

#[test]
fn starts_with_and_equality() {
    assert!(starts_with("cute", "cu"));
    assert!(starts_with("cute", ""));
    assert!(!starts_with("cu", "cute"));
    assert!(starts_with("öl", "ö"));
    assert!(str_eq("abc", "abc"));
    assert!(!str_eq("abc", "abd"));
    assert!(!str_eq("abc", "ab"));
}

#[test]
fn case_mapping_follows_std() {
    assert_eq!(to_lowercase("SuCcEsS"), "success");
    assert_eq!(to_uppercase("get"), "GET");
    assert_eq!(to_lowercase("ÜBER"), "über");
}

#[test]
fn url_encode_keeps_unreserved_and_escapes_the_rest() {
    assert_eq!(url_encode("hello wörld!"), "hello%20w%C3%B6rld%21");
    assert_eq!(url_encode("A-z_0.9~"), "A-z_0.9~");
    assert_eq!(url_encode("a/b"), "a%2Fb");
}

#[test]
fn parse_u64_accepts_decimal_numbers() {
    assert_eq!(parse_u64("0"), Ok(0));
    assert_eq!(parse_u64("+42"), Ok(42));
    assert_eq!(parse_u64("007"), Ok(7));
    assert_eq!(parse_u64("18446744073709551615"), Ok(u64::MAX));
}

#[test]
fn parse_u64_errors_match_std() {
    let cases = ["", "+", "-", "-1", "12a", "a12", " 1", "18446744073709551616", "99999999999999999999x", "1_000"];
    for s in cases {
        let std_kind = s.parse::<u64>().unwrap_err();
        let ours = parse_u64(s).unwrap_err();
        let expected = match std_kind.kind() {
            std::num::IntErrorKind::Empty => IntErrorKind::Empty,
            std::num::IntErrorKind::InvalidDigit => IntErrorKind::InvalidDigit,
            std::num::IntErrorKind::PosOverflow => IntErrorKind::PosOverflow,
            other => panic!("unexpected kind {:?}", other),
        };
        assert_eq!(ours, expected, "input {:?}", s);
        assert_eq!(parse_int_error_debug(ours), format!("{:?}", std_kind));
    }
}

#[test]
fn decimal_text_reads_back() {
    for n in [0u64, 1, 9, 10, 99, 100, 12345, 1420070400000, u64::MAX] {
        let s = u64_to_string(n);
        assert_eq!(s, n.to_string());
        assert_eq!(parse_u64(&s), Ok(n));
    }
}

#[test]
fn parse_error_debug_texts() {
    assert_eq!(parse_int_error_debug(IntErrorKind::Empty), "ParseIntError { kind: Empty }");
    assert_eq!(parse_int_error_debug(IntErrorKind::InvalidDigit), "ParseIntError { kind: InvalidDigit }");
    assert_eq!(parse_int_error_debug(IntErrorKind::PosOverflow), "ParseIntError { kind: PosOverflow }");
}
