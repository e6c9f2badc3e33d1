//! Tests of the string helpers.

use capeos::text::{has_prefix, i64_to_decimal, parse_u16, strip_prefix, trim, trim_end_matches_char, u64_to_decimal};

#[test]
fn decimal_rendering() {
    assert_eq!(u64_to_decimal(0), "0");
    assert_eq!(u64_to_decimal(7), "7");
    assert_eq!(u64_to_decimal(1710000000), "1710000000");
    assert_eq!(u64_to_decimal(u64::MAX), u64::MAX.to_string());
    assert_eq!(i64_to_decimal(-42), "-42");
    assert_eq!(i64_to_decimal(i64::MIN), i64::MIN.to_string());
    assert_eq!(i64_to_decimal(i64::MAX), i64::MAX.to_string());
}

#[test]
fn port_parsing_follows_std() {
    for s in ["80", "+80", "0080", "65535", "65536", "", "+", "-1", "8o", " 80", "99999999999", "0"] {
        assert_eq!(parse_u16(s), s.parse::<u16>().ok(), "input {:?}", s);
    }
}

#[test]
fn trimming_follows_std() {
    for s in ["  active\n", "\u{a0}x\u{3000}", "", "   ", "a b", "\tx\r\n"] {
        assert_eq!(trim(s), s.trim(), "input {:?}", s);
    }
    assert_eq!(trim_end_matches_char("http://a///", '/'), "http://a");
    assert_eq!(trim_end_matches_char("///", '/'), "");
}

#[test]
fn prefixes() {
    assert!(has_prefix("/v1/sys", "/v1"));
    assert!(!has_prefix("/v1", "/v1/sys"));
    assert!(has_prefix("héllo", "hé"));
    assert_eq!(strip_prefix("token=abc", "token="), Some("abc".to_string()));
    assert_eq!(strip_prefix("tok", "token="), None);
}
