use radiance::text::{
    comma_separated, join_path, parse_u16, rfind_char, starts_with, str_equals, trim_str, u16_to_decimal,
};
use std::path::Path;

#[test]
fn parse_u16_accepts_plain_and_plus_signed_digits() {
    assert_eq!(parse_u16("8080"), Some(8080));
    assert_eq!(parse_u16("+80"), Some(80));
    assert_eq!(parse_u16("0080"), Some(80));
    assert_eq!(parse_u16("0"), Some(0));
    assert_eq!(parse_u16("65535"), Some(65535));
}

#[test]
fn parse_u16_refuses_what_from_str_refuses() {
    for s in ["", "+", "-", "-1", "65536", "99999999999", "8a", " 80", "80 ", "++1", "1_000", "\u{663}"] {
        assert_eq!(parse_u16(s), s.parse::<u16>().ok(), "input {:?}", s);
        assert_eq!(parse_u16(s), None, "input {:?}", s);
    }
}

#[test]
fn parse_u16_agrees_with_std_on_many_inputs() {
    for s in ["1", "+0", "00000000000000000000065535", "65535", "65536", "070000", "+65535", "12345"] {
        assert_eq!(parse_u16(s), s.parse::<u16>().ok(), "input {:?}", s);
    }
}

#[test]
fn trim_removes_unicode_white_space() {
    assert_eq!(trim_str("  a b \t"), "a b");
    assert_eq!(trim_str("\u{3000}x\u{2028}"), "x");
    assert_eq!(trim_str("   "), "");
    assert_eq!(trim_str(""), "");
    for s in ["\u{85}a\u{a0}", "\n\r x y \u{200a}", "no-space", "\u{180e}z"] {
        assert_eq!(trim_str(s), s.trim(), "input {:?}", s);
    }
}

#[test]
fn comma_separated_trims_and_drops_empty_items() {
    assert_eq!(comma_separated(" a.com, ,b.com ,, c.com"), vec!["a.com", "b.com", "c.com"]);
    assert!(comma_separated("").is_empty());
    assert!(comma_separated(" , ,").is_empty());
    assert_eq!(comma_separated("only"), vec!["only"]);
}

#[test]
fn decimal_form_of_ports() {
    assert_eq!(u16_to_decimal(0), "0");
    assert_eq!(u16_to_decimal(443), "443");
    assert_eq!(u16_to_decimal(65535), "65535");
    for n in [1u16, 9, 10, 99, 100, 1000, 10000, 54321] {
        assert_eq!(u16_to_decimal(n), n.to_string());
    }
}

#[test]
fn join_path_matches_std_path_join() {
    let cases = [("/var/lib/zenith", "cert1"), ("/base/", "x"), ("", "x"), ("/base", "/abs"), ("rel", "")];
    for (base, name) in cases {
        let expected = Path::new(base).join(name);
        assert_eq!(join_path(base, name), expected.to_str().unwrap(), "{:?} {:?}", base, name);
    }
    assert_eq!(join_path("/var/lib/zenith", "cert1"), "/var/lib/zenith/cert1");
}

#[test]
fn string_comparisons() {
    assert!(str_equals("abc", "abc"));
    assert!(!str_equals("abc", "abd"));
    assert!(!str_equals("abc", "ab"));
    assert!(starts_with("https://x", "https://"));
    assert!(!starts_with("http", "https://"));
    assert_eq!(rfind_char("a:b:c", ':'), Some(3));
    assert_eq!(rfind_char("abc", ':'), None);
}

#[test]
fn decimal_form_parses_back() {
    for n in [0u16, 1, 9, 10, 80, 443, 8080, 65535] {
        assert_eq!(parse_u16(&u16_to_decimal(n)), Some(n));
    }
}
