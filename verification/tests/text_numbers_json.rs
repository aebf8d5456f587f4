use jhapi::json::{write_number, write_string_literal};
use jhapi::numbers::{format_u64, parse_u64};
use jhapi::text::{clip, lookup_name, str_eq};

#[test]
fn formats_decimal() {
    assert_eq!(format_u64(0), "0");
    assert_eq!(format_u64(12345), "12345");
    assert_eq!(format_u64(u64::MAX), "18446744073709551615");
}

#[test]
fn parses_like_from_str() {
    assert_eq!(parse_u64("42"), Some(42));
    assert_eq!(parse_u64("+7"), Some(7));
    assert_eq!(parse_u64("007"), Some(7));
    assert_eq!(parse_u64(""), None);
    assert_eq!(parse_u64("+"), None);
    assert_eq!(parse_u64("-1"), None);
    assert_eq!(parse_u64("1a"), None);
    assert_eq!(parse_u64("18446744073709551615"), Some(u64::MAX));
    assert_eq!(parse_u64("18446744073709551616"), None);
    for s in ["", "+", "12", "+12", "x", "99999999999999999999", "0"] {
        assert_eq!(parse_u64(s), s.parse::<u64>().ok());
    }
}

#[test]
fn parse_undoes_format() {
    for n in [0u64, 9, 10, 3600, 123456789, u64::MAX] {
        assert_eq!(parse_u64(&format_u64(n)), Some(n));
    }
}

#[test]
fn text_helpers() {
    assert!(str_eq("same", "same"));
    assert!(!str_eq("same", "Same"));
    assert_eq!(lookup_name("SaMi.K"), "sami.k");
    assert_eq!(lookup_name("ÄÖ"), "äö");
}

#[test]
fn clips_on_bytes() {
    assert_eq!(clip("abcdef", 4), "abcd");
    assert_eq!(clip("abc", 4), "abc");
    assert_eq!(clip("héllo", 3), "hé");
    assert_eq!(clip("", 0), "");
}

#[test]
fn writes_json_strings() {
    let mut out = String::from("x=");
    write_string_literal(&mut out, "a\"b\\c\n\u{1}");
    assert_eq!(out, "x=\"a\\\"b\\\\c\\n\\u0001\"");
    let mut plain = String::new();
    write_string_literal(&mut plain, "Ünïcode");
    assert_eq!(plain, "\"Ünïcode\"");
    let mut n = String::new();
    write_number(&mut n, 1700000000);
    assert_eq!(n, "1700000000");
}

#[test]
fn string_literals_match_serde_json() {
    let samples = [
        "",
        "plain",
        "quote\"back\\slash",
        "tab\tnew\nline\rcr",
        "\u{0}\u{1}\u{8}\u{c}\u{1f}\u{7f}",
        "ünïcödé €😀",
        "</script>",
    ];
    for s in samples.iter() {
        let mut out = String::new();
        write_string_literal(&mut out, s);
        assert_eq!(out, serde_json::to_string(s).unwrap());
    }
}
