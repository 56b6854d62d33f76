use ops_hub::decimal::{parse_u32, parse_u8, push_decimal};
use ops_hub::text::{blank, chars_of, is_whitespace, join_strings, str_eq, string_of, trim_chars};

#[test]
fn whitespace_matches_std_for_every_char() {
    for u in 0u32..=0x10FFFF {
        if let Some(c) = char::from_u32(u) {
            assert_eq!(is_whitespace(c), c.is_whitespace(), "U+{u:04X}");
        }
    }
}

#[test]
fn trim_matches_std() {
    for s in ["", "   ", " a ", "\u{2003}b\u{205F}", "a b", "\n\tx y\r", "é ", "\u{1680}"] {
        let t = trim_chars(&chars_of(s));
        assert_eq!(string_of(&t), s.trim());
        assert_eq!(blank(s), s.trim().is_empty());
    }
}

#[test]
fn decimal_rendering_matches_format() {
    for n in [0u64, 7, 10, 99, 100, 65535, 4294967295, u64::MAX] {
        let mut s = String::from("n=");
        push_decimal(&mut s, n);
        assert_eq!(s, format!("n={n}"));
    }
}

#[test]
fn parsing_matches_std() {
    let cases = [
        "", "+", "-", "0", "+0", "-0", "00012", "255", "256", "4294967295", "4294967296", "1_0",
        " 1", "1 ", "12a", "٣", "+-1", "99999999999999999999",
    ];
    for s in cases {
        let v = chars_of(s);
        assert_eq!(parse_u8(&v), s.parse::<u8>().ok(), "u8 {s:?}");
        assert_eq!(parse_u32(&v), s.parse::<u32>().ok(), "u32 {s:?}");
    }
}

#[test]
fn string_helpers() {
    assert!(str_eq("abc", "abc"));
    assert!(!str_eq("abc", "abd"));
    assert!(!str_eq("ab", "abc"));
    let parts: Vec<String> = vec!["a".into(), "b".into(), "".into()];
    assert_eq!(join_strings(&parts, "&"), "a&b&");
    assert_eq!(join_strings(&[], "&"), "");
}
