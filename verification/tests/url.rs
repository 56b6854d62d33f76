use ops_hub::url::urlencode;

#[test]
fn alphanumerics_unchanged() {
    assert_eq!(urlencode("abcXYZ0123"), "abcXYZ0123");
}

#[test]
fn unreserved_symbols_pass_through() {
    assert_eq!(urlencode("A_b-c.d~e"), "A_b-c.d~e");
}

#[test]
fn space_becomes_percent_20() {
    assert_eq!(urlencode("hello world"), "hello%20world");
}

#[test]
fn ampersand_and_equals_are_escaped() {
    assert_eq!(urlencode("a=b&c=d"), "a%3Db%26c%3Dd");
}

#[test]
fn unicode_is_utf8_percent_encoded() {
    assert_eq!(urlencode("é"), "%C3%A9");
}

#[test]
fn empty_string_is_empty() {
    assert_eq!(urlencode(""), "");
}

#[test]
fn every_ascii_byte_is_encoded_as_expected() {
    for b in 0u8..128 {
        let c = b as char;
        let s = c.to_string();
        let want = if c.is_ascii_alphanumeric() || matches!(c, '-' | '_' | '.' | '~') {
            s.clone()
        } else {
            format!("%{:02X}", b)
        };
        assert_eq!(urlencode(&s), want);
    }
}

#[test]
fn multibyte_characters_and_output_alphabet() {
    assert_eq!(urlencode("日本"), "%E6%97%A5%E6%9C%AC");
    assert_eq!(urlencode("😀"), "%F0%9F%98%80");
    let out = urlencode("a b/c?d=é&f#g%h+");
    assert_eq!(out, "a%20b%2Fc%3Fd%3D%C3%A9%26f%23g%25h%2B");
    assert!(out
        .chars()
        .all(|c| c.is_ascii_alphanumeric() || "%-_.~".contains(c)));
}
