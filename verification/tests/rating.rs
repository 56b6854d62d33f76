use ops_hub::rating::{clamp_rating, parse_rating};

#[test]
fn clamp_rejects_below_one() {
    assert_eq!(clamp_rating(0), 1);
}

#[test]
fn clamp_rejects_above_five() {
    assert_eq!(clamp_rating(6), 5);
    assert_eq!(clamp_rating(200), 5);
}

#[test]
fn clamp_passes_valid_range_through() {
    for n in 1..=5u8 {
        assert_eq!(clamp_rating(n), n);
    }
}

#[test]
fn parse_rating_handles_trimmed_input() {
    assert_eq!(parse_rating("  3  "), Some(3));
}

#[test]
fn parse_rating_clamps_out_of_range_input() {
    assert_eq!(parse_rating("9"), Some(5));
}

#[test]
fn parse_rating_rejects_non_numeric() {
    assert_eq!(parse_rating("abc"), None);
    assert_eq!(parse_rating(""), None);
}

#[test]
fn parse_rating_follows_u8_parsing() {
    assert_eq!(parse_rating("+4"), Some(4));
    assert_eq!(parse_rating("0"), Some(1));
    assert_eq!(parse_rating("007"), Some(5));
    assert_eq!(parse_rating("255"), Some(5));
    assert_eq!(parse_rating("256"), None);
    assert_eq!(parse_rating("-1"), None);
    assert_eq!(parse_rating("+"), None);
    assert_eq!(parse_rating("3 4"), None);
    assert_eq!(parse_rating("\t2\n"), Some(2));
    assert_eq!(parse_rating("\u{3000}1\u{a0}"), Some(1));
}

#[test]
fn clamp_agrees_with_std_clamp_everywhere() {
    for n in 0..=255u8 {
        assert_eq!(clamp_rating(n), n.clamp(1, 5));
    }
}
