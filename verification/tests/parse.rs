use pomodoro::parse::{flag_u32, flag_u64, parse_u32, parse_u64};

#[test]
fn plain_decimal_values_parse() {
    assert_eq!(parse_u64("25"), Some(25));
    assert_eq!(parse_u64("0"), Some(0));
    assert_eq!(parse_u64("007"), Some(7));
    assert_eq!(parse_u64("18446744073709551615"), Some(u64::MAX));
}

#[test]
fn leading_plus_is_accepted() {
    assert_eq!(parse_u64("+25"), Some(25));
    assert_eq!(parse_u32("+4"), Some(4));
}

#[test]
fn malformed_text_does_not_parse() {
    assert_eq!(parse_u64(""), None);
    assert_eq!(parse_u64("+"), None);
    assert_eq!(parse_u64("-5"), None);
    assert_eq!(parse_u64("25x"), None);
    assert_eq!(parse_u64("2 5"), None);
    assert_eq!(parse_u64(" 25"), None);
    assert_eq!(parse_u64("twenty"), None);
    assert_eq!(parse_u64("2.5"), None);
}

#[test]
fn values_past_the_width_do_not_parse() {
    assert_eq!(parse_u64("18446744073709551616"), None);
    assert_eq!(parse_u64("99999999999999999999999"), None);
    assert_eq!(parse_u32("4294967295"), Some(u32::MAX));
    assert_eq!(parse_u32("4294967296"), None);
}

#[test]
fn lenient_flags_fall_back_to_the_default() {
    assert_eq!(flag_u64("25", 99), 25);
    assert_eq!(flag_u64("abc", 25), 25);
    assert_eq!(flag_u64("", 5), 5);
    assert_eq!(flag_u64("18446744073709551616", 15), 15);
    assert_eq!(flag_u32("4", 99), 4);
    assert_eq!(flag_u32("-1", 4), 4);
    assert_eq!(flag_u32("4294967296", 4), 4);
}

#[test]
fn parsing_matches_the_standard_library() {
    for text in ["25", "+25", "007", "", "+", "-5", "25x", " 25", "18446744073709551615",
        "18446744073709551616"] {
        assert_eq!(parse_u64(text), text.parse::<u64>().ok(), "input {:?}", text);
        assert_eq!(parse_u32(text), text.parse::<u32>().ok(), "input {:?}", text);
    }
}
