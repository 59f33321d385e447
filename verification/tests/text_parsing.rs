use auth_api::text::{
    blank_text, int_to_text, parse_i32, parse_i64, text_eq_ignore_case, text_less, trim_text,
};

#[test]
fn parses_plain_and_signed_integers() {
    assert_eq!(parse_i64("0"), Some(0));
    assert_eq!(parse_i64("42"), Some(42));
    assert_eq!(parse_i64("+42"), Some(42));
    assert_eq!(parse_i64("-42"), Some(-42));
    assert_eq!(parse_i64("-0"), Some(0));
    assert_eq!(parse_i64("000123"), Some(123));
}

#[test]
fn rejects_what_is_not_an_integer() {
    assert_eq!(parse_i64(""), None);
    assert_eq!(parse_i64("+"), None);
    assert_eq!(parse_i64("-"), None);
    assert_eq!(parse_i64(" 1"), None);
    assert_eq!(parse_i64("1 "), None);
    assert_eq!(parse_i64("1_000"), None);
    assert_eq!(parse_i64("12a"), None);
    assert_eq!(parse_i64("--1"), None);
    assert_eq!(parse_i64("١٢"), None);
}

#[test]
fn integer_limits_of_64_bits() {
    assert_eq!(parse_i64("9223372036854775807"), Some(i64::MAX));
    assert_eq!(parse_i64("9223372036854775808"), None);
    assert_eq!(parse_i64("-9223372036854775808"), Some(i64::MIN));
    assert_eq!(parse_i64("-9223372036854775809"), None);
    assert_eq!(parse_i64("99999999999999999999999999999999999999999"), None);
    assert_eq!(parse_i64("00000000000000000000000000000000000000001"), Some(1));
}

#[test]
fn integer_limits_of_32_bits() {
    assert_eq!(parse_i32("2147483647"), Some(i32::MAX));
    assert_eq!(parse_i32("2147483648"), None);
    assert_eq!(parse_i32("-2147483648"), Some(i32::MIN));
    assert_eq!(parse_i32("-2147483649"), None);
    assert_eq!(parse_i32("7"), Some(7));
}

#[test]
fn parsing_agrees_with_the_standard_library() {
    let samples = [
        "", "0", "-", "+", "+0", "-0", "12", "-12", "+12", "1e3", "0x10", " 5", "5 ", "٣",
        "2147483647", "2147483648", "-2147483648", "9223372036854775807",
        "9223372036854775808", "-9223372036854775808", "-9223372036854775809",
        "0000000000000000000000007", "1.0", "١", "+-1", "-+1",
    ];
    for text in samples {
        assert_eq!(parse_i64(text), text.parse::<i64>().ok(), "i64 of {:?}", text);
        assert_eq!(parse_i32(text), text.parse::<i32>().ok(), "i32 of {:?}", text);
    }
}

#[test]
fn writes_integers_in_decimal() {
    assert_eq!(int_to_text(0), "0");
    assert_eq!(int_to_text(7), "7");
    assert_eq!(int_to_text(10), "10");
    assert_eq!(int_to_text(-1), "-1");
    assert_eq!(int_to_text(1234567890), "1234567890");
    assert_eq!(int_to_text(i64::MAX), "9223372036854775807");
    assert_eq!(int_to_text(i64::MIN), "-9223372036854775808");
}

#[test]
fn written_integers_read_back() {
    for value in [0i64, 1, -1, 9, 10, 99, 100, -100, 4096, i64::MAX, i64::MIN] {
        assert_eq!(parse_i64(&int_to_text(value)), Some(value));
        assert_eq!(int_to_text(value), value.to_string());
    }
}

#[test]
fn trims_white_space_at_both_ends() {
    assert_eq!(trim_text("  abc  "), "abc");
    assert_eq!(trim_text("\t\nabc\r\n"), "abc");
    assert_eq!(trim_text("a b"), "a b");
    assert_eq!(trim_text(""), "");
    assert_eq!(trim_text("   "), "");
    assert_eq!(trim_text("\u{a0}x\u{3000}"), "x");
    assert_eq!(trim_text("\u{200b}x"), "\u{200b}x");
}

#[test]
fn trimming_agrees_with_the_standard_library() {
    let samples = [
        "", " ", "a", " a", "a ", " a ", "\u{85}a\u{2028}", "\u{1680}a\u{205f}", "\u{2000}\u{200a}",
        "\u{feff}a", "\u{1c}a", "  two words  ", "\u{0b}\u{0c}z",
    ];
    for text in samples {
        assert_eq!(trim_text(text), text.trim(), "trim of {:?}", text);
        assert_eq!(blank_text(text), text.trim().is_empty(), "blank of {:?}", text);
    }
}

#[test]
fn compares_without_regard_to_ascii_case() {
    assert!(text_eq_ignore_case("User-Token", "user-token"));
    assert!(text_eq_ignore_case("USER-TOKEN", "user-token"));
    assert!(text_eq_ignore_case("", ""));
    assert!(!text_eq_ignore_case("user-token", "user_token"));
    assert!(!text_eq_ignore_case("user-token", "user-tokens"));
    assert!(!text_eq_ignore_case("é", "É"));
    assert!(!text_eq_ignore_case("@", "`"));
    assert!(!text_eq_ignore_case("[", "{"));
}

#[test]
fn orders_texts_by_code_point() {
    assert!(text_less("a", "b"));
    assert!(text_less("", "a"));
    assert!(text_less("a", "aa"));
    assert!(text_less("B", "a"));
    assert!(text_less("admin", "editor"));
    assert!(!text_less("a", "a"));
    assert!(!text_less("b", "a"));
    assert!(!text_less("aa", "a"));
    assert!(!text_less("", ""));
}

#[test]
fn ordering_agrees_with_the_standard_library() {
    let samples = ["", "a", "A", "ab", "b", "ä", "z", "read", "Read", "write", "write:all", "10", "9"];
    for left in samples {
        for right in samples {
            assert_eq!(text_less(left, right), left < right, "{:?} < {:?}", left, right);
        }
    }
}
