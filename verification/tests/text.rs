use log_processor::text::{chars_of, decimal_text, find_char, parse_i64, push_decimal, str_eq};

fn parse(text: &str) -> Option<i64> {
    let chars = chars_of(text);
    parse_i64(&chars, 0, chars.len())
}

#[test]
fn integers_are_read_as_std_reads_them() {
    for text in [
        "0", "7", "42", "007", "+12", "-12", "-0", "+0", "", "+", "-", "--1", "+-1", "1a", "a1",
        " 1", "1 ", "1_000", "1.0", "9223372036854775807", "9223372036854775808",
        "-9223372036854775808", "-9223372036854775809", "99999999999999999999999999",
        "-99999999999999999999999999", "+9223372036854775807", "٣",
    ] {
        assert_eq!(parse(text), text.parse::<i64>().ok(), "{:?}", text);
    }
}

#[test]
fn integers_at_the_limits() {
    assert_eq!(parse("9223372036854775807"), Some(i64::MAX));
    assert_eq!(parse("-9223372036854775808"), Some(i64::MIN));
    assert_eq!(parse("9223372036854775808"), None);
    assert_eq!(parse("-9223372036854775809"), None);
}

#[test]
fn integers_inside_a_text() {
    let chars = chars_of("ab-15cd");
    assert_eq!(parse_i64(&chars, 2, 5), Some(-15));
    assert_eq!(parse_i64(&chars, 3, 5), Some(15));
    assert_eq!(parse_i64(&chars, 2, 6), None);
    assert_eq!(parse_i64(&chars, 3, 3), None);
}

#[test]
fn decimal_text_is_what_std_writes() {
    for n in [0, 1, 9, 10, 11, 99, 100, 12_345, -1, -9, -10, -12_345, i64::MAX, i64::MIN, i64::MIN + 1] {
        assert_eq!(decimal_text(n), n.to_string());
    }
    assert_eq!(decimal_text(-9_223_372_036_854_775_808), "-9223372036854775808");
    assert_eq!(decimal_text(1_704_067_200_000), "1704067200000");
}

#[test]
fn push_decimal_appends() {
    let mut out = vec!['x', '='];
    push_decimal(&mut out, -40);
    assert_eq!(out, vec!['x', '=', '-', '4', '0']);
}

#[test]
fn chars_are_those_of_the_text() {
    assert_eq!(chars_of("a√b"), vec!['a', '√', 'b']);
    assert_eq!(chars_of(""), Vec::<char>::new());
}

#[test]
fn texts_are_compared_by_their_characters() {
    assert!(str_eq("abc", "abc"));
    assert!(!str_eq("abc", "abd"));
    assert!(!str_eq("abc", "ab"));
    assert!(str_eq("", ""));
}

#[test]
fn find_char_gives_the_first_place() {
    let chars = chars_of("a_b_c");
    assert_eq!(find_char(&chars, 0, '_'), Some(1));
    assert_eq!(find_char(&chars, 1, '_'), Some(1));
    assert_eq!(find_char(&chars, 2, '_'), Some(3));
    assert_eq!(find_char(&chars, 4, '_'), None);
    assert_eq!(find_char(&chars, 5, '_'), None);
}
