use log_processor::date_filter::{parse_date_filter, parse_date_filter_at, passes_window};

const NOW: i64 = 1_700_000_000;
const MIDNIGHT: i64 = 1_699_920_000;

fn rejected() -> Result<(i64, i64), String> {
    Err("Failed to parse date filter".to_string())
}

#[test]
fn today_names_the_present_second_twice() {
    assert_eq!(parse_date_filter_at("today", NOW), Ok((NOW, NOW)));
    assert_eq!(parse_date_filter_at("0", NOW), Ok((NOW, NOW)));
}

#[test]
fn today_has_equal_bounds_on_the_local_clock() {
    let (start, end) = parse_date_filter("today").unwrap();
    assert_eq!(start, end);
    assert!(start > 1_600_000_000);
}

#[test]
fn yesterday_keeps_the_time_of_day() {
    assert_eq!(parse_date_filter_at("yesterday", NOW), Ok((NOW - 86_400, NOW)));
    let (start, end) = parse_date_filter("yesterday").unwrap();
    assert_eq!(end - start, 86_400);
}

#[test]
fn hours_are_absolute() {
    assert_eq!(parse_date_filter_at("5_10", NOW), Ok((18_000, 36_000)));
    assert_eq!(parse_date_filter_at("5_10", 0), Ok((18_000, 36_000)));
    assert_eq!(parse_date_filter("5_10"), Ok((18_000, 36_000)));
    assert_eq!(parse_date_filter_at("-1_+2", NOW), Ok((-3_600, 7_200)));
    assert_eq!(parse_date_filter_at("0_0", NOW), Ok((0, 0)));
}

#[test]
fn days_run_from_midnight_to_the_end_of_today() {
    assert_eq!(
        parse_date_filter_at("3-", NOW),
        Ok((MIDNIGHT - 3 * 86_400, MIDNIGHT + 86_399))
    );
    assert_eq!(parse_date_filter_at("3-", NOW), Ok((1_699_660_800, 1_700_006_399)));
    assert_eq!(parse_date_filter_at("0-", NOW), Ok((MIDNIGHT, MIDNIGHT + 86_399)));
    assert_eq!(parse_date_filter_at("3-", MIDNIGHT), Ok((1_699_660_800, 1_700_006_399)));
}

#[test]
fn days_count_back_whatever_the_sign() {
    assert_eq!(parse_date_filter_at("-3-", NOW), parse_date_filter_at("3-", NOW));
    assert_eq!(parse_date_filter_at("+3-", NOW), parse_date_filter_at("3-", NOW));
}

#[test]
fn days_before_the_epoch() {
    assert_eq!(parse_date_filter_at("0-", -1), Ok((-86_400, -1)));
    assert_eq!(parse_date_filter_at("1-", -86_400), Ok((-172_800, -1)));
}

#[test]
fn days_on_the_local_clock() {
    let (start, end) = parse_date_filter("3-").unwrap();
    assert_eq!(end - start, 4 * 86_400 - 1);
    assert_eq!(start.rem_euclid(86_400), 0);
    assert_eq!(end.rem_euclid(86_400), 86_399);
}

#[test]
fn other_texts_are_rejected() {
    for filter in ["bogus", "what", "", "-", "abc-", "3--", "a_b", "1_", "_1", "_", "1_2_3", "3_-", "tomorrow", "1", "Today", "5 _10", "1.5-"] {
        assert_eq!(parse_date_filter_at(filter, NOW), rejected(), "{:?}", filter);
        assert_eq!(parse_date_filter(filter), rejected(), "{:?}", filter);
    }
}

#[test]
fn windows_that_do_not_fit_are_rejected() {
    assert_eq!(parse_date_filter_at("9223372036854775807_1", NOW), rejected());
    assert_eq!(parse_date_filter_at("1_2562047788015216", NOW), rejected());
    assert_eq!(
        parse_date_filter_at("1_2562047788015215", NOW),
        Ok((3_600, 9_223_372_036_854_774_000))
    );
    assert_eq!(parse_date_filter_at("9223372036854775808_1", NOW), rejected());
    assert_eq!(parse_date_filter_at("9223372036854775807-", NOW), rejected());
    assert_eq!(parse_date_filter_at("yesterday", i64::MIN), rejected());
    assert_eq!(parse_date_filter_at("0-", i64::MAX), rejected());
    assert_eq!(parse_date_filter_at("today", i64::MIN), Ok((i64::MIN, i64::MIN)));
}

#[test]
fn a_window_excludes_its_bounds() {
    let window = (10, 20);
    assert!(!passes_window(Some(10), window));
    assert!(passes_window(Some(11), window));
    assert!(passes_window(Some(19), window));
    assert!(!passes_window(Some(20), window));
    assert!(!passes_window(Some(9), window));
    assert!(!passes_window(Some(21), window));
    assert!(!passes_window(None, window));
    assert!(!passes_window(Some(5), (5, 5)));
}
