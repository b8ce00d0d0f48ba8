use log_processor::log_entry::{
    extract_fields, line_fields, HTTPMethod, LineFields, LogEntry, LogLevel, LOG_LINE_PATTERN,
};

fn entry(timestamp: &str, message: &str) -> LogEntry {
    LogEntry::new(timestamp.to_string(), LogLevel::INFO, message.to_string())
}

fn millis(entry: &LogEntry) -> f64 {
    entry.process_time.parse::<f64>().unwrap_or(0.0)
}

#[test]
fn new_record_has_the_defaults() {
    let e = entry("t", "m");
    assert_eq!(e.timestamp, "t");
    assert_eq!(e.level, LogLevel::INFO);
    assert_eq!(e.message, "m");
    assert_eq!(e.http_method, HTTPMethod::NONE);
    assert_eq!(e.ip_address, "");
    assert_eq!(e.url, "");
    assert_eq!(e.status_code, "");
    assert_eq!(e.error, "");
    assert_eq!(millis(&e), 0.0);
    assert_eq!(e.time_unix, None);
    assert!(!e.is_processed);
}

#[test]
fn process_extracts_the_request_fields() {
    let mut e = entry("2024-01-01T00:00:00Z", "1.2.3.4 - GET /path 200 - 12.5ms");
    e.process();
    assert_eq!(e.ip_address, "1.2.3.4");
    assert_eq!(e.http_method, HTTPMethod::GET);
    assert_eq!(e.url, "/path");
    assert_eq!(e.status_code, "200");
    assert_eq!(e.process_time, "12.5");
    assert_eq!(millis(&e), 12.5);
    assert_eq!(e.time_unix, Some(1_704_067_200_000));
    assert!(e.is_processed);
    assert_eq!(e.message, "1.2.3.4 - GET /path 200 - 12.5ms");
    assert_eq!(e.timestamp, "2024-01-01T00:00:00Z");
}

#[test]
fn process_leaves_the_fields_of_another_message() {
    let mut e = entry("2024-01-01T00:00:00Z", "server started");
    e.process();
    assert_eq!(e.ip_address, "");
    assert_eq!(e.url, "");
    assert_eq!(e.status_code, "");
    assert_eq!(e.http_method, HTTPMethod::NONE);
    assert_eq!(millis(&e), 0.0);
    assert!(e.is_processed);
    assert_eq!(e.time_unix, Some(1_704_067_200_000));
}

#[test]
fn process_twice_is_process_once() {
    for message in ["1.2.3.4 - GET /path 200 - 12.5ms", "no request here", ""] {
        for timestamp in ["2024-01-01T00:00:00Z", "not a time"] {
            let mut once = entry(timestamp, message);
            once.process();
            let mut twice = once.clone();
            twice.process();
            assert_eq!(twice, once);
        }
    }
}

#[test]
fn a_processed_record_is_left_alone() {
    let mut e = entry("2024-01-01T00:00:00Z", "1.2.3.4 - GET /path 200 - 12.5ms");
    e.is_processed = true;
    let before = e.clone();
    e.process();
    assert_eq!(e, before);
    assert_eq!(e.time_unix, None);
    assert_eq!(e.ip_address, "");
}

#[test]
fn process_reads_every_method() {
    let table = [
        ("GET", HTTPMethod::GET),
        ("PUT", HTTPMethod::PUT),
        ("POST", HTTPMethod::POST),
        ("DELETE", HTTPMethod::DELETE),
        ("PATCH", HTTPMethod::PATCH),
        ("HEAD", HTTPMethod::HEAD),
        ("OPTIONS", HTTPMethod::OPTIONS),
        ("CONNECT", HTTPMethod::CONNECT),
        ("TRACE", HTTPMethod::TRACE),
        ("NONE", HTTPMethod::NONE),
        ("get", HTTPMethod::NONE),
        ("FETCH", HTTPMethod::NONE),
        ("none", HTTPMethod::NONE),
    ];
    for (word, method) in table {
        assert_eq!(HTTPMethod::from_word(word), method);
        let mut e = entry("", &format!("::1 - {} /a/b 404 - 3ms", word));
        e.process();
        assert_eq!(e.http_method, method);
        assert_eq!(e.ip_address, "::1");
        assert_eq!(e.url, "/a/b");
        assert_eq!(e.status_code, "404");
        assert_eq!(millis(&e), 3.0);
    }
}

#[test]
fn the_line_must_match_from_end_to_end() {
    for message in [
        " 1.2.3.4 - GET /path 200 - 12.5ms",
        "1.2.3.4 - GET /path 200 - 12.5ms ",
        "1.2.3.4 - GET /path 200 - 12.5 ms",
        "1.2.3.4 - GET /path 200 - 12.5",
        "1.2.3.4 - GET /path 200 - ms",
        "1.2.3.4 - GET /path abc - 12.5ms",
        "1.2.3.4 - GET /pa-th 200 - 12.5ms",
        "1.2.3.4 GET /path 200 - 12.5ms",
        "1.2.3.4 - GET  /path 200 - 12.5ms",
    ] {
        assert_eq!(extract_fields(message), None, "{:?}", message);
    }
}

#[test]
fn extract_fields_gives_the_five_groups() {
    assert_eq!(
        extract_fields("10.0.0.1 - POST /api/v1/items 201 - 0.75ms"),
        Some(LineFields {
            ip_address: "10.0.0.1".to_string(),
            method: "POST".to_string(),
            url: "/api/v1/items".to_string(),
            status_code: "201".to_string(),
            process_time: "0.75".to_string(),
        })
    );
    let fields = extract_fields("host.name - GET / 200 - 1.2.3ms").unwrap();
    assert_eq!(fields.process_time, "1.2.3");
    assert_eq!(fields.ip_address, "host.name");
    assert_eq!(fields.url, "/");
}

#[test]
fn a_duration_that_is_no_number_stands_for_zero() {
    let mut e = entry("", "1.2.3.4 - GET /path 200 - 1.2.3ms");
    e.process();
    assert_eq!(e.process_time, "1.2.3");
    assert_eq!(millis(&e), 0.0);
}

#[test]
fn the_pattern_is_the_documented_one() {
    assert_eq!(
        LOG_LINE_PATTERN,
        r"^([:\w.]+)\s-\s(\w+)\s([/\w]+)\s(\d+)\s-\s([\d.]+)ms$"
    );
}

#[test]
fn line_fields_wants_six_groups_that_took_part() {
    let group = |text: &str| Some(text.to_string());
    assert_eq!(
        line_fields(vec![group("all"), group("a"), group("b"), group("c"), group("d"), group("e")]),
        Some(LineFields {
            ip_address: "a".to_string(),
            method: "b".to_string(),
            url: "c".to_string(),
            status_code: "d".to_string(),
            process_time: "e".to_string(),
        })
    );
    assert_eq!(line_fields(vec![group("all"), group("a"), group("b"), group("c"), group("d")]), None);
    assert_eq!(
        line_fields(vec![group("all"), group("a"), None, group("c"), group("d"), group("e")]),
        None
    );
    assert_eq!(
        line_fields(vec![None, group("a"), group("b"), group("c"), group("d"), group("e")]),
        Some(LineFields {
            ip_address: "a".to_string(),
            method: "b".to_string(),
            url: "c".to_string(),
            status_code: "d".to_string(),
            process_time: "e".to_string(),
        })
    );
    assert_eq!(line_fields(vec![]), None);
    assert_eq!(
        line_fields(vec![
            group("all"), group("a"), group("b"), group("c"), group("d"), group("e"), group("f"),
        ]),
        None
    );
}

#[test]
fn normalize_with_takes_what_it_is_given() {
    let mut e = entry("t", "m");
    e.normalize_with(
        Some(LineFields {
            ip_address: "ip".to_string(),
            method: "PATCH".to_string(),
            url: "/u".to_string(),
            status_code: "500".to_string(),
            process_time: "9".to_string(),
        }),
        Some(77),
    );
    assert_eq!(e.ip_address, "ip");
    assert_eq!(e.http_method, HTTPMethod::PATCH);
    assert_eq!(e.url, "/u");
    assert_eq!(e.status_code, "500");
    assert_eq!(e.process_time, "9");
    assert_eq!(e.time_unix, Some(77));
    assert!(e.is_processed);
    let before = e.clone();
    e.normalize_with(None, Some(5));
    assert_eq!(e, before);
}

#[test]
fn normalize_with_keeps_a_time_that_is_there() {
    let mut e = entry("t", "m");
    e.time_unix = Some(1);
    e.normalize_with(None, Some(2));
    assert_eq!(e.time_unix, Some(1));
    assert!(e.is_processed);
    assert_eq!(e.ip_address, "");
}

#[test]
fn process_date_derives_the_time_once() {
    let mut e = entry("2024-01-01T00:00:00.250Z", "m");
    e.process_date();
    assert_eq!(e.time_unix, Some(1_704_067_200_250));
    assert!(!e.is_processed);
    e.timestamp = "2000-01-01T00:00:00Z".to_string();
    e.process_date();
    assert_eq!(e.time_unix, Some(1_704_067_200_250));
}

#[test]
fn process_date_reads_offsets_and_spaces() {
    let mut e = entry("2024-01-01T02:00:00+02:00", "m");
    e.process_date();
    assert_eq!(e.time_unix, Some(1_704_067_200_000));
    let mut e = entry("2012-12-12 12:12:12Z", "m");
    e.process_date();
    assert_eq!(e.time_unix, Some(1_355_314_332_000));
    let mut e = entry("1969-12-31T23:59:59Z", "m");
    e.process_date();
    assert_eq!(e.time_unix, Some(-1_000));
}

#[test]
fn process_date_leaves_the_time_absent_for_another_text() {
    for timestamp in ["", "yesterday", "2024-01-01", "2024-13-01T00:00:00Z", "1704067200"] {
        let mut e = entry(timestamp, "m");
        e.process_date();
        assert_eq!(e.time_unix, None, "{:?}", timestamp);
        e.process();
        assert_eq!(e.time_unix, None);
        assert!(e.is_processed);
    }
}

#[test]
fn set_time_fills_an_absent_time_only() {
    let mut e = entry("t", "m");
    e.set_time(None);
    assert_eq!(e.time_unix, None);
    e.set_time(Some(3));
    assert_eq!(e.time_unix, Some(3));
    e.set_time(Some(4));
    assert_eq!(e.time_unix, Some(3));
    e.set_time(None);
    assert_eq!(e.time_unix, Some(3));
}

#[test]
fn levels_and_methods_have_their_texts() {
    assert_eq!(LogLevel::DEBUG.to_string(), "DEBUG");
    assert_eq!(LogLevel::ERROR.to_string(), "ERROR");
    assert_eq!(LogLevel::INFO.to_string(), "INFO");
    assert_eq!(LogLevel::WARN.to_string(), "WARN");
    assert_eq!(LogLevel::NONE.to_string(), "none");
    assert_eq!(HTTPMethod::GET.to_string(), "GET");
    assert_eq!(HTTPMethod::PUT.to_string(), "PUT");
    assert_eq!(HTTPMethod::POST.to_string(), "POST");
    assert_eq!(HTTPMethod::DELETE.to_string(), "DELETE");
    assert_eq!(HTTPMethod::PATCH.to_string(), "PATCH");
    assert_eq!(HTTPMethod::HEAD.to_string(), "HEAD");
    assert_eq!(HTTPMethod::OPTIONS.to_string(), "OPTIONS");
    assert_eq!(HTTPMethod::CONNECT.to_string(), "CONNECT");
    assert_eq!(HTTPMethod::TRACE.to_string(), "TRACE");
    assert_eq!(HTTPMethod::NONE.to_string(), "none");
}
