use log_processor::log_entry::{LogEntry, LogLevel};
use log_processor::log_processor_options::{LogInput, LogOutput, LogProcessorOptions, LogSave};
use log_processor::url_get::{
    collect_lines, env_var_name, get_default_url_from_env, split_lines, LineOutcome,
    UrlGetStrategy,
};

fn record(name: &str, level: LogLevel) -> LogEntry {
    LogEntry::new(name.to_string(), level, "1.2.3.4 - GET /path 200 - 12.5ms".to_string())
}

fn source(level_filter: Option<LogLevel>, reverse: bool, limit: i64) -> UrlGetStrategy {
    let option = LogProcessorOptions {
        input: LogInput::Url("prod".to_string()),
        reverse,
        limit,
        date_filter_string: None,
        level_filter,
        date_filter: None,
        truncate_on_save: false,
        save: LogSave::Unset,
        output: LogOutput::Unset,
        verbose: false,
    };
    UrlGetStrategy::create("prod".to_string(), option).unwrap()
}

#[test]
fn url_source_takes_the_options() {
    assert_eq!(
        source(Some(LogLevel::DEBUG), true, 4),
        UrlGetStrategy {
            url: "prod".to_string(),
            reverse: true,
            limit: 4,
            date_filter_string: None,
            date_filter: None,
            level_filter: Some(LogLevel::DEBUG),
        }
    );
}

#[test]
fn the_key_is_the_prefix_and_the_name() {
    assert_eq!(env_var_name("prod"), "DEFAULT_URL_prod");
    assert_eq!(env_var_name(""), "DEFAULT_URL_");
    assert_eq!(env_var_name("A B"), "DEFAULT_URL_A B");
}

#[test]
fn a_configured_address_is_handed_on() {
    assert_eq!(
        get_default_url_from_env("prod", Ok("http://localhost:9000/logs".to_string())),
        Ok("http://localhost:9000/logs".to_string())
    );
}

#[test]
fn a_missing_address_is_an_error() {
    assert_eq!(
        get_default_url_from_env("prod", Err("environment variable not found".to_string())),
        Err("Environment variable prod not found, using default. error: environment variable not found".to_string())
    );
}

#[test]
fn lines_are_split_as_std_splits_them() {
    for body in [
        "",
        "a",
        "a\n",
        "a\nb",
        "a\nb\n",
        "a\r\nb\r\n",
        "a\r\nb",
        "a\r",
        "a\rb\nc",
        "\n",
        "\n\n",
        "\r\n",
        "\r",
        "a\n\nb",
        "a\n\r\nb",
        "a\r\r\nb",
        "{\"x\":1}\n{\"y\":\"ü\"}\n",
        "tail\n\r",
    ] {
        let expected: Vec<String> = body.lines().map(|line| line.to_string()).collect();
        assert_eq!(split_lines(body), expected, "{:?}", body);
    }
}

#[test]
fn lines_of_a_response() {
    assert_eq!(split_lines("one\ntwo\r\nthree"), vec!["one", "two", "three"]);
    assert_eq!(split_lines("one\n\ntwo\n"), vec!["one", "", "two"]);
    assert_eq!(split_lines(""), Vec::<String>::new());
    assert_eq!(split_lines("\n"), vec![""]);
}

#[test]
fn records_are_gathered_in_order() {
    let outcomes = vec![
        LineOutcome::Record(record("a", LogLevel::INFO)),
        LineOutcome::NotARecord,
        LineOutcome::Record(record("b", LogLevel::WARN)),
        LineOutcome::NotARecord,
    ];
    assert_eq!(
        collect_lines(outcomes),
        Ok(vec![record("a", LogLevel::INFO), record("b", LogLevel::WARN)])
    );
    assert_eq!(collect_lines(vec![]), Ok(vec![]));
    assert_eq!(collect_lines(vec![LineOutcome::NotARecord]), Ok(vec![]));
}

#[test]
fn a_malformed_line_fails_the_response() {
    let outcomes = vec![
        LineOutcome::Record(record("a", LogLevel::INFO)),
        LineOutcome::Malformed("expected value at line 1 column 1".to_string()),
        LineOutcome::Record(record("b", LogLevel::WARN)),
        LineOutcome::Malformed("later".to_string()),
    ];
    assert_eq!(
        collect_lines(outcomes),
        Err("expected value at line 1 column 1".to_string())
    );
    let source = source(None, false, 10);
    assert_eq!(
        source.get(vec![LineOutcome::NotARecord, LineOutcome::Malformed("bad".to_string())]),
        Err("bad".to_string())
    );
}

#[test]
fn url_source_runs_the_pipeline() {
    let outcomes = vec![
        LineOutcome::Record(record("a", LogLevel::INFO)),
        LineOutcome::Record(record("b", LogLevel::WARN)),
        LineOutcome::NotARecord,
        LineOutcome::Record(record("c", LogLevel::INFO)),
        LineOutcome::Record(record("d", LogLevel::INFO)),
    ];
    let out = source(Some(LogLevel::INFO), true, 2).get(outcomes).unwrap();
    assert_eq!(out.len(), 2);
    assert_eq!(out[0].timestamp, "d");
    assert_eq!(out[1].timestamp, "c");
    assert!(out.iter().all(|e| e.is_processed && e.ip_address == "1.2.3.4"));
}
