use log_processor::command::{Cli, InputCommand};
use log_processor::log_entry::LogLevel;
use log_processor::log_processor_options::{
    level_from_keyword, parse_level_filter, LogInput, LogOutput, LogProcessorOptions, LogSave,
};
use std::path::PathBuf;

fn file_cli() -> Cli {
    Cli {
        input: InputCommand {
            input_file: Some(PathBuf::from("logs.json")),
            input_es_index: None,
            input_url: None,
        },
        reverse: false,
        json: false,
        truncate: false,
        save_to_file: None,
        count: false,
        summary: false,
        save_to_es_index: None,
        limit: None,
        date_filter: None,
        pretty_json: false,
        verbose: false,
        level: None,
    }
}

#[test]
fn test_from_cli_valid_input() {
    // Test with valid Cli input
    let cli = Cli {
        input: InputCommand {
            input_file: Some(PathBuf::new()),
            input_es_index: None,
            input_url: None,
        },
        reverse: false,
        json: false,
        truncate: false,
        save_to_file: None,
        count: false,
        summary: false,
        save_to_es_index: None,
        limit: None,
        date_filter: None,
        pretty_json: false,
        verbose: false,
        level: None,
    };
    let result = LogProcessorOptions::from_cli(&cli);
    assert!(result.is_ok());
}

#[test]
fn test_from_cli_missing_input_command() {
    let cli = Cli {
        input: InputCommand {
            input_file: Some(PathBuf::new()),
            input_es_index: None,
            input_url: None,
        },
        reverse: false,
        json: false,
        truncate: false,
        save_to_file: None,
        count: true,
        summary: true,
        save_to_es_index: None,
        limit: None,
        date_filter: Some("what".to_string()),
        pretty_json: false,
        verbose: false,
        level: None,
    };
    let result = LogProcessorOptions::from_cli(&cli);
    assert!(result.is_err());
    assert_eq!(
        result.err(),
        Some("Failed to parse date filter".to_string())
    );
}

#[test]
fn from_cli_without_a_source_is_an_error() {
    let mut cli = file_cli();
    cli.input.input_file = None;
    cli.date_filter = Some("what".to_string());
    assert_eq!(
        LogProcessorOptions::from_cli(&cli).err(),
        Some("Input command not provided".to_string())
    );
    assert_eq!(
        LogProcessorOptions::from_cli_at(&cli, 0).err(),
        Some("Input command not provided".to_string())
    );
}

#[test]
fn from_cli_takes_the_defaults() {
    let options = LogProcessorOptions::from_cli(&file_cli()).unwrap();
    assert_eq!(options.input, LogInput::File(PathBuf::from("logs.json")));
    assert_eq!(options.limit, 100_000);
    assert_eq!(options.date_filter, None);
    assert_eq!(options.date_filter_string, None);
    assert_eq!(options.level_filter, None);
    assert_eq!(options.save, LogSave::Unset);
    assert_eq!(options.output, LogOutput::Unset);
    assert!(!options.reverse);
    assert!(!options.truncate_on_save);
    assert!(!options.verbose);
}

#[test]
fn from_cli_prefers_the_file_then_the_address() {
    let mut cli = file_cli();
    cli.input.input_url = Some("prod".to_string());
    cli.input.input_es_index = Some("logs".to_string());
    let options = LogProcessorOptions::from_cli(&cli).unwrap();
    assert_eq!(options.input, LogInput::File(PathBuf::from("logs.json")));
    cli.input.input_file = None;
    let options = LogProcessorOptions::from_cli(&cli).unwrap();
    assert_eq!(options.input, LogInput::Url("prod".to_string()));
    cli.input.input_url = None;
    let options = LogProcessorOptions::from_cli(&cli).unwrap();
    assert_eq!(options.input, LogInput::EsIndex("logs".to_string()));
}

#[test]
fn from_cli_at_resolves_every_field() {
    let mut cli = file_cli();
    cli.reverse = true;
    cli.truncate = true;
    cli.verbose = true;
    cli.limit = Some(7);
    cli.level = Some("ERR".to_string());
    cli.date_filter = Some("5_10".to_string());
    cli.save_to_es_index = Some("sink".to_string());
    cli.count = true;
    cli.summary = true;
    let options = LogProcessorOptions::from_cli_at(&cli, 1_700_000_000).unwrap();
    assert!(options.reverse);
    assert!(options.truncate_on_save);
    assert!(options.verbose);
    assert_eq!(options.limit, 7);
    assert_eq!(options.level_filter, Some(LogLevel::ERROR));
    assert_eq!(options.date_filter_string, Some("5_10".to_string()));
    assert_eq!(options.date_filter, Some((18_000, 36_000)));
    assert_eq!(options.save, LogSave::EsIndex("sink".to_string()));
    assert_eq!(options.output, LogOutput::Count);
}

#[test]
fn from_cli_at_uses_the_given_clock() {
    let mut cli = file_cli();
    cli.date_filter = Some("yesterday".to_string());
    let options = LogProcessorOptions::from_cli_at(&cli, 1_000_000).unwrap();
    assert_eq!(options.date_filter, Some((913_600, 1_000_000)));
}

#[test]
fn output_is_chosen_in_a_fixed_order() {
    let mut cli = file_cli();
    cli.summary = true;
    assert_eq!(LogProcessorOptions::from_cli(&cli).unwrap().output, LogOutput::Summary);
    cli.count = true;
    assert_eq!(LogProcessorOptions::from_cli(&cli).unwrap().output, LogOutput::Count);
    cli.pretty_json = true;
    assert_eq!(LogProcessorOptions::from_cli(&cli).unwrap().output, LogOutput::PrettyJson);
    cli.json = true;
    assert_eq!(LogProcessorOptions::from_cli(&cli).unwrap().output, LogOutput::Json);
}

#[test]
fn save_prefers_the_file() {
    let mut cli = file_cli();
    cli.save_to_es_index = Some("sink".to_string());
    cli.save_to_file = Some(PathBuf::from("out.json"));
    assert_eq!(
        LogProcessorOptions::from_cli(&cli).unwrap().save,
        LogSave::File(PathBuf::from("out.json"))
    );
}

#[test]
fn duplicate_is_equal() {
    let mut cli = file_cli();
    cli.level = Some("warn".to_string());
    cli.date_filter = Some("1_2".to_string());
    cli.save_to_file = Some(PathBuf::from("out.json"));
    let options = LogProcessorOptions::from_cli(&cli).unwrap();
    assert_eq!(options.duplicate(), options);
}

#[test]
fn level_filter_ignores_case() {
    assert_eq!(parse_level_filter("DEBUG"), Ok(Some(LogLevel::DEBUG)));
    assert_eq!(parse_level_filter("Deb"), Ok(Some(LogLevel::DEBUG)));
    assert_eq!(parse_level_filter("D"), Ok(Some(LogLevel::DEBUG)));
    assert_eq!(parse_level_filter("Error"), Ok(Some(LogLevel::ERROR)));
    assert_eq!(parse_level_filter("ROR"), Ok(Some(LogLevel::ERROR)));
    assert_eq!(parse_level_filter("INF"), Ok(Some(LogLevel::INFO)));
    assert_eq!(parse_level_filter("No"), Ok(Some(LogLevel::NONE)));
    assert_eq!(parse_level_filter("WAR"), Ok(Some(LogLevel::WARN)));
}

#[test]
fn level_filter_of_an_unknown_word_is_no_filter() {
    assert_eq!(parse_level_filter("verbose"), Ok(None));
    assert_eq!(parse_level_filter(""), Ok(None));
    assert_eq!(parse_level_filter("warning"), Ok(None));
}

#[test]
fn level_keywords() {
    let table = [
        ("debug", LogLevel::DEBUG),
        ("deb", LogLevel::DEBUG),
        ("d", LogLevel::DEBUG),
        ("error", LogLevel::ERROR),
        ("err", LogLevel::ERROR),
        ("e", LogLevel::ERROR),
        ("ror", LogLevel::ERROR),
        ("info", LogLevel::INFO),
        ("in", LogLevel::INFO),
        ("i", LogLevel::INFO),
        ("inf", LogLevel::INFO),
        ("none", LogLevel::NONE),
        ("non", LogLevel::NONE),
        ("n", LogLevel::NONE),
        ("no", LogLevel::NONE),
        ("warn", LogLevel::WARN),
        ("war", LogLevel::WARN),
        ("w", LogLevel::WARN),
    ];
    for (word, level) in table {
        assert_eq!(level_from_keyword(word), Some(level));
    }
    assert_eq!(level_from_keyword("DEBUG"), None);
    assert_eq!(level_from_keyword("x"), None);
}
