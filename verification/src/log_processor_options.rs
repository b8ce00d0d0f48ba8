//! The resolved configuration of one run, and how it follows from the
//! command line.

use vstd::prelude::*;
use vstd::string::*;
use std::path::PathBuf;
use crate::command::Cli;
use crate::date_filter::{answers_filter, date_window, parse_date_filter, parse_date_filter_at, DATE_FILTER_ERROR};
use crate::log_entry::LogLevel;
use crate::text::str_eq;

verus! {

/// The limit of a run that names none.
pub const DEFAULT_LIMIT: i64 = 100_000;

/// What a command line without a source is answered with.
pub const MISSING_INPUT_ERROR: &'static str = "Input command not provided";

#[derive(Debug, Clone, PartialEq)]
pub enum LogInput {
    File(PathBuf),
    Url(String),
    EsIndex(String),
}

#[derive(Debug, Clone, PartialEq)]
pub enum LogSave {
    File(PathBuf),
    EsIndex(String),
    /// No sink was named.
    Unset,
}

#[derive(Debug, Clone, Copy, PartialEq, Eq, Structural)]
pub enum LogOutput {
    Json,
    PrettyJson,
    Count,
    Summary,
    /// No renderer was named.
    Unset,
}

#[derive(Debug, Clone, PartialEq)]
pub struct LogProcessorOptions {
    pub input: LogInput,
    pub reverse: bool,
    pub limit: i64,
    pub date_filter_string: Option<String>,
    pub level_filter: Option<LogLevel>,
    pub date_filter: Option<(i64, i64)>,
    pub truncate_on_save: bool,
    pub save: LogSave,
    pub output: LogOutput,
    pub verbose: bool,
}

/// The lower case of a text, as `str::to_lowercase` gives it.
pub uninterp spec fn lowercase_of(text: Seq<char>) -> Seq<char>;

/// Wraps `str::to_lowercase`. The result is what `lowercase_of` names.
#[verifier::external_body]
fn lowercase(text: &str) -> (lower: String)
    ensures
        lower@ == lowercase_of(text@),
{
    text.to_lowercase()
}

/// The level that a keyword in lower case names, if it names one.
pub open spec fn level_of_keyword(word: Seq<char>) -> Option<LogLevel> {
    if word == "debug"@ || word == "deb"@ || word == "d"@ {
        Some(LogLevel::DEBUG)
    } else if word == "error"@ || word == "err"@ || word == "e"@ || word == "ror"@ {
        Some(LogLevel::ERROR)
    } else if word == "info"@ || word == "in"@ || word == "i"@ || word == "inf"@ {
        Some(LogLevel::INFO)
    } else if word == "none"@ || word == "non"@ || word == "n"@ || word == "no"@ {
        Some(LogLevel::NONE)
    } else if word == "warn"@ || word == "war"@ || word == "w"@ {
        Some(LogLevel::WARN)
    } else {
        None
    }
}

/// The level that a keyword in lower case names, if it names one.
pub fn level_from_keyword(word: &str) -> (level: Option<LogLevel>)
    ensures
        level == level_of_keyword(word@),
{
    if str_eq(word, "debug") || str_eq(word, "deb") || str_eq(word, "d") {
        Some(LogLevel::DEBUG)
    } else if str_eq(word, "error") || str_eq(word, "err") || str_eq(word, "e") || str_eq(
        word,
        "ror",
    ) {
        Some(LogLevel::ERROR)
    } else if str_eq(word, "info") || str_eq(word, "in") || str_eq(word, "i") || str_eq(
        word,
        "inf",
    ) {
        Some(LogLevel::INFO)
    } else if str_eq(word, "none") || str_eq(word, "non") || str_eq(word, "n") || str_eq(
        word,
        "no",
    ) {
        Some(LogLevel::NONE)
    } else if str_eq(word, "warn") || str_eq(word, "war") || str_eq(word, "w") {
        Some(LogLevel::WARN)
    } else {
        None
    }
}

/// The level filter that a word names, whatever its case: a word that names
/// no level means no filter, and is no error.
pub fn parse_level_filter(level: &str) -> (outcome: Result<Option<LogLevel>, String>)
    ensures
        outcome matches Ok(filter) && filter == level_of_keyword(lowercase_of(level@)),
{
    let lower = lowercase(level);
    Ok(level_from_keyword(lower.as_str()))
}

/// The source that a command line names: the file before the address, the
/// address before the index.
pub open spec fn chosen_input(cli: Cli) -> Option<LogInput> {
    match (cli.input.input_file, cli.input.input_url, cli.input.input_es_index) {
        (Some(path), _, _) => Some(LogInput::File(path)),
        (None, Some(name), _) => Some(LogInput::Url(name)),
        (None, None, Some(index)) => Some(LogInput::EsIndex(index)),
        (None, None, None) => None,
    }
}

/// The sink that a command line names: the file before the index.
pub open spec fn chosen_save(cli: Cli) -> LogSave {
    match (cli.save_to_file, cli.save_to_es_index) {
        (Some(path), _) => LogSave::File(path),
        (None, Some(index)) => LogSave::EsIndex(index),
        (None, None) => LogSave::Unset,
    }
}

/// The renderer that a command line names: compact JSON before blocks,
/// blocks before the count, the count before the summary.
pub open spec fn chosen_output(cli: Cli) -> LogOutput {
    if cli.json {
        LogOutput::Json
    } else if cli.pretty_json {
        LogOutput::PrettyJson
    } else if cli.count {
        LogOutput::Count
    } else if cli.summary {
        LogOutput::Summary
    } else {
        LogOutput::Unset
    }
}

/// The level filter that a command line names.
pub open spec fn chosen_level(cli: Cli) -> Option<LogLevel> {
    match cli.level {
        Some(word) => level_of_keyword(lowercase_of(word@)),
        None => None,
    }
}

/// Whether `window` is what reading the date filter of `cli` gave: nothing
/// where it has none, else the answer to it at some reading of the clock.
pub open spec fn window_read(cli: Cli, now: i64, window: Option<Result<(i64, i64), String>>) -> bool {
    match cli.date_filter {
        Some(filter) => window matches Some(outcome) && answers_filter(filter@, now, outcome),
        None => window is None,
    }
}

/// The options that follow from a command line that names a source, given
/// the window of its date filter.
pub open spec fn resolved(cli: Cli, input: LogInput, date_filter: Option<(i64, i64)>) -> LogProcessorOptions {
    LogProcessorOptions {
        input,
        reverse: cli.reverse,
        limit: match cli.limit {
            Some(limit) => limit,
            None => DEFAULT_LIMIT,
        },
        date_filter_string: cli.date_filter,
        level_filter: chosen_level(cli),
        date_filter,
        truncate_on_save: cli.truncate,
        save: chosen_save(cli),
        output: chosen_output(cli),
        verbose: cli.verbose,
    }
}

/// Whether `outcome` is the answer to a command line when the local clock
/// reads `now` seconds: an error where no source is named, else the error of
/// the date filter where it has one that names no window, else the resolved
/// options.
pub open spec fn answers_cli(cli: Cli, now: i64, outcome: Result<LogProcessorOptions, String>) -> bool {
    match chosen_input(cli) {
        None => outcome matches Err(e) && e@ == MISSING_INPUT_ERROR@,
        Some(input) => match cli.date_filter {
            Some(filter) => match date_window(filter@, now) {
                Some(window) => outcome == Ok::<LogProcessorOptions, String>(
                    resolved(cli, input, Some(window)),
                ),
                None => outcome matches Err(e) && e@ == DATE_FILTER_ERROR@,
            },
            None => outcome == Ok::<LogProcessorOptions, String>(resolved(cli, input, None)),
        },
    }
}

/// A copy of an optional text.
fn copy_text(text: &Option<String>) -> (copy: Option<String>)
    ensures
        copy == *text,
{
    match text {
        Some(t) => Some(t.clone()),
        None => None,
    }
}

impl LogProcessorOptions {
    /// A copy of the options.
    pub fn duplicate(&self) -> (copy: Self)
        ensures
            copy == *self,
    {
        LogProcessorOptions {
            input: match &self.input {
                LogInput::File(path) => LogInput::File(path.clone()),
                LogInput::Url(name) => LogInput::Url(name.clone()),
                LogInput::EsIndex(index) => LogInput::EsIndex(index.clone()),
            },
            reverse: self.reverse,
            limit: self.limit,
            date_filter_string: copy_text(&self.date_filter_string),
            level_filter: self.level_filter,
            date_filter: self.date_filter,
            truncate_on_save: self.truncate_on_save,
            save: match &self.save {
                LogSave::File(path) => LogSave::File(path.clone()),
                LogSave::EsIndex(index) => LogSave::EsIndex(index.clone()),
                LogSave::Unset => LogSave::Unset,
            },
            output: self.output,
            verbose: self.verbose,
        }
    }

    /// Resolves a command line, given what reading its date filter gave.
    fn from_parts(cli: &Cli, window: Option<Result<(i64, i64), String>>) -> (outcome: Result<
        Self,
        String,
    >)
        ensures
            forall|now: i64| window_read(*cli, now, window) ==> answers_cli(*cli, now, outcome),
    {
        let input = if let Some(path) = &cli.input.input_file {
            LogInput::File(path.clone())
        } else if let Some(name) = &cli.input.input_url {
            LogInput::Url(name.clone())
        } else if let Some(index) = &cli.input.input_es_index {
            LogInput::EsIndex(index.clone())
        } else {
            return Err(String::from_str(MISSING_INPUT_ERROR));
        };
        let date_filter: Option<(i64, i64)> = match window {
            Some(Ok(w)) => Some(w),
            Some(Err(e)) => {
                return Err(e);
            },
            None => None,
        };
        let level_filter = match &cli.level {
            None => None,
            Some(word) => match parse_level_filter(word.as_str()) {
                Ok(level) => level,
                Err(e) => {
                    return Err(e);
                },
            },
        };
        let output = if cli.json {
            LogOutput::Json
        } else if cli.pretty_json {
            LogOutput::PrettyJson
        } else if cli.count {
            LogOutput::Count
        } else if cli.summary {
            LogOutput::Summary
        } else {
            LogOutput::Unset
        };
        let save = if let Some(path) = &cli.save_to_file {
            LogSave::File(path.clone())
        } else if let Some(index) = &cli.save_to_es_index {
            LogSave::EsIndex(index.clone())
        } else {
            LogSave::Unset
        };
        Ok(
            LogProcessorOptions {
                input,
                reverse: cli.reverse,
                limit: match cli.limit {
                    Some(limit) => limit,
                    None => DEFAULT_LIMIT,
                },
                date_filter_string: copy_text(&cli.date_filter),
                level_filter,
                date_filter,
                truncate_on_save: cli.truncate,
                save,
                output,
                verbose: cli.verbose,
            },
        )
    }

    /// Resolves a command line when the local clock reads `now` seconds.
    pub fn from_cli_at(cli: &Cli, now: i64) -> (outcome: Result<Self, String>)
        ensures
            answers_cli(*cli, now, outcome),
    {
        let window = match &cli.date_filter {
            Some(filter) => Some(parse_date_filter_at(filter.as_str(), now)),
            None => None,
        };
        Self::from_parts(cli, window)
    }

    /// Resolves a command line against the local clock of this machine: the
    /// answer is the one that `from_cli_at` gives for some reading of it.
    pub fn from_cli(cli: &Cli) -> (outcome: Result<Self, String>)
        ensures
            exists|now: i64| answers_cli(*cli, now, outcome),
    {
        match &cli.date_filter {
            Some(filter) => {
                let read = parse_date_filter(filter.as_str());
                let ghost now = choose|now: i64| answers_filter(filter@, now, read);
                let outcome = Self::from_parts(cli, Some(read));
                assert(window_read(*cli, now, Some(read)));
                assert(answers_cli(*cli, now, outcome));
                outcome
            },
            None => {
                let outcome = Self::from_parts(cli, None);
                assert(window_read(*cli, 0, None));
                assert(answers_cli(*cli, 0, outcome));
                outcome
            },
        }
    }
}

} // verus!
