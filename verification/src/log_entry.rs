//! The log record, its level and HTTP method, and the two passes that
//! normalise a record: deriving its time and extracting the request fields
//! from its message.

use vstd::prelude::*;
use vstd::string::*;
use crate::text::{decimal, decimal_text, str_eq};

verus! {

#[derive(Clone, Copy, Debug, PartialEq, Eq, Structural, Hash)]
pub enum HTTPMethod {
    GET,
    PUT,
    POST,
    DELETE,
    PATCH,
    HEAD,
    OPTIONS,
    CONNECT,
    TRACE,
    NONE,
}

#[derive(Clone, Copy, Debug, PartialEq, Eq, Structural, Hash)]
pub enum LogLevel {
    INFO,
    WARN,
    ERROR,
    DEBUG,
    NONE,
}

/// The text that a level is shown as.
pub open spec fn level_text(level: LogLevel) -> Seq<char> {
    match level {
        LogLevel::DEBUG => "DEBUG"@,
        LogLevel::ERROR => "ERROR"@,
        LogLevel::INFO => "INFO"@,
        LogLevel::WARN => "WARN"@,
        LogLevel::NONE => "none"@,
    }
}

/// The text that a method is shown as.
pub open spec fn method_text(method: HTTPMethod) -> Seq<char> {
    match method {
        HTTPMethod::GET => "GET"@,
        HTTPMethod::PUT => "PUT"@,
        HTTPMethod::POST => "POST"@,
        HTTPMethod::DELETE => "DELETE"@,
        HTTPMethod::PATCH => "PATCH"@,
        HTTPMethod::HEAD => "HEAD"@,
        HTTPMethod::OPTIONS => "OPTIONS"@,
        HTTPMethod::CONNECT => "CONNECT"@,
        HTTPMethod::TRACE => "TRACE"@,
        HTTPMethod::NONE => "none"@,
    }
}

/// The method that a word of a log line names: one of the ten names in
/// capitals, and `NONE` for every other word.
pub open spec fn method_of_word(word: Seq<char>) -> HTTPMethod {
    if word == "GET"@ {
        HTTPMethod::GET
    } else if word == "PUT"@ {
        HTTPMethod::PUT
    } else if word == "POST"@ {
        HTTPMethod::POST
    } else if word == "DELETE"@ {
        HTTPMethod::DELETE
    } else if word == "PATCH"@ {
        HTTPMethod::PATCH
    } else if word == "HEAD"@ {
        HTTPMethod::HEAD
    } else if word == "OPTIONS"@ {
        HTTPMethod::OPTIONS
    } else if word == "CONNECT"@ {
        HTTPMethod::CONNECT
    } else if word == "TRACE"@ {
        HTTPMethod::TRACE
    } else {
        HTTPMethod::NONE
    }
}

impl LogLevel {
    pub fn to_string(&self) -> (text: String)
        ensures
            text@ == level_text(*self),
    {
        match self {
            LogLevel::DEBUG => String::from_str("DEBUG"),
            LogLevel::ERROR => String::from_str("ERROR"),
            LogLevel::INFO => String::from_str("INFO"),
            LogLevel::WARN => String::from_str("WARN"),
            LogLevel::NONE => String::from_str("none"),
        }
    }
}

impl HTTPMethod {
    pub fn to_string(&self) -> (text: String)
        ensures
            text@ == method_text(*self),
    {
        match self {
            HTTPMethod::GET => String::from_str("GET"),
            HTTPMethod::PUT => String::from_str("PUT"),
            HTTPMethod::POST => String::from_str("POST"),
            HTTPMethod::DELETE => String::from_str("DELETE"),
            HTTPMethod::PATCH => String::from_str("PATCH"),
            HTTPMethod::HEAD => String::from_str("HEAD"),
            HTTPMethod::OPTIONS => String::from_str("OPTIONS"),
            HTTPMethod::CONNECT => String::from_str("CONNECT"),
            HTTPMethod::TRACE => String::from_str("TRACE"),
            HTTPMethod::NONE => String::from_str("none"),
        }
    }

    /// Reads the method that `word` names.
    pub fn from_word(word: &str) -> (method: HTTPMethod)
        ensures
            method == method_of_word(word@),
    {
        if str_eq(word, "GET") {
            HTTPMethod::GET
        } else if str_eq(word, "PUT") {
            HTTPMethod::PUT
        } else if str_eq(word, "POST") {
            HTTPMethod::POST
        } else if str_eq(word, "DELETE") {
            HTTPMethod::DELETE
        } else if str_eq(word, "PATCH") {
            HTTPMethod::PATCH
        } else if str_eq(word, "HEAD") {
            HTTPMethod::HEAD
        } else if str_eq(word, "OPTIONS") {
            HTTPMethod::OPTIONS
        } else if str_eq(word, "CONNECT") {
            HTTPMethod::CONNECT
        } else if str_eq(word, "TRACE") {
            HTTPMethod::TRACE
        } else {
            HTTPMethod::NONE
        }
    }
}

/// The line that a request log message has to have for its fields to be
/// extracted: address, method, path, status and duration in milliseconds.
pub const LOG_LINE_PATTERN: &'static str = r"^([:\w.]+)\s-\s(\w+)\s([/\w]+)\s(\d+)\s-\s([\d.]+)ms$";

/// One structured log record.
///
/// `process_time` holds the duration in milliseconds as decimal text; a text
/// that is no decimal number, the empty one included, stands for zero.
#[derive(Debug, Clone, PartialEq)]
pub struct LogEntry {
    pub timestamp: String,
    pub level: LogLevel,
    pub message: String,
    pub http_method: HTTPMethod,
    pub ip_address: String,
    pub url: String,
    pub status_code: String,
    pub error: String,
    pub process_time: String,
    pub time_unix: Option<i64>,
    pub is_processed: bool,
}

/// The mathematical value of a record.
pub struct LogEntryView {
    pub timestamp: Seq<char>,
    pub level: LogLevel,
    pub message: Seq<char>,
    pub http_method: HTTPMethod,
    pub ip_address: Seq<char>,
    pub url: Seq<char>,
    pub status_code: Seq<char>,
    pub error: Seq<char>,
    pub process_time: Seq<char>,
    pub time_unix: Option<i64>,
    pub is_processed: bool,
}

impl View for LogEntry {
    type V = LogEntryView;

    open spec fn view(&self) -> LogEntryView {
        LogEntryView {
            timestamp: self.timestamp@,
            level: self.level,
            message: self.message@,
            http_method: self.http_method,
            ip_address: self.ip_address@,
            url: self.url@,
            status_code: self.status_code@,
            error: self.error@,
            process_time: self.process_time@,
            time_unix: self.time_unix,
            is_processed: self.is_processed,
        }
    }
}

/// The five fields that a request log message carries.
#[derive(Debug, PartialEq)]
pub struct LineFields {
    pub ip_address: String,
    pub method: String,
    pub url: String,
    pub status_code: String,
    pub process_time: String,
}

/// The mathematical value of the fields of a message.
pub struct LineFieldsView {
    pub ip_address: Seq<char>,
    pub method: Seq<char>,
    pub url: Seq<char>,
    pub status_code: Seq<char>,
    pub process_time: Seq<char>,
}

impl View for LineFields {
    type V = LineFieldsView;

    open spec fn view(&self) -> LineFieldsView {
        LineFieldsView {
            ip_address: self.ip_address@,
            method: self.method@,
            url: self.url@,
            status_code: self.status_code@,
            process_time: self.process_time@,
        }
    }
}

/// What the regular expression `pattern` captures in `text`: nothing where
/// the pattern is not a valid expression or does not match, else the text of
/// each group, the whole match first, a group that took no part being absent.
pub uninterp spec fn regex_captures(pattern: Seq<char>, text: Seq<char>) -> Option<
    Seq<Option<Seq<char>>>,
>;

/// The milliseconds between the Unix epoch and the moment that `text` names
/// in the relaxed RFC 3339 form, or nothing where it names no moment.
pub uninterp spec fn rfc3339_millis(text: Seq<char>) -> Option<i64>;

/// The views of the captured groups.
pub open spec fn group_views(groups: Seq<Option<String>>) -> Seq<Option<Seq<char>>> {
    Seq::new(
        groups.len(),
        |i: int|
            match groups[i] {
                Some(s) => Some(s@),
                None => None,
            },
    )
}

/// Wraps `regex::Regex::new` followed by `Regex::captures`, and copies each
/// group out of the match with `Captures::iter` and `Match::as_str`. The
/// result is what `regex_captures` names; an expression that does not compile
/// captures nothing.
#[verifier::external_body]
fn capture_groups(pattern: &str, text: &str) -> (groups: Option<Vec<Option<String>>>)
    ensures
        groups is Some <==> regex_captures(pattern@, text@) is Some,
        groups matches Some(g) ==> group_views(g@) == regex_captures(pattern@, text@).unwrap(),
{
    let compiled = regex::Regex::new(pattern).ok()?;
    let found = compiled.captures(text)?;
    Some(found.iter().map(|group| group.map(|m| m.as_str().to_string())).collect())
}

/// Wraps the `FromStr` of `chrono::DateTime<Utc>` followed by
/// `DateTime::timestamp_millis`. The result is what `rfc3339_millis` names.
#[verifier::external_body]
fn parse_millis(timestamp: &str) -> (millis: Option<i64>)
    ensures
        millis == rfc3339_millis(timestamp@),
{
    timestamp.parse::<chrono::DateTime<chrono::Utc>>().ok().map(|moment| moment.timestamp_millis())
}

/// The fields in the groups of a match: the groups after the whole match,
/// where there are exactly five and each took part.
pub open spec fn captured_fields(groups: Seq<Option<Seq<char>>>) -> Option<LineFieldsView> {
    if groups.len() == 6 && groups[1] is Some && groups[2] is Some && groups[3] is Some
        && groups[4] is Some && groups[5] is Some {
        Some(
            LineFieldsView {
                ip_address: groups[1].unwrap(),
                method: groups[2].unwrap(),
                url: groups[3].unwrap(),
                status_code: groups[4].unwrap(),
                process_time: groups[5].unwrap(),
            },
        )
    } else {
        None
    }
}

/// The fields of a message, where it has the form of a request log line.
pub open spec fn message_fields(message: Seq<char>) -> Option<LineFieldsView> {
    match regex_captures(LOG_LINE_PATTERN@, message) {
        Some(groups) => captured_fields(groups),
        None => None,
    }
}

/// The record with its time set to `millis`, unless it has a time already.
pub open spec fn with_time(v: LogEntryView, millis: Option<i64>) -> LogEntryView {
    if v.time_unix is Some {
        v
    } else {
        LogEntryView { time_unix: millis, ..v }
    }
}

/// The record after the time derivation pass.
pub open spec fn derived(v: LogEntryView) -> LogEntryView {
    with_time(v, rfc3339_millis(v.timestamp))
}

/// The record with the request fields taken from `fields`, if there are any.
pub open spec fn with_fields(v: LogEntryView, fields: Option<LineFieldsView>) -> LogEntryView {
    match fields {
        Some(f) => LogEntryView {
            ip_address: f.ip_address,
            http_method: method_of_word(f.method),
            url: f.url,
            status_code: f.status_code,
            process_time: f.process_time,
            ..v
        },
        None => v,
    }
}

/// The record after the full pass, given the fields of its message and the
/// time that its timestamp names: unchanged where it was processed before.
pub open spec fn normalized_with(
    v: LogEntryView,
    fields: Option<LineFieldsView>,
    millis: Option<i64>,
) -> LogEntryView {
    if v.is_processed {
        v
    } else {
        LogEntryView { is_processed: true, ..with_time(with_fields(v, fields), millis) }
    }
}

/// The record after the full normalisation pass.
pub open spec fn normalized(v: LogEntryView) -> LogEntryView {
    normalized_with(v, message_fields(v.message), rfc3339_millis(v.timestamp))
}

/// The views of optional fields.
pub open spec fn fields_view(fields: Option<LineFields>) -> Option<LineFieldsView> {
    match fields {
        Some(f) => Some(f@),
        None => None,
    }
}

/// Sorts the groups of a match into the five fields.
pub fn line_fields(groups: Vec<Option<String>>) -> (fields: Option<LineFields>)
    ensures
        fields_view(fields) == captured_fields(group_views(groups@)),
{
    let mut groups = groups;
    if groups.len() != 6 {
        return None;
    }
    let ghost all = groups@;
    let process_time = groups.pop().unwrap();
    let status_code = groups.pop().unwrap();
    let url = groups.pop().unwrap();
    let method = groups.pop().unwrap();
    let ip_address = groups.pop().unwrap();
    assert(process_time == all[5] && status_code == all[4] && url == all[3] && method == all[2]
        && ip_address == all[1]);
    match (ip_address, method, url, status_code, process_time) {
        (Some(ip_address), Some(method), Some(url), Some(status_code), Some(process_time)) => Some(
            LineFields { ip_address, method, url, status_code, process_time },
        ),
        _ => None,
    }
}

/// The fields of `message`, where it has the form of a request log line.
pub fn extract_fields(message: &str) -> (fields: Option<LineFields>)
    ensures
        fields_view(fields) == message_fields(message@),
{
    match capture_groups(LOG_LINE_PATTERN, message) {
        Some(groups) => line_fields(groups),
        None => None,
    }
}

impl LogEntry {
    /// A record as it is read: the three given fields, every other one at its
    /// default.
    pub fn new(timestamp: String, level: LogLevel, message: String) -> (entry: LogEntry)
        ensures
            entry.timestamp == timestamp,
            entry.level == level,
            entry.message == message,
            entry.http_method == HTTPMethod::NONE,
            entry.ip_address@.len() == 0,
            entry.url@.len() == 0,
            entry.status_code@.len() == 0,
            entry.error@.len() == 0,
            entry.process_time@.len() == 0,
            entry.time_unix is None,
            !entry.is_processed,
    {
        LogEntry {
            timestamp,
            level,
            message,
            http_method: HTTPMethod::NONE,
            ip_address: String::new(),
            url: String::new(),
            status_code: String::new(),
            error: String::new(),
            process_time: String::new(),
            time_unix: None,
            is_processed: false,
        }
    }

    /// Sets the time to `millis` unless the record has a time already.
    pub fn set_time(&mut self, millis: Option<i64>)
        ensures
            final(self)@ == with_time(old(self)@, millis),
    {
        if self.time_unix.is_none() {
            self.time_unix = millis;
        }
    }

    /// Derives the time from the timestamp, once: a record that has a time
    /// keeps it, and a timestamp that names no moment leaves the time absent.
    pub fn process_date(&mut self)
        ensures
            final(self)@ == derived(old(self)@),
    {
        if self.time_unix.is_none() {
            let millis = parse_millis(self.timestamp.as_str());
            self.set_time(millis);
        }
    }

    /// The full pass on given results: takes the request fields from
    /// `fields`, sets the time to `millis` unless there is one, and marks the
    /// record as processed. A processed record is left as it is.
    pub fn normalize_with(&mut self, fields: Option<LineFields>, millis: Option<i64>)
        ensures
            final(self)@ == normalized_with(old(self)@, fields_view(fields), millis),
    {
        if self.is_processed {
            return;
        }
        match fields {
            Some(f) => {
                self.http_method = HTTPMethod::from_word(f.method.as_str());
                self.ip_address = f.ip_address;
                self.url = f.url;
                self.status_code = f.status_code;
                self.process_time = f.process_time;
            },
            None => {},
        }
        self.set_time(millis);
        self.is_processed = true;
    }

    /// The full normalisation pass: extracts the request fields from the
    /// message where it has the form of a request log line, derives the time,
    /// and marks the record as processed. A processed record is left as it is.
    pub fn process(&mut self)
        ensures
            final(self)@ == normalized(old(self)@),
    {
        if self.is_processed {
            return;
        }
        let fields = extract_fields(self.message.as_str());
        let millis = if self.time_unix.is_none() {
            parse_millis(self.timestamp.as_str())
        } else {
            None
        };
        self.normalize_with(fields, millis);
    }

    /// The record as a block of text, one field to a line.
    pub fn to_string(&self) -> (text: String)
        ensures
            text@ == block_text(self@),
    {
        let mut text = String::from_str("{\n");
        push_quoted_line(&mut text, "timestamp", self.timestamp.as_str());
        push_quoted_line(&mut text, "level", self.level.to_string().as_str());
        push_quoted_line(&mut text, "message", self.message.as_str());
        let millis: i64 = match self.time_unix {
            Some(t) => t,
            None => 0,
        };
        push_quoted_line(&mut text, "time_unix", decimal_text(millis).as_str());
        if self.http_method != HTTPMethod::NONE {
            push_quoted_line(&mut text, "http_method", self.http_method.to_string().as_str());
        }
        if !self.ip_address.as_str().is_empty() {
            push_quoted_line(&mut text, "ip_address", self.ip_address.as_str());
        }
        if !self.url.as_str().is_empty() {
            push_quoted_line(&mut text, "url", self.url.as_str());
        }
        if !self.status_code.as_str().is_empty() {
            push_quoted_line(&mut text, "status_code", self.status_code.as_str());
        }
        if !self.error.as_str().is_empty() {
            push_quoted_line(&mut text, "error", self.error.as_str());
        }
        text.append("  \"process_time\": ");
        if self.process_time.as_str().is_empty() {
            text.append("0");
        } else {
            text.append(self.process_time.as_str());
        }
        text.append(",\n}");
        text
    }
}

/// One line of a block: the name and the value, each in double quotes.
pub open spec fn quoted_line(name: Seq<char>, value: Seq<char>) -> Seq<char> {
    "  \""@ + name + "\": \""@ + value + "\",\n"@
}

/// The line of a field that is shown only where it is not empty.
pub open spec fn optional_line(name: Seq<char>, value: Seq<char>) -> Seq<char> {
    if value.len() == 0 {
        Seq::empty()
    } else {
        quoted_line(name, value)
    }
}

/// The line of the method, shown unless the method is `NONE`.
pub open spec fn method_line(method: HTTPMethod) -> Seq<char> {
    if method == HTTPMethod::NONE {
        Seq::empty()
    } else {
        quoted_line("http_method"@, method_text(method))
    }
}

/// The time that a block shows: zero where the record has none.
pub open spec fn shown_time(time_unix: Option<i64>) -> int {
    match time_unix {
        Some(t) => t as int,
        None => 0,
    }
}

/// The duration that a block shows: the text that the record holds, and
/// `0` for the empty one.
pub open spec fn shown_duration(process_time: Seq<char>) -> Seq<char> {
    if process_time.len() == 0 {
        "0"@
    } else {
        process_time
    }
}

/// The block of text that shows a record: the timestamp, level, message and
/// time always, then the method and the four text fields where they are set,
/// and the duration, without quotes, last.
pub open spec fn block_text(v: LogEntryView) -> Seq<char> {
    "{\n"@ + quoted_line("timestamp"@, v.timestamp) + quoted_line("level"@, level_text(v.level))
        + quoted_line("message"@, v.message) + quoted_line(
        "time_unix"@,
        decimal(shown_time(v.time_unix)),
    ) + method_line(v.http_method) + optional_line("ip_address"@, v.ip_address) + optional_line(
        "url"@,
        v.url,
    ) + optional_line("status_code"@, v.status_code) + optional_line("error"@, v.error)
        + "  \"process_time\": "@ + shown_duration(v.process_time) + ",\n}"@
}

/// Appends one quoted line to `out`.
fn push_quoted_line(out: &mut String, name: &str, value: &str)
    ensures
        final(out)@ == old(out)@ + quoted_line(name@, value@),
{
    out.append("  \"");
    out.append(name);
    out.append("\": \"");
    out.append(value);
    out.append("\",\n");
    assert(out@ =~= old(out)@ + quoted_line(name@, value@));
}

/// Normalising twice gives what normalising once gives.
pub proof fn lemma_normalize_idempotent(v: LogEntryView)
    ensures
        normalized(normalized(v)) == normalized(v),
        normalized(v).is_processed,
{
}

/// Deriving the time twice gives what deriving it once gives, a record that
/// has a time keeps it through both passes, and the full pass on an
/// unprocessed record gives the same with or without a derivation before it.
pub proof fn lemma_time_derived_once(v: LogEntryView)
    ensures
        derived(derived(v)) == derived(v),
        v.time_unix is Some ==> derived(v) == v && normalized(v).time_unix == v.time_unix,
        !v.is_processed ==> normalized(derived(v)) == normalized(v),
{
}

/// A message that has not the form of a request log line leaves the request
/// fields of an unprocessed record as they were; the record is processed
/// all the same.
pub proof fn lemma_no_match_keeps_fields(v: LogEntryView)
    requires
        !v.is_processed,
        message_fields(v.message) is None,
    ensures
        normalized(v).ip_address == v.ip_address,
        normalized(v).http_method == v.http_method,
        normalized(v).url == v.url,
        normalized(v).status_code == v.status_code,
        normalized(v).process_time == v.process_time,
        normalized(v).is_processed,
{
}

} // verus!
