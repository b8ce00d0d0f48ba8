//! The address source: the records behind a configured address, one JSON
//! document to a line, put through the local pipeline.

use vstd::prelude::*;
use vstd::string::*;
use crate::log_entry::{LogEntry, LogLevel};
use crate::log_processor_options::LogProcessorOptions;
use crate::pipeline::{local_pipeline, pipeline, views};
use crate::text::{chars_of, collect_chars, find_char, first_index, is_first, lemma_first_index};

verus! {

/// What the name of an address is prefixed with to give the key that the
/// address is configured under.
pub const DEFAULT_URL_PREFIX: &'static str = "DEFAULT_URL_";

/// Fetches the records behind one address and puts them through the local
/// pipeline.
#[derive(Debug, PartialEq)]
pub struct UrlGetStrategy {
    pub url: String,
    pub reverse: bool,
    pub limit: i64,
    pub date_filter_string: Option<String>,
    pub date_filter: Option<(i64, i64)>,
    pub level_filter: Option<LogLevel>,
}

/// What became of one line of a response.
#[derive(Debug, PartialEq)]
pub enum LineOutcome {
    /// The line is a record.
    Record(LogEntry),
    /// The line is a JSON document, but no record.
    NotARecord,
    /// The line is no JSON document; the text says why.
    Malformed(String),
}

/// The key that the address named `suffix` is configured under.
pub open spec fn key_of(suffix: Seq<char>) -> Seq<char> {
    DEFAULT_URL_PREFIX@ + suffix
}

/// The error for an address that is not configured.
pub open spec fn missing_address(suffix: Seq<char>, cause: Seq<char>) -> Seq<char> {
    "Environment variable "@ + suffix + " not found, using default. error: "@ + cause
}

/// A line without the carriage return that it may end in.
pub open spec fn without_return(line: Seq<char>) -> Seq<char> {
    if line.len() > 0 && line.last() == '\r' {
        line.drop_last()
    } else {
        line
    }
}

/// The lines of a text. A line ends with a line feed, or with a carriage
/// return and a line feed, and holds neither; the end of the text ends the
/// last line, which is left out where it is empty.
pub open spec fn lines_of(text: Seq<char>) -> Seq<Seq<char>>
    decreases text.len(),
{
    if text.len() == 0 {
        Seq::empty()
    } else if text.contains('\n') {
        let k = first_index(text, '\n');
        if 0 <= k < text.len() {
            seq![without_return(text.take(k))] + lines_of(text.skip(k + 1))
        } else {
            Seq::empty()
        }
    } else {
        seq![text]
    }
}

/// The views of a sequence of texts.
pub open spec fn text_views(texts: Seq<String>) -> Seq<Seq<char>> {
    Seq::new(texts.len(), |i: int| texts[i]@)
}

/// The reason of the first malformed line, if there is one.
pub open spec fn first_malformed(outcomes: Seq<LineOutcome>) -> Option<String>
    decreases outcomes.len(),
{
    if outcomes.len() == 0 {
        None
    } else {
        match outcomes.first() {
            LineOutcome::Malformed(reason) => Some(reason),
            _ => first_malformed(outcomes.drop_first()),
        }
    }
}

/// The records among the outcomes, in their order.
pub open spec fn records_of(outcomes: Seq<LineOutcome>) -> Seq<LogEntry>
    decreases outcomes.len(),
{
    if outcomes.len() == 0 {
        Seq::empty()
    } else {
        match outcomes.last() {
            LineOutcome::Record(entry) => records_of(outcomes.drop_last()).push(entry),
            _ => records_of(outcomes.drop_last()),
        }
    }
}

/// The key that the address named `suffix` is configured under.
pub fn env_var_name(suffix: &str) -> (key: String)
    ensures
        key@ == key_of(suffix@),
{
    let mut key = String::from_str(DEFAULT_URL_PREFIX);
    key.append(suffix);
    key
}

/// The address named `suffix`, given what looking up its key gave: the
/// address that was found, or an error that names the address and the cause.
pub fn get_default_url_from_env(suffix: &str, found: Result<String, String>) -> (address: Result<
    String,
    String,
>)
    ensures
        match found {
            Ok(url) => address == Ok::<String, String>(url),
            Err(cause) => address matches Err(e) && e@ == missing_address(suffix@, cause@),
        },
{
    match found {
        Ok(url) => Ok(url),
        Err(cause) => {
            let mut message = String::from_str("Environment variable ");
            message.append(suffix);
            message.append(" not found, using default. error: ");
            message.append(cause.as_str());
            Err(message)
        },
    }
}

/// The text made of `chars[from..to]`.
fn text_between(chars: &Vec<char>, from: usize, to: usize) -> (text: String)
    requires
        from <= to <= chars.len(),
    ensures
        text@ == chars@.subrange(from as int, to as int),
{
    let mut piece: Vec<char> = Vec::new();
    let mut i: usize = from;
    while i < to
        invariant
            from <= i <= to <= chars.len(),
            piece@ == chars@.subrange(from as int, i as int),
        decreases to - i,
    {
        piece.push(chars[i]);
        i += 1;
        assert(piece@ =~= chars@.subrange(from as int, i as int));
    }
    collect_chars(&piece)
}

/// Splits the body of a response into its lines.
pub fn split_lines(body: &str) -> (lines: Vec<String>)
    ensures
        text_views(lines@) == lines_of(body@),
{
    let chars = chars_of(body);
    let mut lines: Vec<String> = Vec::new();
    let mut start: usize = 0;
    proof {
        assert(chars@.skip(0) =~= chars@);
        assert(text_views(lines@) + lines_of(chars@.skip(0)) =~= lines_of(chars@));
    }
    while start < chars.len()
        invariant
            start <= chars.len(),
            chars@ == body@,
            text_views(lines@) + lines_of(chars@.skip(start as int)) == lines_of(chars@),
        decreases chars.len() - start,
    {
        let ghost rest = chars@.skip(start as int);
        let ghost before = text_views(lines@);
        match find_char(&chars, start, '\n') {
            Some(k) => {
                proof {
                    assert(rest[k - start] == '\n');
                    assert(is_first(rest, '\n', k - start));
                    lemma_first_index(rest, '\n', k - start);
                    assert(rest.take(k - start) =~= chars@.subrange(start as int, k as int));
                    assert(rest.skip(k - start + 1) =~= chars@.skip(k + 1));
                }
                let end: usize = if k > start && chars[k - 1] == '\r' {
                    k - 1
                } else {
                    k
                };
                let line = text_between(&chars, start, end);
                proof {
                    assert(line@ =~= without_return(rest.take(k - start)));
                    assert(lines_of(rest) == seq![line@] + lines_of(chars@.skip(k + 1)));
                    assert(text_views(lines@.push(line)) =~= before.push(line@));
                    assert(before.push(line@) + lines_of(chars@.skip(k + 1)) =~= before + lines_of(
                        rest,
                    ));
                }
                lines.push(line);
                start = k + 1;
            },
            None => {
                let line = text_between(&chars, start, chars.len());
                proof {
                    assert(!rest.contains('\n')) by {
                        if rest.contains('\n') {
                            let j = choose|j: int| 0 <= j < rest.len() && rest[j] == '\n';
                            assert(chars@[start + j] == '\n');
                        }
                    }
                    assert(line@ =~= rest);
                    assert(lines_of(rest) == seq![rest]);
                    assert(text_views(lines@.push(line)) =~= before.push(line@));
                    assert(chars@.skip(chars@.len() as int) =~= Seq::<char>::empty());
                    assert(before.push(line@) + lines_of(chars@.skip(chars@.len() as int))
                        =~= before + lines_of(rest));
                }
                lines.push(line);
                start = chars.len();
            },
        }
    }
    proof {
        assert(chars@.skip(start as int) =~= Seq::<char>::empty());
        assert(text_views(lines@) + Seq::<Seq<char>>::empty() =~= text_views(lines@));
    }
    lines
}

/// Gathers the records of a response from the outcomes of its lines, in
/// their order. One malformed line fails the whole response, with the reason
/// of the first such line; a line that is no record is left out.
pub fn collect_lines(outcomes: Vec<LineOutcome>) -> (records: Result<Vec<LogEntry>, String>)
    ensures
        match first_malformed(outcomes@) {
            Some(reason) => records == Err::<Vec<LogEntry>, String>(reason),
            None => records matches Ok(found) && found@ == records_of(outcomes@),
        },
{
    let ghost all = outcomes@;
    let mut found: Vec<LogEntry> = Vec::new();
    proof {
        assert(all.skip(0) =~= all);
    }
    for outcome in it: outcomes
        invariant
            it.seq() == all,
            first_malformed(all) == first_malformed(all.skip(it.index() as int)),
            found@ == records_of(all.take(it.index() as int)),
    {
        let ghost i = it.index() as int;
        proof {
            assert(all.skip(i).first() == all[i]);
            assert(all.skip(i).drop_first() =~= all.skip(i + 1));
            assert(all.take(i + 1).drop_last() =~= all.take(i));
            assert(all.take(i + 1).last() == all[i]);
        }
        match outcome {
            LineOutcome::Record(entry) => {
                found.push(entry);
            },
            LineOutcome::NotARecord => {},
            LineOutcome::Malformed(reason) => {
                return Err(reason);
            },
        }
    }
    proof {
        assert(all.take(all.len() as int) =~= all);
        assert(all.skip(all.len() as int) =~= Seq::<LineOutcome>::empty());
    }
    Ok(found)
}

impl UrlGetStrategy {
    /// The source for the address named `url`, with the filters, the order
    /// and the limit of the options.
    pub fn create(url: String, option: LogProcessorOptions) -> (made: Result<Self, String>)
        ensures
            made == Ok::<Self, String>(
                UrlGetStrategy {
                    url,
                    reverse: option.reverse,
                    limit: option.limit,
                    date_filter_string: option.date_filter_string,
                    date_filter: option.date_filter,
                    level_filter: option.level_filter,
                },
            ),
    {
        Ok(
            UrlGetStrategy {
                url,
                reverse: option.reverse,
                limit: option.limit,
                date_filter: option.date_filter,
                date_filter_string: option.date_filter_string,
                level_filter: option.level_filter,
            },
        )
    }

    /// The records of the run, given the outcomes of the lines of the
    /// response: an error where a line is malformed, else what the local
    /// pipeline makes of the records among them.
    pub fn get(&self, outcomes: Vec<LineOutcome>) -> (logs: Result<Vec<LogEntry>, String>)
        ensures
            match first_malformed(outcomes@) {
                Some(reason) => logs == Err::<Vec<LogEntry>, String>(reason),
                None => logs matches Ok(out) && views(out@) == pipeline(
                    views(records_of(outcomes@)),
                    self.level_filter,
                    self.date_filter,
                    self.reverse,
                    self.limit,
                ),
            },
    {
        match collect_lines(outcomes) {
            Ok(records) => Ok(
                local_pipeline(
                    records,
                    self.level_filter,
                    self.date_filter,
                    self.reverse,
                    self.limit,
                ),
            ),
            Err(reason) => Err(reason),
        }
    }
}

} // verus!
