//! The Elasticsearch source: the search that stands for the filters, the
//! order and the limit of a run, and the records among its hits. Nothing is
//! filtered, reordered or normalised on this side of the search.

use vstd::prelude::*;
use vstd::string::*;
use crate::log_entry::{level_text, LogEntry, LogLevel};
use crate::log_processor_options::LogProcessorOptions;
use crate::text::{decimal, decimal_text};

verus! {

/// Searches the records of one index.
#[derive(Debug, PartialEq)]
pub struct ESGetStrategy {
    pub index: String,
    pub reverse: bool,
    pub limit: i64,
    pub date_filter_string: Option<String>,
    pub date_filter: Option<(i64, i64)>,
    pub level_filter: Option<LogLevel>,
}

/// The query of a search.
#[derive(Clone, Copy, Debug, PartialEq, Eq, Structural)]
pub enum Query {
    /// Every record.
    MatchAll,
    /// The records whose time lies between the two bounds, the bounds
    /// included.
    Range { gte: i64, lte: i64 },
    /// The records of one level.
    Term { level: LogLevel },
    /// The records that meet both the range and the term.
    Both { gte: i64, lte: i64, level: LogLevel },
}

/// The body of a search: its query, and whether the hits are to come with
/// the latest first.
#[derive(Clone, Copy, Debug, PartialEq, Eq, Structural)]
pub struct SearchBody {
    pub query: Query,
    pub sort_descending: bool,
}

/// One search: the index, how many hits to return at most, and the body.
#[derive(Debug, PartialEq)]
pub struct SearchRequest {
    pub index: String,
    pub size: i64,
    pub body: SearchBody,
}

/// The query that stands for a date filter and a level filter.
pub open spec fn query_for(date_filter: Option<(i64, i64)>, level_filter: Option<LogLevel>) -> Query {
    match (date_filter, level_filter) {
        (None, None) => Query::MatchAll,
        (Some(window), None) => Query::Range { gte: window.0, lte: window.1 },
        (None, Some(level)) => Query::Term { level },
        (Some(window), Some(level)) => Query::Both { gte: window.0, lte: window.1, level },
    }
}

/// The JSON text of a range clause.
pub open spec fn range_json(gte: i64, lte: i64) -> Seq<char> {
    "{\"range\":{\"time_unix\":{\"gte\":"@ + decimal(gte as int) + ",\"lte\":"@ + decimal(
        lte as int,
    ) + "}}}"@
}

/// The JSON text of a term clause.
pub open spec fn term_json(level: LogLevel) -> Seq<char> {
    "{\"term\":{\"level\":\""@ + level_text(level) + "\"}}"@
}

/// The JSON text of a query.
pub open spec fn query_json(query: Query) -> Seq<char> {
    match query {
        Query::MatchAll => "{\"match_all\":{}}"@,
        Query::Range { gte, lte } => range_json(gte, lte),
        Query::Term { level } => term_json(level),
        Query::Both { gte, lte, level } => "{\"bool\":{\"must\":["@ + range_json(gte, lte) + ","@
            + term_json(level) + "]}}"@,
    }
}

/// The JSON text of the sort clause, with the comma that sets it off.
pub open spec fn sort_json(sort_descending: bool) -> Seq<char> {
    if sort_descending {
        ",\"sort\":[{\"time_unix\":{\"order\":\"desc\"}}]"@
    } else {
        Seq::empty()
    }
}

/// The JSON text of the body of a search.
pub open spec fn body_json(body: SearchBody) -> Seq<char> {
    "{\"query\":"@ + query_json(body.query) + sort_json(body.sort_descending) + "}"@
}

/// The reason of the first hit that is no record, if there is one.
pub open spec fn first_failure(hits: Seq<Result<LogEntry, String>>) -> Option<String>
    decreases hits.len(),
{
    if hits.len() == 0 {
        None
    } else {
        match hits.first() {
            Err(reason) => Some(reason),
            Ok(_) => first_failure(hits.drop_first()),
        }
    }
}

/// The records of hits that are all records.
pub open spec fn records_of_hits(hits: Seq<Result<LogEntry, String>>) -> Seq<LogEntry> {
    Seq::new(hits.len(), |i: int| hits[i]->Ok_0)
}

/// Appends the JSON text of a range clause.
fn push_range(out: &mut String, gte: i64, lte: i64)
    ensures
        final(out)@ == old(out)@ + range_json(gte, lte),
{
    out.append("{\"range\":{\"time_unix\":{\"gte\":");
    out.append(decimal_text(gte).as_str());
    out.append(",\"lte\":");
    out.append(decimal_text(lte).as_str());
    out.append("}}}");
    assert(out@ =~= old(out)@ + range_json(gte, lte));
}

/// Appends the JSON text of a term clause.
fn push_term(out: &mut String, level: LogLevel)
    ensures
        final(out)@ == old(out)@ + term_json(level),
{
    out.append("{\"term\":{\"level\":\"");
    out.append(level.to_string().as_str());
    out.append("\"}}");
    assert(out@ =~= old(out)@ + term_json(level));
}

impl SearchBody {
    /// The body as JSON text.
    pub fn to_json(&self) -> (text: String)
        ensures
            text@ == body_json(*self),
    {
        let mut text = String::from_str("{\"query\":");
        let ghost head = text@;
        match self.query {
            Query::MatchAll => {
                text.append("{\"match_all\":{}}");
            },
            Query::Range { gte, lte } => {
                push_range(&mut text, gte, lte);
            },
            Query::Term { level } => {
                push_term(&mut text, level);
            },
            Query::Both { gte, lte, level } => {
                text.append("{\"bool\":{\"must\":[");
                push_range(&mut text, gte, lte);
                text.append(",");
                push_term(&mut text, level);
                text.append("]}}");
                assert(text@ =~= head + query_json(self.query));
            },
        }
        if self.sort_descending {
            text.append(",\"sort\":[{\"time_unix\":{\"order\":\"desc\"}}]");
        }
        text.append("}");
        assert(text@ =~= body_json(*self));
        text
    }
}

impl ESGetStrategy {
    /// The source for the index `index`, with the filters, the order and the
    /// limit of the options.
    pub fn create(index: String, option: LogProcessorOptions) -> (made: Result<Self, String>)
        ensures
            made == Ok::<Self, String>(
                ESGetStrategy {
                    index,
                    reverse: option.reverse,
                    limit: option.limit,
                    date_filter_string: option.date_filter_string,
                    date_filter: option.date_filter,
                    level_filter: option.level_filter,
                },
            ),
    {
        Ok(
            ESGetStrategy {
                index,
                reverse: option.reverse,
                limit: option.limit,
                date_filter: option.date_filter,
                date_filter_string: option.date_filter_string,
                level_filter: option.level_filter,
            },
        )
    }

    /// The body of the search: every record where there is no filter, a
    /// range for a date filter, a term for a level filter, both where there
    /// are both; and the latest first only where the run is reversed.
    pub fn search_body_builder(&self) -> (body: SearchBody)
        ensures
            body.query == query_for(self.date_filter, self.level_filter),
            body.sort_descending == self.reverse,
    {
        let query = match (self.date_filter, self.level_filter) {
            (None, None) => Query::MatchAll,
            (Some(window), None) => Query::Range { gte: window.0, lte: window.1 },
            (None, Some(level)) => Query::Term { level },
            (Some(window), Some(level)) => Query::Both { gte: window.0, lte: window.1, level },
        };
        SearchBody { query, sort_descending: self.reverse }
    }

    /// The one search of a run: in the index of the source, for at most as
    /// many hits as the limit, with the body of `search_body_builder`.
    pub fn search_request(&self) -> (request: SearchRequest)
        ensures
            request.index == self.index,
            request.size == self.limit,
            request.body.query == query_for(self.date_filter, self.level_filter),
            request.body.sort_descending == self.reverse,
    {
        SearchRequest { index: self.index.clone(), size: self.limit, body: self.search_body_builder() }
    }

    /// The records of the run, given the hits of the search: the hits as
    /// they came, in their order, none left out and none changed; or the
    /// reason of the first hit that is no record, and no record at all.
    pub fn get(&self, hits: Vec<Result<LogEntry, String>>) -> (logs: Result<Vec<LogEntry>, String>)
        ensures
            match first_failure(hits@) {
                Some(reason) => logs == Err::<Vec<LogEntry>, String>(reason),
                None => logs matches Ok(out) && out@ == records_of_hits(hits@),
            },
    {
        let ghost all = hits@;
        let mut out: Vec<LogEntry> = Vec::new();
        proof {
            assert(all.skip(0) =~= all);
        }
        for hit in it: hits
            invariant
                it.seq() == all,
                first_failure(all) == first_failure(all.skip(it.index() as int)),
                out@ == records_of_hits(all.take(it.index() as int)),
        {
            let ghost i = it.index() as int;
            proof {
                assert(all.skip(i).first() == all[i]);
                assert(all.skip(i).drop_first() =~= all.skip(i + 1));
            }
            match hit {
                Ok(entry) => {
                    out.push(entry);
                    assert(out@ =~= records_of_hits(all.take(i + 1)));
                },
                Err(reason) => {
                    return Err(reason);
                },
            }
        }
        proof {
            assert(all.take(all.len() as int) =~= all);
            assert(all.skip(all.len() as int) =~= Seq::<Result<LogEntry, String>>::empty());
        }
        Ok(out)
    }
}

} // verus!
