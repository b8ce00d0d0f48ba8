//! The renderer that shows a summary: how many records there are, from which
//! timestamp to which, and how often each HTTP method occurs.

use vstd::prelude::*;
use vstd::string::*;
use crate::log_entry::{HTTPMethod, LogEntry, LogEntryView};
use crate::pipeline::views;

verus! {

/// Shows a summary of the records.
#[derive(Clone, Copy, Debug, PartialEq, Eq, Structural)]
pub struct SummaryOutputStrategy;

/// How often one method occurs.
#[derive(Clone, Copy, Debug, PartialEq, Eq, Structural)]
pub struct MethodCount {
    pub method: HTTPMethod,
    pub count: usize,
}

/// The summary of a sequence of records.
#[derive(Debug, PartialEq)]
pub struct Summary {
    /// How many records there are.
    pub count: usize,
    /// The timestamp of the first record and that of the last.
    pub date_range: String,
    /// How often each method occurs, for the methods that occur at all.
    pub http_method: Vec<MethodCount>,
}

/// The test that a record has the method `method`.
pub open spec fn method_test(method: HTTPMethod) -> spec_fn(LogEntryView) -> bool {
    |v: LogEntryView| v.http_method == method
}

/// How many of the records have the method `method`.
pub open spec fn occurrences(vs: Seq<LogEntryView>, method: HTTPMethod) -> nat {
    vs.filter(method_test(method)).len()
}

/// The entry of a method in the summary: none where it does not occur.
pub open spec fn entry_for(vs: Seq<LogEntryView>, method: HTTPMethod) -> Seq<MethodCount> {
    if occurrences(vs, method) > 0 {
        seq![MethodCount { method, count: occurrences(vs, method) as usize }]
    } else {
        Seq::empty()
    }
}

/// The entries of the methods that occur, in the order in which the methods
/// are declared.
pub open spec fn method_counts(vs: Seq<LogEntryView>) -> Seq<MethodCount> {
    entry_for(vs, HTTPMethod::GET) + entry_for(vs, HTTPMethod::PUT) + entry_for(
        vs,
        HTTPMethod::POST,
    ) + entry_for(vs, HTTPMethod::DELETE) + entry_for(vs, HTTPMethod::PATCH) + entry_for(
        vs,
        HTTPMethod::HEAD,
    ) + entry_for(vs, HTTPMethod::OPTIONS) + entry_for(vs, HTTPMethod::CONNECT) + entry_for(
        vs,
        HTTPMethod::TRACE,
    ) + entry_for(vs, HTTPMethod::NONE)
}

/// The timestamp at one end of the sequence: empty where there is no record.
pub open spec fn end_timestamp(vs: Seq<LogEntryView>, last: bool) -> Seq<char> {
    if vs.len() == 0 {
        Seq::empty()
    } else if last {
        vs.last().timestamp
    } else {
        vs.first().timestamp
    }
}

/// The range of a sequence: the timestamp of its first record, a dash
/// between two spaces, and the timestamp of its last record, in the order in
/// which the sequence stands.
pub open spec fn date_range_text(vs: Seq<LogEntryView>) -> Seq<char> {
    end_timestamp(vs, false) + " - "@ + end_timestamp(vs, true)
}

/// Counts the records that have the method `method`.
fn count_method(logs: &Vec<LogEntry>, method: HTTPMethod) -> (count: usize)
    ensures
        count == occurrences(views(logs@), method),
{
    let ghost vs = views(logs@);
    let mut count: usize = 0;
    let mut i: usize = 0;
    proof {
        reveal_with_fuel(Seq::filter, 1);
        assert(vs.take(0) =~= Seq::<LogEntryView>::empty());
    }
    while i < logs.len()
        invariant
            i <= logs.len(),
            vs == views(logs@),
            count == occurrences(vs.take(i as int), method),
            count <= i,
        decreases logs.len() - i,
    {
        proof {
            assert(vs.take(i + 1) =~= vs.take(i as int).push(logs@[i as int]@));
            vs.take(i as int).lemma_filter_push(logs@[i as int]@, method_test(method));
        }
        if logs[i].http_method == method {
            count += 1;
        }
        i += 1;
    }
    proof {
        assert(vs.take(logs@.len() as int) =~= vs);
    }
    count
}

/// Appends the entry of `method`, where it occurs.
fn push_entry(entries: &mut Vec<MethodCount>, logs: &Vec<LogEntry>, method: HTTPMethod)
    ensures
        final(entries)@ == old(entries)@ + entry_for(views(logs@), method),
{
    let count = count_method(logs, method);
    if count > 0 {
        entries.push(MethodCount { method, count });
        assert(entries@ =~= old(entries)@ + entry_for(views(logs@), method));
    } else {
        assert(entries@ =~= old(entries)@ + entry_for(views(logs@), method));
    }
}

impl SummaryOutputStrategy {
    /// The summary of the records, as they stand.
    pub fn output(&self, logs: &Vec<LogEntry>) -> (summary: Summary)
        ensures
            summary.count == logs@.len(),
            summary.date_range@ == date_range_text(views(logs@)),
            summary.http_method@ == method_counts(views(logs@)),
    {
        let mut date_range = String::new();
        if logs.len() > 0 {
            date_range.append(logs[0].timestamp.as_str());
        }
        date_range.append(" - ");
        if logs.len() > 0 {
            date_range.append(logs[logs.len() - 1].timestamp.as_str());
        }
        assert(date_range@ =~= date_range_text(views(logs@)));
        let mut http_method: Vec<MethodCount> = Vec::new();
        push_entry(&mut http_method, logs, HTTPMethod::GET);
        push_entry(&mut http_method, logs, HTTPMethod::PUT);
        push_entry(&mut http_method, logs, HTTPMethod::POST);
        push_entry(&mut http_method, logs, HTTPMethod::DELETE);
        push_entry(&mut http_method, logs, HTTPMethod::PATCH);
        push_entry(&mut http_method, logs, HTTPMethod::HEAD);
        push_entry(&mut http_method, logs, HTTPMethod::OPTIONS);
        push_entry(&mut http_method, logs, HTTPMethod::CONNECT);
        push_entry(&mut http_method, logs, HTTPMethod::TRACE);
        push_entry(&mut http_method, logs, HTTPMethod::NONE);
        assert(http_method@ =~= method_counts(views(logs@)));
        Summary { count: logs.len(), date_range, http_method }
    }
}

/// The range follows the order in which the sequence stands: once the
/// sequence is reversed, the range names what was the last record first.
pub proof fn lemma_date_range_follows_order(vs: Seq<LogEntryView>)
    requires
        vs.len() > 0,
    ensures
        date_range_text(vs) == vs.first().timestamp + " - "@ + vs.last().timestamp,
        date_range_text(vs.reverse()) == vs.last().timestamp + " - "@ + vs.first().timestamp,
{
}

/// Every record is counted under exactly one method: the counts of the ten
/// methods add up to the number of records.
pub proof fn lemma_counts_add_up(vs: Seq<LogEntryView>)
    ensures
        occurrences(vs, HTTPMethod::GET) + occurrences(vs, HTTPMethod::PUT) + occurrences(
            vs,
            HTTPMethod::POST,
        ) + occurrences(vs, HTTPMethod::DELETE) + occurrences(vs, HTTPMethod::PATCH)
            + occurrences(vs, HTTPMethod::HEAD) + occurrences(vs, HTTPMethod::OPTIONS)
            + occurrences(vs, HTTPMethod::CONNECT) + occurrences(vs, HTTPMethod::TRACE)
            + occurrences(vs, HTTPMethod::NONE) == vs.len(),
    decreases vs.len(),
{
    reveal(Seq::filter);
    if vs.len() > 0 {
        lemma_counts_add_up(vs.drop_last());
    }
}

} // verus!
