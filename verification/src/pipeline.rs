//! The local pipeline that the file source and the address source share:
//! derive the times, filter by level, filter by date, reverse, limit, and
//! only then normalise what is left.

use vstd::prelude::*;
use crate::date_filter::{in_window, passes_window};
use crate::log_entry::{derived, normalized, LogEntry, LogEntryView, LogLevel};

verus! {

/// The values of a sequence of records.
pub open spec fn views(logs: Seq<LogEntry>) -> Seq<LogEntryView> {
    Seq::new(logs.len(), |i: int| logs[i]@)
}

/// Whether the level filter keeps a record: it has the level asked for, or
/// there is no filter.
pub open spec fn keeps_level(v: LogEntryView, filter: Option<LogLevel>) -> bool {
    match filter {
        Some(level) => v.level == level,
        None => true,
    }
}

/// Whether the date filter keeps a record: its time lies strictly inside
/// the window, or there is no filter.
pub open spec fn keeps_date(v: LogEntryView, filter: Option<(i64, i64)>) -> bool {
    match filter {
        Some(window) => in_window(v.time_unix, window),
        None => true,
    }
}

/// The test of the level filter.
pub open spec fn level_test(filter: Option<LogLevel>) -> spec_fn(LogEntryView) -> bool {
    |v: LogEntryView| keeps_level(v, filter)
}

/// The test of the date filter.
pub open spec fn date_test(filter: Option<(i64, i64)>) -> spec_fn(LogEntryView) -> bool {
    |v: LogEntryView| keeps_date(v, filter)
}

/// Every record after the time derivation pass.
pub open spec fn all_derived(vs: Seq<LogEntryView>) -> Seq<LogEntryView> {
    Seq::new(vs.len(), |i: int| derived(vs[i]))
}

/// Every record after the full normalisation pass.
pub open spec fn all_normalized(vs: Seq<LogEntryView>) -> Seq<LogEntryView> {
    Seq::new(vs.len(), |i: int| normalized(vs[i]))
}

/// The sequence in the order asked for.
pub open spec fn ordered<A>(s: Seq<A>, reverse: bool) -> Seq<A> {
    if reverse {
        s.reverse()
    } else {
        s
    }
}

/// How many of `len` records the limit leaves: all of them where the limit
/// is negative or not below `len`.
pub open spec fn kept_count(len: nat, limit: i64) -> nat {
    if limit < 0 || limit >= len {
        len
    } else {
        limit as nat
    }
}

/// The first records of a sequence, as many as the limit leaves.
pub open spec fn limited<A>(s: Seq<A>, limit: i64) -> Seq<A> {
    s.take(kept_count(s.len(), limit) as int)
}

/// What the local pipeline makes of a sequence of records.
pub open spec fn pipeline(
    vs: Seq<LogEntryView>,
    level_filter: Option<LogLevel>,
    date_filter: Option<(i64, i64)>,
    reverse: bool,
    limit: i64,
) -> Seq<LogEntryView> {
    all_normalized(
        limited(
            ordered(
                all_derived(vs).filter(level_test(level_filter)).filter(date_test(date_filter)),
                reverse,
            ),
            limit,
        ),
    )
}

/// Derives the time of every record.
pub fn process_logs_date(logs: Vec<LogEntry>) -> (dated: Vec<LogEntry>)
    ensures
        views(dated@) == all_derived(views(logs@)),
{
    let ghost all = logs@;
    let mut dated: Vec<LogEntry> = Vec::new();
    for entry in it: logs
        invariant
            it.seq() == all,
            dated@.len() == it.index(),
            forall|j: int| 0 <= j < dated@.len() ==> (#[trigger] dated@[j])@ == derived(all[j]@),
    {
        let mut entry = entry;
        entry.process_date();
        dated.push(entry);
    }
    assert(views(dated@) =~= all_derived(views(all)));
    dated
}

/// Normalises every record.
pub fn process_logs(logs: Vec<LogEntry>) -> (done: Vec<LogEntry>)
    ensures
        views(done@) == all_normalized(views(logs@)),
{
    let ghost all = logs@;
    let mut done: Vec<LogEntry> = Vec::new();
    for entry in it: logs
        invariant
            it.seq() == all,
            done@.len() == it.index(),
            forall|j: int| 0 <= j < done@.len() ==> (#[trigger] done@[j])@ == normalized(all[j]@),
    {
        let mut entry = entry;
        entry.process();
        done.push(entry);
    }
    assert(views(done@) =~= all_normalized(views(all)));
    done
}

/// The values of a sequence with one more record are the values of the
/// sequence with the value of that record.
proof fn lemma_views_push(logs: Seq<LogEntry>, entry: LogEntry)
    ensures
        views(logs.push(entry)) == views(logs).push(entry@),
{
    assert(views(logs.push(entry)) =~= views(logs).push(entry@));
}

/// The values of the first `n + 1` records are those of the first `n` with
/// the value of the next.
proof fn lemma_views_take_next(logs: Seq<LogEntry>, n: int)
    requires
        0 <= n < logs.len(),
    ensures
        views(logs.take(n + 1)) == views(logs.take(n)).push(logs[n]@),
{
    assert(views(logs.take(n + 1)) =~= views(logs.take(n)).push(logs[n]@));
}

/// Keeps the records of the level asked for, in their order; all of them
/// where no level is asked for.
pub fn filter_logs_level(logs: Vec<LogEntry>, level_filter: Option<LogLevel>) -> (kept: Vec<
    LogEntry,
>)
    ensures
        views(kept@) == views(logs@).filter(level_test(level_filter)),
{
    let ghost all = logs@;
    let mut kept: Vec<LogEntry> = Vec::new();
    proof {
        assert(views(all.take(0)) =~= Seq::<LogEntryView>::empty());
        assert(views(kept@) =~= Seq::<LogEntryView>::empty());
        reveal_with_fuel(Seq::filter, 1);
    }
    for entry in it: logs
        invariant
            it.seq() == all,
            views(kept@) == views(all.take(it.index() as int)).filter(level_test(level_filter)),
    {
        proof {
            lemma_views_take_next(all, it.index() as int);
            lemma_views_push(kept@, entry);
            views(all.take(it.index() as int)).lemma_filter_push(entry@, level_test(level_filter));
        }
        let keep = match level_filter {
            Some(level) => entry.level == level,
            None => true,
        };
        if keep {
            kept.push(entry);
        }
    }
    assert(all.take(all.len() as int) =~= all);
    kept
}

/// Keeps the records whose time lies strictly inside the window, in their
/// order; all of them where there is no window.
pub fn filter_logs_date(logs: Vec<LogEntry>, date_filter: Option<(i64, i64)>) -> (kept: Vec<
    LogEntry,
>)
    ensures
        views(kept@) == views(logs@).filter(date_test(date_filter)),
{
    let ghost all = logs@;
    let mut kept: Vec<LogEntry> = Vec::new();
    proof {
        assert(views(all.take(0)) =~= Seq::<LogEntryView>::empty());
        assert(views(kept@) =~= Seq::<LogEntryView>::empty());
        reveal_with_fuel(Seq::filter, 1);
    }
    for entry in it: logs
        invariant
            it.seq() == all,
            views(kept@) == views(all.take(it.index() as int)).filter(date_test(date_filter)),
    {
        proof {
            lemma_views_take_next(all, it.index() as int);
            lemma_views_push(kept@, entry);
            views(all.take(it.index() as int)).lemma_filter_push(entry@, date_test(date_filter));
        }
        let keep = match date_filter {
            Some(window) => passes_window(entry.time_unix, window),
            None => true,
        };
        if keep {
            kept.push(entry);
        }
    }
    assert(all.take(all.len() as int) =~= all);
    kept
}

/// Puts the records in the opposite order where that is asked for.
pub fn reverse_logs(logs: Vec<LogEntry>, reverse: bool) -> (turned: Vec<LogEntry>)
    ensures
        turned@ == ordered(logs@, reverse),
{
    if !reverse {
        return logs;
    }
    let mut logs = logs;
    let ghost all = logs@;
    let mut turned: Vec<LogEntry> = Vec::new();
    while logs.len() > 0
        invariant
            logs@ == all.take(logs@.len() as int),
            logs@.len() <= all.len(),
            turned@.len() == all.len() - logs@.len(),
            forall|j: int| 0 <= j < turned@.len() ==> turned@[j] == all[all.len() - 1 - j],
        decreases logs.len(),
    {
        let ghost before = logs@;
        let entry = logs.pop().unwrap();
        assert(logs@ =~= all.take(logs@.len() as int));
        turned.push(entry);
    }
    assert(turned@ =~= all.reverse());
    turned
}

/// Keeps the first records, as many as the limit leaves.
pub fn limit_logs(logs: Vec<LogEntry>, limit: i64) -> (first: Vec<LogEntry>)
    ensures
        first@ == limited(logs@, limit),
{
    let mut logs = logs;
    let ghost all = logs@;
    if limit >= 0 && (limit as u64) < (logs.len() as u64) {
        logs.truncate(limit as usize);
    }
    assert(logs@ =~= limited(all, limit));
    logs
}

/// The values of an ordered sequence are the ordered values.
proof fn lemma_views_ordered(logs: Seq<LogEntry>, reverse: bool)
    ensures
        views(ordered(logs, reverse)) == ordered(views(logs), reverse),
{
    assert(views(ordered(logs, reverse)) =~= ordered(views(logs), reverse));
}

/// The values of a limited sequence are the limited values.
proof fn lemma_views_limited(logs: Seq<LogEntry>, limit: i64)
    ensures
        views(limited(logs, limit)) == limited(views(logs), limit),
{
    assert(views(limited(logs, limit)) =~= limited(views(logs), limit));
}

/// The local pipeline, in its fixed order: the time of every record is
/// derived first, so that the date filter sees it; then come the level
/// filter, the date filter, the reversal and the limit; the request fields
/// are extracted last, and only of the records that are left.
pub fn local_pipeline(
    logs: Vec<LogEntry>,
    level_filter: Option<LogLevel>,
    date_filter: Option<(i64, i64)>,
    reverse: bool,
    limit: i64,
) -> (out: Vec<LogEntry>)
    ensures
        views(out@) == pipeline(views(logs@), level_filter, date_filter, reverse, limit),
{
    let dated = process_logs_date(logs);
    let by_level = filter_logs_level(dated, level_filter);
    let by_date = filter_logs_date(by_level, date_filter);
    proof {
        lemma_views_ordered(by_date@, reverse);
    }
    let turned = reverse_logs(by_date, reverse);
    proof {
        lemma_views_limited(turned@, limit);
    }
    let first = limit_logs(turned, limit);
    process_logs(first)
}

/// The level filter keeps only records of the level asked for, keeps every
/// such record, and keeps them in their order: what it makes of two
/// sequences one after the other is what it makes of each, one after the
/// other.
pub proof fn lemma_level_filter_stable(
    before: Seq<LogEntryView>,
    after: Seq<LogEntryView>,
    level: LogLevel,
)
    ensures
        forall|i: int|
            0 <= i < before.filter(level_test(Some(level))).len() ==> (#[trigger] before.filter(
                level_test(Some(level)),
            )[i]).level == level,
        forall|i: int|
            0 <= i < before.len() && before[i].level == level ==> before.filter(
                level_test(Some(level)),
            ).contains(#[trigger] before[i]),
        (before + after).filter(level_test(Some(level))) == before.filter(level_test(Some(level)))
            + after.filter(level_test(Some(level))),
        before.filter(level_test(None)) == before,
{
    let test = level_test(Some(level));
    broadcast use vstd::seq_lib::group_filter_ensures;

    Seq::filter_distributes_over_add(before, after, test);
    lemma_filter_all(before, level_test(None));
}

/// A filter whose test holds of every record keeps the whole sequence.
proof fn lemma_filter_all(vs: Seq<LogEntryView>, test: spec_fn(LogEntryView) -> bool)
    requires
        forall|v: LogEntryView| #[trigger] test(v),
    ensures
        vs.filter(test) == vs,
    decreases vs.len(),
{
    reveal(Seq::filter);
    if vs.len() > 0 {
        lemma_filter_all(vs.drop_last(), test);
        assert(vs.drop_last().push(vs.last()) =~= vs);
    }
}

/// The date filter keeps only records that have a time strictly between
/// the two bounds: a record whose time is either bound is left out.
pub proof fn lemma_date_filter_strict(vs: Seq<LogEntryView>, window: (i64, i64))
    ensures
        forall|i: int|
            0 <= i < vs.filter(date_test(Some(window))).len() ==> {
                let kept = #[trigger] vs.filter(date_test(Some(window)))[i];
                kept.time_unix is Some && window.0 < kept.time_unix.unwrap() < window.1
            },
        forall|i: int|
            0 <= i < vs.len() && (vs[i].time_unix == Some(window.0) || vs[i].time_unix == Some(
                window.1,
            ) || vs[i].time_unix is None) ==> !date_test(Some(window))(#[trigger] vs[i]),
        vs.filter(date_test(None)) == vs,
{
    broadcast use vstd::seq_lib::group_filter_ensures;

    lemma_filter_all(vs, date_test(None));
}

/// Reversing changes the order and nothing else: the same records are
/// there, each as often as before, the last one first.
pub proof fn lemma_reverse_keeps_members<A>(s: Seq<A>)
    ensures
        ordered(s, true).len() == s.len(),
        forall|i: int| 0 <= i < s.len() ==> #[trigger] ordered(s, true)[i] == s[s.len() - 1 - i],
        ordered(s, true).to_multiset() == s.to_multiset(),
        ordered(s, false) == s,
{
    s.lemma_reverse_to_multiset();
}

/// A limit that is not negative leaves at most that many records, and the
/// records that it leaves are the first ones.
pub proof fn lemma_limit_bounds<A>(s: Seq<A>, limit: i64)
    ensures
        limit >= 0 ==> limited(s, limit).len() <= limit,
        limited(s, limit).len() <= s.len(),
        forall|i: int| 0 <= i < limited(s, limit).len() ==> #[trigger] limited(s, limit)[i] == s[i],
        limit < 0 || limit >= s.len() ==> limited(s, limit) == s,
{
    assert(s.take(s.len() as int) =~= s);
}

/// What the pipeline makes of a single record: where the limit leaves any
/// record at all, the record is kept if and only if its level is the one
/// asked for and its time, as derived from its timestamp, passes the window;
/// what is extracted from its message has no part in that. A kept record
/// comes out normalised.
pub proof fn lemma_pipeline_of_one(
    v: LogEntryView,
    level_filter: Option<LogLevel>,
    date_filter: Option<(i64, i64)>,
    reverse: bool,
    limit: i64,
)
    requires
        limit != 0,
    ensures
        pipeline(seq![v], level_filter, date_filter, reverse, limit) == if keeps_level(
            derived(v),
            level_filter,
        ) && keeps_date(derived(v), date_filter) {
            seq![normalized(derived(v))]
        } else {
            Seq::<LogEntryView>::empty()
        },
{
    let dated = all_derived(seq![v]);
    assert(dated =~= seq![derived(v)]);
    lemma_filter_one(derived(v), level_test(level_filter));
    lemma_filter_one(derived(v), date_test(date_filter));
    let by_level = dated.filter(level_test(level_filter));
    let by_date = by_level.filter(date_test(date_filter));
    if by_level.len() == 0 {
        reveal(Seq::filter);
    }
    assert(ordered(by_date, reverse) =~= by_date);
    assert(limited(by_date, limit) =~= by_date);
    assert(all_normalized(by_date) =~= if by_date.len() == 1 {
        seq![normalized(derived(v))]
    } else {
        Seq::<LogEntryView>::empty()
    });
}

/// What a filter makes of a single record.
proof fn lemma_filter_one(v: LogEntryView, test: spec_fn(LogEntryView) -> bool)
    ensures
        seq![v].filter(test) == if test(v) {
            seq![v]
        } else {
            Seq::<LogEntryView>::empty()
        },
{
    reveal_with_fuel(Seq::filter, 2);
    assert(seq![v].drop_last() =~= Seq::<LogEntryView>::empty());
    assert(Seq::<LogEntryView>::empty().push(v) =~= seq![v]);
}

} // verus!
