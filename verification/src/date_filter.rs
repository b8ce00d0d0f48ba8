//! The date filter: a short text that names a window of time, and the test
//! that a record's time lies inside a window.

use vstd::prelude::*;
use vstd::string::*;
use crate::text::{
    chars_of, find_char, first_index, is_first, lemma_first_index, parse_i64, parsed_i64, str_eq,
};

verus! {

pub const SECONDS_PER_HOUR: i64 = 3_600;

pub const SECONDS_PER_DAY: i64 = 86_400;

/// What every rejected filter is answered with.
pub const DATE_FILTER_ERROR: &'static str = "Failed to parse date filter";

/// The first second of the day that the second `now` lies in.
pub open spec fn day_start(now: int) -> int {
    now - now % (SECONDS_PER_DAY as int)
}

/// The absolute value of `n`.
pub open spec fn magnitude(n: int) -> int {
    if n < 0 {
        -n
    } else {
        n
    }
}

/// The window of a filter of the form `<N>_<M>`: the two counts of hours, in
/// seconds. The text before the first underscore and the text after it must
/// each be an integer.
pub open spec fn hour_window(filter: Seq<char>) -> Option<(int, int)> {
    let k = first_index(filter, '_');
    match (parsed_i64(filter.take(k)), parsed_i64(filter.skip(k + 1))) {
        (Some(from), Some(to)) => Some((from * SECONDS_PER_HOUR, to * SECONDS_PER_HOUR)),
        _ => None,
    }
}

/// The window of a filter of the form `<N>-`: from the first second of the
/// day that lies `|N|` days before today to the last second of today.
pub open spec fn day_window(filter: Seq<char>, now: int) -> Option<(int, int)> {
    match parsed_i64(filter.drop_last()) {
        Some(days) => Some(
            (
                day_start(now) - magnitude(days as int) * SECONDS_PER_DAY,
                day_start(now) + SECONDS_PER_DAY - 1,
            ),
        ),
        None => None,
    }
}

/// The bounds that a filter names when the local clock reads `now` seconds,
/// or nothing where the filter has none of the four forms.
pub open spec fn window_bounds(filter: Seq<char>, now: int) -> Option<(int, int)> {
    if filter == "yesterday"@ {
        Some((now - SECONDS_PER_DAY, now))
    } else if filter == "today"@ || filter == "0"@ {
        Some((now, now))
    } else if filter.contains('_') {
        hour_window(filter)
    } else if filter.len() > 0 && filter.last() == '-' {
        day_window(filter, now)
    } else {
        None
    }
}

/// The window that a filter names when the local clock reads `now` seconds:
/// its bounds, where it names any and both fit in 64 bits.
pub open spec fn date_window(filter: Seq<char>, now: i64) -> Option<(i64, i64)> {
    match window_bounds(filter, now as int) {
        Some((start, end)) => if i64::MIN <= start <= i64::MAX && i64::MIN <= end <= i64::MAX {
            Some((start as i64, end as i64))
        } else {
            None
        },
        None => None,
    }
}

/// Whether `outcome` is the answer to `filter` when the local clock reads
/// `now` seconds: the window where the filter names one, the error else.
pub open spec fn answers_filter(
    filter: Seq<char>,
    now: i64,
    outcome: Result<(i64, i64), String>,
) -> bool {
    match outcome {
        Ok(window) => date_window(filter, now) == Some(window),
        Err(e) => date_window(filter, now) is None && e@ == DATE_FILTER_ERROR@,
    }
}

/// Whether a record with the time `time_unix` passes the window: it has a
/// time, and the time lies strictly between the two bounds.
pub open spec fn in_window(time_unix: Option<i64>, window: (i64, i64)) -> bool {
    match time_unix {
        Some(t) => window.0 < t && t < window.1,
        None => false,
    }
}

/// Tests a time against a window.
pub fn passes_window(time_unix: Option<i64>, window: (i64, i64)) -> (passes: bool)
    ensures
        passes == in_window(time_unix, window),
{
    match time_unix {
        Some(t) => t > window.0 && t < window.1,
        None => false,
    }
}

/// A time equal to either bound of a window does not pass it, and no record
/// without a time passes any window.
pub proof fn lemma_window_excludes_bounds(window: (i64, i64))
    ensures
        !in_window(Some(window.0), window),
        !in_window(Some(window.1), window),
        !in_window(None, window),
{
}

/// Wraps `chrono::Local::now`, read as seconds with `naive_local`, `and_utc`
/// and `timestamp`: the local wall clock, as the seconds since the epoch that
/// the same reading would be in UTC. Nothing is known of the value. `chrono`
/// panics where the system clock reads a time before 1970.
#[verifier::external_body]
fn local_clock_seconds() -> i64 {
    chrono::Local::now().naive_local().and_utc().timestamp()
}

/// The error that a rejected filter is answered with.
fn rejected() -> (outcome: Result<(i64, i64), String>)
    ensures
        outcome matches Err(e) && e@ == DATE_FILTER_ERROR@,
{
    Err(String::from_str(DATE_FILTER_ERROR))
}

/// The window of a filter of the form `<N>_<M>`, whose first underscore is
/// at `k`.
fn parse_hours(chars: &Vec<char>, k: usize) -> (window: Option<(i64, i64)>)
    requires
        is_first(chars@, '_', k as int),
    ensures
        window == match hour_window(chars@) {
            Some((start, end)) => if i64::MIN <= start <= i64::MAX && i64::MIN <= end
                <= i64::MAX {
                Some((start as i64, end as i64))
            } else {
                None
            },
            None => None,
        },
{
    proof {
        lemma_first_index(chars@, '_', k as int);
        assert(chars@.subrange(0, k as int) =~= chars@.take(k as int));
        assert(chars@.subrange(k + 1, chars@.len() as int) =~= chars@.skip(k + 1));
    }
    assert(k < chars.len());
    let from = parse_i64(chars, 0, k);
    let to = parse_i64(chars, k + 1, chars.len());
    match (from, to) {
        (Some(from), Some(to)) => {
            match (from.checked_mul(SECONDS_PER_HOUR), to.checked_mul(SECONDS_PER_HOUR)) {
                (Some(start), Some(end)) => Some((start, end)),
                _ => None,
            }
        },
        _ => None,
    }
}

/// The window of a filter of the form `<N>-` when the clock reads `now`.
fn parse_days(chars: &Vec<char>, now: i64) -> (window: Option<(i64, i64)>)
    requires
        chars@.len() > 0,
    ensures
        window == match day_window(chars@, now as int) {
            Some((start, end)) => if i64::MIN <= start <= i64::MAX && i64::MIN <= end
                <= i64::MAX {
                Some((start as i64, end as i64))
            } else {
                None
            },
            None => None,
        },
{
    proof {
        assert(chars@.subrange(0, chars@.len() - 1) =~= chars@.drop_last());
    }
    let days: i64 = match parse_i64(chars, 0, chars.len() - 1) {
        Some(days) => days,
        None => {
            return None;
        },
    };
    let into_day: i64 = match now.checked_rem_euclid(SECONDS_PER_DAY) {
        Some(r) => r,
        None => {
            return None;
        },
    };
    let midnight: i128 = now as i128 - into_day as i128;
    let span: i128 = if days < 0 {
        -(days as i128)
    } else {
        days as i128
    };
    assert(span * 86_400 <= 0x8000_0000_0000_0000 * 86_400) by (nonlinear_arith)
        requires
            0 <= span <= 0x8000_0000_0000_0000,
    ;
    let start: i128 = midnight - span * (SECONDS_PER_DAY as i128);
    let end: i128 = midnight + (SECONDS_PER_DAY as i128) - 1;
    if start < i64::MIN as i128 || start > i64::MAX as i128 || end < i64::MIN as i128 || end
        > i64::MAX as i128 {
        None
    } else {
        Some((start as i64, end as i64))
    }
}

/// Reads a date filter when the local clock reads `now` seconds.
///
/// `"yesterday"` names the day that ends now; `"today"` and `"0"` name the
/// present second twice; `"<N>_<M>"` names two counts of hours since the
/// epoch; `"<N>-"` names the days from the midnight `|N|` days back to the
/// end of today. Every other text, and a window that does not fit in 64
/// bits, is an error.
pub fn parse_date_filter_at(filter: &str, now: i64) -> (outcome: Result<(i64, i64), String>)
    ensures
        answers_filter(filter@, now, outcome),
{
    if str_eq(filter, "yesterday") {
        return match now.checked_sub(SECONDS_PER_DAY) {
            Some(start) => Ok((start, now)),
            None => rejected(),
        };
    }
    if str_eq(filter, "today") || str_eq(filter, "0") {
        return Ok((now, now));
    }
    let chars = chars_of(filter);
    let window = match find_char(&chars, 0, '_') {
        Some(k) => {
            assert(chars@.contains('_'));
            parse_hours(&chars, k)
        },
        None => {
            if chars.len() > 0 && chars[chars.len() - 1] == '-' {
                parse_days(&chars, now)
            } else {
                None
            }
        },
    };
    match window {
        Some(window) => Ok(window),
        None => rejected(),
    }
}

/// Reads a date filter against the local clock of this machine: the answer
/// is the one that `parse_date_filter_at` gives for some reading of it.
pub fn parse_date_filter(filter: &str) -> (outcome: Result<(i64, i64), String>)
    ensures
        exists|now: i64| answers_filter(filter@, now, outcome),
{
    let now = local_clock_seconds();
    let outcome = parse_date_filter_at(filter, now);
    assert(answers_filter(filter@, now, outcome));
    outcome
}

} // verus!
