//! Uniform sampling of one line: count the lines that match a filter, draw an
//! offset uniformly below the count, then fetch the line at that offset.
//! The two round-trips are not isolated; a line gone in between surfaces as
//! `NotFound`.

use vstd::prelude::*;
use vstd::string::StringExecFns;
use rand::seq::IteratorRandom;
use crate::error::LogError;
use crate::query::{BindValue, BoundQuery, binds_count, binds_text};

verus! {

/// Which lines a sample is drawn from: a channel, or one user in it.
#[derive(Clone, Debug, PartialEq, Eq)]
pub struct LineFilter {
    pub channel_id: String,
    pub user_id: Option<String>,
}

/// Text of the count query of a filter.
pub open spec fn count_text(by_user: bool) -> Seq<char> {
    if by_user {
        "SELECT count(*) FROM message WHERE channel_id = ? AND user_id = ? "@
    } else {
        "SELECT count(*) FROM message WHERE channel_id = ? "@
    }
}

/// Text of the offset-fetch query of a filter.
pub open spec fn offset_fetch_text(by_user: bool) -> Seq<char> {
    if by_user {
        "WITH (SELECT timestamp FROM message WHERE channel_id = ? AND user_id = ? LIMIT 1 OFFSET ?) AS random_timestamp SELECT raw FROM message WHERE channel_id = ? AND user_id = ? AND timestamp = random_timestamp"@
    } else {
        "WITH (SELECT timestamp FROM message WHERE channel_id = ? LIMIT 1 OFFSET ?) AS random_timestamp SELECT raw FROM message WHERE channel_id = ? AND timestamp = random_timestamp"@
    }
}

/// The filter's bind values, channel first, from position `at` on.
pub open spec fn binds_filter(q: BoundQuery, at: int, f: LineFilter) -> bool {
    &&& binds_text(q.binds@[at], f.channel_id@)
    &&& match f.user_id {
        Some(u) => binds_text(q.binds@[at + 1], u@),
        None => true,
    }
}

/// The number of bind values a filter takes.
pub open spec fn filter_width(f: LineFilter) -> int {
    if f.user_id is Some {
        2
    } else {
        1
    }
}

fn push_filter(binds: &mut Vec<BindValue>, f: &LineFilter)
    ensures
        final(binds)@.len() == old(binds)@.len() + filter_width(*f),
        forall|i: int| 0 <= i < old(binds)@.len() ==> final(binds)@[i] == old(binds)@[i],
        binds_text(final(binds)@[old(binds)@.len() as int], f.channel_id@),
        match f.user_id {
            Some(u) => binds_text(final(binds)@[old(binds)@.len() as int + 1], u@),
            None => true,
        },
{
    binds.push(BindValue::Text(f.channel_id.clone()));
    match &f.user_id {
        Some(u) => {
            binds.push(BindValue::Text(u.clone()));
        },
        None => {},
    }
}

/// Counts the lines that match the filter.
pub fn count_query(f: &LineFilter) -> (q: BoundQuery)
    ensures
        q.text@ == count_text(f.user_id is Some),
        q.binds@.len() == filter_width(*f),
        binds_filter(q, 0, *f),
{
    let text = match &f.user_id {
        Some(_) => String::from_str("SELECT count(*) FROM message WHERE channel_id = ? AND user_id = ? "),
        None => String::from_str("SELECT count(*) FROM message WHERE channel_id = ? "),
    };
    let mut binds: Vec<BindValue> = Vec::new();
    push_filter(&mut binds, f);
    BoundQuery { text, binds }
}

/// Fetches the lines that share the timestamp of the line at `offset` in the
/// store's natural order of the filter's lines.
pub fn offset_fetch_query(f: &LineFilter, offset: u64) -> (q: BoundQuery)
    ensures
        q.text@ == offset_fetch_text(f.user_id is Some),
        q.binds@.len() == 2 * filter_width(*f) + 1,
        binds_filter(q, 0, *f),
        binds_count(q.binds@[filter_width(*f)], offset),
        binds_filter(q, filter_width(*f) + 1, *f),
{
    let text = match &f.user_id {
        Some(_) => String::from_str(
            "WITH (SELECT timestamp FROM message WHERE channel_id = ? AND user_id = ? LIMIT 1 OFFSET ?) AS random_timestamp SELECT raw FROM message WHERE channel_id = ? AND user_id = ? AND timestamp = random_timestamp",
        ),
        None => String::from_str(
            "WITH (SELECT timestamp FROM message WHERE channel_id = ? LIMIT 1 OFFSET ?) AS random_timestamp SELECT raw FROM message WHERE channel_id = ? AND timestamp = random_timestamp",
        ),
    };
    let mut binds: Vec<BindValue> = Vec::new();
    push_filter(&mut binds, f);
    binds.push(BindValue::Count(offset));
    push_filter(&mut binds, f);
    BoundQuery { text, binds }
}

/// Relies on rand's `IteratorRandom::choose` over the range `0..n`, drawn
/// with `thread_rng`: one of the range's values, `None` if and only if the
/// range is empty.
#[verifier::external_body]
fn choose_below(n: u64) -> (r: Option<u64>)
    ensures
        r is Some <==> n > 0,
        r matches Some(v) ==> v < n,
{
    (0..n).choose(&mut rand::thread_rng())
}

/// What drawing an offset for `total` matching lines may give: `NotFound`
/// exactly when nothing matches, else an offset below `total`.
pub open spec fn drawn_offset(total: u64, r: Result<u64, LogError>) -> bool {
    if total == 0 {
        r == Err::<u64, LogError>(LogError::NotFound)
    } else {
        r matches Ok(o) && o < total
    }
}

/// Draws the offset of the line to sample, uniformly below `total`, the
/// number of lines the count query found.
pub fn draw_offset(total: u64) -> (r: Result<u64, LogError>)
    ensures
        drawn_offset(total, r),
{
    if total == 0 {
        return Err(LogError::NotFound);
    }
    match choose_below(total) {
        Some(o) => Ok(o),
        None => Err(LogError::NotFound),
    }
}

/// What the offset fetch's first row makes the sample: that row, or
/// `NotFound` where none came back.
pub open spec fn sampled(fetched: Option<String>, r: Result<String, LogError>) -> bool {
    match fetched {
        Some(line) => r matches Ok(l) && l@ == line@,
        None => r == Err::<String, LogError>(LogError::NotFound),
    }
}

/// Ends a sample with the first row the offset fetch returned, if any.
pub fn finish_sample(fetched: Option<String>) -> (r: Result<String, LogError>)
    ensures
        sampled(fetched, r),
{
    match fetched {
        Some(line) => Ok(line),
        None => Err(LogError::NotFound),
    }
}

/// Sampling never makes up a line: an empty filter set gives `NotFound`, and
/// where the store answers from the set `lines` (its count is their number
/// and a fetched row is one of them), a sample that succeeds is one of
/// `lines`.
pub proof fn lemma_sample_from_set(
    lines: Seq<Seq<char>>,
    total: u64,
    drawn: Result<u64, LogError>,
    fetched: Option<String>,
    result: Result<String, LogError>,
)
    requires
        total == lines.len(),
        drawn_offset(total, drawn),
        fetched matches Some(row) ==> lines.contains(row@),
        sampled(fetched, result),
    ensures
        lines.len() == 0 ==> drawn == Err::<u64, LogError>(LogError::NotFound),
        lines.len() > 0 ==> (drawn matches Ok(o) && o < lines.len()),
        result matches Ok(l) ==> lines.contains(l@),
{
}

} // verus!
