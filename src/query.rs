//! Query construction. Every caller-supplied value is a bind value; the only
//! text interpolated into a query is the ordering keyword and the LIMIT and
//! OFFSET integers, which are `u64` and so can hold nothing but digits.

use vstd::prelude::*;
use vstd::string::StringExecFns;
use crate::bucket::{ChannelLogDate, UserLogDate, channel_bucket_text, user_bucket_text};
use crate::text::{decimal, decimal_string};

verus! {

/// A value bound to one positional `?` of a query.
#[derive(Clone, Debug, PartialEq, Eq)]
pub enum BindValue {
    Text(String),
    Count(u64),
}

/// Query text together with the values of its placeholders, in order.
#[derive(Clone, Debug, PartialEq, Eq)]
pub struct BoundQuery {
    pub text: String,
    pub binds: Vec<BindValue>,
}

/// `b` binds the text `s`.
pub open spec fn binds_text(b: BindValue, s: Seq<char>) -> bool {
    match b {
        BindValue::Text(t) => t@ == s,
        BindValue::Count(_) => false,
    }
}

/// `b` binds the integer `n`.
pub open spec fn binds_count(b: BindValue, n: u64) -> bool {
    match b {
        BindValue::Text(_) => false,
        BindValue::Count(m) => m == n,
    }
}

/// The pagination suffix: ` LIMIT n` if a limit is given, then ` OFFSET n`
/// if an offset is given.
pub open spec fn limit_offset_suffix(limit: Option<u64>, offset: Option<u64>) -> Seq<char> {
    let l = match limit {
        Some(n) => " LIMIT "@ + decimal(n as nat),
        None => Seq::<char>::empty(),
    };
    let o = match offset {
        Some(n) => " OFFSET "@ + decimal(n as nat),
        None => Seq::<char>::empty(),
    };
    l + o
}

/// The ordering keyword: newest first when `reverse`.
pub open spec fn direction_text(reverse: bool) -> Seq<char> {
    if reverse {
        "DESC"@
    } else {
        "ASC"@
    }
}

/// Appends the pagination suffix to `query`.
pub fn apply_limit_offset(query: &mut String, limit: Option<u64>, offset: Option<u64>)
    ensures
        final(query)@ == old(query)@ + limit_offset_suffix(limit, offset),
{
    if let Some(limit) = limit {
        query.append(" LIMIT ");
        let n = decimal_string(limit);
        query.append(n.as_str());
    }
    if let Some(offset) = offset {
        query.append(" OFFSET ");
        let n = decimal_string(offset);
        query.append(n.as_str());
    }
}

fn direction_str(reverse: bool) -> (r: &'static str)
    ensures
        r@ == direction_text(reverse),
{
    if reverse {
        "DESC"
    } else {
        "ASC"
    }
}

/// Text of a channel scan, before ordering and pagination.
pub open spec fn channel_scan_head() -> Seq<char> {
    "SELECT raw FROM message WHERE channel_id = ? AND toStartOfDay(timestamp) = ? ORDER BY timestamp "@
}

/// Text of a user scan, before ordering and pagination.
pub open spec fn user_scan_head() -> Seq<char> {
    "SELECT raw FROM message WHERE channel_id = ? AND user_id = ? AND toStartOfMonth(timestamp) = ? ORDER BY timestamp "@
}

/// The lines of one channel on one day, ordered by time, paginated.
pub fn channel_scan_query(
    channel_id: &str,
    log_date: ChannelLogDate,
    reverse: bool,
    limit: Option<u64>,
    offset: Option<u64>,
) -> (q: BoundQuery)
    ensures
        q.text@ == channel_scan_head() + direction_text(reverse) + limit_offset_suffix(limit, offset),
        q.binds@.len() == 2,
        binds_text(q.binds@[0], channel_id@),
        binds_text(q.binds@[1], channel_bucket_text(log_date)),
{
    let mut text = String::from_str(
        "SELECT raw FROM message WHERE channel_id = ? AND toStartOfDay(timestamp) = ? ORDER BY timestamp ",
    );
    text.append(direction_str(reverse));
    apply_limit_offset(&mut text, limit, offset);
    let mut binds: Vec<BindValue> = Vec::new();
    binds.push(BindValue::Text(String::from_str(channel_id)));
    binds.push(BindValue::Text(log_date.to_bucket_string()));
    BoundQuery { text, binds }
}

/// The lines of one user in one channel in one month, ordered by time,
/// paginated.
pub fn user_scan_query(
    channel_id: &str,
    user_id: &str,
    log_date: UserLogDate,
    reverse: bool,
    limit: Option<u64>,
    offset: Option<u64>,
) -> (q: BoundQuery)
    ensures
        q.text@ == user_scan_head() + direction_text(reverse) + limit_offset_suffix(limit, offset),
        q.binds@.len() == 3,
        binds_text(q.binds@[0], channel_id@),
        binds_text(q.binds@[1], user_id@),
        binds_text(q.binds@[2], user_bucket_text(log_date)),
{
    let mut text = String::from_str(
        "SELECT raw FROM message WHERE channel_id = ? AND user_id = ? AND toStartOfMonth(timestamp) = ? ORDER BY timestamp ",
    );
    text.append(direction_str(reverse));
    apply_limit_offset(&mut text, limit, offset);
    let mut binds: Vec<BindValue> = Vec::new();
    binds.push(BindValue::Text(String::from_str(channel_id)));
    binds.push(BindValue::Text(String::from_str(user_id)));
    binds.push(BindValue::Text(log_date.to_bucket_string()));
    BoundQuery { text, binds }
}

/// Text of the day-granular discovery query of a channel.
pub open spec fn channel_discovery_text() -> Seq<char> {
    "SELECT toDateTime(toStartOfDay(timestamp)) AS date FROM message WHERE channel_id = ? GROUP BY date ORDER BY date DESC"@
}

/// Text of the month-granular discovery query of a user.
pub open spec fn user_discovery_text() -> Seq<char> {
    "SELECT toDateTime(toStartOfMonth(timestamp)) AS date FROM message WHERE channel_id = ? AND user_id = ? GROUP BY date ORDER BY date DESC"@
}

/// One row per day of a channel that holds data, newest first.
pub fn channel_discovery_query(channel_id: &str) -> (q: BoundQuery)
    ensures
        q.text@ == channel_discovery_text(),
        q.binds@.len() == 1,
        binds_text(q.binds@[0], channel_id@),
{
    let text = String::from_str(
        "SELECT toDateTime(toStartOfDay(timestamp)) AS date FROM message WHERE channel_id = ? GROUP BY date ORDER BY date DESC",
    );
    let mut binds: Vec<BindValue> = Vec::new();
    binds.push(BindValue::Text(String::from_str(channel_id)));
    BoundQuery { text, binds }
}

/// One row per month of a user in a channel that holds data, newest first.
pub fn user_discovery_query(channel_id: &str, user_id: &str) -> (q: BoundQuery)
    ensures
        q.text@ == user_discovery_text(),
        q.binds@.len() == 2,
        binds_text(q.binds@[0], channel_id@),
        binds_text(q.binds@[1], user_id@),
{
    let text = String::from_str(
        "SELECT toDateTime(toStartOfMonth(timestamp)) AS date FROM message WHERE channel_id = ? AND user_id = ? GROUP BY date ORDER BY date DESC",
    );
    let mut binds: Vec<BindValue> = Vec::new();
    binds.push(BindValue::Text(String::from_str(channel_id)));
    binds.push(BindValue::Text(String::from_str(user_id)));
    BoundQuery { text, binds }
}

/// Text of the mutation that erases a user's lines in every channel.
pub open spec fn delete_user_text() -> Seq<char> {
    "ALTER TABLE message DELETE WHERE user_id = ?"@
}

/// Erases every line of a user, across all channels and buckets.
pub fn delete_user_query(user_id: &str) -> (q: BoundQuery)
    ensures
        q.text@ == delete_user_text(),
        q.binds@.len() == 1,
        binds_text(q.binds@[0], user_id@),
{
    let text = String::from_str("ALTER TABLE message DELETE WHERE user_id = ?");
    let mut binds: Vec<BindValue> = Vec::new();
    binds.push(BindValue::Text(String::from_str(user_id)));
    BoundQuery { text, binds }
}

} // verus!
