//! Calendar buckets: the day of a channel's logs, the month of a user's
//! logs, and the descriptors that bucket discovery hands back.

use vstd::prelude::*;
use vstd::string::StringExecFns;
use chrono::Datelike;
use crate::error::LogError;
use crate::text::{
    decimal, decimal_string, signed_decimal, signed_decimal_string, two_digit, two_digit_string,
};

verus! {

/// The daily bucket of a channel's logs.
#[derive(Clone, Copy, Debug, PartialEq, Eq)]
pub struct ChannelLogDate {
    pub year: u32,
    pub month: u32,
    pub day: u32,
}

/// The monthly bucket of a user's logs within a channel.
#[derive(Clone, Copy, Debug, PartialEq, Eq)]
pub struct UserLogDate {
    pub year: u32,
    pub month: u32,
}

/// A bucket that holds data, as discovery reports it. `day` is present only
/// where discovery was day-granular.
#[derive(Clone, Debug, PartialEq, Eq)]
pub struct AvailableLogDate {
    pub year: String,
    pub month: String,
    pub day: Option<String>,
}

/// The store's day-start text of a channel bucket: `YYYY-MM-DD`.
pub open spec fn channel_bucket_text(d: ChannelLogDate) -> Seq<char> {
    decimal(d.year as nat) + "-"@ + two_digit(d.month as nat) + "-"@ + two_digit(d.day as nat)
}

/// The store's month-start text of a user bucket: `YYYY-MM-1`.
pub open spec fn user_bucket_text(d: UserLogDate) -> Seq<char> {
    decimal(d.year as nat) + "-"@ + two_digit(d.month as nat) + "-1"@
}

impl ChannelLogDate {
    /// The bucket's day start in the form the store compares against.
    pub fn to_bucket_string(&self) -> (r: String)
        ensures
            r@ == channel_bucket_text(*self),
    {
        let mut s = decimal_string(self.year as u64);
        s.append("-");
        let m = two_digit_string(self.month as u64);
        s.append(m.as_str());
        s.append("-");
        let d = two_digit_string(self.day as u64);
        s.append(d.as_str());
        s
    }
}

impl UserLogDate {
    /// The bucket's month start in the form the store compares against.
    pub fn to_bucket_string(&self) -> (r: String)
        ensures
            r@ == user_bucket_text(*self),
    {
        let mut s = decimal_string(self.year as u64);
        s.append("-");
        let m = two_digit_string(self.month as u64);
        s.append(m.as_str());
        s.append("-1");
        s
    }
}

/// The calendar date (year, month, day) at a count of Unix-epoch seconds, in
/// UTC, or `None` where the calendar cannot represent it.
pub uninterp spec fn calendar_of(secs: int) -> Option<(i32, u32, u32)>;

/// Relies on chrono's `NaiveDateTime::from_timestamp_opt` (and its `year`,
/// `month`, `day`): the UTC calendar date at a Unix timestamp, `None` only
/// when the seconds lie more than about 262,000 years from the common era.
#[verifier::external_body]
#[allow(deprecated)]
fn calendar_at(secs: i64) -> (r: Option<(i32, u32, u32)>)
    ensures
        r == calendar_of(secs as int),
        -1_000_000_000_000 <= secs <= 1_000_000_000_000 ==> r is Some,
{
    chrono::NaiveDateTime::from_timestamp_opt(secs, 0).map(|t| (t.year(), t.month(), t.day()))
}

/// What a discovered bucket reads as: year and month always, the day only at
/// day granularity.
pub open spec fn describes(
    r: AvailableLogDate,
    date: (i32, u32, u32),
    with_day: bool,
) -> bool {
    &&& r.year@ == signed_decimal(date.0 as int)
    &&& r.month@ == decimal(date.1 as nat)
    &&& if with_day {
        r.day is Some && r.day.unwrap()@ == decimal(date.2 as nat)
    } else {
        r.day is None
    }
}

/// Turns a calendar date into a bucket descriptor, with or without its day.
pub fn describe_bucket(date: (i32, u32, u32), with_day: bool) -> (r: AvailableLogDate)
    ensures
        describes(r, date, with_day),
{
    let year = signed_decimal_string(date.0 as i64);
    let month = decimal_string(date.1 as u64);
    let day = if with_day {
        Some(decimal_string(date.2 as u64))
    } else {
        None
    };
    AvailableLogDate { year, month, day }
}

/// What discovery reports for the store's bucket starts `ts`: one descriptor
/// per bucket start, in the store's order, or `InvariantViolation` where one of
/// them lies outside the calendar.
pub open spec fn discovered(
    ts: Seq<i32>,
    with_day: bool,
    r: Result<Vec<AvailableLogDate>, LogError>,
) -> bool {
    match r {
        Ok(v) => {
            &&& forall|i: int| 0 <= i < ts.len() ==> (#[trigger] calendar_of(ts[i] as int)) is Some
            &&& v@.len() == ts.len()
            &&& forall|i: int|
                0 <= i < ts.len() ==> describes(
                    #[trigger] v@[i],
                    calendar_of(ts[i] as int).unwrap(),
                    with_day,
                )
        },
        Err(e) => {
            &&& e is InvariantViolation
            &&& exists|i: int| 0 <= i < ts.len() && (#[trigger] calendar_of(ts[i] as int)) is None
        },
    }
}

/// Maps the bucket starts that a GROUP-BY-bucket query returned (Unix-epoch
/// seconds) to bucket descriptors, keeping their order. Every `i32` second
/// count lies within the calendar, so this always succeeds.
pub fn resolve_buckets(ts: &Vec<i32>, with_day: bool) -> (r: Result<Vec<AvailableLogDate>, LogError>)
    ensures
        discovered(ts@, with_day, r),
        r is Ok,
{
    let mut out: Vec<AvailableLogDate> = Vec::new();
    let mut i: usize = 0;
    while i < ts.len()
        invariant
            i <= ts@.len(),
            out@.len() == i,
            forall|j: int| 0 <= j < i ==> (#[trigger] calendar_of(ts@[j] as int)) is Some,
            forall|j: int|
                0 <= j < i ==> describes(
                    #[trigger] out@[j],
                    calendar_of(ts@[j] as int).unwrap(),
                    with_day,
                ),
        decreases ts@.len() - i,
    {
        match calendar_at(ts[i] as i64) {
            Some(date) => {
                out.push(describe_bucket(date, with_day));
            },
            None => {
                assert(calendar_of(ts@[i as int] as int) is None);
                return Err(LogError::InvariantViolation);
            },
        }
        i = i + 1;
    }
    Ok(out)
}

/// Day-granular discovery of a channel's buckets.
pub fn resolve_channel_buckets(ts: &Vec<i32>) -> (r: Result<Vec<AvailableLogDate>, LogError>)
    ensures
        discovered(ts@, true, r),
        r is Ok,
{
    resolve_buckets(ts, true)
}

/// Month-granular discovery of a user's buckets.
pub fn resolve_user_buckets(ts: &Vec<i32>) -> (r: Result<Vec<AvailableLogDate>, LogError>)
    ensures
        discovered(ts@, false, r),
        r is Ok,
{
    resolve_buckets(ts, false)
}

} // verus!

verus! {

/// Discovery keeps the store's bucket order one for one. Where the bucket
/// starts arrive strictly descending (newest first, each once, as the
/// GROUP-BY query orders them), a successful discovery yields one descriptor
/// per bucket start, the descriptor at each position coming from a bucket
/// start strictly newer than those after it; every descriptor carries a day
/// at day granularity and none does at month granularity.
pub proof fn lemma_discovery_order(
    ts: Seq<i32>,
    with_day: bool,
    r: Result<Vec<AvailableLogDate>, LogError>,
)
    requires
        forall|i: int, j: int| 0 <= i < j < ts.len() ==> ts[i] > ts[j],
        discovered(ts, with_day, r),
    ensures
        r matches Ok(v) ==> {
            &&& v@.len() == ts.len()
            &&& forall|i: int|
                0 <= i < v@.len() ==> (#[trigger] v@[i]).day is Some == with_day
            &&& forall|i: int, j: int|
                0 <= i < j < v@.len() ==> {
                    &&& describes(v@[i], calendar_of(ts[i] as int).unwrap(), with_day)
                    &&& describes(v@[j], calendar_of(ts[j] as int).unwrap(), with_day)
                    &&& ts[i] > ts[j]
                }
        },
{
    if let Ok(v) = r {
        assert forall|i: int| 0 <= i < v@.len() implies (#[trigger] v@[i]).day is Some == with_day by {
            assert(describes(v@[i], calendar_of(ts[i] as int).unwrap(), with_day));
        }
    }
}

} // verus!
