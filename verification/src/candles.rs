//! Planning a candles fetch: turning the user's time range and granularity
//! into either a request or a refusal before anything goes on the wire.
//!
//! The candles endpoint serves at most 300 candles per request, so the
//! range is checked against the granularity first. Times arrive as RFC
//! 3339 strings; an outside date library turns each into epoch seconds,
//! and everything after that is arithmetic on plain values.

use vstd::prelude::*;

verus! {

/// The epoch seconds an RFC 3339 date-time string denotes, or nothing
/// where the string is not a valid RFC 3339 date-time. Computed by the
/// outside date library; a pure function of the string.
pub uninterp spec fn rfc3339_epoch_seconds(s: Seq<char>) -> Option<i64>;

/// Relies on chrono's `DateTime::parse_from_rfc3339` and
/// `DateTime::timestamp`: parsing accepts exactly the valid RFC 3339
/// date-and-time strings, and both the parse and the timestamp are pure
/// functions of the input string alone.
#[verifier::external_body]
pub(crate) fn parse_rfc3339_epoch(s: &str) -> (r: Option<i64>)
    ensures
        r == rfc3339_epoch_seconds(s@),
{
    match chrono::DateTime::parse_from_rfc3339(s) {
        Ok(dt) => Some(dt.timestamp()),
        Err(_) => None,
    }
}

/// The seconds one candle of the given granularity spans; zero for a
/// granularity the endpoint does not know.
pub open spec fn granularity_seconds_spec(g: Seq<char>) -> i64 {
    if g == "ONE_MINUTE"@ {
        60
    } else if g == "FIVE_MINUTE"@ {
        300
    } else if g == "FIFTEEN_MINUTE"@ {
        900
    } else if g == "THIRTY_MINUTE"@ {
        1800
    } else if g == "ONE_HOUR"@ {
        3600
    } else if g == "TWO_HOUR"@ {
        7200
    } else if g == "SIX_HOUR"@ {
        21600
    } else if g == "ONE_DAY"@ {
        86400
    } else {
        0
    }
}

/// String equality on the underlying character sequences.
fn str_eq(a: &String, b: &String) -> (r: bool)
    ensures
        r == (a@ == b@),
{
    *a == *b
}

/// The seconds one candle of the given granularity spans; zero for a
/// granularity the endpoint does not know.
pub fn granularity_to_seconds(granularity: &str) -> (r: i64)
    ensures
        r == granularity_seconds_spec(granularity@),
{
    let g = granularity.to_owned();
    if str_eq(&g, &"ONE_MINUTE".to_owned()) {
        60
    } else if str_eq(&g, &"FIVE_MINUTE".to_owned()) {
        300
    } else if str_eq(&g, &"FIFTEEN_MINUTE".to_owned()) {
        900
    } else if str_eq(&g, &"THIRTY_MINUTE".to_owned()) {
        1800
    } else if str_eq(&g, &"ONE_HOUR".to_owned()) {
        3600
    } else if str_eq(&g, &"TWO_HOUR".to_owned()) {
        7200
    } else if str_eq(&g, &"SIX_HOUR".to_owned()) {
        21600
    } else if str_eq(&g, &"ONE_DAY".to_owned()) {
        86400
    } else {
        0
    }
}

/// What to do with a candles request.
#[derive(Clone, Copy, PartialEq, Eq, Structural, Debug)]
pub enum CandlePlan {
    /// The start time is not a valid RFC 3339 date-time.
    BadStart,
    /// The end time is not a valid RFC 3339 date-time.
    BadEnd,
    /// The range spans more than 300 candles at this granularity; ask the
    /// user to adjust range or granularity instead of fetching.
    TooManyCandles,
    /// Within the limit: go fetch.
    Fetch,
}

/// The planning decision as a function of the three input strings. The
/// range spans more than 300 candles exactly when the range in seconds
/// reaches 301 granularity periods.
pub open spec fn plan_candles_spec(start: Seq<char>, end: Seq<char>, gran: Seq<char>) -> CandlePlan {
    match rfc3339_epoch_seconds(start) {
        Option::None => CandlePlan::BadStart,
        Option::Some(s_ts) => match rfc3339_epoch_seconds(end) {
            Option::None => CandlePlan::BadEnd,
            Option::Some(e_ts) => if e_ts - s_ts >= 301 * (granularity_seconds_spec(gran) as int) {
                CandlePlan::TooManyCandles
            } else {
                CandlePlan::Fetch
            },
        },
    }
}

/// Decide whether a candles fetch for this range and granularity may go
/// ahead. A granularity the endpoint does not know has no period to count
/// candles in, so callers resolve the granularity first (see
/// [`granularity_to_seconds`]) and only plan with a known one.
pub fn plan_candles(start: &str, end: &str, granularity: &str) -> (p: CandlePlan)
    requires
        granularity_seconds_spec(granularity@) >= 1,
    ensures
        p == plan_candles_spec(start@, end@, granularity@),
{
    let s_ts = match parse_rfc3339_epoch(start) {
        Option::None => {
            return CandlePlan::BadStart;
        },
        Option::Some(v) => v,
    };
    let e_ts = match parse_rfc3339_epoch(end) {
        Option::None => {
            return CandlePlan::BadEnd;
        },
        Option::Some(v) => v,
    };
    let gran = granularity_to_seconds(granularity);
    let d: i128 = e_ts as i128 - s_ts as i128;
    let limit: i128 = 301 * (gran as i128);
    if d >= limit {
        CandlePlan::TooManyCandles
    } else {
        CandlePlan::Fetch
    }
}

} // verus!
