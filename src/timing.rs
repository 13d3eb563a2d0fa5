//! Remaining voting time of a stored poll.
use vstd::prelude::*;

verus! {

/// What chrono reads from a `YYYY-MM-DD HH:MM:SS` timestamp, taken as UTC:
/// seconds since the Unix epoch, or `None` when the text does not parse.
pub uninterp spec fn parsed_utc_seconds(s: Seq<char>) -> Option<i64>;

/// Relies on chrono::NaiveDateTime::parse_from_str with the format
/// "%Y-%m-%d %H:%M:%S", then the UTC timestamp of what it read.
#[verifier::external_body]
fn parse_utc_seconds(s: &str) -> (r: Option<i64>)
    ensures
        r == parsed_utc_seconds(s@),
{
    chrono::NaiveDateTime::parse_from_str(s, "%Y-%m-%d %H:%M:%S").ok().map(|t| t.and_utc().timestamp())
}

/// Relies on chrono::Utc::now: the current time in seconds since the Unix epoch.
#[verifier::external_body]
fn now_utc_seconds() -> (r: i64) {
    chrono::Utc::now().timestamp()
}

/// Whole minutes between two instants given in seconds, rounded toward zero.
pub open spec fn whole_minutes(seconds: int) -> int {
    if seconds >= 0 {
        seconds / 60
    } else {
        -((-seconds) / 60)
    }
}

/// Minutes of the voting window left at `now` for a poll created at `created`.
pub open spec fn remaining_minutes(voting_time: u32, created: i64, now: i64) -> int {
    voting_time - whole_minutes(now - created)
}

/// The voting minutes left at `now` (seconds since the epoch) for a poll
/// created at the stored timestamp; `None` when the timestamp does not parse
/// or the result does not fit.
pub fn calc_remaining_time(timestamp: &str, voting_time: u32, now: i64) -> (r: Option<i64>)
    ensures
        r == (match parsed_utc_seconds(timestamp@) {
            None => None,
            Some(created) => {
                let m = remaining_minutes(voting_time, created, now);
                if i64::MIN <= m <= i64::MAX { Some(m as i64) } else { None }
            },
        }),
{
    match parse_utc_seconds(timestamp) {
        None => None,
        Some(created) => {
            let d: i128 = now as i128 - created as i128;
            let minutes: i128 = if d >= 0 { d / 60 } else { -((-d) / 60) };
            let m: i128 = voting_time as i128 - minutes;
            if i64::MIN as i128 <= m && m <= i64::MAX as i128 {
                Some(m as i64)
            } else {
                None
            }
        },
    }
}

/// Minutes left always fit in an `i64`: two `i64` instants are less than
/// 2^64 seconds apart.
proof fn lemma_remaining_fits(voting_time: u32, created: i64, now: i64)
    ensures
        i64::MIN <= remaining_minutes(voting_time, created, now) <= i64::MAX,
{
    let d = now - created;
    if d >= 0 {
        assert(0 <= d / 60 <= d) by (nonlinear_arith)
            requires
                d >= 0,
        ;
    } else {
        let e = -d;
        assert(0 <= e / 60 <= e) by (nonlinear_arith)
            requires
                e > 0,
        ;
    }
}

/// The voting minutes left now for a poll created at the stored timestamp:
/// the clock is read once, and the result is what `calc_remaining_time` gives
/// for that reading.
pub fn remaining_time(timestamp: &str, voting_time: u32) -> (r: Option<i64>)
    ensures
        parsed_utc_seconds(timestamp@) is None ==> r is None,
        parsed_utc_seconds(timestamp@) is Some ==> r is Some,
        r is Some ==> parsed_utc_seconds(timestamp@) is Some && exists|now: i64|
            r->0 == #[trigger] remaining_minutes(voting_time, parsed_utc_seconds(timestamp@)->0, now),
{
    let now = now_utc_seconds();
    proof {
        if let Some(created) = parsed_utc_seconds(timestamp@) {
            lemma_remaining_fits(voting_time, created, now);
        }
    }
    calc_remaining_time(timestamp, voting_time, now)
}

} // verus!
