//! The claims of the JSON Web Tokens that the service issues: an e-mail
//! address, the time of issue and an expiry 24 hours later.

use vstd::prelude::*;

verus! {

/// The claims carried by a token.
#[derive(Debug, Clone)]
pub struct Claims {
    pub email: String,
    /// Expiry, in seconds since the Unix epoch.
    pub exp: i64,
    /// Time of issue, in seconds since the Unix epoch.
    pub iat: i64,
}

/// How long a token is valid, in seconds.
pub const TOKEN_LIFETIME_SECONDS: i64 = 86400;

/// The largest whole second of a jiff timestamp (`Timestamp::MAX`,
/// 9999-12-30T22:00:00Z): the last second of year 9999 less the largest time
/// zone offset jiff supports (25:59:59).
pub const MAX_TIMESTAMP_SECOND: i64 = 253402207200;

/// The smallest whole second of a jiff timestamp (`Timestamp::MIN`,
/// -009999-01-02T01:59:59Z): the first second of year -9999 plus the largest
/// time zone offset jiff supports.
pub const MIN_TIMESTAMP_SECOND: i64 = -377705023201;

/// The largest magnitude of the nanosecond part of a jiff timestamp.
pub const MAX_NANOSECOND: i32 = 999_999_999;

/// A number of seconds and nanoseconds brought to a common sign, the way
/// jiff stores a timestamp or a signed duration: when the signs differ, one
/// second moves into the nanoseconds.
pub open spec fn same_sign(second: int, nanosecond: int) -> (int, int) {
    if nanosecond == 0 || second == 0 || (second > 0) == (nanosecond > 0) {
        (second, nanosecond)
    } else if second < 0 {
        (second + 1, nanosecond - 1_000_000_000)
    } else {
        (second - 1, nanosecond + 1_000_000_000)
    }
}

/// Whether jiff accepts `second` and `nanosecond` as a timestamp
/// (`Timestamp::new`): both in range, and no negative nanoseconds at the
/// smallest second.
pub open spec fn is_timestamp(second: i64, nanosecond: i32) -> bool {
    &&& MIN_TIMESTAMP_SECOND <= second <= MAX_TIMESTAMP_SECOND
    &&& -MAX_NANOSECOND <= nanosecond <= MAX_NANOSECOND
    &&& !(second == MIN_TIMESTAMP_SECOND && nanosecond < 0)
}

/// The whole seconds (`as_second`, rounded toward zero) of the instant
/// `second` seconds and `nanosecond` nanoseconds after the Unix epoch moved 24
/// hours later, when that instant is a jiff timestamp.
pub open spec fn spec_one_day_later(second: i64, nanosecond: i32) -> Option<i64> {
    if is_timestamp(second, nanosecond) {
        let start = same_sign(second as int, nanosecond as int);
        let end = same_sign(start.0 + TOKEN_LIFETIME_SECONDS, start.1);
        if end.0 <= MAX_TIMESTAMP_SECOND {
            Some(end.0 as i64)
        } else {
            None
        }
    } else {
        None
    }
}

/// The whole seconds of the instant 24 hours after the given one, or the
/// message of jiff's error (`jiff::Timestamp::new`, `checked_add` of
/// `24.hours()`, `as_second`). Per jiff's source: `Timestamp::new` checks the
/// ranges and brings seconds and nanoseconds to a common sign; adding hours
/// adds whole seconds, keeping that sign rule (through `SignedDuration` when
/// the nanoseconds are not zero), and fails beyond the largest timestamp. The
/// text of the error message is not stated.
#[verifier::external_body]
fn one_day_later(second: i64, nanosecond: i32) -> (r: Result<i64, String>)
    ensures
        match spec_one_day_later(second, nanosecond) {
            Some(s) => r == Ok::<i64, String>(s),
            None => r is Err,
        },
{
    ::jiff::Timestamp::new(second, nanosecond).and_then(
        |t| t.checked_add(::jiff::ToSpan::hours(24)),
    ).map(|t| t.as_second()).map_err(|e| e.to_string())
}

/// The whole second of an instant given by seconds and nanoseconds
/// (`Timestamp::as_second`): the seconds brought to the sign of the
/// nanoseconds.
pub fn whole_second(second: i64, nanosecond: i32) -> (r: i64)
    requires
        is_timestamp(second, nanosecond),
    ensures
        r == same_sign(second as int, nanosecond as int).0,
{
    if nanosecond == 0 || second == 0 || (second > 0) == (nanosecond > 0) {
        second
    } else if second < 0 {
        second + 1
    } else {
        second - 1
    }
}

/// The claims that [`issue_claims`] gives for an e-mail address and an
/// instant: issued at the instant's whole second, expiring 24 hours later; or
/// nothing when the instant or its expiry is not a jiff timestamp.
pub open spec fn spec_issue_claims(email: Seq<char>, now_second: i64, now_nanosecond: i32) -> Option<
    (Seq<char>, i64, i64),
> {
    match spec_one_day_later(now_second, now_nanosecond) {
        Some(exp) => Some((email, exp, same_sign(now_second as int, now_nanosecond as int).0 as i64)),
        None => None,
    }
}

/// The claims of a token for `email` issued at the given instant (the whole
/// seconds and the nanoseconds of the current time): issued at the instant's
/// whole second, expiring 24 hours later. An instant or expiry outside jiff's
/// range of timestamps is an error, reported by jiff's message. For an instant
/// at or after the Unix epoch the expiry is 86400 whole seconds after the
/// issue; before it, rounding toward zero can make it one second less.
pub fn issue_claims(email: String, now_second: i64, now_nanosecond: i32) -> (r: Result<Claims, String>)
    ensures
        match spec_issue_claims(email@, now_second, now_nanosecond) {
            Some(c) => r is Ok && (r->Ok_0.email@, r->Ok_0.exp, r->Ok_0.iat) == c,
            None => r is Err,
        },
        r is Ok && now_second >= 0 && now_nanosecond >= 0 ==> r->Ok_0.exp - r->Ok_0.iat
            == TOKEN_LIFETIME_SECONDS,
{
    match one_day_later(now_second, now_nanosecond) {
        Ok(exp) => {
            let iat = whole_second(now_second, now_nanosecond);
            Ok(Claims { email, exp, iat })
        },
        Err(m) => Err(m),
    }
}

} // verus!
