use crate::views::{seconds_view, text_view};
use vstd::prelude::*;

verus! {

/// 9999-12-31T23:59:59Z, the last second that a four-digit year can date.
pub const MAX_TIMESTAMP: i64 = 253402300799;

/// The RFC 3339 text that chrono writes for a second of Unix time in UTC;
/// `None` where chrono has no date for it.
pub uninterp spec fn rfc3339_text(secs: int) -> Option<Seq<char>>;

/// The second of Unix time that chrono reads from an RFC 3339 text; `None`
/// where the text is no such date.
pub uninterp spec fn rfc3339_seconds(text: Seq<char>) -> Option<int>;

/// `chrono::Utc::now` and `DateTime::timestamp`: the machine's clock in whole
/// seconds of Unix time. Nothing is promised of the value.
#[verifier::external_body]
pub(crate) fn now_unix() -> i64 {
    chrono::Utc::now().timestamp()
}

/// `DateTime::from_timestamp` and `DateTime::to_rfc3339`: the text of a second
/// within the four-digit years. What it writes, chrono reads back as the same
/// second.
#[verifier::external_body]
pub(crate) fn format_rfc3339(secs: i64) -> (r: Option<String>)
    requires
        0 <= secs <= MAX_TIMESTAMP,
    ensures
        text_view(r) == rfc3339_text(secs as int),
        r matches Some(s) ==> rfc3339_seconds(s@) == Some(secs as int),
{
    chrono::DateTime::from_timestamp(secs, 0).map(|d| d.to_rfc3339())
}

/// `DateTime::parse_from_rfc3339` and `DateTime::timestamp`: the second that
/// an RFC 3339 text dates, fractions dropped.
#[verifier::external_body]
pub(crate) fn parse_rfc3339(text: &str) -> (r: Option<i64>)
    ensures
        seconds_view(r) == rfc3339_seconds(text@),
{
    chrono::DateTime::parse_from_rfc3339(text).ok().map(|d| d.timestamp())
}

} // verus!
