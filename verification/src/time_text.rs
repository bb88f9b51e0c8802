use chrono::TimeZone;
use vstd::prelude::*;

use crate::models::Timestamp;

verus! {

/// What `chrono` makes of an RFC 3339 date-time text: the instant it denotes, or the
/// text of its parse error.
pub uninterp spec fn rfc3339_parse(text: Seq<char>) -> Result<Timestamp, Seq<char>>;

/// The instant denoted by an RFC 3339 date-time text, as `chrono` parses it.
pub open spec fn rfc3339_instant(text: Seq<char>) -> Option<Timestamp> {
    match rfc3339_parse(text) {
        Ok(t) => Some(t),
        Err(_) => None,
    }
}

/// Midnight UTC of the day denoted by a `YYYY-MM-DD` text, as `chrono` parses it.
pub uninterp spec fn calendar_midnight(text: Seq<char>) -> Option<Timestamp>;

/// The RFC 3339 text that `chrono` writes for an instant, or `None` when `chrono`
/// cannot represent the instant.
pub uninterp spec fn rfc3339_rendering(t: Timestamp) -> Option<Seq<char>>;

/// Whether `t` lies in the years 0000 to 9999, with fewer than a billion nanoseconds:
/// the instants whose RFC 3339 text is four-digit-year RFC 3339.
pub open spec fn in_four_digit_years(t: Timestamp) -> bool {
    &&& -62167219200 <= t.secs <= 253402300799
    &&& t.nanos < 1_000_000_000
}

/// Parses an RFC 3339 date-time with `chrono::DateTime::parse_from_rfc3339` and
/// converts it to UTC.
///
/// Claims only that the outcome, the error message included, is a function of the
/// text (named `rfc3339_parse`): which texts `chrono` accepts is not restated here.
#[verifier::external_body]
pub(crate) fn parse_rfc3339(text: &str) -> (r: Result<Timestamp, String>)
    ensures
        match r {
            Ok(t) => rfc3339_parse(text@) == Ok::<Timestamp, Seq<char>>(t),
            Err(m) => rfc3339_parse(text@) == Err::<Timestamp, Seq<char>>(m@),
        },
{
    match chrono::DateTime::parse_from_rfc3339(text) {
        Ok(dt) => {
            let utc = dt.with_timezone(&chrono::Utc);
            Ok(Timestamp { secs: utc.timestamp(), nanos: utc.timestamp_subsec_nanos() })
        },
        Err(e) => Err(e.to_string()),
    }
}

/// Parses a `YYYY-MM-DD` date with `chrono::NaiveDate::parse_from_str` and takes it
/// at midnight UTC.
///
/// Claims only that the result is a function of the text.
#[verifier::external_body]
pub(crate) fn parse_calendar_date(text: &str) -> (r: Option<Timestamp>)
    ensures
        r == calendar_midnight(text@),
{
    match chrono::NaiveDate::parse_from_str(text, "%Y-%m-%d") {
        Ok(date) => match date.and_hms_opt(0, 0, 0) {
            Some(naive) => match chrono::Utc.from_local_datetime(&naive).single() {
                Some(dt) => Some(Timestamp { secs: dt.timestamp(), nanos: dt.timestamp_subsec_nanos() }),
                None => None,
            },
            None => None,
        },
        Err(_) => None,
    }
}

/// Writes an instant as RFC 3339 with `chrono::DateTime::to_rfc3339`, after making it
/// with `chrono::DateTime::from_timestamp`.
///
/// Claims that the text is a function of the instant, that every instant of the years
/// 0000-9999 is written, and that `chrono` reads such a text back as the same instant.
#[verifier::external_body]
pub(crate) fn render_rfc3339(t: Timestamp) -> (r: Option<String>)
    ensures
        r matches Some(s) ==> rfc3339_rendering(t) == Some(s@),
        r is None ==> rfc3339_rendering(t) is None,
        r is Some || !in_four_digit_years(t),
        r matches Some(s) ==> (in_four_digit_years(t) ==> rfc3339_instant(s@) == Some(t)),
{
    match chrono::DateTime::from_timestamp(t.secs, t.nanos) {
        Some(dt) => Some(dt.to_rfc3339()),
        None => None,
    }
}

} // verus!
