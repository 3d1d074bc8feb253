use vstd::prelude::*;

verus! {

/// The date and the time of day, to the minute and in UTC, of the instant that
/// lies `millis` milliseconds after 1970-01-01 00:00 UTC, as chrono writes it
/// with the pattern `%Y-%m-%d %H:%M`; none where chrono's calendar does not
/// reach that far. For the years 0 to 9999 the text has the form
/// `YYYY-MM-DD HH:MM`.
pub uninterp spec fn minute_text(millis: i64) -> Option<Seq<char>>;

/// `chrono::DateTime::from_timestamp_millis` followed by `format` with the
/// pattern `%Y-%m-%d %H:%M`: the text is a function of `millis` alone, and
/// there is none where chrono cannot represent the instant. Nothing is
/// claimed of the form of the text.
#[verifier::external_body]
pub(crate) fn format_minute(millis: i64) -> (text: Option<String>)
    ensures
        text is Some == minute_text(millis) is Some,
        text matches Some(s) ==> minute_text(millis) == Some(s@),
{
    match chrono::DateTime::from_timestamp_millis(millis) {
        Some(instant) => Some(instant.format("%Y-%m-%d %H:%M").to_string()),
        None => None,
    }
}

} // verus!
