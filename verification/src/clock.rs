//! The time of an evaluation.

use vstd::prelude::*;

verus! {

/// The RFC 3339 text of a moment in UTC, given in nanoseconds since the Unix
/// epoch, where the moment has one.
pub uninterp spec fn rfc3339(nanos: int) -> Option<Seq<char>>;

/// `time::OffsetDateTime::now_utc`, in nanoseconds since the Unix epoch. Nothing
/// is claimed of the moment.
#[verifier::external_body]
fn unix_nanos_now() -> (nanos: i128) {
    time::OffsetDateTime::now_utc().unix_timestamp_nanos()
}

/// `time::OffsetDateTime::format` with the well-known format `Rfc3339`, of the
/// moment in UTC: the text is [`rfc3339`] of the moment, and there is none where
/// the moment is out of the calendar or the format refuses it.
#[verifier::external_body]
fn rfc3339_text(nanos: i128) -> (text: Option<String>)
    ensures
        match text {
            Some(text) => rfc3339(nanos as int) == Some(text@),
            None => rfc3339(nanos as int) is None,
        },
{
    let moment = time::OffsetDateTime::from_unix_timestamp_nanos(nanos).ok()?;
    moment.format(&time::format_description::well_known::Rfc3339).ok()
}

/// How the time of an evaluation is written: in RFC 3339, and as nothing where
/// it cannot be.
pub open spec fn utc_text(nanos: int) -> Seq<char> {
    match rfc3339(nanos) {
        Some(text) => text,
        None => Seq::empty(),
    }
}

/// Writes the time of an evaluation: [`utc_text`].
pub fn utc_at(nanos: i128) -> (text: String)
    ensures
        text@ == utc_text(nanos as int),
{
    match rfc3339_text(nanos) {
        Some(text) => text,
        None => String::new(),
    }
}

/// Writes the time: [`utc_text`] of some moment.
pub fn utc_now() -> (text: String)
    ensures
        exists|nanos: i128| text@ == #[trigger] utc_text(nanos as int),
{
    let nanos = unix_nanos_now();
    utc_at(nanos)
}

/// A moment is written in RFC 3339 where it has such a text, and as nothing
/// where it has none.
pub proof fn law_time_text(nanos: int)
    ensures
        rfc3339(nanos) matches Some(text) ==> utc_text(nanos) == text,
        rfc3339(nanos) is None ==> utc_text(nanos).len() == 0,
{
}

} // verus!
