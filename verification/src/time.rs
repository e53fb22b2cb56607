use vstd::prelude::*;

verus! {

/// A moment in time at millisecond precision: the count of milliseconds
/// since the Unix epoch, taken in UTC.
#[derive(Clone, Copy, Debug, PartialEq, Eq, Structural)]
pub struct Timestamp {
    pub millis: i64,
}

pub uninterp spec fn rfc3339_utc_millis(millis: int) -> Seq<char>;

pub uninterp spec fn parsed_rfc3339_millis(text: Seq<char>) -> Option<int>;

/// The four-digit-year span of the encoding: from 0000-01-01T00:00:00.000Z
/// to 9999-12-31T23:59:59.999Z. The calendar backend reaches moments far
/// outside it, but on this span the encoding is owed, is exactly 24
/// characters wide, and is read back to the same count — so texts of this
/// span sort lexically as their instants do.
pub open spec fn four_digit_year_span(millis: int) -> bool {
    -62_167_219_200_000 <= millis <= 253_402_300_799_999
}

impl Timestamp {
    pub fn from_millis(millis: i64) -> (r: Timestamp)
        ensures
            r.millis == millis,
    {
        Timestamp { millis }
    }

    /// Relies on std's `SystemTime::now`, chrono's `From<SystemTime>`
    /// conversion and `DateTime::timestamp_millis`. The conversion handles
    /// a clock reading earlier than the Unix epoch without panicking (it
    /// would panic only on a clock beyond chrono's ±262,000-year calendar,
    /// which no machine's clock reads). Nothing is promised of the value:
    /// the clock is outside this library's control.
    #[verifier::external_body]
    pub(crate) fn now() -> (r: Timestamp)
    {
        let moment = chrono::DateTime::<chrono::Utc>::from(std::time::SystemTime::now());
        Timestamp { millis: moment.timestamp_millis() }
    }

    /// The ISO-8601 / RFC 3339 text of this moment, with millisecond
    /// precision and a trailing `Z`. Owed for every moment of the
    /// four-digit-year span, where the text is 24 characters wide and reads
    /// back to this very moment; `None` only for a moment so remote that
    /// the calendar backend cannot express it.
    pub fn to_rfc3339(&self) -> (r: Option<String>)
        ensures
            (r matches Some(s) ==> s@ == rfc3339_utc_millis(self.millis as int)),
            (four_digit_year_span(self.millis as int) ==> r is Some),
            (r matches Some(s) ==> (four_digit_year_span(self.millis as int) ==> s@.len() == 24
                && parsed_rfc3339_millis(s@) == Some(self.millis as int))),
    {
        format_rfc3339_millis(self.millis)
    }

    /// Read an RFC 3339 text back into the moment it denotes, at
    /// millisecond precision; `None` exactly where the text does not parse.
    pub fn parse_rfc3339(text: &str) -> (r: Option<Timestamp>)
        ensures
            (r matches Some(t) ==> parsed_rfc3339_millis(text@) == Some(t.millis as int)),
            (r is None ==> parsed_rfc3339_millis(text@) is None),
    {
        match parse_rfc3339_millis(text) {
            Some(millis) => Some(Timestamp { millis }),
            None => None,
        }
    }
}

/// Relies on chrono's `DateTime::<Utc>::from_timestamp_millis`, which reads
/// a count of milliseconds back into a calendar date — `Some` on far more
/// than the whole four-digit-year span, `None` past chrono's ±262,000-year
/// calendar — and on `to_rfc3339_opts(SecondsFormat::Millis, true)`, whose
/// text depends on that date alone: years 0000 to 9999 are written four
/// digits wide, giving 24 characters in all, and chrono's own RFC 3339
/// parser reads that text back to the same millisecond count
/// (`from_timestamp_millis` documents the round trip with
/// `timestamp_millis`).
#[verifier::external_body]
fn format_rfc3339_millis(millis: i64) -> (r: Option<String>)
    ensures
        (r matches Some(s) ==> s@ == rfc3339_utc_millis(millis as int)),
        (four_digit_year_span(millis as int) ==> r is Some),
        (r matches Some(s) ==> (four_digit_year_span(millis as int) ==> s@.len() == 24
            && parsed_rfc3339_millis(s@) == Some(millis as int))),
{
    chrono::DateTime::<chrono::Utc>::from_timestamp_millis(millis)
        .map(|dt| dt.to_rfc3339_opts(chrono::SecondsFormat::Millis, true))
}

/// Relies on chrono's `DateTime::parse_from_rfc3339` and
/// `DateTime::timestamp_millis`: both are functions of the text alone, the
/// parse returns an error value rather than panicking, and the instant is
/// taken at the offset the text carries, so the result does not depend on
/// the machine.
#[verifier::external_body]
fn parse_rfc3339_millis(text: &str) -> (r: Option<i64>)
    ensures
        (r matches Some(m) ==> parsed_rfc3339_millis(text@) == Some(m as int)),
        (r is None ==> parsed_rfc3339_millis(text@) is None),
{
    match chrono::DateTime::parse_from_rfc3339(text) {
        Ok(moment) => Some(moment.timestamp_millis()),
        Err(_) => None,
    }
}

} // verus!
