//! The wire codec: instants in UTC and their canonical RFC 3339 text.
use vstd::prelude::*;

use crate::error::DecodeError;

verus! {

/// The first second, counted from 1970-01-01T00:00:00 UTC, of the year 0000.
pub const FIRST_SECOND: i64 = -62167219200;

/// The last second of the year 9999.
pub const LAST_SECOND: i64 = 253402300799;

/// An instant in UTC: whole seconds since the Unix epoch, leap seconds not
/// counted, and the nanoseconds past that second. A leap second shows as
/// nanoseconds from one billion on, in the last second of a minute.
#[derive(Debug, Clone, Copy, PartialEq, Eq, Structural)]
pub struct Instant {
    pub secs: i64,
    pub nanos: u32,
}

impl Instant {
    /// An instant whose year has the four digits of RFC 3339, with nanoseconds
    /// that a clock can show (a leap second only at the end of a minute).
    pub open spec fn is_valid(self) -> bool {
        &&& FIRST_SECOND <= self.secs <= LAST_SECOND
        &&& (self.nanos < 1_000_000_000 || (self.nanos < 2_000_000_000 && (self.secs as int) % 60
            == 59))
    }

    pub fn valid(&self) -> (r: bool)
        ensures
            r == self.is_valid(),
    {
        if self.secs < FIRST_SECOND || self.secs > LAST_SECOND {
            return false;
        }
        if self.nanos < 1_000_000_000 {
            return true;
        }
        // FIRST_SECOND is a whole number of minutes, so this is the second of the minute.
        let from_first: u64 = (self.secs - FIRST_SECOND) as u64;
        assert((self.secs as int) % 60 == (from_first as int) % 60);
        self.nanos < 2_000_000_000 && from_first % 60 == 59
    }
}

/// The text that chrono's `to_rfc3339` writes for an instant in UTC.
pub uninterp spec fn rfc3339_text(secs: int, nanos: int) -> Seq<char>;

/// The UTC timestamp and nanoseconds that chrono's `parse_from_rfc3339` reads
/// from a text, or `None` where it refuses the text.
pub uninterp spec fn rfc3339_reading(text: Seq<char>) -> Option<(int, int)>;

#[verifier::external_type_specification]
#[verifier::external_body]
pub struct ExParseError(chrono::format::ParseError);

/// Relies on chrono's `DateTime::<Utc>::from_timestamp`, which accepts every
/// valid instant, and on `DateTime::to_rfc3339`: it writes the four-digit year,
/// the second (60 for a leap second), as many fraction digits as the
/// nanoseconds need and `+00:00`, a text that `DateTime::parse_from_rfc3339`
/// reads back as the same timestamp and nanoseconds.
#[verifier::external_body]
fn format_rfc3339(t: &Instant) -> (r: String)
    requires
        t.is_valid(),
    ensures
        r@ == rfc3339_text(t.secs as int, t.nanos as int),
        rfc3339_reading(r@) == Some((t.secs as int, t.nanos as int)),
{
    chrono::DateTime::from_timestamp(t.secs, t.nanos).unwrap().to_rfc3339()
}

/// Relies on chrono's `DateTime::parse_from_rfc3339`; the instant read is
/// handed back as its UTC `timestamp` and `timestamp_subsec_nanos`.
#[verifier::external_body]
fn parse_rfc3339(text: &str) -> (r: Result<Instant, chrono::format::ParseError>)
    ensures
        match r {
            Ok(t) => rfc3339_reading(text@) == Some((t.secs as int, t.nanos as int)),
            Err(_) => rfc3339_reading(text@) is None,
        },
{
    match chrono::DateTime::parse_from_rfc3339(text) {
        Ok(dt) => Ok(Instant { secs: dt.timestamp(), nanos: dt.timestamp_subsec_nanos() }),
        Err(e) => Err(e),
    }
}

/// The stored text of an optional instant: absent stays absent.
pub open spec fn encoded(t: Option<Instant>) -> Option<Seq<char>> {
    match t {
        Some(t) => Some(rfc3339_text(t.secs as int, t.nanos as int)),
        None => None,
    }
}

/// What an optional stored text decodes to: absent is no instant, a text that
/// does not read as RFC 3339 is an error.
pub open spec fn decoded(text: Option<Seq<char>>) -> Result<Option<Instant>, DecodeError> {
    match text {
        None => Ok(None),
        Some(s) => match rfc3339_reading(s) {
            Some(p) => Ok(Some(Instant { secs: p.0 as i64, nanos: p.1 as u32 })),
            None => Err(DecodeError::MalformedInstant),
        },
    }
}

pub open spec fn all_valid(t: Option<Instant>) -> bool {
    match t {
        Some(t) => t.is_valid(),
        None => true,
    }
}

/// Encodes an optional instant as its canonical text. Decoding that text gives
/// the same instant back, and absent gives absent.
pub fn encode_optional_instant(t: Option<Instant>) -> (r: Option<String>)
    requires
        all_valid(t),
    ensures
        r.deep_view() == encoded(t),
        decoded(r.deep_view()) == Ok::<Option<Instant>, DecodeError>(t),
{
    match t {
        Some(t) => Some(format_rfc3339(&t)),
        None => None,
    }
}

/// Decodes an optional stored text; a text that is there but is not RFC 3339
/// is an error, never a silent absence.
pub fn decode_optional_instant(text: &Option<String>) -> (r: Result<Option<Instant>, DecodeError>)
    ensures
        r == decoded(text.deep_view()),
{
    match text {
        Some(s) => match parse_rfc3339(s.as_str()) {
            Ok(t) => Ok(Some(t)),
            Err(_) => Err(DecodeError::MalformedInstant),
        },
        None => Ok(None),
    }
}

} // verus!
