//! Points in time, in UTC.

use chrono::{DateTime, Utc};
use vstd::prelude::*;
use vstd::string::StringExecFns;

verus! {

/// chrono's reason for refusing a text, carried through unread.
#[verifier::external_type_specification]
#[verifier::external_body]
pub struct ExParseError(chrono::ParseError);

/// The instant that chrono reads from `text` as a date and time in UTC:
/// whole seconds since the Unix epoch and the nanoseconds beyond them;
/// `None` where chrono refuses the text.
pub uninterp spec fn utc_instant(text: Seq<char>) -> Option<(i64, u32)>;

/// Parsing of `DateTime<Utc>` by chrono, with the instant taken by
/// `timestamp` and `timestamp_subsec_nanos`. The contract names the instant
/// and says that an error comes exactly where there is none.
#[verifier::external_body]
fn parse_utc(text: &str) -> (instant: Result<(i64, u32), chrono::ParseError>)
    ensures
        match instant {
            Ok(at) => utc_instant(text@) == Some(at),
            Err(_) => utc_instant(text@) is None,
        },
{
    match text.parse::<DateTime<Utc>>() {
        Ok(at) => Ok((at.timestamp(), at.timestamp_subsec_nanos())),
        Err(error) => Err(error),
    }
}

/// The text that `chrono::ParseError` displays. Nothing is claimed of it.
#[verifier::external_body]
pub(crate) fn describe(error: &chrono::ParseError) -> (text: String) {
    error.to_string()
}

/// What is put behind a date to make it the start of that day in UTC.
pub open spec fn midnight_utc() -> Seq<char> {
    "T00:00:00Z"@
}

/// A point in time: whole seconds since the Unix epoch, in UTC, and the
/// nanoseconds beyond them.
#[derive(Clone, Copy, Debug, PartialEq, Eq)]
pub struct Time {
    secs: i64,
    nanos: u32,
}

impl View for Time {
    type V = (i64, u32);

    closed spec fn view(&self) -> (i64, u32) {
        (self.secs, self.nanos)
    }
}

impl Time {
    /// The time that lies `nanos` nanoseconds after second `secs` of the Unix
    /// epoch, in UTC.
    pub fn from_naive_utc(secs: i64, nanos: u32) -> (time: Time)
        ensures
            time@ == (secs, nanos),
    {
        Time { secs, nanos }
    }

    /// The seconds and nanoseconds of the time.
    pub fn into_inner(self) -> (instant: (i64, u32))
        ensures
            instant == self@,
    {
        (self.secs, self.nanos)
    }

    /// The whole seconds since the Unix epoch.
    pub fn timestamp(&self) -> (secs: i64)
        ensures
            secs == self@.0,
    {
        self.secs
    }

    /// Reads a date, such as `2030-05-15`, as the start of that day in UTC.
    pub fn from_str(s: &str) -> (parsed: Result<Time, chrono::ParseError>)
        ensures
            match parsed {
                Ok(time) => utc_instant(s@ + midnight_utc()) == Some(time@),
                Err(_) => utc_instant(s@ + midnight_utc()) is None,
            },
    {
        let text = s.to_owned().concat("T00:00:00Z");
        match parse_utc(text.as_str()) {
            Ok((secs, nanos)) => Ok(Time { secs, nanos }),
            Err(e) => Err(e),
        }
    }
}

} // verus!
