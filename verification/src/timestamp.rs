//! Points in time, and the two textual forms in which advisories carry them.

use crate::error::Error;
use std::fmt::Write;
use vstd::prelude::*;

verus! {

/// The form in which the archive feed writes a date: minutes precision, with a literal `Z`.
pub const UPSTREAM_FORMAT: &'static str = "%Y-%m-%dT%H:%MZ";

/// The canonical form of a date: seconds precision, no zone, meant as UTC.
pub const CANONICAL_FORMAT: &'static str = "%Y-%m-%dT%H:%M:%S";

/// Why chrono could not read a date. It is passed on unread.
#[verifier::external_type_specification]
#[verifier::external_body]
pub struct ExParseError(chrono::ParseError);

/// A point on the UTC time line: the whole seconds since 1970-01-01T00:00:00, leap seconds
/// not counted, and the nanoseconds past that second. During a leap second the nanoseconds
/// run from 1_000_000_000 upwards.
#[derive(Default, Debug, Clone, Copy, PartialEq, Eq, Structural)]
pub struct Timestamp {
    pub seconds: i64,
    pub nanos: u32,
}

/// What chrono reads from `text` under the strftime pattern `format`: the point in time,
/// or nothing where the text does not match the pattern or names no valid date and time.
pub uninterp spec fn parsed_timestamp(text: Seq<char>, format: Seq<char>) -> Option<Timestamp>;

/// What chrono writes for `at` under the strftime pattern `format`: the text, or nothing
/// where chrono has no date and time for `at` or the pattern is not one it accepts.
pub uninterp spec fn formatted_timestamp(at: Timestamp, format: Seq<char>) -> Option<Seq<char>>;

/// Calls `chrono::NaiveDateTime::parse_from_str` and reads the result as UTC.
///
/// Trusted: the outcome is a function of the two texts alone, named by
/// [`parsed_timestamp`]. The call fails exactly where that name gives nothing.
#[verifier::external_body]
fn parse_timestamp(text: &str, format: &str) -> (r: Result<Timestamp, chrono::ParseError>)
    ensures
        r matches Ok(at) ==> parsed_timestamp(text@, format@) == Some(at),
        r is Err ==> parsed_timestamp(text@, format@) is None,
{
    match chrono::NaiveDateTime::parse_from_str(text, format) {
        Ok(t) => Ok(
            Timestamp {
                seconds: t.and_utc().timestamp(),
                nanos: t.and_utc().timestamp_subsec_nanos(),
            },
        ),
        Err(e) => Err(e),
    }
}

/// Calls `chrono::DateTime::format` on the UTC date and time that `at` stands for.
///
/// Trusted: the outcome is a function of `at` and the pattern alone, named by
/// [`formatted_timestamp`]. Nothing is returned where chrono cannot hold `at` or rejects
/// the pattern.
#[verifier::external_body]
fn format_timestamp(at: Timestamp, format: &str) -> (r: Option<String>)
    ensures
        r.deep_view() == formatted_timestamp(at, format@),
{
    let mut text = String::new();
    match chrono::DateTime::from_timestamp(at.seconds, at.nanos) {
        Some(t) => match write!(text, "{}", t.format(format)) {
            Ok(()) => Some(text),
            Err(_) => None,
        },
        None => None,
    }
}

/// The point in time that a text in the archive feed's form stands for.
pub open spec fn upstream_reading(text: Seq<char>) -> Option<Timestamp> {
    parsed_timestamp(text, UPSTREAM_FORMAT@)
}

/// The point in time that a text in the canonical form stands for.
pub open spec fn canonical_reading(text: Seq<char>) -> Option<Timestamp> {
    parsed_timestamp(text, CANONICAL_FORMAT@)
}

/// The canonical text of a point in time.
pub open spec fn canonical_text(at: Timestamp) -> Option<Seq<char>> {
    formatted_timestamp(at, CANONICAL_FORMAT@)
}

/// The canonical text of the point in time that `text`, in the archive feed's form,
/// stands for.
pub open spec fn recast(text: Seq<char>) -> Option<Seq<char>> {
    match upstream_reading(text) {
        Some(at) => canonical_text(at),
        None => None,
    }
}

impl Timestamp {
    /// Reads a date in the archive feed's form.
    pub fn parse_upstream(text: &str) -> (r: Result<Timestamp, Error>)
        ensures
            match r {
                Ok(at) => upstream_reading(text@) == Some(at),
                Err(e) => e == Error::MalformedTimestamp && upstream_reading(text@) is None,
            },
    {
        match parse_timestamp(text, UPSTREAM_FORMAT) {
            Ok(at) => Ok(at),
            Err(_) => Err(Error::MalformedTimestamp),
        }
    }

    /// Reads a date in the canonical form.
    pub fn parse_canonical(text: &str) -> (r: Result<Timestamp, Error>)
        ensures
            match r {
                Ok(at) => canonical_reading(text@) == Some(at),
                Err(e) => e == Error::MalformedTimestamp && canonical_reading(text@) is None,
            },
    {
        match parse_timestamp(text, CANONICAL_FORMAT) {
            Ok(at) => Ok(at),
            Err(_) => Err(Error::MalformedTimestamp),
        }
    }

    /// Writes the point in time in the canonical form.
    pub fn to_canonical(self) -> (r: Option<String>)
        ensures
            r.deep_view() == canonical_text(self),
    {
        format_timestamp(self, CANONICAL_FORMAT)
    }
}

/// Turns a date in the archive feed's form into the canonical form.
///
/// Fails with [`Error::MalformedTimestamp`] exactly where [`recast`] gives nothing.
pub fn canonical_from_upstream(text: &str) -> (r: Result<String, Error>)
    ensures
        match r {
            Ok(canonical) => recast(text@) == Some(canonical@),
            Err(e) => e == Error::MalformedTimestamp && recast(text@) is None,
        },
{
    match Timestamp::parse_upstream(text) {
        Ok(at) => match at.to_canonical() {
            Some(canonical) => Ok(canonical),
            None => Err(Error::MalformedTimestamp),
        },
        Err(e) => Err(e),
    }
}

} // verus!
