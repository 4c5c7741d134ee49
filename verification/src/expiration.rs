//! When a certificate expires.

use chrono::format::ParseErrorKind as DateTimeErrorKind;
use chrono::DateTime;
use vstd::prelude::*;

verus! {

/// The moment at which a certificate expires, with the offset from UTC in which it was written.
#[derive(Clone, Copy, Debug)]
pub struct Expiration {
    /// Whole seconds since 1970-01-01T00:00:00Z.
    pub secs: i64,
    /// Nanoseconds within the second; a leap second counts on past one thousand million.
    pub nanos: u32,
    /// Seconds by which the local time of the text is ahead of UTC.
    pub offset_secs: i32,
}

/// Why the text of a date and time could not be parsed.
#[derive(Clone, Copy, Debug, PartialEq, Eq, Structural)]
pub enum ParseErrorKind {
    /// A field is out of its range.
    OutOfRange,
    /// No date and time has these fields.
    Impossible,
    /// The fields do not determine a date and time.
    NotEnough,
    /// The text has characters that the format does not allow.
    Invalid,
    /// The text ends too early.
    TooShort,
    /// The text goes on after the format.
    TooLong,
    /// The format itself is malformed.
    BadFormat,
    /// A failure of another kind.
    Unknown,
}

/// What the date parser makes of `text` under `format`.
pub uninterp spec fn parsed_date_time(text: Seq<char>, format: Seq<char>) -> Result<
    Expiration,
    ParseErrorKind,
>;

/// Calls `chrono::DateTime::parse_from_str` and takes the result apart.
///
/// Trusted: the outcome depends on the text and the format alone. Which texts a format accepts is
/// not described further here.
#[verifier::external_body]
pub(crate) fn parse_from_str(text: &str, format: &str) -> (outcome: Result<
    Expiration,
    ParseErrorKind,
>)
    ensures
        outcome == parsed_date_time(text@, format@),
{
    match DateTime::parse_from_str(text, format) {
        Ok(at) => Ok(Expiration { secs: at.timestamp(), nanos: at.timestamp_subsec_nanos(),
            offset_secs: at.offset().local_minus_utc() }),
        Err(error) => Err(match error.kind() {
            DateTimeErrorKind::OutOfRange => ParseErrorKind::OutOfRange,
            DateTimeErrorKind::Impossible => ParseErrorKind::Impossible,
            DateTimeErrorKind::NotEnough => ParseErrorKind::NotEnough,
            DateTimeErrorKind::Invalid => ParseErrorKind::Invalid,
            DateTimeErrorKind::TooShort => ParseErrorKind::TooShort,
            DateTimeErrorKind::TooLong => ParseErrorKind::TooLong,
            DateTimeErrorKind::BadFormat => ParseErrorKind::BadFormat,
            _ => ParseErrorKind::Unknown,
        }),
    }
}

/// `a` is a later moment than `b`. The offsets do not count. This is the order of chrono's
/// `DateTime`, whose seconds and nanoseconds an [`Expiration`] keeps.
pub open spec fn later(a: Expiration, b: Expiration) -> bool {
    a.secs > b.secs || (a.secs == b.secs && a.nanos > b.nanos)
}

/// `a` and `b` are the same moment, whatever their offsets.
pub open spec fn same_moment(a: Expiration, b: Expiration) -> bool {
    a.secs == b.secs && a.nanos == b.nanos
}

impl Expiration {
    /// Whether this moment comes after `other`.
    pub fn is_later_than(&self, other: &Expiration) -> (r: bool)
        ensures
            r == later(*self, *other),
    {
        self.secs > other.secs || (self.secs == other.secs && self.nanos > other.nanos)
    }
}

/// Of two moments either one is later or they are the same, and only one of the three holds.
pub proof fn moments_are_totally_ordered(a: Expiration, b: Expiration)
    ensures
        later(a, b) || later(b, a) || same_moment(a, b),
        !(later(a, b) && later(b, a)),
        same_moment(a, b) ==> !later(a, b) && !later(b, a),
{
}

/// What is later than a later moment is later.
pub proof fn later_is_transitive(a: Expiration, b: Expiration, c: Expiration)
    requires
        later(a, b),
        later(b, c),
    ensures
        later(a, c),
{
}

/// Moments lie on one line: the seconds, each wide enough for any count of nanoseconds. What is
/// later lies further along it, and what is the same moment lies at the same place.
pub proof fn moments_lie_on_one_line(a: Expiration, b: Expiration)
    ensures
        later(a, b) <==> a.secs * 0x1_0000_0000 + a.nanos > b.secs * 0x1_0000_0000 + b.nanos,
        same_moment(a, b) <==> a.secs * 0x1_0000_0000 + a.nanos == b.secs * 0x1_0000_0000 + b.nanos,
{
}

} // verus!
