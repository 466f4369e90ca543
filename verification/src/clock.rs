//! Wall-clock instants as plain numbers, and their stored text form.

use vstd::prelude::*;

verus! {

/// An instant with the zone it was observed in: seconds and nanoseconds since
/// the Unix epoch, and the zone's offset from UTC in seconds.
#[derive(Debug, Clone, Copy, PartialEq, Eq, Structural)]
pub struct Timestamp {
    pub secs: i64,
    pub nanos: u32,
    pub offset: i32,
}

/// Time pattern of the stored timestamps.
pub const STORED_FORMAT: &'static str = "%Y-%m-%d %H:%M:%S%.f %z";

/// Seconds an activation code stays valid: three days.
pub const ACTIVATION_SECONDS: i64 = 259200;

/// The text chrono displays for the instant, or `None` where chrono has no
/// date for these numbers.
pub uninterp spec fn timestamp_text(secs: i64, nanos: u32, offset: i32) -> Option<Seq<char>>;

/// The instant chrono reads from `text` under the pattern `format`, as
/// (seconds, nanoseconds, offset), or `None` where the text does not match.
pub uninterp spec fn timestamp_parsed(text: Seq<char>, format: Seq<char>) -> Option<
    (i64, u32, i32),
>;

impl Timestamp {
    /// The text of this instant.
    pub open spec fn text(self) -> Option<Seq<char>> {
        timestamp_text(self.secs, self.nanos, self.offset)
    }

    /// `self` is a later instant than `other`, whatever their zones.
    pub open spec fn later_than(self, other: Timestamp) -> bool {
        self.secs > other.secs || (self.secs == other.secs && self.nanos > other.nanos)
    }

    /// The instant `seconds` later in the same zone, if its seconds fit.
    pub open spec fn spec_plus_seconds(self, seconds: i64) -> Option<Timestamp> {
        if i64::MIN <= self.secs + seconds <= i64::MAX {
            Some(Timestamp { secs: (self.secs + seconds) as i64, ..self })
        } else {
            None
        }
    }

    pub fn is_later_than(&self, other: &Timestamp) -> (r: bool)
        ensures
            r == self.later_than(*other),
    {
        self.secs > other.secs || (self.secs == other.secs && self.nanos > other.nanos)
    }

    pub fn plus_seconds(&self, seconds: i64) -> (r: Option<Timestamp>)
        ensures
            r == self.spec_plus_seconds(seconds),
    {
        match self.secs.checked_add(seconds) {
            Some(secs) => Some(Timestamp { secs, nanos: self.nanos, offset: self.offset }),
            None => None,
        }
    }

    /// The text form under which the instant is stored.
    pub fn to_text(&self) -> (r: Option<String>)
        ensures
            r is Some <==> self.text() is Some,
            r matches Some(s) ==> self.text() == Some(s@),
    {
        display(self.secs, self.nanos, self.offset)
    }

    /// Reads a stored instant back.
    pub fn from_text(text: &str) -> (r: Option<Timestamp>)
        ensures
            r == stored_instant(text@),
    {
        match parse(text, STORED_FORMAT) {
            Some((secs, nanos, offset)) => Some(Timestamp { secs, nanos, offset }),
            None => None,
        }
    }

    /// The current instant in the local zone.
    pub(crate) fn now() -> Timestamp {
        local_now()
    }
}

/// The instant a stored text stands for.
pub open spec fn stored_instant(text: Seq<char>) -> Option<Timestamp> {
    match timestamp_parsed(text, STORED_FORMAT@) {
        Some((secs, nanos, offset)) => Some(Timestamp { secs, nanos, offset }),
        None => None,
    }
}

/// Reads the clock with `chrono::Local::now` and hands the instant out as
/// numbers. Nothing is claimed of the result: it is whatever the clock says.
#[verifier::external_body]
fn local_now() -> Timestamp {
    let now = chrono::Local::now();
    Timestamp {
        secs: now.timestamp(),
        nanos: now.timestamp_subsec_nanos(),
        offset: now.offset().local_minus_utc(),
    }
}

/// Displays an instant as chrono's `DateTime<FixedOffset>` does (`to_string`).
/// The text depends on the three numbers alone and is named `timestamp_text`;
/// it is `None` where `DateTime::from_timestamp` or `FixedOffset::east_opt`
/// has no value for them.
#[verifier::external_body]
fn display(secs: i64, nanos: u32, offset: i32) -> (r: Option<String>)
    ensures
        r is Some <==> timestamp_text(secs, nanos, offset) is Some,
        r matches Some(s) ==> timestamp_text(secs, nanos, offset) == Some(s@),
{
    let utc = chrono::DateTime::from_timestamp(secs, nanos)?;
    let zone = chrono::FixedOffset::east_opt(offset)?;
    Some(utc.with_timezone(&zone).to_string())
}

/// Parses with `chrono::DateTime::parse_from_str`. The outcome depends on the
/// two strings alone and is named `timestamp_parsed`; a text that does not
/// match the pattern gives `None`.
#[verifier::external_body]
fn parse(text: &str, format: &str) -> (r: Option<(i64, u32, i32)>)
    ensures
        r == timestamp_parsed(text@, format@),
{
    match chrono::DateTime::parse_from_str(text, format) {
        Ok(t) => Some((t.timestamp(), t.timestamp_subsec_nanos(), t.offset().local_minus_utc())),
        Err(_) => None,
    }
}

} // verus!
