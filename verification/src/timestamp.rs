//! Creation timestamps: UTC, to the second.
//!
//! The store writes a timestamp as text. Reading that text as a calendar
//! date is left to the `time` crate; what this crate keeps is the number of
//! seconds since the Unix epoch.

use vstd::prelude::*;

verus! {

/// The layout in which the store writes `CURRENT_TIMESTAMP`.
pub const SQLITE_TIMESTAMP_FORMAT: &'static str = "[year]-[month]-[day] [hour]:[minute]:[second]";

/// The Unix time, in seconds, that the `time` crate reads from `text` when
/// it follows the format description `format`; `None` where the description
/// is invalid or the text does not follow it.
pub uninterp spec fn utc_seconds(text: Seq<char>, format: Seq<char>) -> Option<int>;

/// Calls `time::format_description::parse_borrowed` on `format`,
/// `time::UtcDateTime::parse` on `text` with the description that came out,
/// and `UtcDateTime::unix_timestamp` on the date.
///
/// Only for the store's layout. A description with an offset in it makes
/// `UtcDateTime::parse` convert to UTC, and that conversion panics where it
/// leaves the years the crate supports; the store's layout has no offset,
/// so the date is taken as UTC and nothing is converted.
///
/// Trusted: that the seconds returned are `utc_seconds(text, format)`, that
/// nothing is returned exactly where `utc_seconds` is `None`, and that for
/// this layout both calls return an error on a text they do not accept.
#[verifier::external_body]
fn parse_utc_seconds(text: &str, format: &str) -> (parsed: Option<i64>)
    requires
        format@ == SQLITE_TIMESTAMP_FORMAT@,
    ensures
        parsed matches Some(seconds) ==> utc_seconds(text@, format@) == Some(seconds as int),
        parsed is None ==> utc_seconds(text@, format@) is None,
{
    let description = time::format_description::parse_borrowed::<1>(format).ok()?;
    Some(time::UtcDateTime::parse(text, &description).ok()?.unix_timestamp())
}

/// A point in time, UTC, to the second.
#[derive(Debug, Clone, Copy, PartialEq, Eq, PartialOrd, Ord, Hash, Structural)]
pub struct Timestamp {
    /// Seconds since 1970-01-01 00:00:00 UTC.
    pub seconds: i64,
}

impl Timestamp {
    /// What `parse` makes of a text: the timestamp it denotes in the store's
    /// layout, if it denotes one.
    pub open spec fn parsed(text: Seq<char>) -> Option<Timestamp> {
        match utc_seconds(text, SQLITE_TIMESTAMP_FORMAT@) {
            Some(seconds) => Some(Timestamp { seconds: seconds as i64 }),
            None => None,
        }
    }

    /// Reads a timestamp as the store writes it, `YYYY-MM-DD HH:MM:SS`.
    pub fn parse(text: &str) -> (timestamp: Option<Timestamp>)
        ensures
            timestamp == Timestamp::parsed(text@),
    {
        match parse_utc_seconds(text, SQLITE_TIMESTAMP_FORMAT) {
            Some(seconds) => Some(Timestamp { seconds }),
            None => None,
        }
    }

    /// Seconds since the Unix epoch.
    pub fn unix_timestamp(self) -> (seconds: i64)
        ensures
            seconds == self.seconds,
    {
        self.seconds
    }

    /// What `unix_timestamp_u32` returns.
    pub open spec fn spec_unix_timestamp_u32(self) -> u32 {
        if 0 <= self.seconds <= u32::MAX {
            self.seconds as u32
        } else {
            0
        }
    }

    /// The Unix time as an unsigned 32-bit number, for a host that has no
    /// wider integers; zero for a time before the epoch or beyond what 32
    /// bits hold.
    pub fn unix_timestamp_u32(self) -> (seconds: u32)
        ensures
            seconds == self.spec_unix_timestamp_u32(),
    {
        if 0 <= self.seconds && self.seconds <= 0xffff_ffff {
            self.seconds as u32
        } else {
            0
        }
    }
}

} // verus!
