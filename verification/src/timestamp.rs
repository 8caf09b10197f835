//! Points in time as the task store writes them: RFC 3339 texts with an offset from UTC.
//!
//! A [`Timestamp`] holds the plain numbers of such a point: the seconds since the Unix epoch,
//! the nanoseconds within that second, and the offset of its local time in seconds. Reading
//! and writing the text is the work of the `chrono` crate.

use vstd::prelude::*;

verus! {

/// The first second that a timestamp can hold: a day before the year 0 begins in UTC.
pub const EARLIEST_SECONDS: i64 = -62_167_305_600;

/// The last second that a timestamp can hold: a day after the year 9999 ends in UTC.
pub const LATEST_SECONDS: i64 = 253_402_387_199;

/// The nanoseconds in a second.
pub const SECOND_NANOS: u32 = 1_000_000_000;

/// The milliseconds in a second.
pub const SECOND_MILLIS: i64 = 1_000;

/// The nanoseconds in a millisecond.
pub const MILLI_NANOS: u32 = 1_000_000;

/// The seconds past the last timestamp up to which a moment can still be written: fifty
/// days, which is more than the milliseconds of a `u32` reach.
pub const WRITABLE_SECONDS_AHEAD: i64 = 4_320_000;

/// What `chrono::DateTime::parse_from_rfc3339` reads from a text: the Unix seconds, the
/// nanoseconds and the offset in seconds of the date it returns, if it returns one.
pub uninterp spec fn rfc3339_parts(text: Seq<char>) -> Option<(i64, u32, i32)>;

/// The text that `chrono::DateTime::to_rfc3339` writes for the date with these Unix seconds
/// and nanoseconds, seen at this offset.
pub uninterp spec fn rfc3339_text(seconds: i64, nanos: u32, offset: i32) -> Seq<char>;

/// The numbers that make a timestamp: seconds in the years that four digits can write, give or
/// take a day for the offset; nanoseconds of a billion or more only within a leap second,
/// which ends a minute; an offset of less than a day.
pub open spec fn valid_parts(seconds: int, nanos: int, offset: int) -> bool {
    &&& EARLIEST_SECONDS <= seconds <= LATEST_SECONDS
    &&& 0 <= nanos < 2 * SECOND_NANOS
    &&& (nanos >= SECOND_NANOS ==> seconds % 60 == 59)
    &&& -86_400 < offset < 86_400
}

/// The numbers of a moment that can be written: those of a timestamp, and those of a moment
/// up to fifty days after the last timestamp.
pub open spec fn writable_parts(seconds: int, nanos: int, offset: int) -> bool {
    &&& EARLIEST_SECONDS <= seconds <= LATEST_SECONDS + WRITABLE_SECONDS_AHEAD
    &&& 0 <= nanos < 2 * SECOND_NANOS
    &&& (nanos >= SECOND_NANOS ==> seconds % 60 == 59)
    &&& -86_400 < offset < 86_400
}

/// Calls `chrono::DateTime::parse_from_rfc3339` and takes the date apart with `timestamp`,
/// `timestamp_subsec_nanos` and `offset().local_minus_utc()`. Any parse error becomes `None`.
#[verifier::external_body]
fn parse_rfc3339(text: &str) -> (parts: Option<(i64, u32, i32)>)
    ensures
        parts == rfc3339_parts(text@),
{
    match chrono::DateTime::parse_from_rfc3339(text) {
        Ok(date) => Some(
            (date.timestamp(), date.timestamp_subsec_nanos(), date.offset().local_minus_utc()),
        ),
        Err(_) => None,
    }
}

/// Builds the date with `chrono::FixedOffset::east_opt`, `chrono::DateTime::from_timestamp`
/// and `with_timezone`, and calls `to_rfc3339` on it. `east_opt` takes every offset of less
/// than a day, and `from_timestamp` every second of the years -262143 to 262142 with
/// nanoseconds as `writable_parts` describes them, so neither `unwrap` fails.
#[verifier::external_body]
fn format_rfc3339(seconds: i64, nanos: u32, offset: i32) -> (text: String)
    requires
        writable_parts(seconds as int, nanos as int, offset as int),
    ensures
        text@ == rfc3339_text(seconds, nanos, offset),
{
    let zone = chrono::FixedOffset::east_opt(offset).unwrap();
    chrono::DateTime::from_timestamp(seconds, nanos).unwrap().with_timezone(&zone).to_rfc3339()
}

/// What a timestamp stands for.
pub struct Moment {
    /// Seconds since 1970-01-01T00:00:00Z, leap seconds not counted.
    pub seconds: int,
    /// Nanoseconds since that second began; a billion or more within a leap second.
    pub nanos: int,
    /// Seconds by which the local time is ahead of UTC.
    pub offset: int,
}

impl Moment {
    /// Whether these numbers make a timestamp.
    pub open spec fn valid(self) -> bool {
        valid_parts(self.seconds, self.nanos, self.offset)
    }

    /// Milliseconds since the Unix epoch, rounded down.
    pub open spec fn millis(self) -> int {
        self.seconds * SECOND_MILLIS + self.nanos / (MILLI_NANOS as int)
    }

    /// Whether this moment comes after `other`: at a later second, or later within the same
    /// second. The offsets play no part.
    pub open spec fn after(self, other: Moment) -> bool {
        self.seconds > other.seconds || (self.seconds == other.seconds && self.nanos
            > other.nanos)
    }

    /// The RFC 3339 text of this moment, as `chrono` writes it.
    pub open spec fn rfc3339(self) -> Seq<char> {
        rfc3339_text(self.seconds as i64, self.nanos as u32, self.offset as i32)
    }
}

/// The moment in UTC that lies `millis` milliseconds after the Unix epoch.
pub open spec fn moment_of_millis(millis: int) -> Moment {
    Moment {
        seconds: millis / (SECOND_MILLIS as int),
        nanos: (millis % (SECOND_MILLIS as int)) * MILLI_NANOS,
        offset: 0,
    }
}

/// The moment that an RFC 3339 text writes, where `chrono` reads the text and the date that
/// it reads is one that a timestamp holds.
pub open spec fn moment_read(text: Seq<char>) -> Option<Moment> {
    match rfc3339_parts(text) {
        Some((seconds, nanos, offset)) => if valid_parts(
            seconds as int,
            nanos as int,
            offset as int,
        ) {
            Some(Moment { seconds: seconds as int, nanos: nanos as int, offset: offset as int })
        } else {
            None
        },
        None => None,
    }
}

/// A point in time with the offset of the clock that it was read from.
#[derive(Clone, Copy, Debug)]
pub struct Timestamp {
    seconds: i64,
    nanos: u32,
    offset: i32,
}

impl View for Timestamp {
    type V = Moment;

    closed spec fn view(&self) -> Moment {
        Moment { seconds: self.seconds as int, nanos: self.nanos as int, offset: self.offset as int }
    }
}

impl Timestamp {
    #[verifier::type_invariant]
    spec fn well_formed(self) -> bool {
        valid_parts(self.seconds as int, self.nanos as int, self.offset as int)
    }

    /// The timestamp with these numbers, where they make one.
    pub fn from_parts(seconds: i64, nanos: u32, offset: i32) -> (made: Option<Timestamp>)
        ensures
            made is Some <==> valid_parts(seconds as int, nanos as int, offset as int),
            made matches Some(stamp) ==> stamp@ == (Moment {
                seconds: seconds as int,
                nanos: nanos as int,
                offset: offset as int,
            }),
    {
        if seconds < EARLIEST_SECONDS || seconds > LATEST_SECONDS {
            return None;
        }
        if offset <= -86_400 || offset >= 86_400 {
            return None;
        }
        if nanos >= SECOND_NANOS {
            if nanos - SECOND_NANOS >= SECOND_NANOS {
                return None;
            }
            let since_earliest: i64 = seconds - EARLIEST_SECONDS;
            if since_earliest % 60 != 59 {
                return None;
            }
        }
        Some(Timestamp { seconds, nanos, offset })
    }

    /// Reads an RFC 3339 text. A text that is no such date, or a date outside the years that
    /// a timestamp holds, gives `None`.
    pub fn parse(text: &str) -> (made: Option<Timestamp>)
        ensures
            match made {
                Some(stamp) => moment_read(text@) == Some(stamp@),
                None => moment_read(text@) is None,
            },
    {
        match parse_rfc3339(text) {
            Some((seconds, nanos, offset)) => Timestamp::from_parts(seconds, nanos, offset),
            None => None,
        }
    }

    /// The UTC timestamp that lies `millis` milliseconds after the Unix epoch.
    pub fn from_millis(millis: i64) -> (made: Option<Timestamp>)
        ensures
            made is Some <==> moment_of_millis(millis as int).valid(),
            made matches Some(stamp) ==> stamp@ == moment_of_millis(millis as int),
    {
        let (seconds, nanos) = split_millis(millis);
        Timestamp::from_parts(seconds, nanos, 0)
    }

    /// Seconds since the Unix epoch.
    pub fn timestamp(&self) -> (seconds: i64)
        ensures
            seconds == self@.seconds,
            self@.valid(),
    {
        proof {
            use_type_invariant(self);
        }
        self.seconds
    }

    /// Milliseconds since the Unix epoch, rounded down.
    pub fn timestamp_millis(&self) -> (millis: i64)
        ensures
            millis == self@.millis(),
            self@.valid(),
    {
        proof {
            use_type_invariant(self);
        }
        let within: u32 = self.nanos / MILLI_NANOS;
        self.seconds * SECOND_MILLIS + (within as i64)
    }

    /// Whether this timestamp comes after `other`.
    pub fn is_after(&self, other: &Timestamp) -> (after: bool)
        ensures
            after == self@.after(other@),
    {
        self.seconds > other.seconds || (self.seconds == other.seconds && self.nanos
            > other.nanos)
    }

    /// The RFC 3339 text of this timestamp, as `chrono` writes it.
    pub fn to_rfc3339(&self) -> (text: String)
        ensures
            text@ == self@.rfc3339(),
    {
        proof {
            use_type_invariant(self);
        }
        format_rfc3339(self.seconds, self.nanos, self.offset)
    }

    /// The RFC 3339 text, in UTC, of the moment that lies `millis` milliseconds after the
    /// millisecond of this timestamp.
    pub fn rfc3339_after(&self, millis: u32) -> (text: String)
        ensures
            text@ == moment_of_millis(self@.millis() + millis).rfc3339(),
    {
        let (seconds, nanos) = split_millis(self.timestamp_millis() + millis as i64);
        format_rfc3339(seconds, nanos, 0)
    }
}

/// Splits milliseconds since the Unix epoch into whole seconds and the nanoseconds beyond
/// them.
fn split_millis(millis: i64) -> (parts: (i64, u32))
    ensures
        parts.0 == moment_of_millis(millis as int).seconds,
        parts.1 == moment_of_millis(millis as int).nanos,
        parts.1 < SECOND_NANOS,
{
    let ahead: i64 = millis % SECOND_MILLIS;
    let (whole, part): (i64, i64) = if ahead < 0 {
        (millis / SECOND_MILLIS - 1, ahead + SECOND_MILLIS)
    } else {
        (millis / SECOND_MILLIS, ahead)
    };
    assert(whole == millis as int / 1000 && part == millis as int % 1000);
    (whole, (part as u32) * MILLI_NANOS)
}

} // verus!
