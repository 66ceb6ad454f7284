//! Points in time, as seconds and nanoseconds since the Unix epoch.
//!
//! The calendar arithmetic is chrono's: this module asks chrono for the
//! current time and for the day on which an instant falls, and keeps what it
//! needs of the answers as integers.

use vstd::prelude::*;

verus! {

/// How far west of UTC the ledger's clock stands: four hours.
pub const WEST_OFFSET_SECS: i32 = 14400;

/// The first second of chrono's calendar: midnight before 1 January of the
/// year -262143, counted from the Unix epoch.
pub const FIRST_SECOND: i64 = -8_334_601_228_800;

/// The last second of chrono's calendar: the one before midnight after
/// 31 December of the year 262142, counted from the Unix epoch.
pub const LAST_SECOND: i64 = 8_210_266_876_799;

/// Whether chrono can hold the instant, that is, whether
/// `chrono::DateTime::from_timestamp(secs, nanos)` yields a date: the second
/// lies inside chrono's calendar, and the nanoseconds stay below one second,
/// or below two in the last second of a minute, which is how chrono writes a
/// leap second.
pub open spec fn representable(secs: int, nanos: int) -> bool {
    &&& FIRST_SECOND <= secs <= LAST_SECOND
    &&& 0 <= nanos
    &&& (nanos < 1_000_000_000 || (nanos < 2_000_000_000 && secs % 60 == 59))
}

/// What chrono writes for the instant under a `strftime` pattern, on a clock
/// `west` seconds west of UTC.
pub uninterp spec fn chrono_text(secs: int, nanos: int, west: int, pattern: Seq<char>) -> Seq<
    char,
>;

/// The pattern of a day: day of the month, month, and the year's last two
/// digits, each with two digits.
pub open spec fn day_pattern() -> Seq<char> {
    "%d %m %y"@
}

/// An instant as plain numbers.
pub struct Instant {
    pub secs: int,
    pub nanos: int,
}

impl Instant {
    /// Strictly later: first by seconds, then by nanoseconds.
    pub open spec fn later_than(self, other: Instant) -> bool {
        self.secs > other.secs || (self.secs == other.secs && self.nanos > other.nanos)
    }

    /// The day of the instant on the ledger's clock, as `dd mm yy`.
    pub open spec fn text(self) -> Seq<char> {
        chrono_text(self.secs, self.nanos, WEST_OFFSET_SECS as int, day_pattern())
    }
}

/// An instant that chrono can hold.
#[derive(Clone, Copy, Debug, PartialEq, Eq, Structural)]
pub struct Timestamp {
    secs: i64,
    nanos: u32,
}

impl View for Timestamp {
    type V = Instant;

    closed spec fn view(&self) -> Instant {
        Instant { secs: self.secs as int, nanos: self.nanos as int }
    }
}

/// Trusted: `chrono::DateTime::from_timestamp`, of which only whether it
/// returned a date is kept. It returns one exactly for the instants that
/// `representable` describes: it refuses a day outside its calendar, and a
/// nanosecond count that its time of day does not take.
#[verifier::external_body]
fn chrono_accepts(secs: i64, nanos: u32) -> (b: bool)
    ensures
        b == representable(secs as int, nanos as int),
{
    chrono::DateTime::from_timestamp(secs, nanos).is_some()
}

/// Trusted: `chrono::Utc::now`, read back through `DateTime::timestamp` and
/// `DateTime::timestamp_subsec_nanos`. Nothing is claimed of which instant it
/// is, only that it is one that chrono can hold: `now` builds its date with
/// `from_timestamp`. On a machine whose clock stands before 1970 `now` does
/// not return.
#[verifier::external_body]
fn utc_now() -> (r: (i64, u32))
    ensures
        representable(r.0 as int, r.1 as int),
{
    let t = chrono::Utc::now();
    (t.timestamp(), t.timestamp_subsec_nanos())
}

/// Trusted: `chrono::DateTime::format`, on the date that `from_timestamp`
/// gives for the pair, moved by `with_timezone` to the zone that
/// `FixedOffset::west_opt` gives for `west`. The text is what `chrono_text`
/// names. The bounds on `west` are those of `west_opt`; the pattern is held
/// to the one of a day, whose three items chrono writes for every date.
#[verifier::external_body]
fn chrono_format(secs: i64, nanos: u32, west: i32, pattern: &str) -> (s: String)
    requires
        representable(secs as int, nanos as int),
        -86_400 < west < 86_400,
        pattern@ == day_pattern(),
    ensures
        s@ == chrono_text(secs as int, nanos as int, west as int, pattern@),
{
    let zone = chrono::FixedOffset::west_opt(west).unwrap();
    let utc = chrono::DateTime::from_timestamp(secs, nanos).unwrap();
    utc.with_timezone(&zone).format(pattern).to_string()
}

impl Timestamp {
    #[verifier::type_invariant]
    spec fn holds(self) -> bool {
        representable(self.secs as int, self.nanos as int)
    }

    /// The instant `secs` seconds and `nanos` nanoseconds after the Unix
    /// epoch, if chrono can hold it.
    pub fn new(secs: i64, nanos: u32) -> (r: Option<Timestamp>)
        ensures
            r is Some <==> representable(secs as int, nanos as int),
            r matches Some(t) ==> t@ == (Instant { secs: secs as int, nanos: nanos as int }),
    {
        if chrono_accepts(secs, nanos) {
            Some(Timestamp { secs, nanos })
        } else {
            None
        }
    }

    /// The current time. It is chrono's reading of the system clock, which
    /// does not return on a machine whose clock stands before 1970.
    pub fn now() -> (t: Timestamp)
        ensures
            representable(t@.secs, t@.nanos),
    {
        let (secs, nanos) = utc_now();
        Timestamp { secs, nanos }
    }

    /// Whole seconds since the Unix epoch.
    pub fn secs(&self) -> (s: i64)
        ensures
            s == self@.secs,
    {
        self.secs
    }

    /// Nanoseconds past the whole second.
    pub fn nanos(&self) -> (n: u32)
        ensures
            n == self@.nanos,
    {
        self.nanos
    }

    /// Whether `self` is strictly later than `other`.
    pub fn is_after(&self, other: &Timestamp) -> (b: bool)
        ensures
            b == self@.later_than(other@),
    {
        self.secs > other.secs || (self.secs == other.secs && self.nanos > other.nanos)
    }

    /// The day of the instant on the ledger's clock, as `dd mm yy`.
    pub fn to_string(&self) -> (s: String)
        ensures
            s@ == self@.text(),
    {
        proof {
            use_type_invariant(self);
        }
        chrono_format(self.secs, self.nanos, WEST_OFFSET_SECS, "%d %m %y")
    }
}

} // verus!
