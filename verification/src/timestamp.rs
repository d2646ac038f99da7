//! Timestamp formatter: a wall-clock timestamp held as plain calendar fields,
//! formatted as `YYYY-MM-DD,HH:MM:SS,` — the prefix of every record written to
//! the log. The clock itself is read through `chrono`; everything done with
//! the reading is verified here.

use vstd::prelude::*;

use chrono::Datelike;
use chrono::Timelike;

verus! {

/// A wall-clock timestamp, down to whole seconds, as plain calendar fields.
#[derive(Clone, Copy, Debug, PartialEq, Eq, Structural)]
pub struct Timestamp {
    pub year: u16,
    pub month: u8,
    pub day: u8,
    pub hour: u8,
    pub minute: u8,
    pub second: u8,
}

/// The ASCII digit for `n`'s last decimal digit.
pub open spec fn ascii_digit(n: int) -> u8 {
    (48 + (n % 10)) as u8
}

impl Timestamp {
    /// The fields lie in calendar range and the year has at most four digits.
    pub open spec fn wf(self) -> bool {
        &&& self.year <= 9999
        &&& 1 <= self.month <= 12
        &&& 1 <= self.day <= 31
        &&& self.hour < 24
        &&& self.minute < 60
        &&& self.second < 60
    }

    /// Builds a timestamp from its fields; rejects any field out of calendar
    /// range.
    pub fn new(year: u16, month: u8, day: u8, hour: u8, minute: u8, second: u8) -> (r: Option<
        Timestamp,
    >)
        ensures
            r is Some <==> (year <= 9999 && 1 <= month <= 12 && 1 <= day <= 31 && hour < 24
                && minute < 60 && second < 60),
            r matches Some(ts) ==> ts == (Timestamp { year, month, day, hour, minute, second })
                && ts.wf(),
    {
        if year <= 9999 && 1 <= month && month <= 12 && 1 <= day && day <= 31 && hour < 24
            && minute < 60 && second < 60 {
            Some(Timestamp { year, month, day, hour, minute, second })
        } else {
            None
        }
    }

    /// `self` is no later than `other`: lexicographic order on the fields,
    /// most significant first.
    pub open spec fn spec_le(self, other: Timestamp) -> bool {
        if self.year != other.year {
            self.year < other.year
        } else if self.month != other.month {
            self.month < other.month
        } else if self.day != other.day {
            self.day < other.day
        } else if self.hour != other.hour {
            self.hour < other.hour
        } else if self.minute != other.minute {
            self.minute < other.minute
        } else {
            self.second <= other.second
        }
    }

    /// Decides whether `self` is no later than `other`.
    pub fn le(&self, other: &Timestamp) -> (r: bool)
        ensures
            r == self.spec_le(*other),
    {
        if self.year != other.year {
            self.year < other.year
        } else if self.month != other.month {
            self.month < other.month
        } else if self.day != other.day {
            self.day < other.day
        } else if self.hour != other.hour {
            self.hour < other.hour
        } else if self.minute != other.minute {
            self.minute < other.minute
        } else {
            self.second <= other.second
        }
    }

    /// The twenty bytes `YYYY-MM-DD,HH:MM:SS,`: zero-padded decimal fields,
    /// dashes inside the date, a comma after it, colons inside the time and a
    /// comma after it.
    pub open spec fn spec_format(self) -> Seq<u8> {
        seq![
            ascii_digit(self.year as int / 1000),
            ascii_digit(self.year as int / 100),
            ascii_digit(self.year as int / 10),
            ascii_digit(self.year as int),
            45u8,
            ascii_digit(self.month as int / 10),
            ascii_digit(self.month as int),
            45u8,
            ascii_digit(self.day as int / 10),
            ascii_digit(self.day as int),
            44u8,
            ascii_digit(self.hour as int / 10),
            ascii_digit(self.hour as int),
            58u8,
            ascii_digit(self.minute as int / 10),
            ascii_digit(self.minute as int),
            58u8,
            ascii_digit(self.second as int / 10),
            ascii_digit(self.second as int),
            44u8,
        ]
    }

    /// Formats the timestamp as the record prefix `YYYY-MM-DD,HH:MM:SS,`.
    #[verifier::rlimit(100)]
    pub fn format(&self) -> (r: Vec<u8>)
        requires
            self.wf(),
        ensures
            r@ == self.spec_format(),
            r@.len() == 20,
    {
        let mut out: Vec<u8> = Vec::new();
        out.push(48 + (self.year / 1000 % 10) as u8);
        out.push(48 + (self.year / 100 % 10) as u8);
        out.push(48 + (self.year / 10 % 10) as u8);
        out.push(48 + (self.year % 10) as u8);
        out.push(45);
        out.push(48 + self.month / 10 % 10);
        out.push(48 + self.month % 10);
        out.push(45);
        out.push(48 + self.day / 10 % 10);
        out.push(48 + self.day % 10);
        out.push(44);
        out.push(48 + self.hour / 10 % 10);
        out.push(48 + self.hour % 10);
        out.push(58);
        out.push(48 + self.minute / 10 % 10);
        out.push(48 + self.minute % 10);
        out.push(58);
        out.push(48 + self.second / 10 % 10);
        out.push(48 + self.second % 10);
        out.push(44);
        proof {
            assert(out@ =~= self.spec_format()) by {
                assert(out@.len() == 20);
            }
        }
        out
    }
}

/// `spec_le` never orders a timestamp after itself.
pub proof fn lemma_le_reflexive(a: Timestamp)
    ensures
        a.spec_le(a),
{
}

/// `spec_le` is transitive: what is no later than something no later than a
/// third is itself no later than the third.
pub proof fn lemma_le_transitive(a: Timestamp, b: Timestamp, c: Timestamp)
    requires
        a.spec_le(b),
        b.spec_le(c),
    ensures
        a.spec_le(c),
{
}

/// Relies on `chrono::Local::now` and the `Datelike`/`Timelike` accessors:
/// month runs from 1 to 12, day of month from 1 to 31, hour from 0 to 23,
/// minute and second from 0 to 59 (a leap second is carried in the sub-second
/// field, which is not read here). Nothing is assumed about the year or about
/// which instant the clock reports.
#[verifier::external_body]
fn clock_now_parts() -> (r: (i32, u32, u32, u32, u32, u32))
    ensures
        1 <= r.1 <= 12,
        1 <= r.2 <= 31,
        r.3 < 24,
        r.4 < 60,
        r.5 < 60,
{
    let now = chrono::Local::now();
    (now.year(), now.month(), now.day(), now.hour(), now.minute(), now.second())
}

/// Builds a timestamp from raw clock fields; rejects a reading whose year does
/// not fit four decimal digits or whose other fields are out of calendar
/// range.
pub fn timestamp_from_clock_parts(
    year: i32,
    month: u32,
    day: u32,
    hour: u32,
    minute: u32,
    second: u32,
) -> (r: Option<Timestamp>)
    ensures
        r is Some <==> (0 <= year <= 9999 && 1 <= month <= 12 && 1 <= day <= 31 && hour < 24
            && minute < 60 && second < 60),
        r matches Some(ts) ==> ts == (Timestamp {
            year: year as u16,
            month: month as u8,
            day: day as u8,
            hour: hour as u8,
            minute: minute as u8,
            second: second as u8,
        }) && ts.wf(),
{
    if 0 <= year && year <= 9999 && 1 <= month && month <= 12 && 1 <= day && day <= 31 && hour < 24
        && minute < 60 && second < 60 {
        Timestamp::new(
            year as u16,
            month as u8,
            day as u8,
            hour as u8,
            minute as u8,
            second as u8,
        )
    } else {
        None
    }
}

/// Reads the wall clock and returns it as a timestamp. `None` only if the
/// clock reports a year outside four decimal digits.
pub fn now() -> (r: Option<Timestamp>)
    ensures
        r matches Some(ts) ==> ts.wf(),
{
    let (year, month, day, hour, minute, second) = clock_now_parts();
    timestamp_from_clock_parts(year, month, day, hour, minute, second)
}

} // verus!
