//! Value types of the store: due timestamps, recurrences and chat identifiers.

use chrono::{Datelike, Timelike};
use vstd::prelude::*;

use crate::text::{decimal, push_decimal, push_two_digits, string_from, two_digits};

verus! {

/// The earliest year a timestamp can lie in.
pub const MIN_YEAR: i32 = -262143;

/// The latest year a timestamp can lie in.
pub const MAX_YEAR: i32 = 262142;

pub open spec fn is_leap_year(year: int) -> bool {
    year % 4 == 0 && (year % 100 != 0 || year % 400 == 0)
}

/// The number of days of `month` (1 to 12) in `year` of the proleptic
/// Gregorian calendar.
pub open spec fn days_in_month(year: int, month: int) -> int {
    if month == 2 {
        if is_leap_year(year) {
            29
        } else {
            28
        }
    } else if month == 4 || month == 6 || month == 9 || month == 11 {
        30
    } else {
        31
    }
}

/// Whether `year`-`month`-`day` names a day of the calendar, in a year that a
/// timestamp can lie in.
pub open spec fn is_calendar_date(year: int, month: int, day: int) -> bool {
    &&& MIN_YEAR <= year <= MAX_YEAR
    &&& 1 <= month <= 12
    &&& 1 <= day <= days_in_month(year, month)
}

/// Whether `hour`:`minute`:`second` names a time of day.
pub open spec fn is_time_of_day(hour: int, minute: int, second: int) -> bool {
    &&& 0 <= hour < 24
    &&& 0 <= minute < 60
    &&& 0 <= second < 60
}

/// A point in calendar time as its fields: the mathematical value of a
/// [`DueTimestamp`].
pub struct Moment {
    pub year: int,
    pub month: int,
    pub day: int,
    pub hour: int,
    pub minute: int,
    pub second: int,
}

impl Moment {
    /// Whether the fields name an existing day and time of day.
    pub open spec fn valid(self) -> bool {
        &&& is_calendar_date(self.year, self.month, self.day)
        &&& is_time_of_day(self.hour, self.minute, self.second)
    }

    /// Chronological order: `self` lies strictly before `other`.
    pub open spec fn before(self, other: Moment) -> bool {
        if self.year != other.year {
            self.year < other.year
        } else if self.month != other.month {
            self.month < other.month
        } else if self.day != other.day {
            self.day < other.day
        } else if self.hour != other.hour {
            self.hour < other.hour
        } else if self.minute != other.minute {
            self.minute < other.minute
        } else {
            self.second < other.second
        }
    }

    /// The year as written: four digits, and a sign with at least four digits
    /// outside of 0 to 9999.
    pub open spec fn year_text(self) -> Seq<char> {
        if 0 <= self.year <= 9999 {
            two_digits(self.year / 100) + two_digits(self.year % 100)
        } else if self.year > 9999 {
            seq!['+'] + decimal(self.year as nat)
        } else if self.year > -1000 {
            seq!['-'] + two_digits((-self.year) / 100) + two_digits((-self.year) % 100)
        } else {
            seq!['-'] + decimal((-self.year) as nat)
        }
    }

    /// The date as written: `YYYY-MM-DD`.
    pub open spec fn date_text(self) -> Seq<char> {
        self.year_text() + seq!['-'] + two_digits(self.month) + seq!['-'] + two_digits(self.day)
    }

    /// The time as written, to the minute: `HH:MM`.
    pub open spec fn time_text(self) -> Seq<char> {
        two_digits(self.hour) + seq![':'] + two_digits(self.minute)
    }

    /// The moment as written, to the minute: `YYYY-MM-DD HH:MM`.
    pub open spec fn text(self) -> Seq<char> {
        self.date_text() + seq![' '] + self.time_text()
    }
}

/// The moment that lies `seconds` seconds after the given one, as
/// `chrono::NaiveDateTime::checked_add_signed` computes it; `None` where the
/// fields name no moment or the result is out of chrono's range.
pub uninterp spec fn shifted(
    year: int,
    month: int,
    day: int,
    hour: int,
    minute: int,
    second: int,
    seconds: int,
) -> Option<Moment>;

/// The seconds from the start of 1970 to the given moment, as
/// `chrono::NaiveDateTime::and_utc` and `chrono::DateTime::timestamp` count
/// them.
pub uninterp spec fn epoch_seconds(
    year: int,
    month: int,
    day: int,
    hour: int,
    minute: int,
    second: int,
) -> int;

/// The moment that lies `seconds` seconds after the start of 1970, as
/// `chrono::DateTime::from_timestamp` computes it; `None` where that is out
/// of chrono's range.
pub uninterp spec fn moment_at(seconds: int) -> Option<Moment>;

/// When a reminder is due: a day of the calendar and a time of day, to the
/// second.
#[derive(Debug, Clone, Copy, PartialEq, Eq, PartialOrd, Ord, Hash, Structural)]
pub struct DueTimestamp {
    year: i32,
    month: u32,
    day: u32,
    hour: u32,
    minute: u32,
    second: u32,
}

impl View for DueTimestamp {
    type V = Moment;

    closed spec fn view(&self) -> Moment {
        Moment {
            year: self.year as int,
            month: self.month as int,
            day: self.day as int,
            hour: self.hour as int,
            minute: self.minute as int,
            second: self.second as int,
        }
    }
}

/// `chrono::NaiveDate::from_ymd_opt` returns a date exactly when the day
/// exists in the proleptic Gregorian calendar and the year is within
/// chrono's range.
#[verifier::external_body]
pub(crate) fn date_exists(year: i32, month: u32, day: u32) -> (exists: bool)
    ensures
        exists == is_calendar_date(year as int, month as int, day as int),
{
    chrono::NaiveDate::from_ymd_opt(year, month, day).is_some()
}

/// `chrono::NaiveTime::from_hms_opt` returns a time exactly when the hour is
/// below 24 and minute and second are below 60.
#[verifier::external_body]
pub(crate) fn time_exists(hour: u32, minute: u32, second: u32) -> (exists: bool)
    ensures
        exists == is_time_of_day(hour as int, minute as int, second as int),
{
    chrono::NaiveTime::from_hms_opt(hour, minute, second).is_some()
}

/// `chrono::NaiveDateTime::checked_add_signed` on the moment that the fields
/// of `from` name, with a `TimeDelta` of `seconds` seconds. What comes back is
/// a function of the arguments alone, and names an existing moment.
#[verifier::external_body]
fn shift(from: &DueTimestamp, seconds: i64) -> (to: Option<DueTimestamp>)
    ensures
        to matches Some(t) ==> t.wf(),
        to is Some == shifted(
            from@.year,
            from@.month,
            from@.day,
            from@.hour,
            from@.minute,
            from@.second,
            seconds as int,
        ) is Some,
        to matches Some(t) ==> shifted(
            from@.year,
            from@.month,
            from@.day,
            from@.hour,
            from@.minute,
            from@.second,
            seconds as int,
        ) == Some(t@),
{
    let date = chrono::NaiveDate::from_ymd_opt(from.year, from.month, from.day)?;
    let start = date.and_hms_opt(from.hour, from.minute, from.second)?;
    let end = start.checked_add_signed(chrono::TimeDelta::try_seconds(seconds)?)?;
    Some(
        DueTimestamp {
            year: end.year(),
            month: end.month(),
            day: end.day(),
            hour: end.hour(),
            minute: end.minute(),
            second: end.second(),
        },
    )
}

/// `chrono::DateTime::timestamp` of the moment that the fields of `at` name,
/// taken as UTC. What comes back is a function of the arguments alone.
#[verifier::external_body]
fn seconds_of(at: &DueTimestamp) -> (seconds: i64)
    requires
        at.wf(),
    ensures
        seconds == epoch_seconds(
            at@.year,
            at@.month,
            at@.day,
            at@.hour,
            at@.minute,
            at@.second,
        ),
{
    let date = chrono::NaiveDate::from_ymd_opt(at.year, at.month, at.day).unwrap();
    date.and_hms_opt(at.hour, at.minute, at.second).unwrap().and_utc().timestamp()
}

/// `chrono::DateTime::from_timestamp` with `seconds` and no nanoseconds. What
/// comes back is a function of the argument alone, and names an existing
/// moment.
#[verifier::external_body]
fn moment_of(seconds: i64) -> (at: Option<DueTimestamp>)
    ensures
        at matches Some(t) ==> t.wf(),
        at is Some == moment_at(seconds as int) is Some,
        at matches Some(t) ==> moment_at(seconds as int) == Some(t@),
{
    let moment = chrono::DateTime::from_timestamp(seconds, 0)?.naive_utc();
    Some(
        DueTimestamp {
            year: moment.year(),
            month: moment.month(),
            day: moment.day(),
            hour: moment.hour(),
            minute: moment.minute(),
            second: moment.second(),
        },
    )
}

impl DueTimestamp {
    /// Whether the fields name an existing moment.
    pub open spec fn wf(self) -> bool {
        self@.valid()
    }

    /// The moment `year`-`month`-`day` `hour`:`minute`:`second`, if it exists.
    pub fn from_ymd_hms(year: i32, month: u32, day: u32, hour: u32, minute: u32, second: u32) -> (r:
        Option<DueTimestamp>)
        ensures
            r is Some <==> is_calendar_date(year as int, month as int, day as int)
                && is_time_of_day(hour as int, minute as int, second as int),
            r matches Some(t) ==> t.wf() && t@ == (Moment {
                year: year as int,
                month: month as int,
                day: day as int,
                hour: hour as int,
                minute: minute as int,
                second: second as int,
            }),
    {
        if date_exists(year, month, day) && time_exists(hour, minute, second) {
            Some(DueTimestamp { year, month, day, hour, minute, second })
        } else {
            None
        }
    }

    /// The moment as it is stored: the seconds from the start of 1970 to it.
    pub fn timestamp(&self) -> (seconds: i64)
        requires
            self.wf(),
        ensures
            seconds == epoch_seconds(
                self@.year,
                self@.month,
                self@.day,
                self@.hour,
                self@.minute,
                self@.second,
            ),
    {
        seconds_of(self)
    }

    /// The moment that is stored as `seconds`, if there is one.
    pub fn from_timestamp(seconds: i64) -> (r: Option<DueTimestamp>)
        ensures
            match r {
                Some(t) => t.wf() && moment_at(seconds as int) == Some(t@),
                None => moment_at(seconds as int) is None,
            },
    {
        moment_of(seconds)
    }

    pub fn year(&self) -> (r: i32)
        ensures
            r == self@.year,
    {
        self.year
    }

    pub fn month(&self) -> (r: u32)
        ensures
            r == self@.month,
    {
        self.month
    }

    pub fn day(&self) -> (r: u32)
        ensures
            r == self@.day,
    {
        self.day
    }

    pub fn hour(&self) -> (r: u32)
        ensures
            r == self@.hour,
    {
        self.hour
    }

    pub fn minute(&self) -> (r: u32)
        ensures
            r == self@.minute,
    {
        self.minute
    }

    pub fn second(&self) -> (r: u32)
        ensures
            r == self@.second,
    {
        self.second
    }

    /// Whether `self` lies strictly before `other`.
    pub fn is_before(&self, other: &DueTimestamp) -> (r: bool)
        ensures
            r == self@.before(other@),
    {
        if self.year != other.year {
            self.year < other.year
        } else if self.month != other.month {
            self.month < other.month
        } else if self.day != other.day {
            self.day < other.day
        } else if self.hour != other.hour {
            self.hour < other.hour
        } else if self.minute != other.minute {
            self.minute < other.minute
        } else {
            self.second < other.second
        }
    }

    /// Appends the moment as written, to the minute, to `out`.
    pub fn write_to(&self, out: &mut Vec<char>)
        requires
            self.wf(),
        ensures
            final(out)@ == old(out)@ + self@.text(),
    {
        let ghost start = out@;
        if self.year >= 0 && self.year <= 9999 {
            push_two_digits(out, (self.year / 100) as u32);
            push_two_digits(out, (self.year % 100) as u32);
        } else if self.year > 9999 {
            out.push('+');
            push_decimal(out, self.year as u64);
        } else if self.year > -1000 {
            let positive: i32 = -self.year;
            out.push('-');
            push_two_digits(out, (positive / 100) as u32);
            push_two_digits(out, (positive % 100) as u32);
        } else {
            let positive: i32 = -self.year;
            out.push('-');
            push_decimal(out, positive as u64);
        }
        assert(out@ == start + self@.year_text());
        out.push('-');
        push_two_digits(out, self.month);
        out.push('-');
        push_two_digits(out, self.day);
        assert(out@ == start + self@.date_text());
        out.push(' ');
        push_two_digits(out, self.hour);
        out.push(':');
        push_two_digits(out, self.minute);
        assert(out@ == start + self@.text());
    }

    /// The moment as written, to the minute: `YYYY-MM-DD HH:MM`.
    pub fn render(&self) -> (s: String)
        requires
            self.wf(),
        ensures
            s@ == self@.text(),
    {
        let mut out: Vec<char> = Vec::new();
        self.write_to(&mut out);
        string_from(&out)
    }
}

/// The unit that a recurrence counts in.
#[derive(Debug, Clone, Copy, PartialEq, Eq, PartialOrd, Ord, Hash, Structural)]
pub enum RecurrenceUnit {
    Minutes,
    Hours,
    Days,
    Weeks,
    Months,
    Years,
}

/// The number that was read where the number of a unit was expected.
#[derive(Debug, Clone, Copy, PartialEq, Eq, Structural)]
pub struct RecurrenceUnitParseError(pub u8);

impl RecurrenceUnit {
    /// The number a unit is stored as: 1 for minutes up to 6 for years.
    pub open spec fn code(self) -> int {
        match self {
            RecurrenceUnit::Minutes => 1,
            RecurrenceUnit::Hours => 2,
            RecurrenceUnit::Days => 3,
            RecurrenceUnit::Weeks => 4,
            RecurrenceUnit::Months => 5,
            RecurrenceUnit::Years => 6,
        }
    }

    /// The unit stored as `code`, if there is one.
    pub open spec fn of_code(code: int) -> Option<RecurrenceUnit> {
        if code == 1 {
            Some(RecurrenceUnit::Minutes)
        } else if code == 2 {
            Some(RecurrenceUnit::Hours)
        } else if code == 3 {
            Some(RecurrenceUnit::Days)
        } else if code == 4 {
            Some(RecurrenceUnit::Weeks)
        } else if code == 5 {
            Some(RecurrenceUnit::Months)
        } else if code == 6 {
            Some(RecurrenceUnit::Years)
        } else {
            None
        }
    }

    /// The bound that the amount of a recurrence in this unit stays below.
    pub open spec fn ceiling(self) -> int {
        match self {
            RecurrenceUnit::Minutes => 90,
            RecurrenceUnit::Hours => 24,
            RecurrenceUnit::Days => 99,
            RecurrenceUnit::Weeks => 10,
            RecurrenceUnit::Months => 64,
            RecurrenceUnit::Years => 10,
        }
    }

    /// The letter that writes the unit: lower-case `m` for minutes, upper-case
    /// `M` for months.
    pub open spec fn letter(self) -> char {
        match self {
            RecurrenceUnit::Minutes => 'm',
            RecurrenceUnit::Hours => 'h',
            RecurrenceUnit::Days => 'd',
            RecurrenceUnit::Weeks => 'w',
            RecurrenceUnit::Months => 'M',
            RecurrenceUnit::Years => 'y',
        }
    }

    /// The unit that `letter` writes, if it writes one.
    pub open spec fn of_letter(letter: char) -> Option<RecurrenceUnit> {
        if letter == 'm' {
            Some(RecurrenceUnit::Minutes)
        } else if letter == 'h' {
            Some(RecurrenceUnit::Hours)
        } else if letter == 'd' {
            Some(RecurrenceUnit::Days)
        } else if letter == 'w' {
            Some(RecurrenceUnit::Weeks)
        } else if letter == 'M' {
            Some(RecurrenceUnit::Months)
        } else if letter == 'y' {
            Some(RecurrenceUnit::Years)
        } else {
            None
        }
    }

    /// The length of the unit in seconds, for the units of fixed length.
    pub open spec fn seconds(self) -> Option<int> {
        match self {
            RecurrenceUnit::Minutes => Some(60),
            RecurrenceUnit::Hours => Some(3600),
            RecurrenceUnit::Days => Some(86400),
            RecurrenceUnit::Weeks => Some(604800),
            RecurrenceUnit::Months => None,
            RecurrenceUnit::Years => None,
        }
    }

    pub fn to_code(&self) -> (code: u8)
        ensures
            code == self.code(),
    {
        match self {
            RecurrenceUnit::Minutes => 1,
            RecurrenceUnit::Hours => 2,
            RecurrenceUnit::Days => 3,
            RecurrenceUnit::Weeks => 4,
            RecurrenceUnit::Months => 5,
            RecurrenceUnit::Years => 6,
        }
    }

    pub fn max_amount(&self) -> (ceiling: u8)
        ensures
            ceiling == self.ceiling(),
    {
        match self {
            RecurrenceUnit::Minutes => 90,
            RecurrenceUnit::Hours => 24,
            RecurrenceUnit::Days => 99,
            RecurrenceUnit::Weeks => 10,
            RecurrenceUnit::Months => 64,
            RecurrenceUnit::Years => 10,
        }
    }

    pub fn to_letter(&self) -> (letter: char)
        ensures
            letter == self.letter(),
    {
        match self {
            RecurrenceUnit::Minutes => 'm',
            RecurrenceUnit::Hours => 'h',
            RecurrenceUnit::Days => 'd',
            RecurrenceUnit::Weeks => 'w',
            RecurrenceUnit::Months => 'M',
            RecurrenceUnit::Years => 'y',
        }
    }

    pub fn from_letter(letter: char) -> (unit: Option<RecurrenceUnit>)
        ensures
            unit == RecurrenceUnit::of_letter(letter),
    {
        if letter == 'm' {
            Some(RecurrenceUnit::Minutes)
        } else if letter == 'h' {
            Some(RecurrenceUnit::Hours)
        } else if letter == 'd' {
            Some(RecurrenceUnit::Days)
        } else if letter == 'w' {
            Some(RecurrenceUnit::Weeks)
        } else if letter == 'M' {
            Some(RecurrenceUnit::Months)
        } else if letter == 'y' {
            Some(RecurrenceUnit::Years)
        } else {
            None
        }
    }
}

impl TryFrom<u8> for RecurrenceUnit {
    type Error = RecurrenceUnitParseError;

    fn try_from(v: u8) -> (r: Result<RecurrenceUnit, RecurrenceUnitParseError>) {
        if v == 1 {
            Ok(RecurrenceUnit::Minutes)
        } else if v == 2 {
            Ok(RecurrenceUnit::Hours)
        } else if v == 3 {
            Ok(RecurrenceUnit::Days)
        } else if v == 4 {
            Ok(RecurrenceUnit::Weeks)
        } else if v == 5 {
            Ok(RecurrenceUnit::Months)
        } else if v == 6 {
            Ok(RecurrenceUnit::Years)
        } else {
            Err(RecurrenceUnitParseError(v))
        }
    }
}

impl vstd::std_specs::convert::TryFromSpecImpl<u8> for RecurrenceUnit {
    open spec fn obeys_try_from_spec() -> bool {
        true
    }

    open spec fn try_from_spec(v: u8) -> Result<RecurrenceUnit, RecurrenceUnitParseError> {
        match RecurrenceUnit::of_code(v as int) {
            Some(unit) => Ok(unit),
            None => Err(RecurrenceUnitParseError(v)),
        }
    }
}

/// A unit and its code determine each other.
pub proof fn lemma_unit_code(unit: RecurrenceUnit)
    ensures
        1 <= unit.code() <= 6,
        RecurrenceUnit::of_code(unit.code()) == Some(unit),
{
}

/// A repeat interval: so many of a unit.
#[derive(Debug, Clone, Copy, PartialEq, Eq, PartialOrd, Ord, Hash, Structural)]
pub struct Recurrence {
    pub amount: u8,
    pub unit: RecurrenceUnit,
}

/// The later of the days of `month` in `year` that are no later than `day`.
pub open spec fn clamped_day(year: int, month: int, day: int) -> int {
    if day <= days_in_month(year, month) {
        day
    } else {
        days_in_month(year, month)
    }
}

/// `day`, or the last day of `month` in `year` where the month is shorter.
fn last_existing_day(year: i32, month: u32, day: u32) -> (r: u32)
    requires
        MIN_YEAR <= year <= MAX_YEAR,
        1 <= month <= 12,
        1 <= day <= 31,
    ensures
        r == clamped_day(year as int, month as int, day as int),
        is_calendar_date(year as int, month as int, r as int),
{
    let mut d = day;
    while !date_exists(year, month, d)
        invariant
            MIN_YEAR <= year <= MAX_YEAR,
            1 <= month <= 12,
            1 <= d <= day <= 31,
            clamped_day(year as int, month as int, day as int) <= d,
        decreases d,
    {
        d = d - 1;
    }
    d
}

impl Recurrence {
    /// Whether the amount is at least one and below the ceiling of the unit.
    pub open spec fn wf(self) -> bool {
        1 <= self.amount < self.unit.ceiling()
    }

    /// The moment one interval after `from`: for minutes, hours, days and
    /// weeks the moment that many seconds later; for months and years the
    /// same day of the month and time of day that many months or years on,
    /// or the last day of that month where it has no such day. `None` where
    /// that moment lies after the last year a timestamp can lie in.
    pub open spec fn advanced(self, from: Moment) -> Option<Moment> {
        match self.unit {
            RecurrenceUnit::Months => {
                let total = from.month - 1 + self.amount;
                let year = from.year + total / 12;
                let month = total % 12 + 1;
                if year <= MAX_YEAR {
                    Some(Moment { year, month, day: clamped_day(year, month, from.day), ..from })
                } else {
                    None
                }
            },
            RecurrenceUnit::Years => {
                let year = from.year + self.amount;
                if year <= MAX_YEAR {
                    Some(Moment { year, day: clamped_day(year, from.month, from.day), ..from })
                } else {
                    None
                }
            },
            unit => shifted(
                from.year,
                from.month,
                from.day,
                from.hour,
                from.minute,
                from.second,
                self.amount * unit.seconds().unwrap(),
            ),
        }
    }

    /// The suffix that writes the recurrence: `+`, the amount, the letter of
    /// the unit.
    pub open spec fn text(self) -> Seq<char> {
        seq!['+'] + decimal(self.amount as nat) + seq![self.unit.letter()]
    }

    /// The number a recurrence is stored as: the amount in the lowest byte,
    /// the code of the unit in the highest.
    pub open spec fn encoded(self) -> int {
        self.amount + self.unit.code() * 0x100_0000
    }

    /// The recurrence of `amount` of `unit`, unless the amount is zero or not
    /// below the ceiling of the unit.
    pub fn new(amount: u8, unit: RecurrenceUnit) -> (r: Option<Recurrence>)
        ensures
            r == (if 1 <= amount < unit.ceiling() {
                Some(Recurrence { amount, unit })
            } else {
                None
            }),
    {
        if 1 <= amount && amount < unit.max_amount() {
            Some(Recurrence { amount, unit })
        } else {
            None
        }
    }

    /// The moment one interval after `timestamp`.
    pub fn advance(&self, timestamp: DueTimestamp) -> (next: DueTimestamp)
        requires
            timestamp.wf(),
            self.advanced(timestamp@) is Some,
        ensures
            next.wf(),
            self.advanced(timestamp@) == Some(next@),
    {
        match self.unit {
            RecurrenceUnit::Minutes => shift(&timestamp, self.amount as i64 * 60).unwrap(),
            RecurrenceUnit::Hours => shift(&timestamp, self.amount as i64 * 3600).unwrap(),
            RecurrenceUnit::Days => shift(&timestamp, self.amount as i64 * 86400).unwrap(),
            RecurrenceUnit::Weeks => shift(&timestamp, self.amount as i64 * 604800).unwrap(),
            RecurrenceUnit::Months => {
                let total: u32 = timestamp.month - 1 + self.amount as u32;
                let year: i32 = timestamp.year + (total / 12) as i32;
                let month: u32 = total % 12 + 1;
                let day = last_existing_day(year, month, timestamp.day);
                DueTimestamp { year, month, day, ..timestamp }
            },
            RecurrenceUnit::Years => {
                let year: i32 = timestamp.year + self.amount as i32;
                let day = last_existing_day(year, timestamp.month, timestamp.day);
                DueTimestamp { year, day, ..timestamp }
            },
        }
    }

    /// The moment one interval after `timestamp`, or `None` where it lies
    /// after the last year a timestamp can lie in.
    pub fn checked_advance(&self, timestamp: DueTimestamp) -> (next: Option<DueTimestamp>)
        requires
            timestamp.wf(),
        ensures
            next matches Some(t) ==> t.wf() && self.advanced(timestamp@) == Some(t@),
            next is None ==> self.advanced(timestamp@) is None,
    {
        let reachable = match self.unit {
            RecurrenceUnit::Minutes => shift(&timestamp, self.amount as i64 * 60).is_some(),
            RecurrenceUnit::Hours => shift(&timestamp, self.amount as i64 * 3600).is_some(),
            RecurrenceUnit::Days => shift(&timestamp, self.amount as i64 * 86400).is_some(),
            RecurrenceUnit::Weeks => shift(&timestamp, self.amount as i64 * 604800).is_some(),
            RecurrenceUnit::Months => {
                let total: u32 = timestamp.month - 1 + self.amount as u32;
                timestamp.year <= MAX_YEAR - (total / 12) as i32
            },
            RecurrenceUnit::Years => timestamp.year <= MAX_YEAR - self.amount as i32,
        };
        if reachable {
            Some(self.advance(timestamp))
        } else {
            None
        }
    }

    /// Appends the suffix that writes the recurrence to `out`.
    pub fn write_to(&self, out: &mut Vec<char>)
        ensures
            final(out)@ == old(out)@ + self.text(),
    {
        out.push('+');
        push_decimal(out, self.amount as u64);
        out.push(self.unit.to_letter());
        assert(out@ == old(out)@ + self.text());
    }

    /// The suffix that writes the recurrence.
    pub fn render(&self) -> (s: String)
        ensures
            s@ == self.text(),
    {
        let mut out: Vec<char> = Vec::new();
        self.write_to(&mut out);
        string_from(&out)
    }

    /// The number the recurrence is stored as.
    pub fn encode(&self) -> (v: i32)
        ensures
            v == self.encoded(),
    {
        self.amount as i32 + self.unit.to_code() as i32 * 0x100_0000
    }

    /// The recurrence stored as `v`: the amount is its lowest byte, the code of
    /// the unit its highest, read as an unsigned byte; the bytes between are
    /// not looked at. Fails with the highest byte where it is the code of no
    /// unit.
    pub fn decode(v: i32) -> (r: Result<Recurrence, RecurrenceUnitParseError>)
        ensures
            r == Recurrence::decoded(v as int),
    {
        let unsigned: i64 = if v < 0 {
            v as i64 + 0x1_0000_0000
        } else {
            v as i64
        };
        let amount = (unsigned % 0x100) as u8;
        let code = (unsigned / 0x100_0000) as u8;
        match RecurrenceUnit::try_from(code) {
            Ok(unit) => Ok(Recurrence { amount, unit }),
            Err(error) => Err(error),
        }
    }

    /// What the number `v` is read as.
    pub open spec fn decoded(v: int) -> Result<Recurrence, RecurrenceUnitParseError> {
        let unsigned = if v < 0 {
            v + 0x1_0000_0000
        } else {
            v
        };
        let amount = (unsigned % 0x100) as u8;
        let code = (unsigned / 0x100_0000) as u8;
        match RecurrenceUnit::of_code(code as int) {
            Some(unit) => Ok(Recurrence { amount, unit }),
            None => Err(RecurrenceUnitParseError(code)),
        }
    }
}

/// Reading back what a recurrence is stored as gives the recurrence.
pub proof fn lemma_decode_encode(recurrence: Recurrence)
    ensures
        Recurrence::decoded(recurrence.encoded()) == Ok::<Recurrence, RecurrenceUnitParseError>(
            recurrence,
        ),
{
    lemma_unit_code(recurrence.unit);
}

/// Advancing by months or years keeps the time of day, lands in the month
/// that the count of months gives, with the year carried, and on the same day
/// of the month wherever that month has it.
pub proof fn lemma_advance_calendar(recurrence: Recurrence, from: Moment)
    requires
        from.valid(),
        recurrence.advanced(from) is Some,
        recurrence.unit == RecurrenceUnit::Months || recurrence.unit == RecurrenceUnit::Years,
    ensures
        ({
            let to = recurrence.advanced(from).unwrap();
            let months = if recurrence.unit == RecurrenceUnit::Months {
                recurrence.amount as int
            } else {
                12 * recurrence.amount
            };
            &&& to.valid()
            &&& to.year * 12 + (to.month - 1) == from.year * 12 + (from.month - 1) + months
            &&& to.hour == from.hour && to.minute == from.minute && to.second == from.second
            &&& from.day <= days_in_month(to.year, to.month) ==> to.day == from.day
            &&& from.day > days_in_month(to.year, to.month) ==> to.day == days_in_month(
                to.year,
                to.month,
            )
        }),
{
}

/// The identifier of a conversation.
#[derive(Debug, Clone, Copy, PartialEq, Eq, PartialOrd, Ord, Hash, Structural)]
pub struct ChatId(pub i64);

impl From<i64> for ChatId {
    fn from(value: i64) -> (id: ChatId) {
        ChatId(value)
    }
}

impl vstd::std_specs::convert::FromSpecImpl<i64> for ChatId {
    open spec fn obeys_from_spec() -> bool {
        true
    }

    open spec fn from_spec(value: i64) -> ChatId {
        ChatId(value)
    }
}

impl ChatId {
    /// The identifier as a number.
    pub fn value(&self) -> (v: i64)
        ensures
            v == self.0,
    {
        self.0
    }
}

} // verus!
