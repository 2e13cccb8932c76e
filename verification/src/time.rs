use vstd::prelude::*;

use crate::copy::DeepCopy;
use crate::decimal::{decimal_text, format_decimal};

use crate::units::{finite_bits, is_finite_bits, Offset};

verus! {

/// Gregorian leap-year rule.
pub open spec fn spec_is_leap_year(year: int) -> bool {
    year % 4 == 0 && (year % 100 != 0 || year % 400 == 0)
}

/// Number of days of `month` (1 to 12) in `year`.
pub open spec fn spec_days_in_month(year: int, month: int) -> int {
    if month == 4 || month == 6 || month == 9 || month == 11 {
        30
    } else if month == 2 {
        if spec_is_leap_year(year) { 29 } else { 28 }
    } else {
        31
    }
}

/// Whether `(year, month, day)` names a day of the proleptic Gregorian calendar.
pub open spec fn valid_civil_date(year: int, month: int, day: int) -> bool {
    1 <= month <= 12 && 1 <= day <= spec_days_in_month(year, month)
}

/// Whether `(hour, minute, second)` names a time of day.
pub open spec fn valid_civil_time(hour: int, minute: int, second: int) -> bool {
    0 <= hour <= 23 && 0 <= minute <= 59 && 0 <= second <= 59
}

pub fn is_leap_year(year: i32) -> (r: bool)
    ensures
        r == spec_is_leap_year(year as int),
{
    year % 4 == 0 && (year % 100 != 0 || year % 400 == 0)
}

pub fn days_in_month(year: i32, month: u8) -> (r: u8)
    ensures
        r == spec_days_in_month(year as int, month as int),
{
    if month == 4 || month == 6 || month == 9 || month == 11 {
        30
    } else if month == 2 {
        if is_leap_year(year) { 29 } else { 28 }
    } else {
        31
    }
}

/// Errors raised when a civil date or time is out of its calendar range.
#[derive(Clone, Copy, Debug, PartialEq, Eq, Structural)]
pub enum CivilTimeError {
    InvalidMonth(u8),
    InvalidDay { day: u8, maximum: u8 },
    InvalidHour(u8),
    InvalidMinute(u8),
    InvalidSecond(u8),
    InvalidInstant,
}

/// The message of a civil time error.
pub open spec fn civil_time_error_text(error: CivilTimeError) -> Seq<char> {
    match error {
        CivilTimeError::InvalidMonth(month) => "invalid month "@ + decimal_text(month as int),
        CivilTimeError::InvalidDay { day, maximum } => "invalid day "@ + decimal_text(day as int)
            + "; maximum for the month is "@ + decimal_text(maximum as int),
        CivilTimeError::InvalidHour(hour) => "invalid hour "@ + decimal_text(hour as int),
        CivilTimeError::InvalidMinute(minute) => "invalid minute "@ + decimal_text(minute as int),
        CivilTimeError::InvalidSecond(second) => "invalid second "@ + decimal_text(second as int),
        CivilTimeError::InvalidInstant => "astronomical instant must be finite"@,
    }
}

impl CivilTimeError {
    /// The message of this error.
    pub fn to_string(&self) -> (r: String)
        ensures
            r@ == civil_time_error_text(*self),
    {
        match self {
            CivilTimeError::InvalidMonth(month) => {
                let mut text = "invalid month ".to_owned();
                text.append(format_decimal(*month as u64).as_str());
                text
            },
            CivilTimeError::InvalidDay { day, maximum } => {
                let mut text = "invalid day ".to_owned();
                text.append(format_decimal(*day as u64).as_str());
                text.append("; maximum for the month is ");
                text.append(format_decimal(*maximum as u64).as_str());
                text
            },
            CivilTimeError::InvalidHour(hour) => {
                let mut text = "invalid hour ".to_owned();
                text.append(format_decimal(*hour as u64).as_str());
                text
            },
            CivilTimeError::InvalidMinute(minute) => {
                let mut text = "invalid minute ".to_owned();
                text.append(format_decimal(*minute as u64).as_str());
                text
            },
            CivilTimeError::InvalidSecond(second) => {
                let mut text = "invalid second ".to_owned();
                text.append(format_decimal(*second as u64).as_str());
                text
            },
            CivilTimeError::InvalidInstant => "astronomical instant must be finite".to_owned(),
        }
    }
}

/// A day of the proleptic Gregorian calendar.
#[derive(Clone, Copy, Debug, PartialEq, Eq, Structural)]
pub struct CivilDate {
    year: i32,
    month: u8,
    day: u8,
}

impl CivilDate {
    #[verifier::type_invariant]
    closed spec fn inv(self) -> bool {
        valid_civil_date(self.year as int, self.month as int, self.day as int)
    }

    pub closed spec fn spec_year(self) -> i32 {
        self.year
    }

    pub closed spec fn spec_month(self) -> u8 {
        self.month
    }

    pub closed spec fn spec_day(self) -> u8 {
        self.day
    }

    /// Accepts exactly the valid days; a bad month is reported before a bad day.
    pub fn new(year: i32, month: u8, day: u8) -> (r: Result<Self, CivilTimeError>)
        ensures
            r is Ok <==> valid_civil_date(year as int, month as int, day as int),
            r matches Ok(d) ==> d.spec_year() == year && d.spec_month() == month
                && d.spec_day() == day,
            !(1 <= month <= 12) ==> r == Err::<Self, CivilTimeError>(
                CivilTimeError::InvalidMonth(month),
            ),
            (1 <= month <= 12 && !valid_civil_date(year as int, month as int, day as int)) ==> r
                == Err::<Self, CivilTimeError>(
                CivilTimeError::InvalidDay {
                    day,
                    maximum: spec_days_in_month(year as int, month as int) as u8,
                },
            ),
    {
        if month < 1 || month > 12 {
            return Err(CivilTimeError::InvalidMonth(month));
        }
        let maximum = days_in_month(year, month);
        if day == 0 || day > maximum {
            return Err(CivilTimeError::InvalidDay { day, maximum });
        }
        Ok(CivilDate { year, month, day })
    }

    pub fn year(self) -> (r: i32)
        ensures
            r == self.spec_year(),
    {
        self.year
    }

    pub fn month(self) -> (r: u8)
        ensures
            r == self.spec_month(),
            1 <= r <= 12,
    {
        proof { use_type_invariant(&self); }
        self.month
    }

    pub fn day(self) -> (r: u8)
        ensures
            r == self.spec_day(),
            valid_civil_date(self.spec_year() as int, self.spec_month() as int, r as int),
    {
        proof { use_type_invariant(&self); }
        self.day
    }
}

/// A time of day to the second.
#[derive(Clone, Copy, Debug, PartialEq, Eq, Structural)]
pub struct CivilTime {
    hour: u8,
    minute: u8,
    second: u8,
}

impl CivilTime {
    #[verifier::type_invariant]
    closed spec fn inv(self) -> bool {
        valid_civil_time(self.hour as int, self.minute as int, self.second as int)
    }

    pub closed spec fn spec_hour(self) -> u8 {
        self.hour
    }

    pub closed spec fn spec_minute(self) -> u8 {
        self.minute
    }

    pub closed spec fn spec_second(self) -> u8 {
        self.second
    }

    /// Seconds elapsed since midnight at this time.
    pub open spec fn spec_seconds_since_midnight(self) -> int {
        self.spec_hour() * 3600 + self.spec_minute() * 60 + self.spec_second()
    }

    /// Accepts exactly the valid times; the hour is checked first, then the minute, then the second.
    pub fn new(hour: u8, minute: u8, second: u8) -> (r: Result<Self, CivilTimeError>)
        ensures
            r is Ok <==> valid_civil_time(hour as int, minute as int, second as int),
            r matches Ok(t) ==> t.spec_hour() == hour && t.spec_minute() == minute
                && t.spec_second() == second,
            hour > 23 ==> r == Err::<Self, CivilTimeError>(CivilTimeError::InvalidHour(hour)),
            hour <= 23 && minute > 59 ==> r == Err::<Self, CivilTimeError>(
                CivilTimeError::InvalidMinute(minute),
            ),
            hour <= 23 && minute <= 59 && second > 59 ==> r == Err::<Self, CivilTimeError>(
                CivilTimeError::InvalidSecond(second),
            ),
    {
        if hour > 23 {
            return Err(CivilTimeError::InvalidHour(hour));
        }
        if minute > 59 {
            return Err(CivilTimeError::InvalidMinute(minute));
        }
        if second > 59 {
            return Err(CivilTimeError::InvalidSecond(second));
        }
        Ok(CivilTime { hour, minute, second })
    }

    pub fn hour(self) -> (r: u8)
        ensures
            r == self.spec_hour(),
            r <= 23,
    {
        proof { use_type_invariant(&self); }
        self.hour
    }

    pub fn minute(self) -> (r: u8)
        ensures
            r == self.spec_minute(),
            r <= 59,
    {
        proof { use_type_invariant(&self); }
        self.minute
    }

    pub fn second(self) -> (r: u8)
        ensures
            r == self.spec_second(),
            r <= 59,
    {
        proof { use_type_invariant(&self); }
        self.second
    }

    pub fn seconds_since_midnight(self) -> (r: u32)
        ensures
            r == self.spec_seconds_since_midnight(),
            r < 86_400,
    {
        proof { use_type_invariant(&self); }
        self.hour as u32 * 3_600 + self.minute as u32 * 60 + self.second as u32
    }
}

/// Distinct times of day are distinct seconds after midnight.
pub proof fn lemma_seconds_since_midnight_injective(a: CivilTime, b: CivilTime)
    requires
        valid_civil_time(a.spec_hour() as int, a.spec_minute() as int, a.spec_second() as int),
        valid_civil_time(b.spec_hour() as int, b.spec_minute() as int, b.spec_second() as int),
        a.spec_seconds_since_midnight() == b.spec_seconds_since_midnight(),
    ensures
        a.spec_hour() == b.spec_hour(),
        a.spec_minute() == b.spec_minute(),
        a.spec_second() == b.spec_second(),
{
}

/// A calendar day together with a time of that day.
#[derive(Clone, Copy, Debug, PartialEq, Eq, Structural)]
pub struct CivilDateTime {
    pub date: CivilDate,
    pub time: CivilTime,
}

/// The calendar in which a civil date is written.
#[derive(Clone, Debug, PartialEq, Eq)]
pub enum CalendarSpec {
    ProlepticGregorian,
    Julian,
    HistoricalTransition { identifier: String },
}

/// Which of two repeated local times is meant at a clock change.
#[derive(Clone, Copy, Debug, PartialEq, Eq, Structural)]
pub enum TimeChoice {
    Earlier,
    Later,
}

/// What a record claims about the time zone of its civil time.
#[derive(Clone, Debug, PartialEq, Eq)]
pub enum TimeZoneAssertion {
    NamedZone(String),
    FixedOffset(Offset),
    LocalMeanTime,
    LocalApparentTime,
    UniversalTime,
    Unknown,
}

/// A civil date and time as asserted by a source, with its calendar and zone.
#[derive(Clone, Debug, PartialEq, Eq)]
pub struct TemporalAssertion {
    pub civil_datetime: CivilDateTime,
    pub calendar: CalendarSpec,
    pub zone: TimeZoneAssertion,
    pub disambiguation: Option<TimeChoice>,
}

/// An astronomical instant as a finite Julian day, held by its binary64 encoding.
#[derive(Clone, Copy, Debug, PartialEq, Eq, Structural)]
pub struct AstroInstant {
    bits: u64,
}

impl AstroInstant {
    #[verifier::type_invariant]
    closed spec fn inv(self) -> bool {
        finite_bits(self.bits)
    }

    pub closed spec fn spec_bits(self) -> u64 {
        self.bits
    }

    /// Accepts every finite encoding of a Julian day.
    pub fn from_julian_day_bits(bits: u64) -> (r: Result<Self, CivilTimeError>)
        ensures
            r is Ok <==> finite_bits(bits),
            r matches Ok(a) ==> a.spec_bits() == bits,
            r matches Err(e) ==> e == CivilTimeError::InvalidInstant,
    {
        if is_finite_bits(bits) {
            Ok(AstroInstant { bits })
        } else {
            Err(CivilTimeError::InvalidInstant)
        }
    }

    pub fn julian_day_bits(self) -> (r: u64)
        ensures
            r == self.spec_bits(),
            finite_bits(r),
    {
        proof { use_type_invariant(&self); }
        self.bits
    }
}

/// A temporal assertion resolved to an instant, with the offset applied and the zone data used.
#[derive(Clone, Debug, PartialEq, Eq)]
pub struct ResolvedTime {
    pub instant: AstroInstant,
    pub applied_offset: Offset,
    pub timezone_data_version: String,
}

impl DeepCopy for TemporalAssertion {
    open spec fn copy_of(self, other: Self) -> bool {
        self == other
    }

    fn deep_copy(&self) -> (r: Self) {
        let copy = TemporalAssertion {
            civil_datetime: self.civil_datetime,
            calendar: match &self.calendar {
                CalendarSpec::ProlepticGregorian => CalendarSpec::ProlepticGregorian,
                CalendarSpec::Julian => CalendarSpec::Julian,
                CalendarSpec::HistoricalTransition { identifier } => CalendarSpec::HistoricalTransition {
                    identifier: identifier.clone(),
                },
            },
            zone: match &self.zone {
                TimeZoneAssertion::NamedZone(name) => TimeZoneAssertion::NamedZone(name.clone()),
                TimeZoneAssertion::FixedOffset(offset) => TimeZoneAssertion::FixedOffset(*offset),
                TimeZoneAssertion::LocalMeanTime => TimeZoneAssertion::LocalMeanTime,
                TimeZoneAssertion::LocalApparentTime => TimeZoneAssertion::LocalApparentTime,
                TimeZoneAssertion::UniversalTime => TimeZoneAssertion::UniversalTime,
                TimeZoneAssertion::Unknown => TimeZoneAssertion::Unknown,
            },
            disambiguation: self.disambiguation,
        };
        assert(copy.calendar == self.calendar);
        assert(copy.zone == self.zone);
        assert(copy.civil_datetime == self.civil_datetime);
        assert(copy.disambiguation == self.disambiguation);
        assert(copy == *self);
        assert(copy.copy_of(*self));
        copy
    }
}


} // verus!
