use vstd::prelude::*;

use crate::chart::{CoordinateSystem, EventKind, HouseSystem};
use crate::decimal::{
    all_digits, format_padded, is_digit, lemma_zero_padded, padded_signed_text, parsed_i32,
    parsed_u8, read_i32, read_u8,
};
use crate::ids::text_equals;
use crate::time::{
    civil_time_error_text, spec_days_in_month, valid_civil_date, valid_civil_time, CalendarSpec,
    CivilDate, CivilTime, CivilTimeError, TimeChoice,
};
use crate::units::{offset_range_text, Offset, UnitError};

verus! {

/// Position of the first `c` in `s`, or `s.len()` where there is none.
pub open spec fn index_of_char(s: Seq<char>, c: char) -> int
    decreases s.len(),
{
    if s.len() == 0 {
        0
    } else if s[0] == c {
        0
    } else {
        1 + index_of_char(s.drop_first(), c)
    }
}

pub proof fn lemma_index_of_char(s: Seq<char>, c: char)
    ensures
        0 <= index_of_char(s, c) <= s.len(),
        index_of_char(s, c) < s.len() ==> s[index_of_char(s, c)] == c,
        forall|j: int| 0 <= j < index_of_char(s, c) ==> s[j] != c,
    decreases s.len(),
{
    if s.len() > 0 && s[0] != c {
        lemma_index_of_char(s.drop_first(), c);
        assert forall|j: int| 0 <= j < index_of_char(s, c) implies s[j] != c by {
            if j > 0 {
                assert(s[j] == s.drop_first()[j - 1]);
            }
        }
    }
}

/// `s` split at every `sep`, as `str::split` with a character separates it: one field more than
/// there are separators.
pub open spec fn split_fields(s: Seq<char>, sep: char) -> Seq<Seq<char>>
    decreases s.len(),
{
    let i = index_of_char(s, sep);
    if 0 <= i < s.len() {
        seq![s.take(i)] + split_fields(s.skip(i + 1), sep)
    } else {
        seq![s]
    }
}

pub proof fn lemma_split_fields_nonempty(s: Seq<char>, sep: char)
    ensures
        split_fields(s, sep).len() >= 1,
{
}

/// Whether `s` holds no `c`.
pub open spec fn lacks_char(s: Seq<char>, c: char) -> bool {
    forall|i: int| 0 <= i < s.len() ==> s[i] != c
}

/// A run of digits holds no separator.
pub proof fn lemma_digits_lack_separators(s: Seq<char>)
    requires
        all_digits(s),
    ensures
        lacks_char(s, '-'),
        lacks_char(s, ':'),
{
    assert forall|i: int| 0 <= i < s.len() implies s[i] != '-' && s[i] != ':' by {
        assert(is_digit(s[i]));
    }
}

pub proof fn lemma_index_of_absent(s: Seq<char>, c: char)
    requires
        lacks_char(s, c),
    ensures
        index_of_char(s, c) == s.len(),
    decreases s.len(),
{
    if s.len() > 0 {
        assert(s[0] != c);
        lemma_index_of_absent(s.drop_first(), c);
    }
}

/// A text without `sep` is a single field.
pub proof fn lemma_split_single(s: Seq<char>, sep: char)
    requires
        lacks_char(s, sep),
    ensures
        split_fields(s, sep) == seq![s],
{
    lemma_index_of_absent(s, sep);
}

/// A field without `sep` followed by `sep` is split off first.
pub proof fn lemma_split_first(field: Seq<char>, sep: char, rest: Seq<char>)
    requires
        lacks_char(field, sep),
    ensures
        split_fields(field + seq![sep] + rest, sep) == seq![field] + split_fields(rest, sep),
    decreases field.len(),
{
    let s = field + seq![sep] + rest;
    lemma_index_past(field, sep, rest);
    assert(s.take(field.len() as int) =~= field);
    assert(s.skip(field.len() as int + 1) =~= rest);
}

proof fn lemma_index_past(field: Seq<char>, sep: char, rest: Seq<char>)
    requires
        lacks_char(field, sep),
    ensures
        index_of_char(field + seq![sep] + rest, sep) == field.len(),
    decreases field.len(),
{
    let s = field + seq![sep] + rest;
    if field.len() == 0 {
        assert(s[0] == sep);
    } else {
        assert(s[0] == field[0]);
        assert(s.drop_first() =~= field.drop_first() + seq![sep] + rest);
        lemma_index_past(field.drop_first(), sep, rest);
    }
}

/// How `split_fields` proceeds from position `from`, given the position `end` of the next
/// separator (or the length of `s`).
proof fn lemma_split_from(s: Seq<char>, sep: char, from: int, end: int)
    requires
        0 <= from <= s.len(),
        end == from + index_of_char(s.skip(from), sep),
    ensures
        from <= end <= s.len(),
        end == s.len() ==> split_fields(s.skip(from), sep) == seq![s.subrange(from, s.len() as int)],
        end < s.len() ==> s[end] == sep && split_fields(s.skip(from), sep) == seq![s.subrange(from, end)]
            + split_fields(s.skip(end + 1), sep),
{
    let rest = s.skip(from);
    lemma_index_of_char(rest, sep);
    if end < s.len() {
        assert(rest.take(end - from) =~= s.subrange(from, end));
        assert(rest.skip(end - from + 1) =~= s.skip(end + 1));
        assert(s[end] == rest[end - from]);
    } else {
        assert(rest =~= s.subrange(from, s.len() as int));
    }
}

/// The position of the first `c` in `text` at or after `from`, or the length of `text`.
fn find_char(text: &str, from: usize, c: char) -> (r: usize)
    requires
        from <= text@.len(),
    ensures
        r == from + index_of_char(text@.skip(from as int), c),
        from <= r <= text@.len(),
{
    let n = text.unicode_len();
    let mut i = from;
    proof { lemma_index_of_char(text@.skip(from as int), c); }
    while i < n
        invariant
            from <= i <= n,
            n == text@.len(),
            index_of_char(text@.skip(from as int), c) == (i - from) + index_of_char(text@.skip(i as int), c),
        decreases n - i,
    {
        assert(text@.skip(i as int)[0] == text@[i as int]);
        if text.get_char(i) == c {
            return i;
        }
        assert(text@.skip(i as int).drop_first() =~= text@.skip(i + 1));
        i += 1;
    }
    assert(text@.skip(i as int).len() == 0);
    i
}

/// What a date entry reads as, before the calendar is checked: year, month and day, or the
/// message for the first field that cannot be read.
pub open spec fn date_fields(text: Seq<char>) -> Result<(int, int, int), Seq<char>> {
    let fields = split_fields(text, '-');
    match parsed_i32(fields[0]) {
        None => Err("Enter a valid year"@),
        Some(year) => if fields.len() < 2 {
            Err("Enter YYYY-MM-DD"@)
        } else {
            match parsed_u8(fields[1]) {
                None => Err("Enter a valid month"@),
                Some(month) => if fields.len() < 3 {
                    Err("Enter YYYY-MM-DD"@)
                } else {
                    match parsed_u8(fields[2]) {
                        None => Err("Enter a valid day"@),
                        Some(day) => if fields.len() > 3 {
                            Err("Enter YYYY-MM-DD"@)
                        } else {
                            Ok((year, month, day))
                        },
                    }
                },
            }
        },
    }
}

/// The error `CivilDate::new` reports for an invalid day.
pub open spec fn date_error(year: int, month: int, day: int) -> CivilTimeError {
    if !(1 <= month <= 12) {
        CivilTimeError::InvalidMonth(month as u8)
    } else {
        CivilTimeError::InvalidDay { day: day as u8, maximum: spec_days_in_month(year, month) as u8 }
    }
}

/// What a date entry of the form `YYYY-MM-DD` gives: the date, or the message shown for it.
pub open spec fn date_entry(text: Seq<char>) -> Result<(int, int, int), Seq<char>> {
    match date_fields(text) {
        Err(message) => Err(message),
        Ok((year, month, day)) => if valid_civil_date(year, month, day) {
            Ok((year, month, day))
        } else {
            Err(civil_time_error_text(date_error(year, month, day)))
        },
    }
}

/// Reads a date entry of the form `YYYY-MM-DD`.
pub fn parse_date(text: &str) -> (r: Result<CivilDate, String>)
    ensures
        match date_entry(text@) {
            Ok((year, month, day)) => r matches Ok(date) && date.spec_year() == year
                && date.spec_month() == month && date.spec_day() == day,
            Err(message) => r matches Err(m) && m@ == message,
        },
{
    let n = text.unicode_len();
    let ghost fields = split_fields(text@, '-');
    assert(text@.skip(0) =~= text@);
    let e0 = find_char(text, 0, '-');
    proof { lemma_split_from(text@, '-', 0, e0 as int); }
    let year = match read_i32(text, 0, e0) {
        Some(year) => year,
        None => return Err("Enter a valid year".to_owned()),
    };
    if e0 == n {
        return Err("Enter YYYY-MM-DD".to_owned());
    }
    let e1 = find_char(text, e0 + 1, '-');
    proof { lemma_split_from(text@, '-', e0 + 1, e1 as int); }
    let month = match read_u8(text, e0 + 1, e1) {
        Some(month) => month,
        None => return Err("Enter a valid month".to_owned()),
    };
    if e1 == n {
        return Err("Enter YYYY-MM-DD".to_owned());
    }
    let e2 = find_char(text, e1 + 1, '-');
    proof {
        lemma_split_from(text@, '-', e1 + 1, e2 as int);
        lemma_split_fields_nonempty(text@.skip(e2 + 1), '-');
    }
    let day = match read_u8(text, e1 + 1, e2) {
        Some(day) => day,
        None => return Err("Enter a valid day".to_owned()),
    };
    if e2 < n {
        return Err("Enter YYYY-MM-DD".to_owned());
    }
    match CivilDate::new(year, month, day) {
        Ok(date) => Ok(date),
        Err(error) => Err(error.to_string()),
    }
}

/// How a date is shown for entry: `YYYY-MM-DD`, each field zero-padded to its width.
pub open spec fn date_text(year: int, month: int, day: int) -> Seq<char> {
    padded_signed_text(year, 4) + seq!['-'] + padded_signed_text(month, 2) + seq!['-']
        + padded_signed_text(day, 2)
}

/// Writes a date for entry.
pub fn format_date(value: CivilDate) -> (r: String)
    ensures
        r@ == date_text(value.spec_year() as int, value.spec_month() as int, value.spec_day() as int),
{
    let mut text = format_padded(value.year(), 4);
    text.append("-");
    text.append(format_padded(value.month() as i32, 2).as_str());
    text.append("-");
    text.append(format_padded(value.day() as i32, 2).as_str());
    proof {
        reveal_strlit("-");
        assert(text@ =~= date_text(value.spec_year() as int, value.spec_month() as int, value.spec_day() as int));
    }
    text
}

/// What a time entry reads as, before the clock is checked: hour, minute and second (0 where
/// the entry has none), or the message for what cannot be read.
pub open spec fn time_fields(text: Seq<char>) -> Result<(int, int, int), Seq<char>> {
    let fields = split_fields(text, ':');
    if !(2 <= fields.len() <= 3) {
        Err("Enter HH:MM or HH:MM:SS"@)
    } else {
        match parsed_u8(fields[0]) {
            None => Err("Enter a valid hour"@),
            Some(hour) => match parsed_u8(fields[1]) {
                None => Err("Enter a valid minute"@),
                Some(minute) => if fields.len() == 3 {
                    match parsed_u8(fields[2]) {
                        None => Err("Enter a valid second"@),
                        Some(second) => Ok((hour, minute, second)),
                    }
                } else {
                    Ok((hour, minute, 0))
                },
            },
        }
    }
}

/// The error `CivilTime::new` reports for an invalid time.
pub open spec fn time_error(hour: int, minute: int, second: int) -> CivilTimeError {
    if hour > 23 {
        CivilTimeError::InvalidHour(hour as u8)
    } else if minute > 59 {
        CivilTimeError::InvalidMinute(minute as u8)
    } else {
        CivilTimeError::InvalidSecond(second as u8)
    }
}

/// What a time entry of the form `HH:MM` or `HH:MM:SS` gives: the time, or the message shown.
pub open spec fn time_entry(text: Seq<char>) -> Result<(int, int, int), Seq<char>> {
    match time_fields(text) {
        Err(message) => Err(message),
        Ok((hour, minute, second)) => if valid_civil_time(hour, minute, second) {
            Ok((hour, minute, second))
        } else {
            Err(civil_time_error_text(time_error(hour, minute, second)))
        },
    }
}

/// Reads a time entry of the form `HH:MM` or `HH:MM:SS`.
pub fn parse_time(text: &str) -> (r: Result<CivilTime, String>)
    ensures
        match time_entry(text@) {
            Ok((hour, minute, second)) => r matches Ok(time) && time.spec_hour() == hour
                && time.spec_minute() == minute && time.spec_second() == second,
            Err(message) => r matches Err(m) && m@ == message,
        },
{
    let n = text.unicode_len();
    assert(text@.skip(0) =~= text@);
    let e0 = find_char(text, 0, ':');
    proof { lemma_split_from(text@, ':', 0, e0 as int); }
    if e0 == n {
        return Err("Enter HH:MM or HH:MM:SS".to_owned());
    }
    let e1 = find_char(text, e0 + 1, ':');
    proof { lemma_split_from(text@, ':', e0 + 1, e1 as int); }
    let mut e2 = n;
    if e1 < n {
        e2 = find_char(text, e1 + 1, ':');
        proof {
            lemma_split_from(text@, ':', e1 + 1, e2 as int);
            lemma_split_fields_nonempty(text@.skip(e2 + 1), ':');
        }
        if e2 < n {
            return Err("Enter HH:MM or HH:MM:SS".to_owned());
        }
    }
    let hour = match read_u8(text, 0, e0) {
        Some(hour) => hour,
        None => return Err("Enter a valid hour".to_owned()),
    };
    let minute = match read_u8(text, e0 + 1, e1) {
        Some(minute) => minute,
        None => return Err("Enter a valid minute".to_owned()),
    };
    let mut second: u8 = 0;
    if e1 < n {
        second = match read_u8(text, e1 + 1, e2) {
            Some(second) => second,
            None => return Err("Enter a valid second".to_owned()),
        };
    }
    match CivilTime::new(hour, minute, second) {
        Ok(time) => Ok(time),
        Err(error) => Err(error.to_string()),
    }
}

/// How a time is shown for entry: `HH:MM:SS`, each field zero-padded to two digits.
pub open spec fn time_text(hour: int, minute: int, second: int) -> Seq<char> {
    padded_signed_text(hour, 2) + seq![':'] + padded_signed_text(minute, 2) + seq![':']
        + padded_signed_text(second, 2)
}

/// Writes a time for entry.
pub fn format_time(value: CivilTime) -> (r: String)
    ensures
        r@ == time_text(value.spec_hour() as int, value.spec_minute() as int, value.spec_second() as int),
{
    let mut text = format_padded(value.hour() as i32, 2);
    text.append(":");
    text.append(format_padded(value.minute() as i32, 2).as_str());
    text.append(":");
    text.append(format_padded(value.second() as i32, 2).as_str());
    proof {
        reveal_strlit(":");
        assert(text@ =~= time_text(value.spec_hour() as int, value.spec_minute() as int, value.spec_second() as int));
    }
    text
}

/// What an offset entry in whole minutes gives: the offset in seconds, or the message shown.
pub open spec fn offset_entry(text: Seq<char>) -> Result<int, Seq<char>> {
    match parsed_i32(text) {
        None => Err("Enter whole offset minutes"@),
        Some(minutes) => if !(-2_147_483_648 <= minutes * 60 <= 2_147_483_647) {
            Err("Offset is too large"@)
        } else if !Offset::valid_seconds(minutes * 60) {
            Err(offset_range_text(minutes * 60))
        } else {
            Ok(minutes * 60)
        },
    }
}

/// Reads an offset entry in whole minutes east of UTC.
pub fn parse_offset(text: &str) -> (r: Result<Offset, String>)
    ensures
        match offset_entry(text@) {
            Ok(seconds) => r matches Ok(offset) && offset.spec_seconds() == seconds,
            Err(message) => r matches Err(m) && m@ == message,
        },
{
    let n = text.unicode_len();
    assert(text@.subrange(0, n as int) =~= text@);
    let minutes = match read_i32(text, 0, n) {
        Some(minutes) => minutes,
        None => return Err("Enter whole offset minutes".to_owned()),
    };
    let seconds: i64 = minutes as i64 * 60;
    if seconds < -2_147_483_648 || seconds > 2_147_483_647 {
        return Err("Offset is too large".to_owned());
    }
    match Offset::from_seconds(seconds as i32) {
        Ok(offset) => Ok(offset),
        Err(error) => match error.message() {
            Some(message) => Err(message),
            None => Err(String::new()),
        },
    }
}

/// The key under which a house system is offered for entry.
pub open spec fn house_key(value: HouseSystem) -> Seq<char> {
    match value {
        HouseSystem::NoHouses => "no_houses"@,
        HouseSystem::Equal => "equal"@,
        HouseSystem::Placidus => "placidus"@,
        HouseSystem::WholeSign => "whole_sign"@,
    }
}

/// The house system offered under `key`, if any.
pub open spec fn house_for_key(key: Seq<char>) -> Option<HouseSystem> {
    if key == "no_houses"@ {
        Some(HouseSystem::NoHouses)
    } else if key == "equal"@ {
        Some(HouseSystem::Equal)
    } else if key == "placidus"@ {
        Some(HouseSystem::Placidus)
    } else if key == "whole_sign"@ {
        Some(HouseSystem::WholeSign)
    } else {
        None
    }
}

pub fn house_value(value: HouseSystem) -> (r: &'static str)
    ensures
        r@ == house_key(value),
{
    match value {
        HouseSystem::NoHouses => "no_houses",
        HouseSystem::Equal => "equal",
        HouseSystem::Placidus => "placidus",
        HouseSystem::WholeSign => "whole_sign",
    }
}

pub fn parse_houses(value: &str) -> (r: Option<HouseSystem>)
    ensures
        r == house_for_key(value@),
{
    if text_equals(value, "no_houses") {
        Some(HouseSystem::NoHouses)
    } else if text_equals(value, "equal") {
        Some(HouseSystem::Equal)
    } else if text_equals(value, "placidus") {
        Some(HouseSystem::Placidus)
    } else if text_equals(value, "whole_sign") {
        Some(HouseSystem::WholeSign)
    } else {
        None
    }
}

/// The key under which a coordinate system is offered for entry.
pub open spec fn coordinate_key(value: CoordinateSystem) -> Seq<char> {
    match value {
        CoordinateSystem::Geocentric => "geocentric"@,
        CoordinateSystem::Topocentric => "topocentric"@,
        CoordinateSystem::Heliocentric => "heliocentric"@,
    }
}

/// The coordinate system offered under `key`, if any.
pub open spec fn coordinates_for_key(key: Seq<char>) -> Option<CoordinateSystem> {
    if key == "geocentric"@ {
        Some(CoordinateSystem::Geocentric)
    } else if key == "topocentric"@ {
        Some(CoordinateSystem::Topocentric)
    } else if key == "heliocentric"@ {
        Some(CoordinateSystem::Heliocentric)
    } else {
        None
    }
}

pub fn coordinate_value(value: CoordinateSystem) -> (r: &'static str)
    ensures
        r@ == coordinate_key(value),
{
    match value {
        CoordinateSystem::Geocentric => "geocentric",
        CoordinateSystem::Topocentric => "topocentric",
        CoordinateSystem::Heliocentric => "heliocentric",
    }
}

pub fn parse_coordinates(value: &str) -> (r: Option<CoordinateSystem>)
    ensures
        r == coordinates_for_key(value@),
{
    if text_equals(value, "geocentric") {
        Some(CoordinateSystem::Geocentric)
    } else if text_equals(value, "topocentric") {
        Some(CoordinateSystem::Topocentric)
    } else if text_equals(value, "heliocentric") {
        Some(CoordinateSystem::Heliocentric)
    } else {
        None
    }
}

/// The key under which an event kind is offered for entry; every free-form kind shares one.
pub open spec fn event_kind_key(value: EventKind) -> Seq<char> {
    match value {
        EventKind::Birth => "birth"@,
        EventKind::Event => "event"@,
        EventKind::Ingress => "ingress"@,
        EventKind::Question => "question"@,
        EventKind::Other(_) => "other"@,
    }
}

/// The named event kind offered under `key`, if any; free-form kinds are not chosen by key.
pub open spec fn event_kind_for_key(key: Seq<char>) -> Option<EventKind> {
    if key == "birth"@ {
        Some(EventKind::Birth)
    } else if key == "event"@ {
        Some(EventKind::Event)
    } else if key == "ingress"@ {
        Some(EventKind::Ingress)
    } else if key == "question"@ {
        Some(EventKind::Question)
    } else {
        None
    }
}

pub fn event_kind_value(value: &EventKind) -> (r: &'static str)
    ensures
        r@ == event_kind_key(*value),
{
    match value {
        EventKind::Birth => "birth",
        EventKind::Event => "event",
        EventKind::Ingress => "ingress",
        EventKind::Question => "question",
        EventKind::Other(_) => "other",
    }
}

pub fn parse_event_kind(value: &str) -> (r: Option<EventKind>)
    ensures
        r == event_kind_for_key(value@),
{
    if text_equals(value, "birth") {
        Some(EventKind::Birth)
    } else if text_equals(value, "event") {
        Some(EventKind::Event)
    } else if text_equals(value, "ingress") {
        Some(EventKind::Ingress)
    } else if text_equals(value, "question") {
        Some(EventKind::Question)
    } else {
        None
    }
}

/// The key of a calendar for entry: Julian, or Gregorian for every other calendar.
pub open spec fn calendar_entry_key(value: CalendarSpec) -> Seq<char> {
    match value {
        CalendarSpec::Julian => "julian"@,
        _ => "gregorian"@,
    }
}

pub fn calendar_key(value: &CalendarSpec) -> (r: &'static str)
    ensures
        r@ == calendar_entry_key(*value),
{
    match value {
        CalendarSpec::Julian => "julian",
        _ => "gregorian",
    }
}

/// The key of a repeated-time choice for entry.
pub open spec fn disambiguation_entry_key(value: Option<TimeChoice>) -> Seq<char> {
    match value {
        Some(TimeChoice::Earlier) => "earlier"@,
        Some(TimeChoice::Later) => "later"@,
        None => "none"@,
    }
}

pub fn disambiguation_key(value: Option<TimeChoice>) -> (r: &'static str)
    ensures
        r@ == disambiguation_entry_key(value),
{
    match value {
        Some(TimeChoice::Earlier) => "earlier",
        Some(TimeChoice::Later) => "later",
        None => "none",
    }
}

} // verus!
