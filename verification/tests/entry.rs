use astra::chart::{CoordinateSystem, EventKind, HouseSystem};
use astra::decimal::{format_decimal, format_padded, format_signed, read_i32, read_u8};
use astra::edit_buffer::EditBuffer;
use astra::entry::{
    calendar_key, coordinate_value, disambiguation_key, event_kind_value, format_date, format_time,
    house_value, parse_coordinates, parse_date, parse_event_kind, parse_houses, parse_offset,
    parse_time,
};
use astra::time::{CalendarSpec, CivilDate, CivilTime, CivilTimeError, TimeChoice};
use astra::units::{Binary64, UnitError};

#[test]
fn decimal_text_is_written_as_display_writes_it() {
    assert_eq!(format_decimal(0), "0");
    assert_eq!(format_decimal(1_234_567), "1234567");
    assert_eq!(format_decimal(u64::MAX), u64::MAX.to_string());
    assert_eq!(format_signed(-44), "-44");
    assert_eq!(format_signed(i32::MIN), i32::MIN.to_string());
    assert_eq!(format_padded(7, 4), "0007");
    assert_eq!(format_padded(-44, 4), "-044");
    assert_eq!(format_padded(-12_345, 4), "-12345");
    assert_eq!(format_padded(123, 2), "123");
}

#[test]
fn integer_fields_are_read_as_from_str_reads_them() {
    let cases = ["0", "+7", "-7", "007", "", "+", "-", "2147483647", "2147483648", "-2147483648", "-2147483649", "1a", " 1"];
    for text in cases {
        let n = text.chars().count();
        assert_eq!(read_i32(text, 0, n), text.parse::<i32>().ok(), "i32 {text:?}");
        assert_eq!(read_u8(text, 0, n), text.parse::<u8>().ok(), "u8 {text:?}");
    }
    assert_eq!(read_u8("255", 0, 3), Some(255));
    assert_eq!(read_u8("256", 0, 3), None);
    assert_eq!(read_u8("x12y", 1, 3), Some(12));
}

#[test]
fn dates_read_back_what_is_written() {
    let date = CivilDate::new(712, 3, 5).expect("valid date");
    let text = format_date(date);
    assert_eq!(text, "0712-03-05");
    assert_eq!(parse_date(&text), Ok(date));
    let ancient = CivilDate::new(-44, 3, 15).expect("valid date");
    assert_eq!(format_date(ancient), "-044-03-15");
    assert_eq!(parse_date(&format_date(ancient)), Err("Enter a valid year".to_owned()));
}

#[test]
fn date_entries_report_the_first_problem() {
    assert_eq!(parse_date("2026"), Err("Enter YYYY-MM-DD".to_owned()));
    assert_eq!(parse_date("2026-08"), Err("Enter YYYY-MM-DD".to_owned()));
    assert_eq!(parse_date("2026-08-24-1"), Err("Enter YYYY-MM-DD".to_owned()));
    assert_eq!(parse_date("year-08-24"), Err("Enter a valid year".to_owned()));
    assert_eq!(parse_date("2026-x"), Err("Enter a valid month".to_owned()));
    assert_eq!(parse_date("2026-08-"), Err("Enter a valid day".to_owned()));
    assert_eq!(parse_date("2026-13-01"), Err("invalid month 13".to_owned()));
    assert_eq!(
        parse_date("2026-02-30"),
        Err("invalid day 30; maximum for the month is 28".to_owned())
    );
    assert_eq!(parse_date("+2024-2-29").map(|d| (d.year(), d.month(), d.day())), Ok((2024, 2, 29)));
}

#[test]
fn times_read_back_what_is_written() {
    let time = CivilTime::new(7, 5, 9).expect("valid time");
    assert_eq!(format_time(time), "07:05:09");
    assert_eq!(parse_time(&format_time(time)), Ok(time));
    assert_eq!(parse_time("7:5"), Ok(CivilTime::new(7, 5, 0).expect("valid time")));
    assert_eq!(parse_time("12"), Err("Enter HH:MM or HH:MM:SS".to_owned()));
    assert_eq!(parse_time("1:2:3:4"), Err("Enter HH:MM or HH:MM:SS".to_owned()));
    assert_eq!(parse_time("a:00"), Err("Enter a valid hour".to_owned()));
    assert_eq!(parse_time("10:b"), Err("Enter a valid minute".to_owned()));
    assert_eq!(parse_time("10:00:"), Err("Enter a valid second".to_owned()));
    assert_eq!(parse_time("24:00"), Err("invalid hour 24".to_owned()));
    assert_eq!(parse_time("23:60"), Err("invalid minute 60".to_owned()));
    assert_eq!(parse_time("23:59:60"), Err("invalid second 60".to_owned()));
}

#[test]
fn offsets_are_entered_in_whole_minutes() {
    assert_eq!(parse_offset("+330").expect("offset").seconds(), 19_800);
    assert_eq!(parse_offset("1440").expect("offset").seconds(), 86_400);
    assert_eq!(parse_offset("1.5"), Err("Enter whole offset minutes".to_owned()));
    assert_eq!(parse_offset("99999999"), Err("Offset is too large".to_owned()));
    assert_eq!(
        parse_offset("-1441"),
        Err("UTC offset -86460 seconds is outside the supported range".to_owned())
    );
}

#[test]
fn error_messages_are_written_for_each_variant() {
    assert_eq!(CivilTimeError::InvalidMonth(0).to_string(), "invalid month 0");
    assert_eq!(
        CivilTimeError::InvalidInstant.to_string(),
        "astronomical instant must be finite"
    );
    assert_eq!(
        UnitError::NotFinite.message(),
        Some("numeric value must be finite".to_owned())
    );
    let bound = Binary64 { bits: 0 };
    assert_eq!(UnitError::OutOfRange { minimum: bound, maximum: bound, actual: bound }.message(), None);
}

#[test]
fn choice_keys_read_back() {
    for value in [HouseSystem::NoHouses, HouseSystem::Equal, HouseSystem::Placidus, HouseSystem::WholeSign] {
        assert_eq!(parse_houses(house_value(value)), Some(value));
    }
    for value in [CoordinateSystem::Geocentric, CoordinateSystem::Topocentric, CoordinateSystem::Heliocentric] {
        assert_eq!(parse_coordinates(coordinate_value(value)), Some(value));
    }
    assert_eq!(house_value(HouseSystem::WholeSign), "whole_sign");
    assert_eq!(parse_houses("koch"), None);
    assert_eq!(parse_event_kind(event_kind_value(&EventKind::Ingress)), Some(EventKind::Ingress));
    assert_eq!(event_kind_value(&EventKind::Other("Wedding".to_owned())), "other");
    assert_eq!(parse_event_kind("other"), None);
    assert_eq!(calendar_key(&CalendarSpec::Julian), "julian");
    assert_eq!(calendar_key(&CalendarSpec::ProlepticGregorian), "gregorian");
    assert_eq!(disambiguation_key(Some(TimeChoice::Later)), "later");
    assert_eq!(disambiguation_key(None), "none");
}

#[test]
fn synchronization_waits_for_an_edit_under_way() {
    let mut field = EditBuffer::new(6_u32);
    field.begin();
    field.input("7");
    field.synchronize(9);
    assert_eq!(field.buffer(), "7");
    assert!(field.editing());
    assert_eq!(field.validate(|text| text.parse::<u32>().map_err(|error| error.to_string())), Some(7));
    assert_eq!(field.error(), None);
    field.cancel();
    assert_eq!(field.buffer(), "9");
}
