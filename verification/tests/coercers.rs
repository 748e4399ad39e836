use plex_api::coerce::{
    bool_from_anything, comma_separated_to_vec, date_from_iso, datetime_from_seconds_string,
    duration_from_seconds, option_bool_from_anything, option_comma_separated_to_vec,
    option_date_from_iso, option_datetime_from_seconds_string, option_duration_from_seconds,
    option_float_text_from_anything, option_pipe_separated_to_vec, option_seconds_to_datetime,
    option_string_from_wire, option_u16_from_anything, option_u32_from_anything,
    option_u64_from_anything, option_u8_from_anything, pipe_separated_to_vec, u16_from_anything,
    u32_from_anything, u64_from_anything, u8_from_anything, PipeSeparator,
    comma_separated_numbers_to_vec, pipe_separated_numbers_to_vec, string_from_wire,
};
use plex_api::error::DecodeError;
use plex_api::numerals::{check_float_numeral, int_to_string, parse_i64, parse_u64, uint_to_string};
use plex_api::time::{Date, Duration, Timestamp};
use plex_api::wire::WireValue;

fn s(text: &str) -> WireValue {
    WireValue::Str(String::from(text))
}

#[test]
fn numeric_from_string_accepts_numerals() {
    assert_eq!(u64_from_anything(&s("128")), Ok(128));
    assert_eq!(u32_from_anything(&s("128")), Ok(128));
    assert_eq!(u64_from_anything(&s("abc")), Err(DecodeError::NumericFormat));
    assert_eq!(u32_from_anything(&s("")), Err(DecodeError::NumericFormat));
}

#[test]
fn numeric_from_native_and_ranges() {
    assert_eq!(u8_from_anything(&WireValue::Int(6)), Ok(6));
    assert_eq!(u8_from_anything(&WireValue::Int(300)), Err(DecodeError::NumericFormat));
    assert_eq!(u8_from_anything(&WireValue::Int(-1)), Err(DecodeError::NumericFormat));
    assert_eq!(u8_from_anything(&s("255")), Ok(255));
    assert_eq!(u8_from_anything(&s("256")), Err(DecodeError::NumericFormat));
    assert_eq!(u16_from_anything(&s("65535")), Ok(65535));
    assert_eq!(u16_from_anything(&s("65536")), Err(DecodeError::NumericFormat));
    assert_eq!(u32_from_anything(&s("4294967295")), Ok(u32::MAX));
    assert_eq!(u32_from_anything(&s("4294967296")), Err(DecodeError::NumericFormat));
    assert_eq!(u64_from_anything(&s("18446744073709551615")), Ok(u64::MAX));
    assert_eq!(u64_from_anything(&s("18446744073709551616")), Err(DecodeError::NumericFormat));
    assert_eq!(u64_from_anything(&WireValue::Bool(true)), Err(DecodeError::NumericFormat));
}

#[test]
fn numeric_optional_forms_absorb_failures() {
    assert_eq!(option_u64_from_anything(Some(&s("42"))), Some(42));
    assert_eq!(option_u64_from_anything(Some(&s("nope"))), None);
    assert_eq!(option_u64_from_anything(None), None);
    assert_eq!(option_u32_from_anything(Some(&WireValue::Int(7))), Some(7));
    assert_eq!(option_u16_from_anything(Some(&s("70000"))), None);
    assert_eq!(option_u8_from_anything(Some(&s("6"))), Some(6));
}

#[test]
fn boolean_from_anything_recognized_forms() {
    assert_eq!(bool_from_anything(&WireValue::Int(1)), Ok(true));
    assert_eq!(bool_from_anything(&s("1")), Ok(true));
    assert_eq!(bool_from_anything(&WireValue::Bool(true)), Ok(true));
    assert_eq!(bool_from_anything(&s("true")), Ok(true));
    assert_eq!(bool_from_anything(&WireValue::Int(0)), Ok(false));
    assert_eq!(bool_from_anything(&s("0")), Ok(false));
    assert_eq!(bool_from_anything(&s("false")), Ok(false));
    assert_eq!(bool_from_anything(&WireValue::Bool(false)), Ok(false));
}

#[test]
fn boolean_from_anything_rejects_everything_else() {
    assert_eq!(bool_from_anything(&s("yes")), Err(DecodeError::BooleanFormat));
    assert_eq!(bool_from_anything(&WireValue::Int(2)), Err(DecodeError::BooleanFormat));
    assert_eq!(bool_from_anything(&s("TRUE")), Err(DecodeError::BooleanFormat));
    assert_eq!(option_bool_from_anything(Some(&s("yes"))), None);
    assert_eq!(option_bool_from_anything(Some(&s("1"))), Some(true));
    assert_eq!(option_bool_from_anything(None), None);
}

#[test]
fn duration_counts_milliseconds() {
    assert_eq!(duration_from_seconds(&s("1500")), Ok(Duration { milliseconds: 1500 }));
    assert_eq!(duration_from_seconds(&WireValue::Int(90)), Ok(Duration { milliseconds: 90 }));
    assert_eq!(duration_from_seconds(&s("ninety")), Err(DecodeError::DurationFormat));
    assert_eq!(option_duration_from_seconds(Some(&s("250"))), Some(Duration { milliseconds: 250 }));
    assert_eq!(option_duration_from_seconds(Some(&s("x"))), None);
    assert_eq!(option_duration_from_seconds(None), None);
}

#[test]
fn datetime_from_epoch_seconds() {
    assert_eq!(
        datetime_from_seconds_string(&s("1547660334")),
        Ok(Timestamp { epoch_seconds: 1547660334 })
    );
    assert_eq!(
        datetime_from_seconds_string(&s("-86400")),
        Ok(Timestamp { epoch_seconds: -86400 })
    );
    assert_eq!(
        datetime_from_seconds_string(&WireValue::Int(0)),
        Ok(Timestamp { epoch_seconds: 0 })
    );
    assert_eq!(
        datetime_from_seconds_string(&s("later")),
        Err(DecodeError::NumericFormat)
    );
    assert_eq!(
        option_datetime_from_seconds_string(Some(&s("10"))),
        Some(Timestamp { epoch_seconds: 10 })
    );
    assert_eq!(option_datetime_from_seconds_string(Some(&s("x"))), None);
}

#[test]
fn seconds_to_datetime_wants_native_integers() {
    assert_eq!(
        option_seconds_to_datetime(Some(&WireValue::Int(1536695183))),
        Some(Timestamp { epoch_seconds: 1536695183 })
    );
    assert_eq!(option_seconds_to_datetime(Some(&s("1536695183"))), None);
    assert_eq!(option_seconds_to_datetime(None), None);
}

#[test]
fn date_from_iso_accepts_real_days() {
    assert_eq!(
        date_from_iso(&s("2019-01-16")),
        Ok(Date { year: 2019, month: 1, day: 16 })
    );
    assert_eq!(
        date_from_iso(&s("2020-02-29")),
        Ok(Date { year: 2020, month: 2, day: 29 })
    );
    assert_eq!(
        date_from_iso(&s("2000-02-29")),
        Ok(Date { year: 2000, month: 2, day: 29 })
    );
}

#[test]
fn date_from_iso_rejects_bad_shapes_and_days() {
    assert_eq!(date_from_iso(&s("2021-02-29")), Err(DecodeError::DateFormat));
    assert_eq!(date_from_iso(&s("1900-02-29")), Err(DecodeError::DateFormat));
    assert_eq!(date_from_iso(&s("2021-13-01")), Err(DecodeError::DateFormat));
    assert_eq!(date_from_iso(&s("2021-04-31")), Err(DecodeError::DateFormat));
    assert_eq!(date_from_iso(&s("2021-1-01")), Err(DecodeError::DateFormat));
    assert_eq!(date_from_iso(&s("2021/01/01")), Err(DecodeError::DateFormat));
    assert_eq!(date_from_iso(&s("21-01-01")), Err(DecodeError::DateFormat));
    assert_eq!(date_from_iso(&WireValue::Int(20210101)), Err(DecodeError::DateFormat));
    assert_eq!(option_date_from_iso(Some(&s("2021-02-29"))), None);
    assert_eq!(
        option_date_from_iso(Some(&s("2021-02-28"))),
        Some(Date { year: 2021, month: 2, day: 28 })
    );
}

#[test]
fn comma_separated_lists_split_in_order() {
    assert_eq!(comma_separated_to_vec("a,b,c"), vec!["a", "b", "c"]);
    assert_eq!(comma_separated_to_vec("solo"), vec!["solo"]);
    assert_eq!(comma_separated_to_vec("a,,b"), vec!["a", "", "b"]);
    assert_eq!(comma_separated_to_vec(""), Vec::<String>::new());
    let from_wire = option_comma_separated_to_vec(Some(&s("x,y")));
    assert_eq!(from_wire, Some(vec![String::from("x"), String::from("y")]));
    assert_eq!(option_comma_separated_to_vec(Some(&WireValue::Int(3))), None);
}

#[test]
fn pipe_separated_lists_use_the_pipe() {
    assert_eq!(PipeSeparator::separator(), "|");
    assert_eq!(pipe_separated_to_vec("x|y"), vec!["x", "y"]);
    assert_eq!(pipe_separated_to_vec("a,b|c"), vec!["a,b", "c"]);
    let from_wire = option_pipe_separated_to_vec(Some(&s("p|q|r")));
    assert_eq!(
        from_wire,
        Some(vec![String::from("p"), String::from("q"), String::from("r")])
    );
}

#[test]
fn separated_numbers_parse_each_element() {
    assert_eq!(comma_separated_numbers_to_vec("5,10,15"), Some(vec![5, 10, 15]));
    assert_eq!(comma_separated_numbers_to_vec("42"), Some(vec![42]));
    assert_eq!(comma_separated_numbers_to_vec(""), Some(Vec::new()));
    assert_eq!(comma_separated_numbers_to_vec("5,x,15"), None);
    assert_eq!(comma_separated_numbers_to_vec("5,,15"), None);
    assert_eq!(pipe_separated_numbers_to_vec("1|2|3"), Some(vec![1, 2, 3]));
    assert_eq!(pipe_separated_numbers_to_vec("1|two"), None);
}

#[test]
fn string_pass_through_wants_strings() {
    assert_eq!(option_string_from_wire(Some(&s("aac"))), Some(String::from("aac")));
    assert_eq!(option_string_from_wire(Some(&WireValue::Int(5))), None);
    assert_eq!(option_string_from_wire(Some(&WireValue::Other)), None);
    assert_eq!(option_string_from_wire(None), None);
}

#[test]
fn required_string_rejects_other_shapes() {
    assert_eq!(string_from_wire(&s("aac")), Ok(String::from("aac")));
    assert_eq!(string_from_wire(&WireValue::Int(5)), Err(DecodeError::StringFormat));
    assert_eq!(string_from_wire(&WireValue::Bool(true)), Err(DecodeError::StringFormat));
    assert_eq!(string_from_wire(&WireValue::Other), Err(DecodeError::StringFormat));
}

#[test]
fn non_scalar_values_satisfy_no_coercer() {
    assert_eq!(bool_from_anything(&WireValue::Other), Err(DecodeError::BooleanFormat));
    assert_eq!(u64_from_anything(&WireValue::Other), Err(DecodeError::NumericFormat));
    assert_eq!(u8_from_anything(&WireValue::Other), Err(DecodeError::NumericFormat));
    assert_eq!(option_bool_from_anything(Some(&WireValue::Other)), None);
    assert_eq!(option_u32_from_anything(Some(&WireValue::Other)), None);
    assert_eq!(option_float_text_from_anything(Some(&WireValue::Other)), None);
    assert_eq!(date_from_iso(&WireValue::Other), Err(DecodeError::DateFormat));
    assert_eq!(duration_from_seconds(&WireValue::Other), Err(DecodeError::DurationFormat));
    assert_eq!(option_comma_separated_to_vec(Some(&WireValue::Other)), None);
}

#[test]
fn float_text_keeps_shape_and_renders_integers() {
    assert_eq!(
        option_float_text_from_anything(Some(&s("23.976"))),
        Some(String::from("23.976"))
    );
    assert_eq!(
        option_float_text_from_anything(Some(&s("-11.3"))),
        Some(String::from("-11.3"))
    );
    assert_eq!(option_float_text_from_anything(Some(&s("abc"))), None);
    assert_eq!(option_float_text_from_anything(Some(&s("1."))), None);
    assert_eq!(option_float_text_from_anything(Some(&s(".5"))), None);
    assert_eq!(
        option_float_text_from_anything(Some(&WireValue::Int(24))),
        Some(String::from("24"))
    );
    assert_eq!(
        option_float_text_from_anything(Some(&WireValue::Int(-24))),
        Some(String::from("-24"))
    );
    assert_eq!(option_float_text_from_anything(Some(&WireValue::Bool(true))), None);
}

#[test]
fn float_shape_check_is_strict() {
    assert!(check_float_numeral("0"));
    assert!(check_float_numeral("48000"));
    assert!(check_float_numeral("23.976"));
    assert!(check_float_numeral("+2.5"));
    assert!(check_float_numeral("-0.0"));
    assert!(!check_float_numeral(""));
    assert!(!check_float_numeral("-"));
    assert!(!check_float_numeral("1.2.3"));
    assert!(!check_float_numeral("1e5"));
}

#[test]
fn numeral_parsing_round_trips_rendering() {
    assert_eq!(parse_u64("0"), Some(0));
    assert_eq!(parse_u64("007"), Some(7));
    assert_eq!(parse_u64("18446744073709551615"), Some(u64::MAX));
    assert_eq!(parse_u64("18446744073709551616"), None);
    assert_eq!(parse_u64("12a"), None);
    assert_eq!(parse_i64("-9223372036854775808"), Some(i64::MIN));
    assert_eq!(parse_i64("9223372036854775807"), Some(i64::MAX));
    assert_eq!(parse_i64("9223372036854775808"), None);
    assert_eq!(parse_i64("-0"), Some(0));
    assert_eq!(uint_to_string(0), "0");
    assert_eq!(uint_to_string(48000), "48000");
    assert_eq!(int_to_string(i64::MIN), "-9223372036854775808");
    assert_eq!(parse_u64(&uint_to_string(123456789)), Some(123456789));
}

#[test]
fn errors_describe_themselves() {
    assert_eq!(DecodeError::NumericFormat.describe(), "invalid numeric value");
    assert_eq!(DecodeError::BooleanFormat.describe(), "invalid boolean value");
    assert_eq!(DecodeError::StringFormat.describe(), "invalid string value");
    assert_eq!(DecodeError::DateFormat.describe(), "invalid date value");
    assert_eq!(DecodeError::DurationFormat.describe(), "invalid duration value");
    assert_eq!(
        DecodeError::UnrecognizedStreamKind.describe(),
        "unrecognized stream kind"
    );
}
