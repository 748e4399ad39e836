//! Primitive coercers: loose wire values to strict scalars.
//!
//! Each wire quirk gets one coercer with a required and an optional form.
//! The required form propagates a failure as a [`DecodeError`]; the optional
//! form treats a missing input as cleanly absent and treats a coercion
//! failure the same as absence, so it never fails. Callers that need
//! strictness use the required form on a field they know is present.

use vstd::prelude::*;

use crate::error::DecodeError;
use crate::numerals::{
    int_text, int_to_string, is_float_numeral, check_float_numeral, first_occ, lemma_first_occ,
    valid_numeral, numeral_val, valid_i64_numeral, i64_numeral_val, parse_u64, parse_i64,
    lemma_numeral_bound_4, lemma_numeral_small, lemma_numeral_nonneg,
};
use crate::time::{Duration, Timestamp, Date, days_in_month, is_leap_year, valid_ymd};
use crate::wire::WireValue;

verus! {

/// The strict boolean a wire value stands for, if any: a native boolean,
/// or one of `0`, `1`, `"0"`, `"1"`, `"true"`, `"false"`.
pub open spec fn bool_of_wire(w: WireValue) -> Option<bool> {
    match w {
        WireValue::Bool(b) => Some(b),
        WireValue::Int(i) => if i == 0 {
            Some(false)
        } else if i == 1 {
            Some(true)
        } else {
            None
        },
        WireValue::Str(s) => if s@ == "1"@ || s@ == "true"@ {
            Some(true)
        } else if s@ == "0"@ || s@ == "false"@ {
            Some(false)
        } else {
            None
        },
        WireValue::Other => None,
    }
}

/// The non-negative integer a wire value stands for, if it is a native
/// integer or a decimal numeral in `0..=max`.
pub open spec fn num_of_wire(w: WireValue, max: int) -> Option<int> {
    match w {
        WireValue::Bool(_) => None,
        WireValue::Int(i) => if 0 <= i <= max {
            Some(i as int)
        } else {
            None
        },
        WireValue::Str(s) => if valid_numeral(s@) && numeral_val(s@) <= max {
            Some(numeral_val(s@))
        } else {
            None
        },
        WireValue::Other => None,
    }
}

/// The signed integer a wire value stands for, if it is a native integer
/// or a minus-signed decimal numeral that fits in `i64`.
pub open spec fn int_of_wire(w: WireValue) -> Option<int> {
    match w {
        WireValue::Bool(_) => None,
        WireValue::Int(i) => Some(i as int),
        WireValue::Str(s) => if valid_i64_numeral(s@) {
            Some(i64_numeral_val(s@))
        } else {
            None
        },
        WireValue::Other => None,
    }
}

/// The string a wire value carries, if it is a string.
pub open spec fn str_of_wire(w: WireValue) -> Option<String> {
    match w {
        WireValue::Str(s) => Some(s),
        _ => None,
    }
}

/// The decimal floating-point text a wire value stands for: its own text
/// when that text has floating-point shape, or the decimal rendering of a
/// native integer.
pub open spec fn float_text_of_wire(w: WireValue) -> Option<Seq<char>> {
    match w {
        WireValue::Bool(_) => None,
        WireValue::Int(i) => Some(int_text(i as int)),
        WireValue::Str(s) => if is_float_numeral(s@) {
            Some(s@)
        } else {
            None
        },
        WireValue::Other => None,
    }
}

/// Required boolean coercion.
pub fn bool_from_anything(w: &WireValue) -> (r: Result<bool, DecodeError>)
    ensures
        r == match bool_of_wire(*w) {
            Some(b) => Ok::<bool, DecodeError>(b),
            None => Err::<bool, DecodeError>(DecodeError::BooleanFormat),
        },
{
    match w {
        WireValue::Bool(b) => Ok(*b),
        WireValue::Int(i) => {
            if *i == 0 {
                Ok(false)
            } else if *i == 1 {
                Ok(true)
            } else {
                Err(DecodeError::BooleanFormat)
            }
        },
        WireValue::Str(s) => {
            if crate::wire::str_eq(s.as_str(), "1") || crate::wire::str_eq(s.as_str(), "true") {
                Ok(true)
            } else if crate::wire::str_eq(s.as_str(), "0") || crate::wire::str_eq(
                s.as_str(),
                "false",
            ) {
                Ok(false)
            } else {
                Err(DecodeError::BooleanFormat)
            }
        },
        WireValue::Other => Err(DecodeError::BooleanFormat),
    }
}

/// Optional boolean coercion: absence and failure both yield absence.
pub fn option_bool_from_anything(w: Option<&WireValue>) -> (r: Option<bool>)
    ensures
        r == match w {
            Some(v) => bool_of_wire(*v),
            None => None::<bool>,
        },
{
    match w {
        Some(v) => match bool_from_anything(v) {
            Ok(b) => Some(b),
            Err(_) => None,
        },
        None => None,
    }
}

/// Required numeric coercion into `u64`.
pub fn u64_from_anything(w: &WireValue) -> (r: Result<u64, DecodeError>)
    ensures
        r == match num_of_wire(*w, u64::MAX as int) {
            Some(n) => Ok::<u64, DecodeError>(n as u64),
            None => Err::<u64, DecodeError>(DecodeError::NumericFormat),
        },
{
    match w {
        WireValue::Bool(_) => Err(DecodeError::NumericFormat),
        WireValue::Int(i) => {
            if *i >= 0 {
                Ok(*i as u64)
            } else {
                Err(DecodeError::NumericFormat)
            }
        },
        WireValue::Str(s) => {
            proof {
                if valid_numeral(s@) {
                    lemma_numeral_nonneg(s@);
                }
            }
            match parse_u64(s.as_str()) {
                Some(v) => Ok(v),
                None => Err(DecodeError::NumericFormat),
            }
        },
        WireValue::Other => Err(DecodeError::NumericFormat),
    }
}

/// A numeral a wire string carries denotes a non-negative value.
proof fn lemma_wire_numeral_nonneg(w: WireValue)
    ensures
        match w {
            WireValue::Str(s) => valid_numeral(s@) ==> numeral_val(s@) >= 0,
            _ => true,
        },
{
    match w {
        WireValue::Str(s) => {
            if valid_numeral(s@) {
                lemma_numeral_nonneg(s@);
            }
        },
        _ => {},
    }
}

/// Required numeric coercion into `u32`.
pub fn u32_from_anything(w: &WireValue) -> (r: Result<u32, DecodeError>)
    ensures
        r == match num_of_wire(*w, u32::MAX as int) {
            Some(n) => Ok::<u32, DecodeError>(n as u32),
            None => Err::<u32, DecodeError>(DecodeError::NumericFormat),
        },
{
    proof {
        lemma_wire_numeral_nonneg(*w);
    }
    match u64_from_anything(w) {
        Ok(v) => {
            if v <= u32::MAX as u64 {
                Ok(v as u32)
            } else {
                Err(DecodeError::NumericFormat)
            }
        },
        Err(e) => Err(e),
    }
}

/// Required numeric coercion into `u16`.
pub fn u16_from_anything(w: &WireValue) -> (r: Result<u16, DecodeError>)
    ensures
        r == match num_of_wire(*w, u16::MAX as int) {
            Some(n) => Ok::<u16, DecodeError>(n as u16),
            None => Err::<u16, DecodeError>(DecodeError::NumericFormat),
        },
{
    proof {
        lemma_wire_numeral_nonneg(*w);
    }
    match u64_from_anything(w) {
        Ok(v) => {
            if v <= u16::MAX as u64 {
                Ok(v as u16)
            } else {
                Err(DecodeError::NumericFormat)
            }
        },
        Err(e) => Err(e),
    }
}

/// Required numeric coercion into `u8`.
pub fn u8_from_anything(w: &WireValue) -> (r: Result<u8, DecodeError>)
    ensures
        r == match num_of_wire(*w, u8::MAX as int) {
            Some(n) => Ok::<u8, DecodeError>(n as u8),
            None => Err::<u8, DecodeError>(DecodeError::NumericFormat),
        },
{
    proof {
        lemma_wire_numeral_nonneg(*w);
    }
    match u64_from_anything(w) {
        Ok(v) => {
            if v <= u8::MAX as u64 {
                Ok(v as u8)
            } else {
                Err(DecodeError::NumericFormat)
            }
        },
        Err(e) => Err(e),
    }
}

/// Required signed numeric coercion into `i64`.
pub fn i64_from_anything(w: &WireValue) -> (r: Result<i64, DecodeError>)
    ensures
        r == match int_of_wire(*w) {
            Some(n) => Ok::<i64, DecodeError>(n as i64),
            None => Err::<i64, DecodeError>(DecodeError::NumericFormat),
        },
{
    match w {
        WireValue::Bool(_) => Err(DecodeError::NumericFormat),
        WireValue::Int(i) => Ok(*i),
        WireValue::Str(s) => match parse_i64(s.as_str()) {
            Some(v) => Ok(v),
            None => Err(DecodeError::NumericFormat),
        },
        WireValue::Other => Err(DecodeError::NumericFormat),
    }
}

/// Optional numeric coercion into `u64`.
pub fn option_u64_from_anything(w: Option<&WireValue>) -> (r: Option<u64>)
    ensures
        r == match w {
            Some(v) => match num_of_wire(*v, u64::MAX as int) {
                Some(n) => Some(n as u64),
                None => None::<u64>,
            },
            None => None::<u64>,
        },
{
    match w {
        Some(v) => match u64_from_anything(v) {
            Ok(n) => Some(n),
            Err(_) => None,
        },
        None => None,
    }
}

/// Optional numeric coercion into `u32`.
pub fn option_u32_from_anything(w: Option<&WireValue>) -> (r: Option<u32>)
    ensures
        r == match w {
            Some(v) => match num_of_wire(*v, u32::MAX as int) {
                Some(n) => Some(n as u32),
                None => None::<u32>,
            },
            None => None::<u32>,
        },
{
    match w {
        Some(v) => match u32_from_anything(v) {
            Ok(n) => Some(n),
            Err(_) => None,
        },
        None => None,
    }
}

/// Optional numeric coercion into `u16`.
pub fn option_u16_from_anything(w: Option<&WireValue>) -> (r: Option<u16>)
    ensures
        r == match w {
            Some(v) => match num_of_wire(*v, u16::MAX as int) {
                Some(n) => Some(n as u16),
                None => None::<u16>,
            },
            None => None::<u16>,
        },
{
    match w {
        Some(v) => match u16_from_anything(v) {
            Ok(n) => Some(n),
            Err(_) => None,
        },
        None => None,
    }
}

/// Optional numeric coercion into `u8`.
pub fn option_u8_from_anything(w: Option<&WireValue>) -> (r: Option<u8>)
    ensures
        r == match w {
            Some(v) => match num_of_wire(*v, u8::MAX as int) {
                Some(n) => Some(n as u8),
                None => None::<u8>,
            },
            None => None::<u8>,
        },
{
    match w {
        Some(v) => match u8_from_anything(v) {
            Ok(n) => Some(n),
            Err(_) => None,
        },
        None => None,
    }
}

/// Required string coercion: a field that must carry text fails when its
/// value has any other shape.
pub fn string_from_wire(w: &WireValue) -> (r: Result<String, DecodeError>)
    ensures
        r == match str_of_wire(*w) {
            Some(s) => Ok::<String, DecodeError>(s),
            None => Err::<String, DecodeError>(DecodeError::StringFormat),
        },
{
    match w {
        WireValue::Str(s) => Ok(s.clone()),
        _ => Err(DecodeError::StringFormat),
    }
}

/// Optional string pass-through: a non-string wire value counts as absent.
pub fn option_string_from_wire(w: Option<&WireValue>) -> (r: Option<String>)
    ensures
        r == match w {
            Some(v) => str_of_wire(*v),
            None => None::<String>,
        },
{
    match w {
        Some(WireValue::Str(s)) => Some(s.clone()),
        _ => None,
    }
}

/// Optional floating-point text: the text itself when it has decimal
/// floating-point shape, the decimal rendering of a native integer, and
/// absence for anything else.
pub fn option_float_text_from_anything(w: Option<&WireValue>) -> (r: Option<String>)
    ensures
        match w {
            Some(v) => match float_text_of_wire(*v) {
                Some(t) => r matches Some(x) && x@ == t,
                None => r is None,
            },
            None => r is None,
        },
{
    match w {
        Some(WireValue::Str(s)) => {
            if check_float_numeral(s.as_str()) {
                Some(s.clone())
            } else {
                None
            }
        },
        Some(WireValue::Int(i)) => Some(int_to_string(*i)),
        _ => None,
    }
}

/// Required duration coercion.
///
/// The wire field is named in seconds, but the surrounding system has
/// always treated the numeral as a count of milliseconds; that observed
/// behaviour is kept deliberately. The count is taken modulo two's
/// complement into `i64`, as a plain integer cast would.
pub fn duration_from_seconds(w: &WireValue) -> (r: Result<Duration, DecodeError>)
    ensures
        r == match num_of_wire(*w, u64::MAX as int) {
            Some(n) => Ok::<Duration, DecodeError>(Duration { milliseconds: n as u64 as i64 }),
            None => Err::<Duration, DecodeError>(DecodeError::DurationFormat),
        },
{
    match u64_from_anything(w) {
        Ok(n) => Ok(Duration { milliseconds: n as i64 }),
        Err(_) => Err(DecodeError::DurationFormat),
    }
}

/// Optional duration coercion.
pub fn option_duration_from_seconds(w: Option<&WireValue>) -> (r: Option<Duration>)
    ensures
        r == match w {
            Some(v) => match num_of_wire(*v, u64::MAX as int) {
                Some(n) => Some(Duration { milliseconds: n as u64 as i64 }),
                None => None::<Duration>,
            },
            None => None::<Duration>,
        },
{
    match w {
        Some(v) => match duration_from_seconds(v) {
            Ok(d) => Some(d),
            Err(_) => None,
        },
        None => None,
    }
}

/// Required timestamp coercion: a count of Unix epoch seconds, written as
/// a native integer or a minus-signed decimal numeral.
pub fn datetime_from_seconds_string(w: &WireValue) -> (r: Result<Timestamp, DecodeError>)
    ensures
        r == match int_of_wire(*w) {
            Some(n) => Ok::<Timestamp, DecodeError>(Timestamp { epoch_seconds: n as i64 }),
            None => Err::<Timestamp, DecodeError>(DecodeError::NumericFormat),
        },
{
    match i64_from_anything(w) {
        Ok(n) => Ok(Timestamp { epoch_seconds: n }),
        Err(e) => Err(e),
    }
}

/// Optional timestamp coercion from a numeral or native integer.
pub fn option_datetime_from_seconds_string(w: Option<&WireValue>) -> (r: Option<Timestamp>)
    ensures
        r == match w {
            Some(v) => match int_of_wire(*v) {
                Some(n) => Some(Timestamp { epoch_seconds: n as i64 }),
                None => None::<Timestamp>,
            },
            None => None::<Timestamp>,
        },
{
    match w {
        Some(v) => match datetime_from_seconds_string(v) {
            Ok(t) => Some(t),
            Err(_) => None,
        },
        None => None,
    }
}

/// Optional timestamp coercion that accepts only a native integer, for
/// fields the server writes as plain epoch seconds.
pub fn option_seconds_to_datetime(w: Option<&WireValue>) -> (r: Option<Timestamp>)
    ensures
        r == match w {
            Some(v) => match *v {
                WireValue::Int(i) => Some(Timestamp { epoch_seconds: i }),
                _ => None::<Timestamp>,
            },
            None => None::<Timestamp>,
        },
{
    match w {
        Some(WireValue::Int(i)) => Some(Timestamp { epoch_seconds: *i }),
        _ => None,
    }
}

/// The shape of an ISO `YYYY-MM-DD` date whose fields name a real
/// calendar day.
pub open spec fn is_iso_date(s: Seq<char>) -> bool {
    s.len() == 10 && s[4] == '-' && s[7] == '-' && valid_numeral(s.subrange(0, 4))
        && valid_numeral(s.subrange(5, 7)) && valid_numeral(s.subrange(8, 10)) && valid_ymd(
        numeral_val(s.subrange(0, 4)),
        numeral_val(s.subrange(5, 7)),
        numeral_val(s.subrange(8, 10)),
    )
}

/// The date an ISO `YYYY-MM-DD` string denotes.
pub open spec fn iso_date_of(s: Seq<char>) -> Date {
    Date {
        year: numeral_val(s.subrange(0, 4)) as u16,
        month: numeral_val(s.subrange(5, 7)) as u8,
        day: numeral_val(s.subrange(8, 10)) as u8,
    }
}

/// How many days the given month has; the executable twin of
/// [`days_in_month`].
fn days_in_month_exec(y: u64, m: u64) -> (r: u64)
    requires
        1 <= m <= 12,
    ensures
        r == days_in_month(y as int, m as int),
{
    if m == 2 {
        let leap = y % 4 == 0 && (y % 100 != 0 || y % 400 == 0);
        proof {
            assert(leap == is_leap_year(y as int));
        }
        if leap {
            29
        } else {
            28
        }
    } else if m == 4 || m == 6 || m == 9 || m == 11 {
        30
    } else {
        31
    }
}

/// Parses a strict `YYYY-MM-DD` string into a calendar date.
///
/// Anything else — wrong length, wrong separators, non-digits, or fields
/// that name no real day — fails with `DateFormat`.
pub fn parse_iso_date(s: &str) -> (r: Result<Date, DecodeError>)
    ensures
        is_iso_date(s@) ==> r == Ok::<Date, DecodeError>(iso_date_of(s@)),
        !is_iso_date(s@) ==> r == Err::<Date, DecodeError>(DecodeError::DateFormat),
        r matches Ok(d) ==> d.well_formed(),
{
    let n = s.unicode_len();
    if n != 10 {
        return Err(DecodeError::DateFormat);
    }
    if s.get_char(4) != '-' || s.get_char(7) != '-' {
        return Err(DecodeError::DateFormat);
    }
    let ys = s.substring_char(0, 4);
    let ms = s.substring_char(5, 7);
    let ds = s.substring_char(8, 10);
    proof {
        assert(ys@ =~= s@.subrange(0, 4));
        assert(ms@ =~= s@.subrange(5, 7));
        assert(ds@ =~= s@.subrange(8, 10));
    }
    let y = match parse_u64(ys) {
        Some(v) => v,
        None => {
            proof {
                if valid_numeral(ys@) {
                    lemma_numeral_bound_4(ys@);
                }
            }
            return Err(DecodeError::DateFormat);
        },
    };
    let m = match parse_u64(ms) {
        Some(v) => v,
        None => {
            proof {
                if valid_numeral(ms@) {
                    lemma_numeral_small(ms@);
                }
            }
            return Err(DecodeError::DateFormat);
        },
    };
    let d = match parse_u64(ds) {
        Some(v) => v,
        None => {
            proof {
                if valid_numeral(ds@) {
                    lemma_numeral_small(ds@);
                }
            }
            return Err(DecodeError::DateFormat);
        },
    };
    proof {
        lemma_numeral_bound_4(ys@);
        lemma_numeral_small(ms@);
        lemma_numeral_small(ds@);
        lemma_numeral_nonneg(ys@);
        lemma_numeral_nonneg(ms@);
        lemma_numeral_nonneg(ds@);
    }
    if m < 1 || m > 12 {
        return Err(DecodeError::DateFormat);
    }
    let dim = days_in_month_exec(y, m);
    if d < 1 || d > dim {
        return Err(DecodeError::DateFormat);
    }
    Ok(Date { year: y as u16, month: m as u8, day: d as u8 })
}

/// Required date coercion from a wire value.
pub fn date_from_iso(w: &WireValue) -> (r: Result<Date, DecodeError>)
    ensures
        r == match *w {
            WireValue::Str(s) => if is_iso_date(s@) {
                Ok::<Date, DecodeError>(iso_date_of(s@))
            } else {
                Err::<Date, DecodeError>(DecodeError::DateFormat)
            },
            _ => Err::<Date, DecodeError>(DecodeError::DateFormat),
        },
{
    match w {
        WireValue::Str(s) => parse_iso_date(s.as_str()),
        _ => Err(DecodeError::DateFormat),
    }
}

/// Optional date coercion.
pub fn option_date_from_iso(w: Option<&WireValue>) -> (r: Option<Date>)
    ensures
        r == match w {
            Some(v) => match *v {
                WireValue::Str(s) => if is_iso_date(s@) {
                    Some(iso_date_of(s@))
                } else {
                    None::<Date>
                },
                _ => None::<Date>,
            },
            None => None::<Date>,
        },
{
    match w {
        Some(v) => match date_from_iso(v) {
            Ok(d) => Some(d),
            Err(_) => None,
        },
        None => None,
    }
}

/// The views of a sequence of strings.
pub open spec fn views_of(ss: Seq<String>) -> Seq<Seq<char>> {
    ss.map_values(|x: String| x@)
}

/// Mapping to views commutes with appending one string.
pub proof fn lemma_views_push(ss: Seq<String>, x: String)
    ensures
        views_of(ss.push(x)) =~= views_of(ss).push(x@),
{
}

/// The segments of `s` between occurrences of the separator, in order;
/// a separator at either end or two adjacent ones contribute empty
/// segments, exactly as the text reads.
pub open spec fn segments(s: Seq<char>, sep: char) -> Seq<Seq<char>>
    decreases s.len(),
    via segments_decreases
{
    let k = first_occ(s, sep);
    if k < 0 {
        seq![s]
    } else {
        seq![s.subrange(0, k)] + segments(s.subrange(k + 1, s.len() as int), sep)
    }
}

#[via_fn]
proof fn segments_decreases(s: Seq<char>, sep: char) {
    lemma_first_occ(s, sep);
}

/// What splitting separated text yields: nothing for empty text, and the
/// separated segments otherwise.
pub open spec fn list_of(s: Seq<char>, sep: char) -> Seq<Seq<char>> {
    if s.len() == 0 {
        Seq::<Seq<char>>::empty()
    } else {
        segments(s, sep)
    }
}

/// Splits `s` on a separator character into its segments.
fn split_separated(s: &str, sep: char) -> (r: Vec<String>)
    ensures
        views_of(r@) == list_of(s@, sep),
{
    let n = s.unicode_len();
    let mut r: Vec<String> = Vec::new();
    if n == 0 {
        proof {
            assert(views_of(r@) =~= list_of(s@, sep));
        }
        return r;
    }
    let mut start: usize = 0;
    let mut i: usize = 0;
    proof {
        assert(views_of(r@) =~= Seq::<Seq<char>>::empty());
        assert(s@.subrange(0, n as int) =~= s@);
    }
    while i < n
        invariant
            0 <= start <= i <= n == s@.len(),
            0 < n,
            forall|j: int| start <= j < i ==> s@[j] != sep,
            segments(s@, sep) =~= views_of(r@) + segments(
                s@.subrange(start as int, n as int),
                sep,
            ),
        decreases n - i,
    {
        if s.get_char(i) == sep {
            proof {
                let t = s@.subrange(start as int, n as int);
                lemma_first_occ(t, sep);
                assert(t[i - start] == sep);
                assert forall|j: int| 0 <= j < i - start implies t[j] != sep by {
                    assert(t[j] == s@[j + start]);
                }
                if first_occ(t, sep) == -1 {
                    assert(t[i - start] != sep);
                }
                if 0 <= first_occ(t, sep) < i - start {
                    assert(t[first_occ(t, sep)] != sep);
                }
                if first_occ(t, sep) > i - start {
                    assert(t[i - start] != sep);
                }
                assert(first_occ(t, sep) == i - start);
                assert(t.subrange(0, i - start) =~= s@.subrange(start as int, i as int));
                assert(t.subrange(i - start + 1, t.len() as int) =~= s@.subrange(
                    i + 1,
                    n as int,
                ));
            }
            let seg = s.substring_char(start, i);
            let ghost old_r = r@;
            r.push(String::from_str(seg));
            proof {
                lemma_views_push(old_r, r@.last());
                assert(views_of(r@) =~= views_of(old_r).push(s@.subrange(
                    start as int,
                    i as int,
                )));
                assert(views_of(r@) + segments(s@.subrange(i + 1, n as int), sep) =~= (views_of(
                    old_r,
                ) + seq![s@.subrange(start as int, i as int)]) + segments(
                    s@.subrange(i + 1, n as int),
                    sep,
                ));
            }
            start = i + 1;
        }
        i = i + 1;
    }
    proof {
        let t = s@.subrange(start as int, n as int);
        lemma_first_occ(t, sep);
        assert forall|j: int| 0 <= j < t.len() implies t[j] != sep by {
            assert(t[j] == s@[j + start]);
        }
        if first_occ(t, sep) >= 0 {
            assert(t[first_occ(t, sep)] != sep);
        }
        assert(first_occ(t, sep) == -1);
        assert(segments(t, sep) =~= seq![t]);
    }
    let seg = s.substring_char(start, n);
    let ghost old_r = r@;
    r.push(String::from_str(seg));
    proof {
        lemma_views_push(old_r, r@.last());
        assert(views_of(r@) =~= views_of(old_r).push(s@.subrange(start as int, n as int)));
        assert(views_of(r@) =~= segments(s@, sep));
    }
    r
}

/// Splits comma-separated text into its elements.
pub fn comma_separated_to_vec(s: &str) -> (r: Vec<String>)
    ensures
        views_of(r@) == list_of(s@, ','),
{
    split_separated(s, ',')
}

/// Optional comma-separated list coercion: a non-string wire value counts
/// as absent.
pub fn option_comma_separated_to_vec(w: Option<&WireValue>) -> (r: Option<Vec<String>>)
    ensures
        match w {
            Some(v) => match *v {
                WireValue::Str(s) => r matches Some(x) && views_of(x@) == list_of(s@, ','),
                _ => r is None,
            },
            None => r is None,
        },
{
    match w {
        Some(WireValue::Str(s)) => Some(comma_separated_to_vec(s.as_str())),
        _ => None,
    }
}

/// The numbers a list of segments denotes, when every segment is a
/// decimal numeral that fits in `u64`; one bad segment spoils the list.
pub open spec fn nums_of(segs: Seq<Seq<char>>) -> Option<Seq<u64>>
    decreases segs.len(),
{
    if segs.len() == 0 {
        Some(Seq::<u64>::empty())
    } else {
        match nums_of(segs.drop_last()) {
            None => None,
            Some(v) => if valid_numeral(segs.last()) && numeral_val(segs.last()) <= u64::MAX {
                Some(v.push(numeral_val(segs.last()) as u64))
            } else {
                None
            },
        }
    }
}

/// One segment that is no numeral spoils the whole list.
proof fn lemma_nums_of_invalid(segs: Seq<Seq<char>>, i: int)
    requires
        0 <= i < segs.len(),
        !(valid_numeral(segs[i]) && numeral_val(segs[i]) <= u64::MAX),
    ensures
        nums_of(segs) is None,
    decreases segs.len(),
{
    if i < segs.len() - 1 {
        lemma_nums_of_invalid(segs.drop_last(), i);
    }
}

/// Parses every element of a split list as a `u64` numeral.
fn parse_number_segments(items: &Vec<String>) -> (r: Option<Vec<u64>>)
    ensures
        match r {
            Some(v) => nums_of(views_of(items@)) == Some(v@),
            None => nums_of(views_of(items@)) is None,
        },
{
    let mut out: Vec<u64> = Vec::new();
    let n = items.len();
    let mut i: usize = 0;
    proof {
        assert(views_of(items@).take(0) =~= Seq::<Seq<char>>::empty());
    }
    while i < n
        invariant
            0 <= i <= n == items@.len(),
            nums_of(views_of(items@).take(i as int)) == Some(out@),
        decreases n - i,
    {
        proof {
            assert(views_of(items@)[i as int] == items@[i as int]@);
        }
        match parse_u64(items[i].as_str()) {
            Some(v) => {
                proof {
                    lemma_numeral_nonneg(items@[i as int]@);
                    assert(views_of(items@).take(i + 1).drop_last() =~= views_of(items@).take(
                        i as int,
                    ));
                    assert(views_of(items@).take(i + 1).last() == views_of(items@)[i as int]);
                }
                out.push(v);
            },
            None => {
                proof {
                    lemma_nums_of_invalid(views_of(items@), i as int);
                }
                return None;
            },
        }
        i = i + 1;
    }
    proof {
        assert(views_of(items@).take(n as int) =~= views_of(items@));
    }
    Some(out)
}

/// Splits comma-separated text and parses each element as a number.
pub fn comma_separated_numbers_to_vec(s: &str) -> (r: Option<Vec<u64>>)
    ensures
        match r {
            Some(v) => nums_of(list_of(s@, ',')) == Some(v@),
            None => nums_of(list_of(s@, ',')) is None,
        },
{
    let items = comma_separated_to_vec(s);
    parse_number_segments(&items)
}

/// Splits pipe-separated text and parses each element as a number.
pub fn pipe_separated_numbers_to_vec(s: &str) -> (r: Option<Vec<u64>>)
    ensures
        match r {
            Some(v) => nums_of(list_of(s@, '|')) == Some(v@),
            None => nums_of(list_of(s@, '|')) is None,
        },
{
    let items = pipe_separated_to_vec(s);
    parse_number_segments(&items)
}

/// The separator used by pipe-separated list fields.
pub struct PipeSeparator;

impl PipeSeparator {
    /// The separator text itself.
    pub fn separator() -> (r: &'static str)
        ensures
            r@ == seq!['|'],
    {
        proof {
            reveal_strlit("|");
        }
        "|"
    }
}

/// Splits pipe-separated text into its elements.
pub fn pipe_separated_to_vec(s: &str) -> (r: Vec<String>)
    ensures
        views_of(r@) == list_of(s@, '|'),
{
    split_separated(s, '|')
}

/// Optional pipe-separated list coercion: a non-string wire value counts
/// as absent.
pub fn option_pipe_separated_to_vec(w: Option<&WireValue>) -> (r: Option<Vec<String>>)
    ensures
        match w {
            Some(v) => match *v {
                WireValue::Str(s) => r matches Some(x) && views_of(x@) == list_of(s@, '|'),
                _ => r is None,
            },
            None => r is None,
        },
{
    match w {
        Some(WireValue::Str(s)) => Some(pipe_separated_to_vec(s.as_str())),
        _ => None,
    }
}

} // verus!
