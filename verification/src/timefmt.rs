//! Local timestamps as plain values: the fourteen-digit wire format
//! (`YYYYMMDDHHMMSS`), its parser, and calendar addition of minutes,
//! which the calendar library computes.

use vstd::prelude::*;
use vstd::string::{StrSliceExecFns, StringExecFns};
use chrono::{Datelike, Timelike};

use crate::errors::{RadikoError, ValidationFault};
use crate::response::{
    lemma_decimal_value_bound, parse_decimal, spec_decimal_value, spec_pow10,
};
use crate::validate::{spec_digit_char, spec_is_digit};

verus! {

/// A wall-clock timestamp, second precision, no time zone attached.
#[derive(Clone, Copy, Debug, PartialEq, Eq, Structural)]
pub struct LocalDateTime {
    /// Calendar year, at most four digits.
    pub year: u16,
    /// Calendar month, 1..=12.
    pub month: u8,
    /// Day of month, 1..=31.
    pub day: u8,
    /// Hour of day, 0..=23.
    pub hour: u8,
    /// Minute, 0..=59.
    pub minute: u8,
    /// Second, 0..=59.
    pub second: u8,
}

impl LocalDateTime {
    /// Component ranges the wire format can carry. (Whether the day
    /// exists in its month is the calendar library's judgment.)
    pub open spec fn wf(&self) -> bool {
        &&& self.year <= 9999
        &&& 1 <= self.month <= 12
        &&& 1 <= self.day <= 31
        &&& self.hour <= 23
        &&& self.minute <= 59
        &&& self.second <= 59
    }
}

/// `n` written as exactly two decimal digits.
pub open spec fn spec_two_digits(n: int) -> Seq<char> {
    seq![spec_digit_char(n / 10), spec_digit_char(n % 10)]
}

/// `n` written as exactly four decimal digits.
pub open spec fn spec_four_digits(n: int) -> Seq<char> {
    seq![
        spec_digit_char(n / 1000),
        spec_digit_char((n / 100) % 10),
        spec_digit_char((n / 10) % 10),
        spec_digit_char(n % 10),
    ]
}

/// The fourteen-digit wire form of a timestamp: four year digits then
/// two digits for each remaining component.
pub open spec fn spec_format14(t: LocalDateTime) -> Seq<char> {
    spec_four_digits(t.year as int) + spec_two_digits(t.month as int) + spec_two_digits(
        t.day as int,
    ) + spec_two_digits(t.hour as int) + spec_two_digits(t.minute as int) + spec_two_digits(
        t.second as int,
    )
}

/// The one-character string that writes the digit `d`.
fn digit_str(d: u8) -> (r: &'static str)
    requires
        d < 10,
    ensures
        r@ == seq![spec_digit_char(d as int)],
{
    proof {
        reveal_strlit("0");
        reveal_strlit("1");
        reveal_strlit("2");
        reveal_strlit("3");
        reveal_strlit("4");
        reveal_strlit("5");
        reveal_strlit("6");
        reveal_strlit("7");
        reveal_strlit("8");
        reveal_strlit("9");
    }
    let r = match d {
        0 => "0",
        1 => "1",
        2 => "2",
        3 => "3",
        4 => "4",
        5 => "5",
        6 => "6",
        7 => "7",
        8 => "8",
        _ => "9",
    };
    proof {
        assert(r@ =~= seq![spec_digit_char(d as int)]);
    }
    r
}

/// Appends `n` as exactly two digits.
fn append_two_digits(out: &mut String, n: u8)
    requires
        n < 100,
    ensures
        final(out)@ == old(out)@ + spec_two_digits(n as int),
{
    out.append(digit_str(n / 10));
    out.append(digit_str(n % 10));
    proof {
        assert(final(out)@ =~= old(out)@ + spec_two_digits(n as int));
    }
}

/// Appends `n` as exactly four digits.
fn append_four_digits(out: &mut String, n: u16)
    requires
        n < 10000,
    ensures
        final(out)@ == old(out)@ + spec_four_digits(n as int),
{
    out.append(digit_str((n / 1000) as u8));
    out.append(digit_str(((n / 100) % 10) as u8));
    out.append(digit_str(((n / 10) % 10) as u8));
    out.append(digit_str((n % 10) as u8));
    proof {
        assert(final(out)@ =~= old(out)@ + spec_four_digits(n as int));
    }
}

/// Writes a timestamp in the fourteen-digit wire format.
pub fn format_datetime(t: &LocalDateTime) -> (r: String)
    requires
        t.wf(),
    ensures
        r@ == spec_format14(*t),
{
    let mut out = String::new();
    append_four_digits(&mut out, t.year);
    append_two_digits(&mut out, t.month);
    append_two_digits(&mut out, t.day);
    append_two_digits(&mut out, t.hour);
    append_two_digits(&mut out, t.minute);
    append_two_digits(&mut out, t.second);
    proof {
        assert(out@ =~= spec_format14(*t));
    }
    out
}

/// Whether a string is a well-formed fourteen-digit timestamp: all
/// digits, components within the wire format's ranges.
pub open spec fn spec_parse14_ok(s: Seq<char>) -> bool {
    &&& s.len() == 14
    &&& (forall|i: int| 0 <= i < s.len() ==> spec_is_digit(#[trigger] s[i]))
    &&& 1 <= spec_decimal_value(s.subrange(4, 6)) <= 12
    &&& 1 <= spec_decimal_value(s.subrange(6, 8)) <= 31
    &&& spec_decimal_value(s.subrange(8, 10)) <= 23
    &&& spec_decimal_value(s.subrange(10, 12)) <= 59
    &&& spec_decimal_value(s.subrange(12, 14)) <= 59
}

/// Parses a fourteen-digit timestamp; accepts exactly the well-formed
/// ones and returns their components.
pub fn parse_datetime14(s: &str) -> (r: Result<LocalDateTime, RadikoError>)
    ensures
        r is Ok <==> spec_parse14_ok(s@),
        r matches Ok(t) ==> {
            &&& t.wf()
            &&& t.year == spec_decimal_value(s@.subrange(0, 4))
            &&& t.month == spec_decimal_value(s@.subrange(4, 6))
            &&& t.day == spec_decimal_value(s@.subrange(6, 8))
            &&& t.hour == spec_decimal_value(s@.subrange(8, 10))
            &&& t.minute == spec_decimal_value(s@.subrange(10, 12))
            &&& t.second == spec_decimal_value(s@.subrange(12, 14))
        },
        r matches Err(e) ==> e == RadikoError::Validation(ValidationFault::BadStartTime),
{
    let n = s.unicode_len();
    if n != 14 {
        return Err(RadikoError::Validation(ValidationFault::BadStartTime));
    }
    let year_v = match parse_decimal(s.substring_char(0, 4)) {
        Some(v) => v,
        None => {
            proof {
                lemma_field_not_digits(s@, 0, 4);
            }
            return Err(RadikoError::Validation(ValidationFault::BadStartTime));
        },
    };
    let month_v = match parse_decimal(s.substring_char(4, 6)) {
        Some(v) => v,
        None => {
            proof {
                lemma_field_not_digits(s@, 4, 6);
            }
            return Err(RadikoError::Validation(ValidationFault::BadStartTime));
        },
    };
    let day_v = match parse_decimal(s.substring_char(6, 8)) {
        Some(v) => v,
        None => {
            proof {
                lemma_field_not_digits(s@, 6, 8);
            }
            return Err(RadikoError::Validation(ValidationFault::BadStartTime));
        },
    };
    let hour_v = match parse_decimal(s.substring_char(8, 10)) {
        Some(v) => v,
        None => {
            proof {
                lemma_field_not_digits(s@, 8, 10);
            }
            return Err(RadikoError::Validation(ValidationFault::BadStartTime));
        },
    };
    let minute_v = match parse_decimal(s.substring_char(10, 12)) {
        Some(v) => v,
        None => {
            proof {
                lemma_field_not_digits(s@, 10, 12);
            }
            return Err(RadikoError::Validation(ValidationFault::BadStartTime));
        },
    };
    let second_v = match parse_decimal(s.substring_char(12, 14)) {
        Some(v) => v,
        None => {
            proof {
                lemma_field_not_digits(s@, 12, 14);
            }
            return Err(RadikoError::Validation(ValidationFault::BadStartTime));
        },
    };
    proof {
        lemma_decimal_value_bound(s@.subrange(0, 4));
        lemma_decimal_value_bound(s@.subrange(4, 6));
        lemma_decimal_value_bound(s@.subrange(6, 8));
        lemma_decimal_value_bound(s@.subrange(8, 10));
        lemma_decimal_value_bound(s@.subrange(10, 12));
        lemma_decimal_value_bound(s@.subrange(12, 14));
        reveal_with_fuel(spec_pow10, 5);
    }
    if month_v < 1 || month_v > 12 || day_v < 1 || day_v > 31 || hour_v > 23 || minute_v > 59
        || second_v > 59 {
        return Err(RadikoError::Validation(ValidationFault::BadStartTime));
    }
    let t = LocalDateTime {
        year: year_v as u16,
        month: month_v as u8,
        day: day_v as u8,
        hour: hour_v as u8,
        minute: minute_v as u8,
        second: second_v as u8,
    };
    proof {
        assert(spec_parse14_ok(s@)) by {
            assert(forall|i: int| 0 <= i < s@.len() ==> spec_is_digit(#[trigger] s@[i])) by {
                assert forall|i: int| 0 <= i < s@.len() implies spec_is_digit(#[trigger] s@[i]) by {
                    if i < 4 {
                        assert(s@[i] == s@.subrange(0, 4)[i]);
                    } else if i < 6 {
                        assert(s@[i] == s@.subrange(4, 6)[i - 4]);
                    } else if i < 8 {
                        assert(s@[i] == s@.subrange(6, 8)[i - 6]);
                    } else if i < 10 {
                        assert(s@[i] == s@.subrange(8, 10)[i - 8]);
                    } else if i < 12 {
                        assert(s@[i] == s@.subrange(10, 12)[i - 10]);
                    } else {
                        assert(s@[i] == s@.subrange(12, 14)[i - 12]);
                    }
                }
            }
        }
    }
    Ok(t)
}

/// If a whole string is digits, so is any of its subranges; stated in
/// the contrapositive for the parser's failure paths.
proof fn lemma_field_not_digits(s: Seq<char>, from: int, to: int)
    requires
        0 <= from <= to <= s.len(),
        !(1 <= to - from <= 9 && (forall|i: int|
            0 <= i < s.subrange(from, to).len() ==> spec_is_digit(
                #[trigger] s.subrange(from, to)[i],
            ))),
        1 <= to - from <= 9,
    ensures
        !(forall|i: int| 0 <= i < s.len() ==> spec_is_digit(#[trigger] s[i])),
{
    if forall|i: int| 0 <= i < s.len() ==> spec_is_digit(#[trigger] s[i]) {
        assert forall|i: int|
            0 <= i < s.subrange(from, to).len() implies spec_is_digit(
            #[trigger] s.subrange(from, to)[i],
        ) by {
            assert(s.subrange(from, to)[i] == s[from + i]);
        }
    }
}

/// What the calendar library answers when asked to add whole minutes to
/// a timestamp: a function of the components and the minute count alone.
pub uninterp spec fn spec_plus_minutes(
    year: u16,
    month: u8,
    day: u8,
    hour: u8,
    minute: u8,
    second: u8,
    minutes: i64,
) -> Option<(u16, u8, u8, u8, u8, u8)>;

/// The timestamp a component tuple names.
pub open spec fn spec_tuple_ldt(t: (u16, u8, u8, u8, u8, u8)) -> LocalDateTime {
    LocalDateTime { year: t.0, month: t.1, day: t.2, hour: t.3, minute: t.4, second: t.5 }
}

/// Relies on chrono's `NaiveDate`/`NaiveDateTime` calendar arithmetic:
/// adding minutes to a naive timestamp depends on its components alone,
/// and the component accessors' documented ranges are month 1..=12,
/// day 1..=31, hour 0..=23, minute 0..=59, second 0..=59. `None` comes
/// of a day absent from its month, or of a result outside the types'
/// ranges.
#[verifier::external_body]
pub fn add_minutes_clock(t: &LocalDateTime, minutes: i64) -> (r: Option<LocalDateTime>)
    ensures
        (match r {
            Some(t2) => Some((t2.year, t2.month, t2.day, t2.hour, t2.minute, t2.second)),
            None => None,
        }) == spec_plus_minutes(t.year, t.month, t.day, t.hour, t.minute, t.second, minutes),
        r matches Some(t2) ==> 1 <= t2.month <= 12 && 1 <= t2.day <= 31 && t2.hour <= 23
            && t2.minute <= 59 && t2.second <= 59,
{
    let date = chrono::NaiveDate::from_ymd_opt(t.year as i32, t.month as u32, t.day as u32)?;
    let dt = date.and_hms_opt(t.hour as u32, t.minute as u32, t.second as u32)?;
    let delta = chrono::TimeDelta::try_minutes(minutes)?;
    let dt2 = dt.checked_add_signed(delta)?;
    let year = u16::try_from(dt2.year()).ok()?;
    Some(LocalDateTime {
        year,
        month: dt2.month() as u8,
        day: dt2.day() as u8,
        hour: dt2.hour() as u8,
        minute: dt2.minute() as u8,
        second: dt2.second() as u8,
    })
}

} // verus!
