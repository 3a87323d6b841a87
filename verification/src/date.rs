use vstd::prelude::*;

verus! {

/// A calendar date held as plain components, the engine's stand-in for the
/// dates that XBRL periods carry.  Validity (a real day of the proleptic
/// Gregorian calendar, year at most four digits) is `date_valid`.
#[derive(Debug, Clone, Copy, PartialEq, Eq, Hash, Structural)]
pub struct Date {
    pub year: u16,
    pub month: u8,
    pub day: u8,
}

pub open spec fn is_leap_year(y: int) -> bool {
    (y % 4 == 0 && y % 100 != 0) || y % 400 == 0
}

pub open spec fn days_in_month(y: int, m: int) -> int {
    if m == 2 {
        if is_leap_year(y) {
            29
        } else {
            28
        }
    } else if m == 4 || m == 6 || m == 9 || m == 11 {
        30
    } else {
        31
    }
}

pub open spec fn date_valid(d: Date) -> bool {
    &&& d.year <= 9999
    &&& 1 <= d.month <= 12
    &&& 1 <= d.day <= days_in_month(d.year as int, d.month as int)
}

pub open spec fn is_digit(c: char) -> bool {
    48 <= c as u32 <= 57
}

pub open spec fn digit_val(c: char) -> int {
    c as u32 - 48
}

/// The decimal digit character for a value below ten.
pub open spec fn digit_char(v: int) -> char {
    if v == 0 {
        '0'
    } else if v == 1 {
        '1'
    } else if v == 2 {
        '2'
    } else if v == 3 {
        '3'
    } else if v == 4 {
        '4'
    } else if v == 5 {
        '5'
    } else if v == 6 {
        '6'
    } else if v == 7 {
        '7'
    } else if v == 8 {
        '8'
    } else {
        '9'
    }
}

/// What a ten-character `YYYY-MM-DD` string denotes, if it is a valid date.
pub open spec fn spec_parse_date(s: Seq<char>) -> Option<Date> {
    if s.len() == 10 && is_digit(s[0]) && is_digit(s[1]) && is_digit(s[2]) && is_digit(s[3])
        && s[4] == '-' && is_digit(s[5]) && is_digit(s[6]) && s[7] == '-' && is_digit(s[8])
        && is_digit(s[9]) {
        date_from_parts(
            digit_val(s[0]) * 1000 + digit_val(s[1]) * 100 + digit_val(s[2]) * 10 + digit_val(
                s[3],
            ),
            digit_val(s[5]) * 10 + digit_val(s[6]),
            digit_val(s[8]) * 10 + digit_val(s[9]),
        )
    } else {
        None
    }
}

/// What an eight-character `YYYYMMDD` string denotes, if it is a valid date.
pub open spec fn spec_parse_date_compact(s: Seq<char>) -> Option<Date> {
    if s.len() == 8 && (forall|k: int| 0 <= k < 8 ==> is_digit(s[k])) {
        date_from_parts(
            digit_val(s[0]) * 1000 + digit_val(s[1]) * 100 + digit_val(s[2]) * 10 + digit_val(
                s[3],
            ),
            digit_val(s[4]) * 10 + digit_val(s[5]),
            digit_val(s[6]) * 10 + digit_val(s[7]),
        )
    } else {
        None
    }
}

pub open spec fn date_from_parts(y: int, m: int, d: int) -> Option<Date> {
    if 1 <= m <= 12 && 1 <= d <= days_in_month(y, m) && 0 <= y <= 9999 {
        Some(Date { year: y as u16, month: m as u8, day: d as u8 })
    } else {
        None
    }
}

/// The ten-character `YYYY-MM-DD` rendering of a date.
pub open spec fn spec_format_date(d: Date) -> Seq<char> {
    seq![
        digit_char(d.year as int / 1000),
        digit_char((d.year as int / 100) % 10),
        digit_char((d.year as int / 10) % 10),
        digit_char(d.year as int % 10),
        '-',
        digit_char(d.month as int / 10),
        digit_char(d.month as int % 10),
        '-',
        digit_char(d.day as int / 10),
        digit_char(d.day as int % 10),
    ]
}

pub fn exec_is_leap_year(y: u16) -> (r: bool)
    ensures
        r == is_leap_year(y as int),
{
    (y % 4 == 0 && y % 100 != 0) || y % 400 == 0
}

pub fn exec_days_in_month(y: u16, m: u8) -> (r: u8)
    requires
        1 <= m <= 12,
    ensures
        r as int == days_in_month(y as int, m as int),
{
    if m == 2 {
        if exec_is_leap_year(y) {
            29
        } else {
            28
        }
    } else if m == 4 || m == 6 || m == 9 || m == 11 {
        30
    } else {
        31
    }
}

/// Reads one decimal digit of `s`.
fn read_digit(s: &str, i: usize) -> (r: Option<u32>)
    requires
        i < s@.len(),
    ensures
        match r {
            Some(v) => is_digit(s@[i as int]) && v == digit_val(s@[i as int]),
            None => !is_digit(s@[i as int]),
        },
{
    let c = s.get_char(i) as u32;
    if 48 <= c && c <= 57 {
        Some(c - 48)
    } else {
        None
    }
}

/// Parses a `YYYY-MM-DD` date string; `None` on any other shape or on a day
/// that the calendar does not contain.
pub fn parse_date(s: &str) -> (r: Option<Date>)
    ensures
        r == spec_parse_date(s@),
        r matches Some(d) ==> date_valid(d),
{
    if s.unicode_len() != 10 {
        return None;
    }
    if s.get_char(4) != '-' || s.get_char(7) != '-' {
        return None;
    }
    let d0 = read_digit(s, 0);
    let d1 = read_digit(s, 1);
    let d2 = read_digit(s, 2);
    let d3 = read_digit(s, 3);
    let d5 = read_digit(s, 5);
    let d6 = read_digit(s, 6);
    let d8 = read_digit(s, 8);
    let d9 = read_digit(s, 9);
    match (d0, d1, d2, d3, d5, d6, d8, d9) {
        (
            Some(y0),
            Some(y1),
            Some(y2),
            Some(y3),
            Some(m0),
            Some(m1),
            Some(a0),
            Some(a1),
        ) => date_of_parts(y0 * 1000 + y1 * 100 + y2 * 10 + y3, m0 * 10 + m1, a0 * 10 + a1),
        _ => None,
    }
}

/// Parses a `YYYYMMDD` date string; `None` on any other shape or on a day
/// that the calendar does not contain.
pub fn parse_date_compact(s: &str) -> (r: Option<Date>)
    ensures
        r == spec_parse_date_compact(s@),
        r matches Some(d) ==> date_valid(d),
{
    if s.unicode_len() != 8 {
        return None;
    }
    let d0 = read_digit(s, 0);
    let d1 = read_digit(s, 1);
    let d2 = read_digit(s, 2);
    let d3 = read_digit(s, 3);
    let d4 = read_digit(s, 4);
    let d5 = read_digit(s, 5);
    let d6 = read_digit(s, 6);
    let d7 = read_digit(s, 7);
    match (d0, d1, d2, d3, d4, d5, d6, d7) {
        (
            Some(y0),
            Some(y1),
            Some(y2),
            Some(y3),
            Some(m0),
            Some(m1),
            Some(a0),
            Some(a1),
        ) => {
            proof {
                assert(forall|k: int| 0 <= k < 8 ==> is_digit(s@[k]));
            }
            date_of_parts(y0 * 1000 + y1 * 100 + y2 * 10 + y3, m0 * 10 + m1, a0 * 10 + a1)
        },
        _ => None,
    }
}

/// Accepts either of the two date shapes the service reads: first `YYYYMMDD`,
/// then `YYYY-MM-DD`.
pub fn parse_date_flexible(s: &str) -> (r: Option<Date>)
    ensures
        r == if spec_parse_date_compact(s@) is Some {
            spec_parse_date_compact(s@)
        } else {
            spec_parse_date(s@)
        },
        r matches Some(d) ==> date_valid(d),
{
    match parse_date_compact(s) {
        Some(d) => Some(d),
        None => parse_date(s),
    }
}

fn date_of_parts(y: u32, m: u32, d: u32) -> (r: Option<Date>)
    requires
        y <= 9999,
        m <= 99,
        d <= 99,
    ensures
        r == date_from_parts(y as int, m as int, d as int),
{
    if 1 <= m && m <= 12 {
        let dim = exec_days_in_month(y as u16, m as u8);
        if 1 <= d && d <= dim as u32 {
            Some(Date { year: y as u16, month: m as u8, day: d as u8 })
        } else {
            None
        }
    } else {
        None
    }
}

/// The one-character string for a decimal digit value.
pub fn digit_str(v: u8) -> (r: &'static str)
    requires
        v <= 9,
    ensures
        r@ =~= seq![digit_char(v as int)],
{
    proof {
        reveal_strlit("0");
        reveal_strlit("1");
        reveal_strlit("2");
        reveal_strlit("3");
        reveal_strlit("4");
        reveal_strlit("5");
        reveal_strlit("6");
        reveal_strlit("7");
        reveal_strlit("8");
        reveal_strlit("9");
    }
    match v {
        0 => "0",
        1 => "1",
        2 => "2",
        3 => "3",
        4 => "4",
        5 => "5",
        6 => "6",
        7 => "7",
        8 => "8",
        _ => "9",
    }
}

/// Renders a date as `YYYY-MM-DD`, the service's outward date format.
pub fn format_date(d: &Date) -> (r: String)
    requires
        date_valid(*d),
    ensures
        r@ == spec_format_date(*d),
{
    proof {
        reveal_strlit("-");
    }
    let mut s = String::new();
    s.append(digit_str((d.year / 1000) as u8));
    s.append(digit_str(((d.year / 100) % 10) as u8));
    s.append(digit_str(((d.year / 10) % 10) as u8));
    s.append(digit_str((d.year % 10) as u8));
    s.append("-");
    s.append(digit_str(d.month / 10));
    s.append(digit_str(d.month % 10));
    s.append("-");
    s.append(digit_str(d.day / 10));
    s.append(digit_str(d.day % 10));
    proof {
        assert(s@ =~= spec_format_date(*d));
    }
    s
}

/// Whether the components form a real calendar day.
pub fn check_date(d: &Date) -> (r: bool)
    ensures
        r == date_valid(*d),
{
    d.year <= 9999 && 1 <= d.month && d.month <= 12 && 1 <= d.day && d.day <= exec_days_in_month(
        d.year,
        d.month,
    )
}

/// A timestamp of the Korean exchange's quote feed, kept as plain clock
/// components on the 24-hour clock.
#[derive(Debug, Clone, Copy, PartialEq, Eq, Structural)]
pub struct KrxDatetime {
    pub date: Date,
    pub hour: u8,
    pub minute: u8,
    pub second: u8,
}

/// The 24-hour clock hour for a 12-hour clock reading: noon and midnight are
/// written `12` on the 12-hour clock.
pub open spec fn hour_to_24(h: int, pm: bool) -> int {
    if pm && h != 12 {
        h + 12
    } else if !pm && h == 12 {
        0
    } else {
        h
    }
}

/// What a `YYYY.MM.DD AM|PM HH:MM:SS` string denotes, if anything.
pub open spec fn spec_parse_krx_datetime(s: Seq<char>) -> Option<KrxDatetime> {
    if s.len() == 22 && is_digit(s[0]) && is_digit(s[1]) && is_digit(s[2]) && is_digit(s[3])
        && s[4] == '.' && is_digit(s[5]) && is_digit(s[6]) && s[7] == '.' && is_digit(s[8])
        && is_digit(s[9]) && s[10] == ' ' && (s[11] == 'A' || s[11] == 'P') && s[12] == 'M'
        && s[13] == ' ' && is_digit(s[14]) && is_digit(s[15]) && s[16] == ':' && is_digit(s[17])
        && is_digit(s[18]) && s[19] == ':' && is_digit(s[20]) && is_digit(s[21]) {
        let date = date_from_parts(
            digit_val(s[0]) * 1000 + digit_val(s[1]) * 100 + digit_val(s[2]) * 10 + digit_val(
                s[3],
            ),
            digit_val(s[5]) * 10 + digit_val(s[6]),
            digit_val(s[8]) * 10 + digit_val(s[9]),
        );
        let h12 = digit_val(s[14]) * 10 + digit_val(s[15]);
        let mi = digit_val(s[17]) * 10 + digit_val(s[18]);
        let se = digit_val(s[20]) * 10 + digit_val(s[21]);
        if date is Some && 1 <= h12 <= 12 && mi <= 59 && se <= 59 {
            Some(
                KrxDatetime {
                    date: date->Some_0,
                    hour: hour_to_24(h12, s[11] == 'P') as u8,
                    minute: mi as u8,
                    second: se as u8,
                },
            )
        } else {
            None
        }
    } else {
        None
    }
}

/// Parses the Korean exchange's quote timestamp format
/// `YYYY.MM.DD AM|PM HH:MM:SS` (12-hour clock) into 24-hour components.
pub fn parse_krx_datetime(s: &str) -> (r: Option<KrxDatetime>)
    ensures
        r == spec_parse_krx_datetime(s@),
{
    if s.unicode_len() != 22 {
        return None;
    }
    if s.get_char(4) != '.' || s.get_char(7) != '.' || s.get_char(10) != ' ' || s.get_char(12)
        != 'M' || s.get_char(13) != ' ' || s.get_char(16) != ':' || s.get_char(19) != ':' {
        return None;
    }
    let ampm = s.get_char(11);
    if ampm != 'A' && ampm != 'P' {
        return None;
    }
    let d0 = read_digit(s, 0);
    let d1 = read_digit(s, 1);
    let d2 = read_digit(s, 2);
    let d3 = read_digit(s, 3);
    let d5 = read_digit(s, 5);
    let d6 = read_digit(s, 6);
    let d8 = read_digit(s, 8);
    let d9 = read_digit(s, 9);
    let h0 = read_digit(s, 14);
    let h1 = read_digit(s, 15);
    let m0 = read_digit(s, 17);
    let m1 = read_digit(s, 18);
    let s0 = read_digit(s, 20);
    let s1 = read_digit(s, 21);
    match (d0, d1, d2, d3, d5, d6, d8, d9) {
        (
            Some(y0),
            Some(y1),
            Some(y2),
            Some(y3),
            Some(n0),
            Some(n1),
            Some(a0),
            Some(a1),
        ) => match (h0, h1, m0, m1, s0, s1) {
            (Some(h0), Some(h1), Some(m0), Some(m1), Some(s0), Some(s1)) => {
                let date = date_of_parts(
                    y0 * 1000 + y1 * 100 + y2 * 10 + y3,
                    n0 * 10 + n1,
                    a0 * 10 + a1,
                );
                let h12 = h0 * 10 + h1;
                let mi = m0 * 10 + m1;
                let se = s0 * 10 + s1;
                match date {
                    Some(date) => {
                        if 1 <= h12 && h12 <= 12 && mi <= 59 && se <= 59 {
                            let pm = ampm == 'P';
                            let hour: u32 = if pm && h12 != 12 {
                                h12 + 12
                            } else if !pm && h12 == 12 {
                                0
                            } else {
                                h12
                            };
                            Some(
                                KrxDatetime {
                                    date,
                                    hour: hour as u8,
                                    minute: mi as u8,
                                    second: se as u8,
                                },
                            )
                        } else {
                            None
                        }
                    },
                    None => None,
                }
            },
            _ => None,
        },
        _ => None,
    }
}

} // verus!
