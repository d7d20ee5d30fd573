//! Calendar dates and times for post metadata: strict parsing of the
//! `YYYY-MM-DD` and `YYYY-MM-DD HH:MM` front-matter forms, the compact and
//! long display forms used in filenames and page bodies, and chronological
//! comparison.

use vstd::prelude::*;

verus! {

/// A calendar date with a time of day, to minute precision. Years run from
/// 0 through 9999 so that every well-formed value has a four-digit year.
#[derive(Clone, Copy, Debug, PartialEq, Eq, Structural)]
pub struct DateTime {
    pub year: u32,
    pub month: u8,
    pub day: u8,
    pub hour: u8,
    pub minute: u8,
}

/// A year divisible by 4 is a leap year, except century years not divisible
/// by 400.
pub open spec fn is_leap_year(y: int) -> bool {
    (y % 4 == 0 && y % 100 != 0) || y % 400 == 0
}

/// The number of days in a month of a given year.
pub open spec fn days_in_month(y: int, m: int) -> int {
    if m == 2 {
        if is_leap_year(y) {
            29
        } else {
            28
        }
    } else if m == 4 || m == 6 || m == 9 || m == 11 {
        30
    } else {
        31
    }
}

impl DateTime {
    /// A well-formed value names a real calendar date with a four-digit
    /// year and a valid time of day.
    pub open spec fn wf(self) -> bool {
        &&& self.year <= 9999
        &&& 1 <= self.month <= 12
        &&& 1 <= self.day <= days_in_month(self.year as int, self.month as int)
        &&& self.hour < 24
        &&& self.minute < 60
    }
}

/// The numeric value of a decimal digit character.
pub open spec fn digit_val(c: char) -> int {
    c as int - '0' as int
}

/// Whether a character is a decimal digit.
pub open spec fn is_digit(c: char) -> bool {
    '0' as int <= c as int <= '9' as int
}

/// The decimal digit character for a value from 0 through 9.
pub open spec fn digit_char(n: int) -> char {
    if n == 0 {
        '0'
    } else if n == 1 {
        '1'
    } else if n == 2 {
        '2'
    } else if n == 3 {
        '3'
    } else if n == 4 {
        '4'
    } else if n == 5 {
        '5'
    } else if n == 6 {
        '6'
    } else if n == 7 {
        '7'
    } else if n == 8 {
        '8'
    } else {
        '9'
    }
}

/// Whether a character sequence has the exact shape `YYYY-MM-DD`.
pub open spec fn date_shape(s: Seq<char>) -> bool {
    &&& s.len() == 10
    &&& is_digit(s[0])
    &&& is_digit(s[1])
    &&& is_digit(s[2])
    &&& is_digit(s[3])
    &&& s[4] == '-'
    &&& is_digit(s[5])
    &&& is_digit(s[6])
    &&& s[7] == '-'
    &&& is_digit(s[8])
    &&& is_digit(s[9])
}

/// The year named by the first four characters of a date in `YYYY-MM-DD`
/// shape.
pub open spec fn shape_year(s: Seq<char>) -> int {
    digit_val(s[0]) * 1000 + digit_val(s[1]) * 100 + digit_val(s[2]) * 10 + digit_val(s[3])
}

/// The month named by a date in `YYYY-MM-DD` shape.
pub open spec fn shape_month(s: Seq<char>) -> int {
    digit_val(s[5]) * 10 + digit_val(s[6])
}

/// The day named by a date in `YYYY-MM-DD` shape.
pub open spec fn shape_day(s: Seq<char>) -> int {
    digit_val(s[8]) * 10 + digit_val(s[9])
}

/// What parsing a `YYYY-MM-DD` string yields: midnight of the named day
/// when the string has the right shape and names a real calendar date,
/// nothing otherwise.
pub open spec fn parse_date_spec(s: Seq<char>) -> Option<DateTime> {
    if date_shape(s) && 1 <= shape_month(s) <= 12 && 1 <= shape_day(s) <= days_in_month(
        shape_year(s),
        shape_month(s),
    ) {
        Some(
            DateTime {
                year: shape_year(s) as u32,
                month: shape_month(s) as u8,
                day: shape_day(s) as u8,
                hour: 0,
                minute: 0,
            },
        )
    } else {
        None
    }
}

/// Whether a character sequence has the exact shape `YYYY-MM-DD HH:MM`.
pub open spec fn datetime_shape(s: Seq<char>) -> bool {
    &&& s.len() == 16
    &&& date_shape(s.take(10))
    &&& s[10] == ' '
    &&& is_digit(s[11])
    &&& is_digit(s[12])
    &&& s[13] == ':'
    &&& is_digit(s[14])
    &&& is_digit(s[15])
}

/// The hour named by a date-time in `YYYY-MM-DD HH:MM` shape.
pub open spec fn shape_hour(s: Seq<char>) -> int {
    digit_val(s[11]) * 10 + digit_val(s[12])
}

/// The minute named by a date-time in `YYYY-MM-DD HH:MM` shape.
pub open spec fn shape_minute(s: Seq<char>) -> int {
    digit_val(s[14]) * 10 + digit_val(s[15])
}

/// What parsing a `YYYY-MM-DD HH:MM` string yields: the named moment when
/// the string has the right shape and names a real date and time, nothing
/// otherwise.
pub open spec fn parse_datetime_spec(s: Seq<char>) -> Option<DateTime> {
    if datetime_shape(s) && 1 <= shape_month(s.take(10)) <= 12 && 1 <= shape_day(s.take(10))
        <= days_in_month(shape_year(s.take(10)), shape_month(s.take(10))) && shape_hour(s) < 24
        && shape_minute(s) < 60 {
        Some(
            DateTime {
                year: shape_year(s.take(10)) as u32,
                month: shape_month(s.take(10)) as u8,
                day: shape_day(s.take(10)) as u8,
                hour: shape_hour(s) as u8,
                minute: shape_minute(s) as u8,
            },
        )
    } else {
        None
    }
}

/// The two-digit decimal form of a value below 100.
pub open spec fn two_digits(n: int) -> Seq<char> {
    seq![digit_char(n / 10), digit_char(n % 10)]
}

/// The four-digit decimal form of a value below 10000.
pub open spec fn four_digits(n: int) -> Seq<char> {
    seq![
        digit_char(n / 1000),
        digit_char((n / 100) % 10),
        digit_char((n / 10) % 10),
        digit_char(n % 10),
    ]
}

/// The compact date form `YYYYMMDD` used in generated filenames.
pub open spec fn compact_of(dt: DateTime) -> Seq<char> {
    four_digits(dt.year as int) + two_digits(dt.month as int) + two_digits(dt.day as int)
}

/// The English name of a month.
pub open spec fn month_name(m: int) -> Seq<char> {
    if m == 1 {
        "January"@
    } else if m == 2 {
        "February"@
    } else if m == 3 {
        "March"@
    } else if m == 4 {
        "April"@
    } else if m == 5 {
        "May"@
    } else if m == 6 {
        "June"@
    } else if m == 7 {
        "July"@
    } else if m == 8 {
        "August"@
    } else if m == 9 {
        "September"@
    } else if m == 10 {
        "October"@
    } else if m == 11 {
        "November"@
    } else {
        "December"@
    }
}

/// The day of the month padded to two characters with a leading space.
pub open spec fn padded_day(d: int) -> Seq<char> {
    if d < 10 {
        seq![' ', digit_char(d)]
    } else {
        two_digits(d)
    }
}

/// The long date form used in rendered pages: month name, space-padded
/// day, and four-digit year, as in `January  2, 2023`.
pub open spec fn long_date_of(dt: DateTime) -> Seq<char> {
    month_name(dt.month as int) + " "@ + padded_day(dt.day as int) + ", "@ + four_digits(
        dt.year as int,
    )
}

/// Chronological order on date-times: lexicographic over year, month, day,
/// hour and minute.
pub open spec fn chron_before(a: DateTime, b: DateTime) -> bool {
    if a.year != b.year {
        a.year < b.year
    } else if a.month != b.month {
        a.month < b.month
    } else if a.day != b.day {
        a.day < b.day
    } else if a.hour != b.hour {
        a.hour < b.hour
    } else {
        a.minute < b.minute
    }
}

/// The digit value of a character, when it is one.
fn digit_of(c: char) -> (r: Option<u8>)
    ensures
        (r is Some) == is_digit(c),
        r matches Some(d) ==> d as int == digit_val(c),
{
    match c {
        '0' => Some(0u8),
        '1' => Some(1u8),
        '2' => Some(2u8),
        '3' => Some(3u8),
        '4' => Some(4u8),
        '5' => Some(5u8),
        '6' => Some(6u8),
        '7' => Some(7u8),
        '8' => Some(8u8),
        '9' => Some(9u8),
        _ => None,
    }
}

/// The one-character string for a decimal digit.
fn digit_str(d: u8) -> (r: &'static str)
    requires
        d <= 9,
    ensures
        r@ == seq![digit_char(d as int)],
{
    let r: &'static str = match d {
        0 => "0",
        1 => "1",
        2 => "2",
        3 => "3",
        4 => "4",
        5 => "5",
        6 => "6",
        7 => "7",
        8 => "8",
        _ => "9",
    };
    proof {
        reveal_strlit("0");
        reveal_strlit("1");
        reveal_strlit("2");
        reveal_strlit("3");
        reveal_strlit("4");
        reveal_strlit("5");
        reveal_strlit("6");
        reveal_strlit("7");
        reveal_strlit("8");
        reveal_strlit("9");
        assert(r@ =~= seq![digit_char(d as int)]);
    }
    r
}

/// The number of days in a month of a given year.
fn month_days(y: u32, m: u8) -> (d: u8)
    ensures
        d as int == days_in_month(y as int, m as int),
{
    if m == 2 {
        if (y % 4 == 0 && y % 100 != 0) || y % 400 == 0 {
            29
        } else {
            28
        }
    } else if m == 4 || m == 6 || m == 9 || m == 11 {
        30
    } else {
        31
    }
}

/// Parses a strict `YYYY-MM-DD` date, accepting exactly the strings that
/// name a real calendar date in that shape and rejecting every other
/// string.
pub fn parse_date(s: &str) -> (r: Option<DateTime>)
    ensures
        r == parse_date_spec(s@),
        r matches Some(dt) ==> dt.wf(),
{
    let len: usize = s.unicode_len();
    if len != 10 {
        return None;
    }
    let d0 = digit_of(s.get_char(0));
    let d1 = digit_of(s.get_char(1));
    let d2 = digit_of(s.get_char(2));
    let d3 = digit_of(s.get_char(3));
    let m0 = digit_of(s.get_char(5));
    let m1 = digit_of(s.get_char(6));
    let y0 = digit_of(s.get_char(8));
    let y1 = digit_of(s.get_char(9));
    if s.get_char(4) != '-' || s.get_char(7) != '-' {
        return None;
    }
    match (d0, d1, d2, d3, m0, m1, y0, y1) {
        (Some(a), Some(b), Some(c), Some(d), Some(e), Some(f), Some(g), Some(h)) => {
            let year: u32 = a as u32 * 1000 + b as u32 * 100 + c as u32 * 10 + d as u32;
            let month: u8 = e * 10 + f;
            let day: u8 = g * 10 + h;
            if 1 <= month && month <= 12 && 1 <= day && day <= month_days(year, month) {
                Some(DateTime { year, month, day, hour: 0, minute: 0 })
            } else {
                None
            }
        },
        _ => None,
    }
}

/// Parses a strict `YYYY-MM-DD HH:MM` date-time, accepting exactly the
/// strings that name a real calendar date and time of day in that shape
/// and rejecting every other string.
pub fn parse_datetime(s: &str) -> (r: Option<DateTime>)
    ensures
        r == parse_datetime_spec(s@),
        r matches Some(dt) ==> dt.wf(),
{
    let len: usize = s.unicode_len();
    if len != 16 {
        return None;
    }
    let d0 = digit_of(s.get_char(0));
    let d1 = digit_of(s.get_char(1));
    let d2 = digit_of(s.get_char(2));
    let d3 = digit_of(s.get_char(3));
    let m0 = digit_of(s.get_char(5));
    let m1 = digit_of(s.get_char(6));
    let y0 = digit_of(s.get_char(8));
    let y1 = digit_of(s.get_char(9));
    let h0 = digit_of(s.get_char(11));
    let h1 = digit_of(s.get_char(12));
    let n0 = digit_of(s.get_char(14));
    let n1 = digit_of(s.get_char(15));
    if s.get_char(4) != '-' || s.get_char(7) != '-' || s.get_char(10) != ' ' || s.get_char(13)
        != ':' {
        return None;
    }
    proof {
        assert(s@.take(10)[4] == s@[4]);
        assert(s@.take(10)[7] == s@[7]);
    }
    match (d0, d1, d2, d3, m0, m1, y0, y1, h0, h1, n0, n1) {
        (
            Some(a),
            Some(b),
            Some(c),
            Some(d),
            Some(e),
            Some(f),
            Some(g),
            Some(h),
            Some(p),
            Some(q),
            Some(u),
            Some(v),
        ) => {
            let year: u32 = a as u32 * 1000 + b as u32 * 100 + c as u32 * 10 + d as u32;
            let month: u8 = e * 10 + f;
            let day: u8 = g * 10 + h;
            let hour: u8 = p * 10 + q;
            let minute: u8 = u * 10 + v;
            if 1 <= month && month <= 12 && 1 <= day && day <= month_days(year, month) && hour < 24
                && minute < 60 {
                Some(DateTime { year, month, day, hour, minute })
            } else {
                None
            }
        },
        _ => None,
    }
}

/// The English name of a month.
fn month_name_str(m: u8) -> (r: &'static str)
    requires
        1 <= m <= 12,
    ensures
        r@ == month_name(m as int),
{
    match m {
        1 => "January",
        2 => "February",
        3 => "March",
        4 => "April",
        5 => "May",
        6 => "June",
        7 => "July",
        8 => "August",
        9 => "September",
        10 => "October",
        11 => "November",
        _ => "December",
    }
}

impl DateTime {
    /// The compact `YYYYMMDD` form of this date, as used in generated
    /// filenames.
    pub fn compact_string(&self) -> (r: String)
        requires
            self.wf(),
        ensures
            r@ == compact_of(*self),
    {
        let mut s: String = String::new();
        s.append(digit_str((self.year / 1000) as u8));
        s.append(digit_str(((self.year / 100) % 10) as u8));
        s.append(digit_str(((self.year / 10) % 10) as u8));
        s.append(digit_str((self.year % 10) as u8));
        s.append(digit_str(self.month / 10));
        s.append(digit_str(self.month % 10));
        s.append(digit_str(self.day / 10));
        s.append(digit_str(self.day % 10));
        proof {
            assert(s@ =~= compact_of(*self));
        }
        s
    }

    /// The long display form of this date: month name, space-padded day,
    /// and four-digit year.
    pub fn long_date_string(&self) -> (r: String)
        requires
            self.wf(),
        ensures
            r@ == long_date_of(*self),
    {
        let mut s: String = month_name_str(self.month).to_owned();
        s.append(" ");
        if self.day < 10 {
            s.append(" ");
            s.append(digit_str(self.day));
        } else {
            s.append(digit_str(self.day / 10));
            s.append(digit_str(self.day % 10));
        }
        s.append(", ");
        s.append(digit_str((self.year / 1000) as u8));
        s.append(digit_str(((self.year / 100) % 10) as u8));
        s.append(digit_str(((self.year / 10) % 10) as u8));
        s.append(digit_str((self.year % 10) as u8));
        proof {
            reveal_strlit(" ");
            reveal_strlit(", ");
            assert(s@ =~= long_date_of(*self));
        }
        s
    }

    /// Whether this moment comes strictly before another, in chronological
    /// order.
    pub fn before(&self, other: &DateTime) -> (r: bool)
        ensures
            r == chron_before(*self, *other),
    {
        if self.year != other.year {
            self.year < other.year
        } else if self.month != other.month {
            self.month < other.month
        } else if self.day != other.day {
            self.day < other.day
        } else if self.hour != other.hour {
            self.hour < other.hour
        } else {
            self.minute < other.minute
        }
    }
}

impl Default for DateTime {
    /// The placeholder date an empty post carries: the first day of 1980.
    fn default() -> (r: DateTime)
        ensures
            r == (DateTime { year: 1980, month: 1, day: 1, hour: 0, minute: 0 }),
            r.wf(),
    {
        DateTime { year: 1980, month: 1, day: 1, hour: 0, minute: 0 }
    }
}

} // verus!
