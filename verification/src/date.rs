//! Calendar dates and times of day as plain integers, and the text they take
//! in the two fixed patterns `YYYY-MM-DD` and `YYYY-MM-DD HH:MM:SS`.
//!
//! The values are those of the proleptic Gregorian calendar between
//! [`MIN_YEAR`] and [`MAX_YEAR`]. A time of day may stand for a leap second:
//! its nanosecond then lies at or above one thousand million, and its second
//! is 59.

use vstd::prelude::*;

verus! {

/// The earliest year a date can lie in.
pub const MIN_YEAR: i32 = -262143;

/// The latest year a date can lie in.
pub const MAX_YEAR: i32 = 262142;

/// The `strftime` pattern of a date.
pub const DATE_PATTERN: &'static str = "%Y-%m-%d";

/// The `strftime` pattern of a date with its time of day.
pub const DATETIME_PATTERN: &'static str = "%Y-%m-%d %H:%M:%S";

/// Whether `year` is a leap year of the proleptic Gregorian calendar.
pub open spec fn is_leap_year(year: int) -> bool {
    year % 4 == 0 && (year % 100 != 0 || year % 400 == 0)
}

/// The number of days of month `month` in `year`.
pub open spec fn days_in_month(year: int, month: int) -> int
    recommends
        1 <= month <= 12,
{
    if month == 2 {
        if is_leap_year(year) {
            29
        } else {
            28
        }
    } else if month == 4 || month == 6 || month == 9 || month == 11 {
        30
    } else {
        31
    }
}

/// The decimal digit of `n`, for `n` from 0 to 9.
pub open spec fn digit(n: int) -> char
    recommends
        0 <= n <= 9,
{
    if n == 0 {
        '0'
    } else if n == 1 {
        '1'
    } else if n == 2 {
        '2'
    } else if n == 3 {
        '3'
    } else if n == 4 {
        '4'
    } else if n == 5 {
        '5'
    } else if n == 6 {
        '6'
    } else if n == 7 {
        '7'
    } else if n == 8 {
        '8'
    } else {
        '9'
    }
}

/// `n` in two decimal digits, for `n` from 0 to 99.
pub open spec fn two_digits(n: int) -> Seq<char>
    recommends
        0 <= n <= 99,
{
    seq![digit(n / 10), digit(n % 10)]
}

/// `n` in four decimal digits, for `n` from 0 to 9999.
pub open spec fn four_digits(n: int) -> Seq<char>
    recommends
        0 <= n <= 9999,
{
    two_digits(n / 100) + two_digits(n % 100)
}

/// `n` in decimal, in at least four digits, for `n` from 0 to 999999.
pub open spec fn at_least_four_digits(n: int) -> Seq<char>
    recommends
        0 <= n <= 999999,
{
    if n < 10000 {
        four_digits(n)
    } else if n < 100000 {
        seq![digit(n / 10000)] + four_digits(n % 10000)
    } else {
        two_digits(n / 10000) + four_digits(n % 10000)
    }
}

/// The text of a year: four digits from 0 to 9999; outside of that a sign,
/// `+` or `-`, and then at least four digits.
pub open spec fn year_text(year: int) -> Seq<char> {
    if 0 <= year <= 9999 {
        four_digits(year)
    } else if year > 9999 {
        seq!['+'] + at_least_four_digits(year)
    } else {
        seq!['-'] + at_least_four_digits(-year)
    }
}

/// A calendar date: year, month and day of the month.
pub struct CalendarDate {
    pub year: int,
    pub month: int,
    pub day: int,
}

impl CalendarDate {
    /// Whether this is a day of the calendar, in a year that a date can lie in.
    pub open spec fn valid(self) -> bool {
        &&& MIN_YEAR <= self.year <= MAX_YEAR
        &&& 1 <= self.month <= 12
        &&& 1 <= self.day <= days_in_month(self.year, self.month)
    }

    /// The date as `YYYY-MM-DD`.
    pub open spec fn text(self) -> Seq<char> {
        year_text(self.year) + seq!['-'] + two_digits(self.month) + seq!['-'] + two_digits(
            self.day,
        )
    }
}

/// The calendar date of `year`, `month` and `day`.
pub open spec fn calendar_date(year: int, month: int, day: int) -> CalendarDate {
    CalendarDate { year, month, day }
}

/// A time of day: hour, minute, second, and the nanoseconds since that second
/// began.
pub struct ClockTime {
    pub hour: int,
    pub minute: int,
    pub second: int,
    pub nanosecond: int,
}

impl ClockTime {
    /// Whether this is a time of day. A nanosecond of one thousand million or
    /// more marks a leap second, which can only follow second 59.
    pub open spec fn valid(self) -> bool {
        &&& 0 <= self.hour < 24
        &&& 0 <= self.minute < 60
        &&& 0 <= self.second < 60
        &&& 0 <= self.nanosecond < 2_000_000_000
        &&& self.nanosecond >= 1_000_000_000 ==> self.second == 59
    }

    /// The second as it is displayed: 60 during a leap second.
    pub open spec fn displayed_second(self) -> int {
        self.second + self.nanosecond / 1_000_000_000
    }

    /// The time as `HH:MM:SS`.
    pub open spec fn text(self) -> Seq<char> {
        two_digits(self.hour) + seq![':'] + two_digits(self.minute) + seq![':'] + two_digits(
            self.displayed_second(),
        )
    }
}

/// The time of day of `hour`, `minute`, `second` and `nanosecond`.
pub open spec fn clock_time(hour: int, minute: int, second: int, nanosecond: int) -> ClockTime {
    ClockTime { hour, minute, second, nanosecond }
}

/// A calendar date with a time of day.
pub struct CalendarDateTime {
    pub date: CalendarDate,
    pub time: ClockTime,
}

impl CalendarDateTime {
    /// Whether both the date and the time of day are valid.
    pub open spec fn valid(self) -> bool {
        self.date.valid() && self.time.valid()
    }

    /// The date and time as `YYYY-MM-DD HH:MM:SS`.
    pub open spec fn text(self) -> Seq<char> {
        self.date.text() + seq![' '] + self.time.text()
    }
}

/// Whether `year` is a leap year.
pub fn leap_year(year: i32) -> (leap: bool)
    ensures
        leap == is_leap_year(year as int),
{
    proof {
        lemma_remainder_zero(year as int, 4);
        lemma_remainder_zero(year as int, 100);
        lemma_remainder_zero(year as int, 400);
    }
    year % 4 == 0 && (year % 100 != 0 || year % 400 == 0)
}

/// A number leaves no remainder exactly when its negation leaves none.
proof fn lemma_remainder_zero(x: int, d: int)
    requires
        d > 0,
    ensures
        x % d == 0 <==> (-x) % d == 0,
{
    vstd::arithmetic::div_mod::lemma_fundamental_div_mod(x, d);
    vstd::arithmetic::div_mod::lemma_fundamental_div_mod(-x, d);
    if x % d == 0 {
        vstd::arithmetic::div_mod::lemma_mod_multiples_basic(-(x / d), d);
        assert((-(x / d)) * d == -x) by (nonlinear_arith)
            requires
                x == d * (x / d),
        ;
    }
    if (-x) % d == 0 {
        vstd::arithmetic::div_mod::lemma_mod_multiples_basic(-((-x) / d), d);
        assert((-((-x) / d)) * d == x) by (nonlinear_arith)
            requires
                -x == d * ((-x) / d),
        ;
    }
}

/// The number of days of `month`, from 1 to 12, in `year`.
pub fn month_length(year: i32, month: u32) -> (days: u32)
    ensures
        days == days_in_month(year as int, month as int),
{
    if month == 2 {
        if leap_year(year) {
            29
        } else {
            28
        }
    } else if month == 4 || month == 6 || month == 9 || month == 11 {
        30
    } else {
        31
    }
}

/// A date without a time zone.
#[derive(Clone, Copy, Debug, PartialEq, Eq)]
pub struct NaiveDate {
    year: i32,
    month: u32,
    day: u32,
}

impl View for NaiveDate {
    type V = CalendarDate;

    closed spec fn view(&self) -> CalendarDate {
        CalendarDate { year: self.year as int, month: self.month as int, day: self.day as int }
    }
}

impl NaiveDate {
    /// Every date is a valid day of the calendar.
    #[verifier::type_invariant]
    pub open spec fn wf(&self) -> bool {
        self@.valid()
    }

    /// The date of `year`, `month` and `day`, if there is such a day.
    pub fn from_ymd_opt(year: i32, month: u32, day: u32) -> (res: Option<NaiveDate>)
        ensures
            res is Some <==> calendar_date(year as int, month as int, day as int).valid(),
            res matches Some(d) ==> d.wf() && d@ == calendar_date(
                year as int,
                month as int,
                day as int,
            ),
    {
        if year < MIN_YEAR || year > MAX_YEAR || month < 1 || month > 12 || day < 1 {
            return None;
        }
        if day > month_length(year, month) {
            return None;
        }
        Some(NaiveDate { year, month, day })
    }

    /// The year, from `MIN_YEAR` to `MAX_YEAR`.
    pub fn year(&self) -> (y: i32)
        ensures
            y == self@.year,
            MIN_YEAR <= y <= MAX_YEAR,
    {
        proof {
            use_type_invariant(self);
        }
        self.year
    }

    /// The month, from 1 to 12.
    pub fn month(&self) -> (m: u32)
        ensures
            m == self@.month,
            1 <= m <= 12,
    {
        proof {
            use_type_invariant(self);
        }
        self.month
    }

    /// The day of the month, from 1 to 31.
    pub fn day(&self) -> (d: u32)
        ensures
            d == self@.day,
            1 <= d <= 31,
    {
        proof {
            use_type_invariant(self);
        }
        self.day
    }
}

impl NaiveDate {
    /// This date at `hour`, `minute` and `second`, if that is a time of day.
    pub fn and_hms_opt(&self, hour: u32, minute: u32, second: u32) -> (res: Option<NaiveDateTime>)
        ensures
            res is Some <==> clock_time(hour as int, minute as int, second as int, 0).valid(),
            res matches Some(dt) ==> dt.wf() && dt@ == (CalendarDateTime {
                date: self@,
                time: clock_time(hour as int, minute as int, second as int, 0),
            }),
    {
        self.and_hms_nano_opt(hour, minute, second, 0)
    }

    /// This date at `hour`, `minute`, `second` and `nanosecond`, if that is a
    /// time of day. A `nanosecond` of one thousand million or more stands for a
    /// leap second and is accepted only with `second` 59.
    pub fn and_hms_nano_opt(&self, hour: u32, minute: u32, second: u32, nanosecond: u32) -> (res:
        Option<NaiveDateTime>)
        ensures
            res is Some <==> clock_time(
                hour as int,
                minute as int,
                second as int,
                nanosecond as int,
            ).valid(),
            res matches Some(dt) ==> dt.wf() && dt@ == (CalendarDateTime {
                date: self@,
                time: clock_time(hour as int, minute as int, second as int, nanosecond as int),
            }),
    {
        proof {
            use_type_invariant(self);
        }
        if hour >= 24 || minute >= 60 || second >= 60 || nanosecond >= 2_000_000_000 {
            return None;
        }
        if nanosecond >= 1_000_000_000 && second != 59 {
            return None;
        }
        Some(NaiveDateTime { date: *self, hour, minute, second, nanosecond })
    }
}

/// A date and a time of day without a time zone.
#[derive(Clone, Copy, Debug, PartialEq, Eq)]
pub struct NaiveDateTime {
    date: NaiveDate,
    hour: u32,
    minute: u32,
    second: u32,
    nanosecond: u32,
}

impl View for NaiveDateTime {
    type V = CalendarDateTime;

    closed spec fn view(&self) -> CalendarDateTime {
        CalendarDateTime {
            date: self.date@,
            time: ClockTime {
                hour: self.hour as int,
                minute: self.minute as int,
                second: self.second as int,
                nanosecond: self.nanosecond as int,
            },
        }
    }
}

impl NaiveDateTime {
    /// Every value is a valid date with a valid time of day.
    #[verifier::type_invariant]
    pub open spec fn wf(&self) -> bool {
        self@.valid()
    }

    /// The date.
    pub fn date(&self) -> (d: NaiveDate)
        ensures
            d@ == self@.date,
            d.wf(),
    {
        proof {
            use_type_invariant(self);
        }
        self.date
    }

    /// The hour, from 0 to 23.
    pub fn hour(&self) -> (h: u32)
        ensures
            h == self@.time.hour,
            h < 24,
    {
        proof {
            use_type_invariant(self);
        }
        self.hour
    }

    /// The minute, from 0 to 59.
    pub fn minute(&self) -> (m: u32)
        ensures
            m == self@.time.minute,
            m < 60,
    {
        proof {
            use_type_invariant(self);
        }
        self.minute
    }

    /// The second, from 0 to 59.
    pub fn second(&self) -> (s: u32)
        ensures
            s == self@.time.second,
            s < 60,
    {
        proof {
            use_type_invariant(self);
        }
        self.second
    }

    /// The nanoseconds since the second began; one thousand million or more
    /// during a leap second.
    pub fn nanosecond(&self) -> (n: u32)
        ensures
            n == self@.time.nanosecond,
            n < 2_000_000_000,
    {
        proof {
            use_type_invariant(self);
        }
        self.nanosecond
    }
}

/// Formats a date with `chrono::NaiveDate::format`. Trusted, not proved.
///
/// The date is first handed to `chrono::NaiveDate::from_ymd_opt`, which
/// accepts every day of the proleptic Gregorian calendar from `MIN_YEAR` to
/// `MAX_YEAR`, so that step cannot fail on a valid date.
///
/// For the pattern `%Y-%m-%d` chrono writes the year, a hyphen, the month in
/// two digits, a hyphen, and the day in two digits. It writes a year from 0
/// to 9999 in four digits, and any other year with its sign, `+` or `-`, and
/// at least four digits. The contract claims that text for every valid date;
/// nothing is claimed for another pattern.
#[verifier::external_body]
pub(crate) fn format_date(year: i32, month: u32, day: u32, pattern: &str) -> (text: String)
    requires
        calendar_date(year as int, month as int, day as int).valid(),
        pattern@ == DATE_PATTERN@,
    ensures
        text@ == calendar_date(year as int, month as int, day as int).text(),
{
    chrono::NaiveDate::from_ymd_opt(year, month, day).unwrap().format(pattern).to_string()
}

/// Formats a date and time of day with `chrono::NaiveDateTime::format`.
/// Trusted, not proved.
///
/// The value is first built with `chrono::NaiveDate::from_ymd_opt` and
/// `chrono::NaiveDate::and_hms_nano_opt`. The second accepts every hour below
/// 24, minute and second below 60 and nanosecond below two thousand million,
/// a nanosecond of one thousand million or more only with second 59; so
/// neither step can fail on a valid date and time.
///
/// For the pattern `%Y-%m-%d %H:%M:%S` chrono writes the date as
/// [`format_date`] does, a space, and hour, minute and second in two digits
/// each with colons between them. It leaves the fraction of the second out,
/// and during a leap second it writes the second as 60. The contract claims
/// that text for every valid date and time; nothing is claimed for another
/// pattern.
#[verifier::external_body]
pub(crate) fn format_datetime(
    year: i32,
    month: u32,
    day: u32,
    hour: u32,
    minute: u32,
    second: u32,
    nanosecond: u32,
    pattern: &str,
) -> (text: String)
    requires
        calendar_date(year as int, month as int, day as int).valid(),
        clock_time(hour as int, minute as int, second as int, nanosecond as int).valid(),
        pattern@ == DATETIME_PATTERN@,
    ensures
        text@ == (CalendarDateTime {
            date: calendar_date(year as int, month as int, day as int),
            time: clock_time(hour as int, minute as int, second as int, nanosecond as int),
        }).text(),
{
    let date = chrono::NaiveDate::from_ymd_opt(year, month, day).unwrap();
    let moment = date.and_hms_nano_opt(hour, minute, second, nanosecond).unwrap();
    moment.format(pattern).to_string()
}

} // verus!
