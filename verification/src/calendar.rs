//! Calendar dates as day numbers of the proleptic Gregorian calendar.
//!
//! A `PlanDate` is a day number in chrono's numbering (January 1 of year 1 is
//! day 1); chrono does the calendar work behind a few trusted wrappers.
use vstd::prelude::*;
use chrono::Datelike;

verus! {

/// Day number of `chrono::NaiveDate::MIN` (January 1, 262144 BCE).
pub const MIN_DAY_NUMBER: i32 = -95746129i32;

/// Day number of `chrono::NaiveDate::MAX` (December 31, 262142 CE).
pub const MAX_DAY_NUMBER: i32 = 95745399i32;

/// The day numbers that chrono can represent as a date.
pub open spec fn day_number_in_range(n: int) -> bool {
    MIN_DAY_NUMBER <= n <= MAX_DAY_NUMBER
}

/// Days since Monday of the day with number `n` (day 1, January 1 of year 1,
/// is a Monday in the proleptic Gregorian calendar).
pub open spec fn weekday_index_of(n: int) -> int {
    (n - 1) % 7
}

/// A day of the week.
#[derive(Clone, Copy, Debug, PartialEq, Eq, Structural)]
pub enum Weekday {
    Mon,
    Tue,
    Wed,
    Thu,
    Fri,
    Sat,
    Sun,
}

impl Weekday {
    /// Days since Monday: Monday is 0, Sunday is 6.
    pub open spec fn index(self) -> int {
        match self {
            Weekday::Mon => 0,
            Weekday::Tue => 1,
            Weekday::Wed => 2,
            Weekday::Thu => 3,
            Weekday::Fri => 4,
            Weekday::Sat => 5,
            Weekday::Sun => 6,
        }
    }

    /// The weekday that lies `i` days after Monday, for `0 <= i < 7`.
    pub open spec fn from_index(i: int) -> Weekday {
        if i == 0 {
            Weekday::Mon
        } else if i == 1 {
            Weekday::Tue
        } else if i == 2 {
            Weekday::Wed
        } else if i == 3 {
            Weekday::Thu
        } else if i == 4 {
            Weekday::Fri
        } else if i == 5 {
            Weekday::Sat
        } else {
            Weekday::Sun
        }
    }

    /// Days since Monday.
    pub fn num_days_from_monday(&self) -> (r: u32)
        ensures
            r == self.index(),
    {
        match self {
            Weekday::Mon => 0,
            Weekday::Tue => 1,
            Weekday::Wed => 2,
            Weekday::Thu => 3,
            Weekday::Fri => 4,
            Weekday::Sat => 5,
            Weekday::Sun => 6,
        }
    }

    /// The weekday `i` days after Monday.
    pub fn from_days_since_monday(i: u32) -> (r: Weekday)
        requires
            i < 7,
        ensures
            r == Weekday::from_index(i as int),
            r.index() == i,
    {
        if i == 0 {
            Weekday::Mon
        } else if i == 1 {
            Weekday::Tue
        } else if i == 2 {
            Weekday::Wed
        } else if i == 3 {
            Weekday::Thu
        } else if i == 4 {
            Weekday::Fri
        } else if i == 5 {
            Weekday::Sat
        } else {
            Weekday::Sun
        }
    }
}

/// The weekday of the day with number `n`.
pub open spec fn weekday_of_day_number(n: int) -> Weekday {
    Weekday::from_index(weekday_index_of(n))
}

/// The first year that chrono represents (262144 BCE).
pub const MIN_YEAR: i32 = -262143i32;

/// The last year that chrono represents (262142 CE).
pub const MAX_YEAR: i32 = 262142i32;

/// A leap year of the proleptic Gregorian calendar (year 0 is 1 BCE).
pub open spec fn is_leap_year(year: int) -> bool {
    year % 4 == 0 && (year % 100 != 0 || year % 400 == 0)
}

/// The number of days of a month (1 to 12).
pub open spec fn days_in_month(year: int, month: int) -> int {
    if month == 2 {
        if is_leap_year(year) {
            29
        } else {
            28
        }
    } else if month == 4 || month == 6 || month == 9 || month == 11 {
        30
    } else {
        31
    }
}

/// The number of days of the year before the first of a month (1 to 12).
pub open spec fn days_before_month(year: int, month: int) -> int
    decreases month,
{
    if month <= 1 {
        0
    } else {
        days_before_month(year, month - 1) + days_in_month(year, month - 1)
    }
}

/// `year-month-day` names a day that chrono represents.
pub open spec fn is_valid_ymd(year: int, month: int, day: int) -> bool {
    &&& MIN_YEAR <= year <= MAX_YEAR
    &&& 1 <= month <= 12
    &&& 1 <= day <= days_in_month(year, month)
}

/// The day number of `year-month-day`: the days of the years before it,
/// counted from year 1, then those of its months before it, then its day.
pub open spec fn ymd_day_number(year: int, month: int, day: int) -> int {
    let z = year - 1;
    365 * z + z / 4 - z / 100 + z / 400 + days_before_month(year, month) + day
}

/// What chrono's `NaiveDate::parse_from_str(text, "%Y-%m-%d")` gives, read as a day number.
pub uninterp spec fn iso_date_day_number(text: Seq<char>) -> Option<i32>;

/// Calls `chrono::NaiveDate::from_ymd_opt` and reads the date back with
/// `Datelike::num_days_from_ce`. Trusted: a date is made exactly for an
/// existing day of the proleptic Gregorian calendar in chrono's years, and
/// its day number counts the days from January 1 of year 1 (day 1); every
/// such date lies between `NaiveDate::MIN` and `NaiveDate::MAX`.
#[verifier::external_body]
fn chrono_from_ymd(year: i32, month: u32, day: u32) -> (r: Option<i32>)
    ensures
        r is Some <==> is_valid_ymd(year as int, month as int, day as int),
        r matches Some(n) ==> n == ymd_day_number(year as int, month as int, day as int),
        r matches Some(n) ==> day_number_in_range(n as int),
{
    chrono::NaiveDate::from_ymd_opt(year, month, day).map(|d| d.num_days_from_ce())
}

/// Calls `chrono::NaiveDate::parse_from_str(text, "%Y-%m-%d")` and reads the
/// date back with `Datelike::num_days_from_ce`. Trusted: the result is the
/// named value, and a parsed date lies in chrono's range.
#[verifier::external_body]
fn chrono_parse_iso_date(text: &str) -> (r: Option<i32>)
    ensures
        r == iso_date_day_number(text@),
        r matches Some(n) ==> day_number_in_range(n as int),
{
    chrono::NaiveDate::parse_from_str(text, "%Y-%m-%d").ok().map(|d| d.num_days_from_ce())
}

/// Calls `chrono::NaiveDate::from_num_days_from_ce_opt`, `Datelike::weekday` and
/// `Weekday::num_days_from_monday`. Trusted: the day numbered `days` (day 1 is
/// January 1 of year 1, a Monday) lies `(days - 1) mod 7` days after a Monday.
#[verifier::external_body]
fn chrono_weekday(days: i32) -> (r: u32)
    requires
        day_number_in_range(days as int),
    ensures
        r as int == weekday_index_of(days as int),
{
    chrono::NaiveDate::from_num_days_from_ce_opt(days).unwrap().weekday().num_days_from_monday()
}

/// Calls `chrono::NaiveDate::checked_add_signed` with `chrono::TimeDelta::days(n)`.
/// Trusted: adding `n` days adds `n` to the day number, and the result is `None`
/// exactly when that day number is outside chrono's range.
#[verifier::external_body]
fn chrono_add_days(days: i32, n: i32) -> (r: Option<i32>)
    requires
        day_number_in_range(days as int),
    ensures
        day_number_in_range(days + n) ==> r == Some((days + n) as i32),
        !day_number_in_range(days + n) ==> r is None,
{
    chrono::NaiveDate::from_num_days_from_ce_opt(days).unwrap().checked_add_signed(
        chrono::TimeDelta::days(n as i64),
    ).map(|d| d.num_days_from_ce())
}

/// Calls `chrono::Local::now().date_naive()`, read as a day number. The result
/// depends on the clock and the time zone: only that it lies in chrono's
/// range is stated.
#[verifier::external_body]
fn chrono_today() -> (r: i32)
    ensures
        day_number_in_range(r as int),
{
    chrono::Local::now().date_naive().num_days_from_ce()
}

/// `t` is a day number that a reading of the local clock (by
/// `chrono_today`) has given: today's date at the time of some call.
pub closed spec fn clock_gave(t: i32) -> bool {
    call_ensures(chrono_today, (), t)
}

/// A calendar date, held as its day number (January 1 of year 1 is day 1).
#[derive(Clone, Copy, Debug, PartialEq, Eq, Structural)]
pub struct PlanDate {
    days: i32,
}

impl PlanDate {
    #[verifier::type_invariant]
    spec fn in_range(self) -> bool {
        day_number_in_range(self.days as int)
    }

    /// The day number of this date.
    pub closed spec fn day_num(self) -> int {
        self.days as int
    }

    /// The weekday of this date.
    pub open spec fn weekday_spec(self) -> Weekday {
        weekday_of_day_number(self.day_num())
    }

    /// The day number of this date (chrono's `num_days_from_ce`).
    pub fn num_days_from_ce(&self) -> (r: i32)
        ensures
            r == self.day_num(),
            day_number_in_range(r as int),
    {
        proof {
            use_type_invariant(self);
        }
        self.days
    }

    /// The date with day number `n`, if chrono can represent it.
    pub fn from_num_days_from_ce(n: i32) -> (r: Option<PlanDate>)
        ensures
            r is Some <==> day_number_in_range(n as int),
            r matches Some(d) ==> d.day_num() == n,
    {
        if MIN_DAY_NUMBER <= n && n <= MAX_DAY_NUMBER {
            Some(PlanDate { days: n })
        } else {
            None
        }
    }

    /// The date `year-month-day` of the proleptic Gregorian calendar, if it exists.
    pub fn from_ymd(year: i32, month: u32, day: u32) -> (r: Option<PlanDate>)
        ensures
            r is Some <==> is_valid_ymd(year as int, month as int, day as int),
            r matches Some(d) ==> d.day_num() == ymd_day_number(
                year as int,
                month as int,
                day as int,
            ),
    {
        match chrono_from_ymd(year, month, day) {
            Some(n) => Some(PlanDate { days: n }),
            None => None,
        }
    }

    /// The weekday of this date.
    pub fn weekday(&self) -> (r: Weekday)
        ensures
            r == self.weekday_spec(),
            r.index() == weekday_index_of(self.day_num()),
    {
        proof {
            use_type_invariant(self);
        }
        let i = chrono_weekday(self.days);
        Weekday::from_days_since_monday(i)
    }

    /// The date `n` days later, or `None` where that leaves chrono's range.
    pub fn checked_add_days(&self, n: i32) -> (r: Option<PlanDate>)
        ensures
            day_number_in_range(self.day_num()),
            r is Some <==> day_number_in_range(self.day_num() + n),
            r matches Some(d) ==> d.day_num() == self.day_num() + n,
    {
        proof {
            use_type_invariant(self);
        }
        match chrono_add_days(self.days, n) {
            Some(m) => Some(PlanDate { days: m }),
            None => None,
        }
    }
}

/// How many days after a day with weekday `w` the next Monday comes (none
/// for a Monday).
pub open spec fn days_until_monday(w: Weekday) -> int {
    match w {
        Weekday::Mon => 0,
        Weekday::Tue => 6,
        Weekday::Wed => 5,
        Weekday::Thu => 4,
        Weekday::Fri => 3,
        Weekday::Sat => 2,
        Weekday::Sun => 1,
    }
}

/// The weekday moves on by one with each day.
pub proof fn lemma_weekday_after(n: int, k: int)
    requires
        k >= 0,
    ensures
        weekday_index_of(n + k) == (weekday_index_of(n) + k) % 7,
        0 <= weekday_index_of(n) < 7,
{
    assert(((n + k) - 1) % 7 == (((n - 1) % 7) + k) % 7) by (nonlinear_arith);
}

/// The first Monday on or after `today`, which must lie within chrono's range.
pub fn next_monday(today: PlanDate) -> (r: PlanDate)
    requires
        today.day_num() + days_until_monday(today.weekday_spec()) <= MAX_DAY_NUMBER,
    ensures
        r.day_num() == today.day_num() + days_until_monday(today.weekday_spec()),
        r.weekday_spec() == Weekday::Mon,
        0 <= r.day_num() - today.day_num() < 7,
        forall|k: int|
            0 <= k < r.day_num() - today.day_num() ==> #[trigger] weekday_of_day_number(
                today.day_num() + k,
            ) != Weekday::Mon,
{
    let days_until: i32 = match today.weekday() {
        Weekday::Mon => 0,
        Weekday::Tue => 6,
        Weekday::Wed => 5,
        Weekday::Thu => 4,
        Weekday::Fri => 3,
        Weekday::Sat => 2,
        Weekday::Sun => 1,
    };
    proof {
        lemma_weekday_after(today.day_num(), days_until as int);
        assert forall|k: int| 0 <= k < days_until implies #[trigger] weekday_of_day_number(
            today.day_num() + k,
        ) != Weekday::Mon by {
            lemma_weekday_after(today.day_num(), k);
        }
    }
    match today.checked_add_days(days_until) {
        Some(d) => d,
        None => unreached(),
    }
}

/// Why no week start could be had.
#[derive(Debug, Clone, Copy, PartialEq, Eq, Structural)]
pub enum WeekStartError {
    /// The given text is not a `YYYY-MM-DD` date.
    InvalidFormat,
    /// The next Monday lies past the last date chrono represents.
    OutOfRange,
}

impl WeekStartError {
    /// The message shown for the error.
    pub fn message(&self) -> (r: String)
        ensures
            *self == WeekStartError::InvalidFormat ==> r@
                == "Invalid date format. Use YYYY-MM-DD (e.g. 2024-03-25)"@,
            *self == WeekStartError::OutOfRange ==> r@
                == "The next Monday lies outside the supported calendar range"@,
    {
        match self {
            WeekStartError::InvalidFormat => String::from_str(
                "Invalid date format. Use YYYY-MM-DD (e.g. 2024-03-25)",
            ),
            WeekStartError::OutOfRange => String::from_str(
                "The next Monday lies outside the supported calendar range",
            ),
        }
    }
}

/// What the week start chosen from `today` is: the first Monday on or after
/// `today`, or `OutOfRange` where that Monday lies past chrono's last date.
pub open spec fn is_week_start_from(today: PlanDate, r: Result<PlanDate, WeekStartError>) -> bool {
    let until = days_until_monday(today.weekday_spec());
    &&& today.day_num() + until <= MAX_DAY_NUMBER ==> (r matches Ok(d) && d.day_num()
        == today.day_num() + until)
    &&& today.day_num() + until > MAX_DAY_NUMBER ==> r == Err::<PlanDate, WeekStartError>(
        WeekStartError::OutOfRange,
    )
}

/// Dates with one day number are the same date.
pub proof fn lemma_day_num_determines_date(a: PlanDate, b: PlanDate)
    requires
        a.day_num() == b.day_num(),
    ensures
        a == b,
{
}

/// A week start chosen from any date is a Monday no more than six days
/// after it.
pub proof fn law_week_start_is_next_monday(today: PlanDate, r: Result<PlanDate, WeekStartError>)
    requires
        is_week_start_from(today, r),
    ensures
        r matches Ok(d) ==> {
            &&& d.weekday_spec() == Weekday::Mon
            &&& today.day_num() <= d.day_num() <= today.day_num() + 6
            &&& forall|k: int|
                0 <= k < d.day_num() - today.day_num() ==> #[trigger] weekday_of_day_number(
                    today.day_num() + k,
                ) != Weekday::Mon
        },
{
    let until = days_until_monday(today.weekday_spec());
    lemma_weekday_after(today.day_num(), until);
    assert forall|k: int| 0 <= k < until implies #[trigger] weekday_of_day_number(
        today.day_num() + k,
    ) != Weekday::Mon by {
        lemma_weekday_after(today.day_num(), k);
    }
}

/// With no date given, the week start is taken from a date that the local
/// clock gave: the first Monday on or after that day, no Monday lying
/// between them.
pub proof fn law_default_week_start_follows_clock(r: Result<PlanDate, WeekStartError>)
    requires
        exists|today: PlanDate|
            clock_gave(today.day_num() as i32) && #[trigger] is_week_start_from(today, r),
    ensures
        exists|today: PlanDate|
            #[trigger] clock_gave(today.day_num() as i32) && (r matches Ok(d) ==> {
                &&& d.weekday_spec() == Weekday::Mon
                &&& today.day_num() <= d.day_num() <= today.day_num() + 6
                &&& forall|k: int|
                    0 <= k < d.day_num() - today.day_num() ==> #[trigger] weekday_of_day_number(
                        today.day_num() + k,
                    ) != Weekday::Mon
            }),
{
    let today = choose|today: PlanDate|
        clock_gave(today.day_num() as i32) && #[trigger] is_week_start_from(today, r);
    law_week_start_is_next_monday(today, r);
}

/// The start of the week to plan when no date is given: the first Monday on
/// or after `today`, or `OutOfRange` where that Monday lies past chrono's
/// last date.
pub fn week_start_from(today: PlanDate) -> (r: Result<PlanDate, WeekStartError>)
    ensures
        is_week_start_from(today, r),
{
    proof {
        use_type_invariant(&today);
    }
    let until: i32 = match today.weekday() {
        Weekday::Mon => 0,
        Weekday::Tue => 6,
        Weekday::Wed => 5,
        Weekday::Thu => 4,
        Weekday::Fri => 3,
        Weekday::Sat => 2,
        Weekday::Sun => 1,
    };
    if today.days <= MAX_DAY_NUMBER - until {
        Ok(next_monday(today))
    } else {
        Err(WeekStartError::OutOfRange)
    }
}

/// The start of the week to plan: the given `YYYY-MM-DD` date, or else the
/// week start chosen from today's date (by the local clock).
pub fn parse_week_start(date_str: Option<String>) -> (r: Result<PlanDate, WeekStartError>)
    ensures
        date_str matches Some(s) ==> {
            &&& (r is Ok <==> iso_date_day_number(s@) is Some)
            &&& (r matches Ok(d) ==> d.day_num() == iso_date_day_number(s@)->0)
            &&& (r is Err ==> r == Err::<PlanDate, WeekStartError>(WeekStartError::InvalidFormat))
        },
        date_str is None ==> exists|today: PlanDate|
            clock_gave(today.day_num() as i32) && #[trigger] is_week_start_from(today, r),
{
    match date_str {
        Some(s) => match chrono_parse_iso_date(s.as_str()) {
            Some(n) => Ok(PlanDate { days: n }),
            None => Err(WeekStartError::InvalidFormat),
        },
        None => {
            let today = PlanDate { days: chrono_today() };
            let r = week_start_from(today);
            assert(clock_gave(today.day_num() as i32) && is_week_start_from(today, r));
            r
        },
    }
}

} // verus!
