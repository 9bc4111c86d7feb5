//! Publication dates and access dates, and their renderings.
use crate::numerals::{int_decimal, nat_decimal, signed_decimal, unsigned_decimal};
use std::cmp::Ordering;
use vstd::prelude::*;
use vstd::string::*;

verus! {

/// Earliest year of chrono's calendar (`NaiveDate`).
pub const MIN_CALENDAR_YEAR: i32 = -262143;

/// Latest year of chrono's calendar (`NaiveDate`).
pub const MAX_CALENDAR_YEAR: i32 = 262142;

/// A month of the Gregorian calendar.
#[derive(Debug, Clone, Copy, PartialEq, Eq, Structural)]
pub enum Month {
    January,
    February,
    March,
    April,
    May,
    June,
    July,
    August,
    September,
    October,
    November,
    December,
}

/// The Gregorian leap-year rule.
pub open spec fn is_leap_year(year: int) -> bool {
    (year % 4 == 0 && year % 100 != 0) || year % 400 == 0
}

/// Days of a month (by number, 1 is January) as chrono counts them: `None`
/// only for February of a year outside chrono's calendar.
pub open spec fn num_days_spec(month: nat, year: int) -> Option<u8> {
    if month == 2 {
        if MIN_CALENDAR_YEAR <= year <= MAX_CALENDAR_YEAR {
            Some(if is_leap_year(year) { 29u8 } else { 28u8 })
        } else {
            None
        }
    } else if month == 4 || month == 6 || month == 9 || month == 11 {
        Some(30u8)
    } else {
        Some(31u8)
    }
}

/// English name of a month, by number (1 is January).
pub open spec fn month_name_of_number(number: nat) -> Seq<char> {
    seq![
        "January"@,
        "February"@,
        "March"@,
        "April"@,
        "May"@,
        "June"@,
        "July"@,
        "August"@,
        "September"@,
        "October"@,
        "November"@,
        "December"@,
    ][number - 1]
}

/// Relies on chrono's `Month::try_from(u8)` (1 is January) and `Month::name`,
/// which gives the English name of the month.
#[verifier::external_body]
fn chrono_month_name(number: u8) -> (r: &'static str)
    requires
        1 <= number <= 12,
    ensures
        r@ == month_name_of_number(number as nat),
{
    chrono::Month::try_from(number).unwrap().name()
}

/// Relies on chrono's `Month::try_from(u8)` (1 is January) and
/// `Month::num_days`, which counts February by `NaiveDate::leap_year` and
/// yields `None` when the year is outside `NaiveDate`'s range.
#[verifier::external_body]
fn chrono_num_days(number: u8, year: i32) -> (r: Option<u8>)
    requires
        1 <= number <= 12,
    ensures
        r == num_days_spec(number as nat, year as int),
{
    chrono::Month::try_from(number).unwrap().num_days(year)
}

impl Month {
    /// 1 for January up to 12 for December.
    pub open spec fn number_spec(&self) -> nat {
        match self {
            Month::January => 1,
            Month::February => 2,
            Month::March => 3,
            Month::April => 4,
            Month::May => 5,
            Month::June => 6,
            Month::July => 7,
            Month::August => 8,
            Month::September => 9,
            Month::October => 10,
            Month::November => 11,
            Month::December => 12,
        }
    }

    pub open spec fn name_spec(&self) -> Seq<char> {
        month_name_of_number(self.number_spec())
    }

    /// The IEEE abbreviation: three letters and a period, `"May"` as it is.
    pub open spec fn ieee_abbreviation_spec(&self) -> Seq<char> {
        match self {
            Month::January => "Jan."@,
            Month::February => "Feb."@,
            Month::March => "Mar."@,
            Month::April => "Apr."@,
            Month::May => "May"@,
            Month::June => "Jun."@,
            Month::July => "Jul."@,
            Month::August => "Aug."@,
            Month::September => "Sep."@,
            Month::October => "Oct."@,
            Month::November => "Nov."@,
            Month::December => "Dec."@,
        }
    }

    pub fn number(&self) -> (r: u8)
        ensures
            r as nat == self.number_spec(),
    {
        match self {
            Month::January => 1,
            Month::February => 2,
            Month::March => 3,
            Month::April => 4,
            Month::May => 5,
            Month::June => 6,
            Month::July => 7,
            Month::August => 8,
            Month::September => 9,
            Month::October => 10,
            Month::November => 11,
            Month::December => 12,
        }
    }

    /// The month of a number, 1 for January up to 12 for December.
    pub fn from_number(number: u8) -> (r: Option<Month>)
        ensures
            r is Some <==> 1 <= number <= 12,
            r matches Some(m) ==> m.number_spec() == number,
    {
        match number {
            1 => Some(Month::January),
            2 => Some(Month::February),
            3 => Some(Month::March),
            4 => Some(Month::April),
            5 => Some(Month::May),
            6 => Some(Month::June),
            7 => Some(Month::July),
            8 => Some(Month::August),
            9 => Some(Month::September),
            10 => Some(Month::October),
            11 => Some(Month::November),
            12 => Some(Month::December),
            _ => None,
        }
    }

    /// The English name of the month.
    pub fn name(&self) -> (r: String)
        ensures
            r@ == self.name_spec(),
    {
        String::from_str(chrono_month_name(self.number()))
    }

    /// Number of days of the month in `year`; `None` when chrono's calendar
    /// cannot tell (February of a year outside its range).
    pub fn num_days(&self, year: i32) -> (r: Option<u8>)
        ensures
            r == num_days_spec(self.number_spec(), year as int),
    {
        chrono_num_days(self.number(), year)
    }
}

/// Get the abbreviated name of the month (e.g. "Jan.")
pub fn ieee_abbreviated_month_name(month: &Month) -> (r: &'static str)
    ensures
        r@ == month.ieee_abbreviation_spec(),
{
    match month {
        Month::January => "Jan.",
        Month::February => "Feb.",
        Month::March => "Mar.",
        Month::April => "Apr.",
        Month::May => "May",
        Month::June => "Jun.",
        Month::July => "Jul.",
        Month::August => "Aug.",
        Month::September => "Sep.",
        Month::October => "Oct.",
        Month::November => "Nov.",
        Month::December => "Dec.",
    }
}

/// Why a publication date could not be built.
#[derive(Debug, Clone, Copy, PartialEq, Eq, Structural)]
pub enum PublishDateParamError {
    /// The day does not exist in that month of that year.
    InvalidDayForMonth,
    /// The year is outside the calendar's range.
    OutOfRangeYear,
}

/// A publication date, to the precision that is known.
#[derive(Debug, Clone, Copy, PartialEq, Eq, Structural)]
pub enum PublishDate {
    Year { year: i32 },
    YearMonth { year: i32, month: Month },
    YearMonthDay { year: i32, month: Month, day: u32 },
}

/// Lexicographic order on triples of integers.
pub open spec fn triple_lt(a: (int, int, int), b: (int, int, int)) -> bool {
    a.0 < b.0 || (a.0 == b.0 && (a.1 < b.1 || (a.1 == b.1 && a.2 < b.2)))
}

impl PublishDate {
    pub open spec fn year_spec(&self) -> i32 {
        match self {
            PublishDate::Year { year } => *year,
            PublishDate::YearMonth { year, .. } => *year,
            PublishDate::YearMonthDay { year, .. } => *year,
        }
    }

    /// The day exists in its month and year.
    pub open spec fn wf(&self) -> bool {
        match self {
            PublishDate::YearMonthDay { year, month, day } => {
                &&& 1 <= *day
                &&& num_days_spec(month.number_spec(), *year as int) matches Some(n)
                &&& *day <= n
            },
            _ => true,
        }
    }

    /// Position of the date in the order of dates: the year, then the month
    /// (0 when absent, so that it sorts first), then the day (0 when absent,
    /// the day plus one when present).
    pub open spec fn rank(&self) -> (int, int, int) {
        match self {
            PublishDate::Year { year } => (*year as int, 0, 0),
            PublishDate::YearMonth { year, month } => (*year as int, month.number_spec() as int, 0),
            PublishDate::YearMonthDay { year, month, day } => (
                *year as int,
                month.number_spec() as int,
                *day as int + 1,
            ),
        }
    }

    /// `self` is older than `other`.
    pub open spec fn precedes(&self, other: &PublishDate) -> bool {
        triple_lt(self.rank(), other.rank())
    }

    pub open spec fn ordering_spec(&self, other: &PublishDate) -> Ordering {
        if self.precedes(other) {
            Ordering::Less
        } else if other.precedes(self) {
            Ordering::Greater
        } else {
            Ordering::Equal
        }
    }

    /// IEEE form: `"<year>"`, `"<Mon.>, <year>"` or `"<Mon.> <day>, <year>"`.
    pub open spec fn ieee_spec(&self) -> Seq<char> {
        match self {
            PublishDate::Year { year } => int_decimal(*year as int),
            PublishDate::YearMonth { year, month } => month.ieee_abbreviation_spec() + ", "@
                + int_decimal(*year as int),
            PublishDate::YearMonthDay { year, month, day } => month.ieee_abbreviation_spec() + " "@
                + nat_decimal(*day as nat) + ", "@ + int_decimal(*year as int),
        }
    }

    /// APA form: `"<year>"`, `"<year>, <Month>"` or `"<year>, <Month> <day>"`.
    pub open spec fn apa_spec(&self) -> Seq<char> {
        match self {
            PublishDate::Year { year } => int_decimal(*year as int),
            PublishDate::YearMonth { year, month } => int_decimal(*year as int) + ", "@
                + month.name_spec(),
            PublishDate::YearMonthDay { year, month, day } => int_decimal(*year as int) + ", "@
                + month.name_spec() + " "@ + nat_decimal(*day as nat),
        }
    }

    /// A date known to the year.
    pub fn from_year(year: i32) -> (r: Self)
        ensures
            r == (PublishDate::Year { year }),
    {
        PublishDate::Year { year }
    }

    /// A date known to the month.
    pub fn from_year_month(year: i32, month: Month) -> (r: Self)
        ensures
            r == (PublishDate::YearMonth { year, month }),
    {
        PublishDate::YearMonth { year, month }
    }

    /// A date to the day; the day must exist in that month of that year.
    pub fn from_year_month_day(year: i32, month: Month, day: u32) -> (r: Result<
        Self,
        PublishDateParamError,
    >)
        ensures
            num_days_spec(month.number_spec(), year as int) is None ==> r == Err::<
                Self,
                PublishDateParamError,
            >(PublishDateParamError::OutOfRangeYear),
            num_days_spec(month.number_spec(), year as int) matches Some(n) ==> {
                if 1 <= day <= n {
                    r == Ok::<Self, PublishDateParamError>(
                        PublishDate::YearMonthDay { year, month, day },
                    )
                } else {
                    r == Err::<Self, PublishDateParamError>(
                        PublishDateParamError::InvalidDayForMonth,
                    )
                }
            },
            r matches Ok(d) ==> d.wf(),
    {
        match month.num_days(year) {
            Some(days_in_month) => {
                if 1 <= day && day <= days_in_month as u32 {
                    Ok(PublishDate::YearMonthDay { year, month, day })
                } else {
                    Err(PublishDateParamError::InvalidDayForMonth)
                }
            },
            None => Err(PublishDateParamError::OutOfRangeYear),
        }
    }

    pub fn year(&self) -> (r: i32)
        ensures
            r == self.year_spec(),
    {
        match self {
            PublishDate::Year { year } => *year,
            PublishDate::YearMonth { year, .. } => *year,
            PublishDate::YearMonthDay { year, .. } => *year,
        }
    }

    pub fn month(&self) -> (r: Option<Month>)
        ensures
            r == (match self {
                PublishDate::Year { .. } => None,
                PublishDate::YearMonth { month, .. } => Some(*month),
                PublishDate::YearMonthDay { month, .. } => Some(*month),
            }),
    {
        match self {
            PublishDate::Year { .. } => None,
            PublishDate::YearMonth { month, .. } => Some(*month),
            PublishDate::YearMonthDay { month, .. } => Some(*month),
        }
    }

    pub fn day(&self) -> (r: Option<u32>)
        ensures
            r == (match self {
                PublishDate::YearMonthDay { day, .. } => Some(*day),
                _ => None,
            }),
    {
        match self {
            PublishDate::YearMonthDay { day, .. } => Some(*day),
            _ => None,
        }
    }

    /// Orders by year, then month, then day; an absent month or day sorts
    /// before a present one.
    pub fn compare(&self, other: &PublishDate) -> (r: Ordering)
        ensures
            r == self.ordering_spec(other),
    {
        let (y1, m1, d1) = self.rank_exec();
        let (y2, m2, d2) = other.rank_exec();
        if y1 < y2 {
            Ordering::Less
        } else if y1 > y2 {
            Ordering::Greater
        } else if m1 < m2 {
            Ordering::Less
        } else if m1 > m2 {
            Ordering::Greater
        } else if d1 < d2 {
            Ordering::Less
        } else if d1 > d2 {
            Ordering::Greater
        } else {
            Ordering::Equal
        }
    }

    fn rank_exec(&self) -> (r: (i32, u8, u64))
        ensures
            (r.0 as int, r.1 as int, r.2 as int) == self.rank(),
    {
        match self {
            PublishDate::Year { year } => (*year, 0, 0),
            PublishDate::YearMonth { year, month } => (*year, month.number(), 0),
            PublishDate::YearMonthDay { year, month, day } => (
                *year,
                month.number(),
                *day as u64 + 1,
            ),
        }
    }

    /// Renders in IEEE style.
    pub fn fmt_for_ieee_citation(&self) -> (r: String)
        ensures
            r@ == self.ieee_spec(),
    {
        match self {
            PublishDate::Year { year } => signed_decimal(*year),
            PublishDate::YearMonth { year, month } => {
                let mut s = String::from_str(ieee_abbreviated_month_name(month));
                s.append(", ");
                let y = signed_decimal(*year);
                s.append(y.as_str());
                s
            },
            PublishDate::YearMonthDay { year, month, day } => {
                let mut s = String::from_str(ieee_abbreviated_month_name(month));
                s.append(" ");
                let d = unsigned_decimal(*day as u64);
                s.append(d.as_str());
                s.append(", ");
                let y = signed_decimal(*year);
                s.append(y.as_str());
                s
            },
        }
    }

    /// Renders in APA style.
    pub fn fmt_for_apa_citation(&self) -> (r: String)
        ensures
            r@ == self.apa_spec(),
    {
        match self {
            PublishDate::Year { year } => signed_decimal(*year),
            PublishDate::YearMonth { year, month } => {
                let mut s = signed_decimal(*year);
                s.append(", ");
                let name = month.name();
                s.append(name.as_str());
                s
            },
            PublishDate::YearMonthDay { year, month, day } => {
                let mut s = signed_decimal(*year);
                s.append(", ");
                let name = month.name();
                s.append(name.as_str());
                s.append(" ");
                let d = unsigned_decimal(*day as u64);
                s.append(d.as_str());
                s
            },
        }
    }
}

impl PartialOrd for PublishDate {
    fn partial_cmp(&self, other: &PublishDate) -> (r: Option<Ordering>) {
        Some(self.compare(other))
    }
}

impl vstd::std_specs::cmp::PartialOrdSpecImpl for PublishDate {
    open spec fn obeys_partial_cmp_spec() -> bool {
        true
    }

    open spec fn partial_cmp_spec(&self, other: &PublishDate) -> Option<Ordering> {
        Some(self.ordering_spec(other))
    }
}

/// Seconds in a day.
pub const SECONDS_PER_DAY: u32 = 86400;

/// The instant at which an online resource was viewed, in UTC: a calendar
/// day and the second of that day.
#[derive(Debug, Clone, Copy, PartialEq, Eq, Structural)]
pub struct AccessDate {
    pub year: i32,
    pub month: Month,
    pub day: u32,
    pub second_of_day: u32,
}

impl AccessDate {
    /// The day exists in its month and year, and the second in the day.
    pub open spec fn wf(&self) -> bool {
        &&& 1 <= self.day
        &&& num_days_spec(self.month.number_spec(), self.year as int) matches Some(n)
        &&& self.day <= n
        &&& self.second_of_day < SECONDS_PER_DAY
    }

    /// Position in time: day, then second of the day.
    pub open spec fn rank(&self) -> (int, int, int) {
        (self.year as int, self.month.number_spec() as int, self.day as int * SECONDS_PER_DAY
            + self.second_of_day)
    }

    pub open spec fn ordering_spec(&self, other: &AccessDate) -> Ordering {
        if triple_lt(self.rank(), other.rank()) {
            Ordering::Less
        } else if triple_lt(other.rank(), self.rank()) {
            Ordering::Greater
        } else {
            Ordering::Equal
        }
    }

    /// IEEE form: `"<Mon.> <day>, <year>"`.
    pub open spec fn ieee_spec(&self) -> Seq<char> {
        self.month.ieee_abbreviation_spec() + " "@ + nat_decimal(self.day as nat) + ", "@
            + int_decimal(self.year as int)
    }

    /// APA form: `"<year>, <Month> <day>"`.
    pub open spec fn apa_spec(&self) -> Seq<char> {
        int_decimal(self.year as int) + ", "@ + self.month.name_spec() + " "@ + nat_decimal(
            self.day as nat,
        )
    }

    /// Midnight (UTC) of a calendar day; the day must exist.
    pub fn from_ymd(year: i32, month: Month, day: u32) -> (r: Result<
        AccessDate,
        PublishDateParamError,
    >)
        ensures
            r == Self::from_ymd_hms_spec(year, month, day, 0, 0, 0),
            r matches Ok(d) ==> d.wf(),
    {
        Self::from_ymd_hms(year, month, day, 0, 0, 0)
    }

    /// The outcome of `from_ymd_hms`.
    pub open spec fn from_ymd_hms_spec(
        year: i32,
        month: Month,
        day: u32,
        hour: u32,
        minute: u32,
        second: u32,
    ) -> Result<AccessDate, PublishDateParamError> {
        match num_days_spec(month.number_spec(), year as int) {
            None => Err(PublishDateParamError::OutOfRangeYear),
            Some(n) => if 1 <= day <= n && hour < 24 && minute < 60 && second < 60 {
                Ok(
                    AccessDate {
                        year,
                        month,
                        day,
                        second_of_day: (hour * 3600 + minute * 60 + second) as u32,
                    },
                )
            } else {
                Err(PublishDateParamError::InvalidDayForMonth)
            },
        }
    }

    /// A calendar day and a time of day (UTC); the day and the time must exist.
    pub fn from_ymd_hms(year: i32, month: Month, day: u32, hour: u32, minute: u32, second: u32) -> (r:
        Result<AccessDate, PublishDateParamError>)
        ensures
            r == Self::from_ymd_hms_spec(year, month, day, hour, minute, second),
            r matches Ok(d) ==> d.wf(),
    {
        match month.num_days(year) {
            None => Err(PublishDateParamError::OutOfRangeYear),
            Some(n) => {
                if 1 <= day && day <= n as u32 && hour < 24 && minute < 60 && second < 60 {
                    Ok(
                        AccessDate {
                            year,
                            month,
                            day,
                            second_of_day: hour * 3600 + minute * 60 + second,
                        },
                    )
                } else {
                    Err(PublishDateParamError::InvalidDayForMonth)
                }
            },
        }
    }

    pub fn year(&self) -> (r: i32)
        ensures
            r == self.year,
    {
        self.year
    }

    pub fn month(&self) -> (r: Month)
        ensures
            r == self.month,
    {
        self.month
    }

    pub fn day(&self) -> (r: u32)
        ensures
            r == self.day,
    {
        self.day
    }

    /// Orders by instant.
    pub fn compare(&self, other: &AccessDate) -> (r: Ordering)
        ensures
            r == self.ordering_spec(other),
    {
        let a = self.day as u64 * 86400 + self.second_of_day as u64;
        let b = other.day as u64 * 86400 + other.second_of_day as u64;
        let m1 = self.month.number();
        let m2 = other.month.number();
        if self.year < other.year {
            Ordering::Less
        } else if self.year > other.year {
            Ordering::Greater
        } else if m1 < m2 {
            Ordering::Less
        } else if m1 > m2 {
            Ordering::Greater
        } else if a < b {
            Ordering::Less
        } else if a > b {
            Ordering::Greater
        } else {
            Ordering::Equal
        }
    }

    /// Renders in IEEE style.
    pub fn fmt_for_ieee_citation(&self) -> (r: String)
        ensures
            r@ == self.ieee_spec(),
    {
        let mut s = String::from_str(ieee_abbreviated_month_name(&self.month));
        s.append(" ");
        let d = unsigned_decimal(self.day as u64);
        s.append(d.as_str());
        s.append(", ");
        let y = signed_decimal(self.year);
        s.append(y.as_str());
        s
    }

    /// Renders in APA style.
    pub fn fmt_for_apa_citation(&self) -> (r: String)
        ensures
            r@ == self.apa_spec(),
    {
        let mut s = signed_decimal(self.year);
        s.append(", ");
        let name = self.month.name();
        s.append(name.as_str());
        s.append(" ");
        let d = unsigned_decimal(self.day as u64);
        s.append(d.as_str());
        s
    }
}

impl PartialOrd for AccessDate {
    fn partial_cmp(&self, other: &AccessDate) -> (r: Option<Ordering>) {
        Some(self.compare(other))
    }
}

impl vstd::std_specs::cmp::PartialOrdSpecImpl for AccessDate {
    open spec fn obeys_partial_cmp_spec() -> bool {
        true
    }

    open spec fn partial_cmp_spec(&self, other: &AccessDate) -> Option<Ordering> {
        Some(self.ordering_spec(other))
    }
}

/// The order of publication dates is transitive.
pub proof fn lemma_date_order_transitive(a: PublishDate, b: PublishDate, c: PublishDate)
    requires
        a.precedes(&b),
        b.precedes(&c),
    ensures
        a.precedes(&c),
{
}

/// The order of publication dates is total and strict: of two dates, either
/// they are equal or exactly one precedes the other.
pub proof fn lemma_date_order_total(a: PublishDate, b: PublishDate)
    ensures
        a == b <==> !a.precedes(&b) && !b.precedes(&a),
        !(a.precedes(&b) && b.precedes(&a)),
{
}

/// Within a year, a date with fewer components is older: the year alone
/// precedes any of its months, and a month alone precedes any of its days.
pub proof fn lemma_less_precise_is_older(year: i32, month: Month, day: u32)
    ensures
        (PublishDate::Year { year }).precedes(&PublishDate::YearMonth { year, month }),
        (PublishDate::YearMonth { year, month }).precedes(
            &PublishDate::YearMonthDay { year, month, day },
        ),
{
}

} // verus!
