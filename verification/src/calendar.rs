//! The Gregorian calendar, counted in days from the first of January 1970.

use vstd::prelude::*;

use crate::text::{decimal, zero_padded};

verus! {

/// A day of the calendar, extended to the years before its introduction. There is a year 0.
pub struct Date {
    /// The year.
    pub year: int,
    /// The month, from 1.
    pub month: int,
    /// The day of the month, from 1.
    pub day: int,
}

/// A year of 366 days.
pub open spec fn is_leap(year: int) -> bool {
    year % 4 == 0 && (year % 100 != 0 || year % 400 == 0)
}

/// How many days a month has.
pub open spec fn month_length(year: int, month: int) -> int {
    if month == 2 {
        if is_leap(year) {
            29
        } else {
            28
        }
    } else if month == 4 || month == 6 || month == 9 || month == 11 {
        30
    } else {
        31
    }
}

/// How many days of a year lie before a month.
pub open spec fn days_before_month(year: int, month: int) -> int
    decreases month,
{
    if month <= 1 {
        0
    } else {
        days_before_month(year, month - 1) + month_length(year, month - 1)
    }
}

/// How many days lie between the first day of the year 0 and that of `year`.
pub open spec fn days_before_year(year: int) -> int {
    365 * year + (year - 1) / 4 - (year - 1) / 100 + (year - 1) / 400 + 1
}

impl Date {
    /// There is such a day.
    pub open spec fn is_valid(self) -> bool {
        &&& 1 <= self.month <= 12
        &&& 1 <= self.day <= month_length(self.year, self.month)
    }

    /// How many days the date lies behind the first of January 1970.
    pub open spec fn number(self) -> int {
        days_before_year(self.year) - days_before_year(1970) + days_before_month(
            self.year,
            self.month,
        ) + self.day - 1
    }

    /// The date as RFC 3339 writes it, such as `2026-01-02`. A year that takes more than four
    /// digits, or lies before the year 0, has a sign.
    pub open spec fn text(self) -> Seq<char> {
        let year = if 0 <= self.year <= 9999 {
            zero_padded(decimal(self.year as nat), 4)
        } else if self.year > 0 {
            seq!['+'] + zero_padded(decimal(self.year as nat), 4)
        } else {
            seq!['-'] + zero_padded(decimal((-self.year) as nat), 4)
        };
        year + seq!['-'] + two_digits(self.month) + seq!['-'] + two_digits(self.day)
    }
}

/// `n` in two digits.
pub open spec fn two_digits(n: int) -> Seq<char> {
    zero_padded(decimal(n as nat), 2)
}

/// The date `days` days behind the first of January 1970. Years are counted from March here,
/// which puts a leap day at the end of its year, and in spans of 400 years, of which the last
/// century is longer by a day; so is the last year of every four.
pub open spec fn date_of(days: int) -> Date {
    let since = days + 719468;
    let span = since / 146097;
    let in_span = since % 146097;
    let century = if in_span / 36524 > 3 {
        3
    } else {
        in_span / 36524
    };
    let in_century = in_span - 36524 * century;
    let four = in_century / 1461;
    let in_four = in_century % 1461;
    let one = if in_four / 365 > 3 {
        3
    } else {
        in_four / 365
    };
    let in_year = in_four - 365 * one;
    let month = (5 * in_year + 2) / 153;
    let year = 400 * span + 100 * century + 4 * four + one;
    let day = in_year - (153 * month + 2) / 5 + 1;
    if month < 10 {
        Date { year, month: month + 3, day }
    } else {
        Date { year: year + 1, month: month - 9, day }
    }
}

proof fn lemma_months(year: int)
    ensures
        forall|m: int|
            1 <= m <= 12 ==> #[trigger] days_before_month(year, m) == if m <= 2 {
                31 * (m - 1)
            } else {
                (153 * (m - 3) + 2) / 5 + 59 + if is_leap(year) {
                    1int
                } else {
                    0int
                }
            },
{
    reveal_with_fuel(days_before_month, 13);
}

/// Every day has a date, and the date is that of the day.
pub proof fn dates_count_days(days: int)
    ensures
        date_of(days).is_valid(),
        date_of(days).number() == days,
{
    let since = days + 719468;
    let span = since / 146097;
    let in_span = since % 146097;
    let century = if in_span / 36524 > 3 {
        3
    } else {
        in_span / 36524
    };
    let in_century = in_span - 36524 * century;
    let four = in_century / 1461;
    let in_four = in_century % 1461;
    let one = if in_four / 365 > 3 {
        3
    } else {
        in_four / 365
    };
    let in_year = in_four - 365 * one;
    let month = (5 * in_year + 2) / 153;
    let year = 400 * span + 100 * century + 4 * four + one;
    assert(0 <= century <= 3 && 0 <= in_century <= 36524);
    assert(century < 3 ==> in_century < 36524);
    assert(0 <= four <= 24 && 0 <= one <= 3);
    assert(0 <= in_year <= 365);
    assert(in_year == 365 ==> one == 3 && (four < 24 || century == 3));
    assert(0 <= month <= 11);
    assert(since == 146097 * span + 36524 * century + 1461 * four + 365 * one + in_year);
    let date = date_of(days);
    lemma_months(date.year);
    assert(days_before_year(1970) == 719528);
    if month < 10 {
        assert((year - 1) / 4 == 100 * span + 25 * century + four - if one == 0 {
            1int
        } else {
            0int
        });
        assert((year - 1) / 100 == 4 * span + century - if four == 0 && one == 0 {
            1int
        } else {
            0int
        });
        assert((year - 1) / 400 == span - if century == 0 && four == 0 && one == 0 {
            1int
        } else {
            0int
        });
        assert(is_leap(year) == (one == 0 && (four != 0 || century == 0)));
        assert(date.number() == days);
    } else {
        assert(year / 4 == 100 * span + 25 * century + four);
        assert(year / 100 == 4 * span + century);
        assert(year / 400 == span);
        assert(is_leap(year + 1) == (one == 3 && (four != 24 || century == 3)));
        assert(date.number() == days);
    }
}

/// A date is determined by its number.
pub proof fn dates_are_unique(a: Date, b: Date)
    requires
        a.is_valid(),
        b.is_valid(),
        a.number() == b.number(),
    ensures
        a == b,
{
    lemma_year_end(a.year);
    lemma_year_end(b.year);
    lemma_in_year(a);
    lemma_in_year(b);
    if a.year < b.year {
        lemma_years_grow(a.year + 1, b.year);
    } else if b.year < a.year {
        lemma_years_grow(b.year + 1, a.year);
    }
    lemma_months(a.year);
}

proof fn lemma_year_end(year: int)
    ensures
        days_before_year(year + 1) == days_before_year(year) + if is_leap(year) {
            366int
        } else {
            365int
        },
{
}

proof fn lemma_in_year(date: Date)
    requires
        date.is_valid(),
    ensures
        0 <= days_before_month(date.year, date.month) + date.day - 1 < if is_leap(date.year) {
            366int
        } else {
            365int
        },
{
    lemma_months(date.year);
}

proof fn lemma_years_grow(a: int, b: int)
    requires
        a <= b,
    ensures
        days_before_year(a) <= days_before_year(b),
    decreases b - a,
{
    if a < b {
        lemma_years_grow(a, b - 1);
        lemma_year_end(b - 1);
    }
}

} // verus!
