//! Laws of time: instants, their text, and samples.

use vstd::prelude::*;

use crate::calendar::{
    date_of, dates_are_unique, dates_count_days, days_before_month, two_digits, Date,
};
use crate::laws::text::{lemma_padded, number, ten_to_the};
use crate::metrics::{
    clock_text, format_utc, rss_from_reading, sample, Metrics, MetricsError, UtcTime,
};
use crate::span::Span;
use crate::text::{decimal, zero_padded};

verus! {

proof fn lemma_two(n: int)
    requires
        0 <= n < 100,
    ensures
        two_digits(n).len() == 2,
        number(two_digits(n)) == n,
{
    reveal_with_fuel(ten_to_the, 3);
    lemma_padded(n as nat, 2);
}

/// `clock` shows the time of day `second` seconds after midnight, with `millis` milliseconds:
/// hours, minutes, seconds and milliseconds as RFC 3339 writes them.
pub open spec fn shows_clock(clock: Seq<char>, second: int, millis: int) -> bool {
    &&& clock.len() == 14
    &&& clock[0] == 'T' && clock[3] == ':' && clock[6] == ':' && clock[9] == '.' && clock[13]
        == 'Z'
    &&& 0 <= number(clock.subrange(1, 3)) < 24
    &&& 0 <= number(clock.subrange(4, 6)) < 60
    &&& number(clock.subrange(1, 3)) * 3600 + number(clock.subrange(4, 6)) * 60 + number(
        clock.subrange(7, 9),
    ) == second
    &&& number(clock.subrange(10, 13)) == millis
}

proof fn lemma_clock(secs: int, nanos: int)
    requires
        0 <= nanos < 2_000_000_000,
        nanos >= 1_000_000_000 ==> secs % 60 == 59,
    ensures
        shows_clock(
            clock_text(secs, nanos),
            secs % 86400 + if nanos >= 1_000_000_000 {
                1int
            } else {
                0int
            },
            (nanos % 1_000_000_000) / 1_000_000,
        ),
{
    let hour = (secs / 3600) % 24;
    let minute = (secs / 60) % 60;
    let second = if nanos >= 1_000_000_000 {
        60int
    } else {
        secs % 60
    };
    let millis = (nanos % 1_000_000_000) / 1_000_000;
    lemma_two(hour);
    lemma_two(minute);
    lemma_two(second);
    reveal_with_fuel(ten_to_the, 4);
    lemma_padded(millis as nat, 3);
    let clock = clock_text(secs, nanos);
    assert(clock.len() == 14);
    assert(clock.subrange(1, 3) =~= two_digits(hour));
    assert(clock.subrange(4, 6) =~= two_digits(minute));
    assert(clock.subrange(7, 9) =~= two_digits(second));
    assert(clock.subrange(10, 13) =~= zero_padded(decimal(millis as nat), 3));
    assert(hour * 3600 + minute * 60 + secs % 60 == secs % 86400);
}

proof fn lemma_cut(whole: Seq<char>, front: Seq<char>, back: Seq<char>)
    requires
        whole == front + back,
    ensures
        whole.skip(whole.len() - back.len()) == back,
        whole.take(whole.len() - back.len()) == front,
{
    assert(whole.skip(whole.len() - back.len()) =~= back);
    assert(whole.take(whole.len() - back.len()) =~= front);
}

/// The text of an instant reads back as the instant, to the millisecond: its last fourteen
/// characters show the time of day, in which a leap second is second 60, and what is in front
/// is the date of that day.
#[verifier::rlimit(40)]
pub proof fn formatted_times_read_back(t: UtcTime, text: String, date: Date)
    requires
        call_ensures(format_utc, (t,), text),
        0 <= t.nanos() < 2_000_000_000,
        t.nanos() >= 1_000_000_000 ==> t.secs() % 60 == 59,
        date.is_valid(),
        date.number() == t.secs() / 86400,
    ensures
        text@.len() >= 14,
        shows_clock(
            text@.skip(text@.len() - 14),
            t.secs() % 86400 + if t.nanos() >= 1_000_000_000 {
                1int
            } else {
                0int
            },
            (t.nanos() % 1_000_000_000) / 1_000_000,
        ),
        text@.take(text@.len() - 14) == date.text(),
{
    let day = t.secs() / 86400;
    let clock = clock_text(t.secs(), t.nanos());
    let front = date.text();
    assert(text@ == front + clock) by {
        dates_count_days(day);
        dates_are_unique(date_of(day), date);
    }
    assert(clock.len() == 14) by {
        lemma_clock(t.secs(), t.nanos());
    }
    lemma_cut(text@, front, clock);
    lemma_clock(t.secs(), t.nanos());
}

/// A sample's time is written like any other instant.
pub proof fn sample_times_read_back(m: Metrics, text: String, other: String)
    requires
        call_ensures(Metrics::utc_string, (&m,), text),
        call_ensures(format_utc, (m.utc,), other),
    ensures
        text@ == other@,
{
}

/// A day in the years 0 to 9999 is written as four digits of the year, two of the month and
/// two of the day, with dashes between them.
pub proof fn dates_read_back(date: Date)
    requires
        date.is_valid(),
        0 <= date.year <= 9999,
    ensures
        date.text().len() == 10,
        date.text()[4] == '-',
        date.text()[7] == '-',
        number(date.text().subrange(0, 4)) == date.year,
        number(date.text().subrange(5, 7)) == date.month,
        number(date.text().subrange(8, 10)) == date.day,
{
    reveal_with_fuel(ten_to_the, 5);
    lemma_padded(date.year as nat, 4);
    lemma_two(date.month);
    lemma_two(date.day);
    let text = date.text();
    assert(text.subrange(0, 4) =~= zero_padded(decimal(date.year as nat), 4));
    assert(text.subrange(5, 7) =~= two_digits(date.month));
    assert(text.subrange(8, 10) =~= two_digits(date.day));
}

/// The days of the calendar follow each other: within a month, from the end of a month to the
/// first of the next, and from the end of a year to the first of the next. They are counted from
/// the first of January 1970, and every fourth year has a 29 February, but for the full
/// centuries that 400 does not divide.
pub proof fn days_follow_each_other(date: Date)
    requires
        date.is_valid(),
    ensures
        (Date { year: 1970, month: 1, day: 1 }).number() == 0,
        ({
            let next = Date { day: date.day + 1, ..date };
            let month = Date { year: date.year, month: date.month + 1, day: 1 };
            let year = Date { year: date.year + 1, month: 1, day: 1 };
            &&& next.is_valid() ==> next.number() == date.number() + 1
            &&& !next.is_valid() && date.month < 12 ==> month.number() == date.number() + 1
            &&& !next.is_valid() && date.month == 12 ==> year.number() == date.number() + 1
        }),
        date.day <= 27 ==> (Date { day: date.day + 1, ..date }).is_valid(),
        (Date { year: date.year, month: 2, day: 29 }).is_valid() <==> date.year % 400 == 0 || (
        date.year % 4 == 0 && date.year % 100 != 0),
        date.month == 4 || date.month == 6 || date.month == 9 || date.month == 11 ==> date.day
            <= 30,
        date.month == 2 ==> date.day <= 29,
        date.day <= 31,
        date.month <= 12,
        date.month != 2 ==> (Date { day: 30, ..date }).is_valid(),
        date.month == 1 || date.month == 3 || date.month == 5 || date.month == 7 || date.month == 8
            || date.month == 10 || date.month == 12 ==> (Date { day: 31, ..date }).is_valid(),
{
    reveal_with_fuel(days_before_month, 13);
}

/// An instant is made of any second of the calendar and up to a second of nanoseconds, and
/// keeps both; more nanoseconds than that are a leap second, at the end of a minute.
pub proof fn instants_keep_what_they_are_made_of(
    secs: i64,
    nanos: u32,
    made: Option<UtcTime>,
    whole: i64,
    rest: u32,
)
    requires
        call_ensures(UtcTime::from_timestamp, (secs, nanos), made),
        made matches Some(t) ==> call_ensures(UtcTime::timestamp, (&t,), whole) && call_ensures(
            UtcTime::subsec_nanos,
            (&t,),
            rest,
        ),
    ensures
        made is Some ==> whole == secs && rest == nanos,
        -8_334_601_228_800 <= secs <= 8_210_266_876_799 && nanos < 1_000_000_000 ==> made is Some,
        !(-8_334_601_228_800 <= secs <= 8_210_266_876_799) ==> made is None,
        nanos >= 2_000_000_000 ==> made is None,
        -8_334_601_228_800 <= secs <= 8_210_266_876_799 && 1_000_000_000 <= nanos < 2_000_000_000
            ==> (made is Some <==> secs % 60 == 59),
{
}

/// A reading of the memory is passed on as it is, and only a missing one or a zero is an
/// error.
pub proof fn readings_are_passed_on(reading: Option<u64>, rss: Result<u64, MetricsError>)
    requires
        call_ensures(rss_from_reading, (reading,), rss),
    ensures
        rss matches Ok(bytes) ==> reading == Some(bytes) && bytes != 0,
        rss is Err <==> reading is None || reading == Some(0u64),
{
}

/// A sample is made of the time and the reading that it is given, and fails on the readings
/// that are errors.
pub proof fn samples_keep_what_they_are_made_of(
    utc: UtcTime,
    reading: Option<u64>,
    made: Result<Metrics, MetricsError>,
)
    requires
        call_ensures(sample, (utc, reading), made),
    ensures
        made matches Ok(m) ==> m.utc == utc && reading == Some(m.rss_bytes),
        made is Err <==> reading is None || reading == Some(0u64),
{
}

/// A length of time is as long as it was asked for.
pub proof fn spans_are_as_long_as_asked(secs: u64, whole: Span, millis: u64, parts: Span)
    requires
        call_ensures(Span::from_secs, (secs,), whole),
        call_ensures(Span::from_millis, (millis,), parts),
    ensures
        whole.secs == secs && whole.nanos == 0,
        parts.secs * 1_000_000_000 + parts.nanos == millis * 1_000_000,
        parts.nanos < 1_000_000_000,
{
}

} // verus!
