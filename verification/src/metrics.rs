//! The two sampled metrics: current UTC time and this process's resident memory.

use vstd::prelude::*;

use crate::calendar::{date_of, two_digits};
use crate::text::{decimal, zero_padded};

verus! {

/// The earliest second that an instant can name, -262143-01-01T00:00:00Z.
pub const FIRST_SECOND: i64 = -8_334_601_228_800;

/// The latest second that an instant can name, +262142-12-31T23:59:59Z.
pub const LAST_SECOND: i64 = 8_210_266_876_799;

/// `secs` seconds and `nanos` nanoseconds after the Unix epoch name an instant. The
/// nanoseconds pass one second only in the last second of a minute, for a leap second.
pub open spec fn is_instant(secs: int, nanos: int) -> bool {
    &&& FIRST_SECOND <= secs <= LAST_SECOND
    &&& 0 <= nanos < 2_000_000_000
    &&& nanos >= 1_000_000_000 ==> secs % 60 == 59
}

/// A point in time in UTC.
#[derive(Debug, Clone, Copy, PartialEq, Eq, PartialOrd, Ord)]
pub struct UtcTime {
    secs: i64,
    nanos: u32,
}

impl UtcTime {
    #[verifier::type_invariant]
    closed spec fn wf(self) -> bool {
        is_instant(self.secs as int, self.nanos as int)
    }

    /// Whole seconds since the Unix epoch.
    pub closed spec fn secs(self) -> int {
        self.secs as int
    }

    /// Nanoseconds since that second.
    pub closed spec fn nanos(self) -> int {
        self.nanos as int
    }

    /// The instant `secs` seconds and `nanos` nanoseconds after the Unix epoch, where there
    /// is one.
    pub fn from_timestamp(secs: i64, nanos: u32) -> (instant: Option<UtcTime>)
        ensures
            match instant {
                Some(t) => is_instant(secs as int, nanos as int) && t.secs() == secs && t.nanos()
                    == nanos,
                None => !is_instant(secs as int, nanos as int),
            },
    {
        if secs < FIRST_SECOND || secs > LAST_SECOND || nanos >= 2_000_000_000 {
            return None;
        }
        if nanos >= 1_000_000_000 && (secs % 60 + 60) % 60 != 59 {
            return None;
        }
        Some(UtcTime { secs, nanos })
    }

    /// Whole seconds since the Unix epoch.
    pub fn timestamp(&self) -> (secs: i64)
        ensures
            secs == self.secs(),
    {
        self.secs
    }

    /// Nanoseconds since that second.
    pub fn subsec_nanos(&self) -> (nanos: u32)
        ensures
            nanos == self.nanos(),
    {
        self.nanos
    }
}

/// One sample.
#[derive(Debug, Clone, Copy, PartialEq, Eq)]
pub struct Metrics {
    /// Sample time.
    pub utc: UtcTime,
    /// Resident set size (Working Set on Windows) of this process, in bytes.
    pub rss_bytes: u64,
}

/// Metric collection failures.
#[derive(Debug, Clone, Copy, PartialEq, Eq, Structural)]
pub enum MetricsError {
    /// The OS did not return memory statistics for this process.
    RssUnavailable,
}

impl MetricsError {
    /// The error as one line of text.
    pub fn message(&self) -> (text: String)
        ensures
            text@ == "process memory statistics are unavailable"@,
    {
        match self {
            MetricsError::RssUnavailable => "process memory statistics are unavailable".to_owned(),
        }
    }
}

/// The time of day as RFC 3339 writes it: `T03:04:05.006Z`. A leap second is second 60.
pub open spec fn clock_text(secs: int, nanos: int) -> Seq<char> {
    let second = if nanos >= 1_000_000_000 {
        60int
    } else {
        secs % 60
    };
    let millis = (nanos % 1_000_000_000) / 1_000_000;
    seq!['T'] + two_digits((secs / 3600) % 24) + seq![':'] + two_digits((secs / 60) % 60)
        + seq![':'] + two_digits(second) + seq!['.'] + zero_padded(decimal(millis as nat), 3)
        + seq!['Z']
}

/// The RFC 3339 text of an instant in UTC, with milliseconds and a `Z`: the date, and the time
/// of day behind it.
pub open spec fn rfc3339_millis(secs: int, nanos: int) -> Seq<char> {
    date_of(secs / 86400).text() + clock_text(secs, nanos)
}

/// `chrono::DateTime::<Utc>::to_rfc3339_opts` with milliseconds and `Z` writes the date and
/// the time of day of the instant, in the Gregorian calendar.
#[verifier::external_body]
fn to_rfc3339_millis(secs: i64, nanos: u32) -> (text: String)
    requires
        is_instant(secs as int, nanos as int),
    ensures
        text@ == rfc3339_millis(secs as int, nanos as int),
{
    chrono::DateTime::<chrono::Utc>::from_timestamp(secs, nanos).unwrap().to_rfc3339_opts(
        chrono::SecondsFormat::Millis,
        true,
    )
}

/// chrono's `DateTime<Utc>` of the system clock's reading, which no clause can foretell; what
/// it reads is an instant.
#[verifier::external_body]
pub(crate) fn clock_now() -> (now: (i64, u32))
    ensures
        is_instant(now.0 as int, now.1 as int),
{
    let now = chrono::DateTime::<chrono::Utc>::from(std::time::SystemTime::now());
    (now.timestamp(), now.timestamp_subsec_nanos())
}

/// `memory_stats::memory_stats` asks the OS for the process's memory figures; this is the
/// physical one. Nothing is promised of it: it may be missing, or zero.
#[verifier::external_body]
pub(crate) fn physical_memory() -> (bytes: Option<u64>) {
    memory_stats::memory_stats().map(|stats| stats.physical_mem as u64)
}

/// `reading` is what the OS gave for the process's physical memory, in bytes.
pub closed spec fn is_memory_reading(reading: Option<u64>) -> bool {
    call_ensures(physical_memory, (), reading)
}

/// `secs` and `nanos` are what the system clock gave.
pub closed spec fn is_clock_reading(secs: int, nanos: int) -> bool {
    exists|now: (i64, u32)| #[trigger]
        call_ensures(clock_now, (), now) && now.0 == secs && now.1 == nanos
}

/// RFC 3339 with millisecond precision and a `Z` suffix, e.g. `2026-09-11T20:35:00.123Z`.
pub fn format_utc(t: UtcTime) -> (text: String)
    ensures
        text@ == rfc3339_millis(t.secs(), t.nanos()),
{
    proof {
        use_type_invariant(t);
    }
    to_rfc3339_millis(t.secs, t.nanos)
}

/// The resident memory that a reading stands for. A zero is treated as "unavailable": a live
/// process never has zero resident memory.
pub fn rss_from_reading(reading: Option<u64>) -> (rss: Result<u64, MetricsError>)
    ensures
        match reading {
            Some(bytes) => if bytes > 0 {
                rss == Ok::<u64, MetricsError>(bytes)
            } else {
                rss == Err::<u64, MetricsError>(MetricsError::RssUnavailable)
            },
            None => rss == Err::<u64, MetricsError>(MetricsError::RssUnavailable),
        },
{
    match reading {
        Some(bytes) => {
            if bytes > 0 {
                Ok(bytes)
            } else {
                Err(MetricsError::RssUnavailable)
            }
        },
        None => Err(MetricsError::RssUnavailable),
    }
}

/// Resident memory of the current process in bytes.
pub fn rss_bytes() -> (rss: Result<u64, MetricsError>)
    ensures
        match rss {
            Ok(bytes) => bytes > 0 && is_memory_reading(Some(bytes)),
            Err(err) => err == MetricsError::RssUnavailable && (is_memory_reading(None)
                || is_memory_reading(Some(0))),
        },
{
    rss_from_reading(physical_memory())
}

/// The sample that a time and a memory reading make up.
pub fn sample(utc: UtcTime, reading: Option<u64>) -> (metrics: Result<Metrics, MetricsError>)
    ensures
        match metrics {
            Ok(m) => m.utc == utc && m.rss_bytes > 0 && reading == Some(m.rss_bytes),
            Err(err) => err == MetricsError::RssUnavailable && (reading is None || reading == Some(
                0u64,
            )),
        },
{
    match rss_from_reading(reading) {
        Ok(rss_bytes) => Ok(Metrics { utc, rss_bytes }),
        Err(err) => Err(err),
    }
}

/// Take one sample: the clock's reading and the OS's figure, as they are.
pub fn collect() -> (metrics: Result<Metrics, MetricsError>)
    ensures
        match metrics {
            Ok(m) => {
                &&& m.rss_bytes > 0
                &&& is_memory_reading(Some(m.rss_bytes))
                &&& is_clock_reading(m.utc.secs(), m.utc.nanos())
            },
            Err(err) => err == MetricsError::RssUnavailable && (is_memory_reading(None)
                || is_memory_reading(Some(0))),
        },
{
    let (secs, nanos) = clock_now();
    let utc = UtcTime { secs, nanos };
    sample(utc, physical_memory())
}

/// A sample holds what was read and nothing else: its memory is a figure that the OS gave, byte
/// for byte, and its time a reading of the clock. There is none only where the OS gave no
/// figure, or zero.
pub(crate) proof fn samples_are_readings(sampled: Result<Metrics, MetricsError>)
    requires
        call_ensures(collect, (), sampled),
    ensures
        sampled matches Ok(m) ==> call_ensures(physical_memory, (), Some(m.rss_bytes)),
        sampled matches Ok(m) ==> exists|now: (i64, u32)| #[trigger]
            call_ensures(clock_now, (), now) && now.0 == m.utc.secs() && now.1 == m.utc.nanos(),
        sampled is Err ==> call_ensures(physical_memory, (), None) || call_ensures(
            physical_memory,
            (),
            Some(0u64),
        ),
{
}

/// So does the resident memory that is asked for alone.
pub(crate) proof fn memory_is_a_reading(rss: Result<u64, MetricsError>)
    requires
        call_ensures(rss_bytes, (), rss),
    ensures
        rss matches Ok(bytes) ==> bytes > 0 && call_ensures(physical_memory, (), Some(bytes)),
        rss is Err ==> call_ensures(physical_memory, (), None) || call_ensures(
            physical_memory,
            (),
            Some(0u64),
        ),
{
}

impl Metrics {
    /// The sample time formatted for the child's `--utc` argument.
    pub fn utc_string(&self) -> (text: String)
        ensures
            text@ == rfc3339_millis(self.utc.secs(), self.utc.nanos()),
    {
        format_utc(self.utc)
    }
}

} // verus!
