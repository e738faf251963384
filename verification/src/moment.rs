//! Instants, times of day and week days, and the weekly schedule arithmetic over them.
use vstd::prelude::*;

verus! {

/// Seconds in a day.
pub const DAY_SECONDS: i64 = 86400;

/// Seconds in a week.
pub const WEEK_SECONDS: i64 = 604800;

/// Earliest second that `chrono::DateTime<Utc>` holds (January 1st of year -262143, 00:00:00).
pub const EARLIEST_SECOND: i64 = -8334601228800;

/// Latest second that `chrono::DateTime<Utc>` holds (December 31st of year 262142, 23:59:59).
pub const LATEST_SECOND: i64 = 8210266876799;

/// An instant in UTC, as `chrono::DateTime<Utc>` holds it: whole seconds since the Unix
/// epoch (`timestamp`) and the nanoseconds past that second (`timestamp_subsec_nanos`),
/// which reach past one second only inside a leap second.
#[derive(Clone, Copy, Debug, PartialEq, Eq, Structural)]
pub struct Moment {
    pub secs: i64,
    pub nanos: u32,
}

impl Moment {
    /// The instant is one that `chrono::DateTime<Utc>::from_timestamp` accepts.
    pub open spec fn wf(self) -> bool {
        &&& EARLIEST_SECOND <= self.secs <= LATEST_SECOND
        &&& self.nanos < 2_000_000_000
        &&& self.nanos >= 1_000_000_000 ==> (self.secs as int) % 60 == 59
    }

    /// `self` comes strictly before `other` in time.
    pub open spec fn precedes(self, other: Moment) -> bool {
        self.secs < other.secs || (self.secs == other.secs && self.nanos < other.nanos)
    }

    /// `self` is inside a leap second.
    pub open spec fn in_leap_second(self) -> bool {
        self.nanos >= 1_000_000_000
    }

    /// Seconds since midnight of the instant's day.
    pub open spec fn second_of_day(self) -> int {
        (self.secs as int) % (DAY_SECONDS as int)
    }

    /// Whether `self` comes strictly before `other`.
    pub fn is_before(&self, other: &Moment) -> (r: bool)
        ensures
            r == self.precedes(*other),
    {
        self.secs < other.secs || (self.secs == other.secs && self.nanos < other.nanos)
    }
}

/// A time of day as `chrono::NaiveTime` holds it: seconds since midnight, and nanoseconds
/// past that second (reaching past one second only inside a leap second).
#[derive(Clone, Copy, Debug, PartialEq, Eq, Structural)]
pub struct TimeOfDay {
    pub secs: u32,
    pub nanos: u32,
}

impl TimeOfDay {
    /// A time that `NaiveTime::from_num_seconds_from_midnight_opt` accepts.
    pub open spec fn wf(self) -> bool {
        &&& self.secs < 86400
        &&& self.nanos < 2_000_000_000
        &&& self.nanos >= 1_000_000_000 ==> self.secs % 60 == 59
    }
}

/// A day of the week, Monday first.
#[derive(Clone, Copy, Debug, PartialEq, Eq, Structural)]
pub enum Weekday {
    Mon,
    Tue,
    Wed,
    Thu,
    Fri,
    Sat,
    Sun,
}

/// The week day with the given number counted from Monday as 0 (`Weekday::try_from(u8)`).
pub open spec fn weekday_numbered(n: u8) -> Option<Weekday> {
    if n == 0 {
        Some(Weekday::Mon)
    } else if n == 1 {
        Some(Weekday::Tue)
    } else if n == 2 {
        Some(Weekday::Wed)
    } else if n == 3 {
        Some(Weekday::Thu)
    } else if n == 4 {
        Some(Weekday::Fri)
    } else if n == 5 {
        Some(Weekday::Sat)
    } else if n == 6 {
        Some(Weekday::Sun)
    } else {
        None
    }
}

/// The second (since the epoch) of the first weekly change of a schedule that starts at
/// `start` and changes at `at` each week: `at` on the day of `start`, plus one week
/// (`start.date_naive().and_time(at).and_utc() + Duration::weeks(1)`).
pub open spec fn first_change_second(start: Moment, at: TimeOfDay) -> int {
    start.secs - start.second_of_day() + at.secs + WEEK_SECONDS
}

/// The nanoseconds of the first weekly change: those of `at`, out of a leap second (adding
/// the week leaves one).
pub open spec fn first_change_nanos(at: TimeOfDay) -> int {
    if at.nanos >= 1_000_000_000 {
        at.nanos - 1_000_000_000
    } else {
        at.nanos as int
    }
}

/// `moment` comes strictly before the instant `secs` seconds and `nanos` nanoseconds.
pub open spec fn precedes_instant(moment: Moment, secs: int, nanos: int) -> bool {
    moment.secs < secs || (moment.secs == secs && moment.nanos < nanos)
}

/// Whole seconds from the instant `secs`/`nanos` (not inside a leap second) to `moment`, as
/// chrono's `DateTime - DateTime` followed by `TimeDelta::num_seconds` counts them when that
/// instant does not come after `moment`: the second difference, one less when `moment` is in
/// a leap second at an earlier second of the day, plus the whole seconds of the nanosecond
/// difference.
pub open spec fn seconds_since(moment: Moment, secs: int, nanos: int) -> int {
    let leap_back: int = if moment.in_leap_second() && moment.second_of_day() < secs % (
    DAY_SECONDS as int) {
        1
    } else {
        0
    };
    moment.secs - secs - leap_back + (moment.nanos - nanos) / 1_000_000_000int
}

/// The schedule week that `moment` falls in: week 0 before the first change, then one more
/// for each whole week after it (`num_weeks` of the time since the first change, plus one).
pub open spec fn week_number(start: Moment, at: TimeOfDay, moment: Moment) -> int {
    let secs: int = first_change_second(start, at);
    let nanos: int = first_change_nanos(at);
    if precedes_instant(moment, secs, nanos) {
        0
    } else {
        seconds_since(moment, secs, nanos) / (WEEK_SECONDS as int) + 1
    }
}

/// The week of the schedule (started at `start`, changing at `at`) that `moment` falls in.
pub fn week_of(start: &Moment, at: &TimeOfDay, moment: &Moment) -> (r: u64)
    requires
        at.wf(),
    ensures
        r == week_number(*start, *at, *moment),
{
    let start_into_day: i64 = match start.secs.checked_rem_euclid(DAY_SECONDS) {
        Some(x) => x,
        None => 0,
    };
    let change_secs: i128 = (start.secs as i128) - (start_into_day as i128) + (at.secs as i128)
        + (WEEK_SECONDS as i128);
    let change_nanos: i128 = if at.nanos >= 1_000_000_000 {
        (at.nanos as i128) - 1_000_000_000
    } else {
        at.nanos as i128
    };
    let moment_secs: i128 = moment.secs as i128;
    let moment_nanos: i128 = moment.nanos as i128;
    if moment_secs < change_secs || (moment_secs == change_secs && moment_nanos < change_nanos) {
        return 0;
    }
    let moment_into_day: i64 = match moment.secs.checked_rem_euclid(DAY_SECONDS) {
        Some(x) => x,
        None => 0,
    };
    let change_into_day: i128 = match change_secs.checked_rem_euclid(DAY_SECONDS as i128) {
        Some(x) => x,
        None => 0,
    };
    let leap_back: i128 = if moment.nanos >= 1_000_000_000 && (moment_into_day as i128)
        < change_into_day {
        1
    } else {
        0
    };
    let nano_diff: i128 = moment_nanos - change_nanos;
    let nano_secs: i128 = match nano_diff.checked_div_euclid(1_000_000_000) {
        Some(x) => x,
        None => 0,
    };
    let elapsed: i128 = moment_secs - change_secs - leap_back + nano_secs;
    assert(elapsed == seconds_since(*moment, change_secs as int, change_nanos as int));
    let weeks: u128 = (elapsed as u128) / (WEEK_SECONDS as u128);
    (weeks + 1) as u64
}

/// What `chrono::DateTime::parse_from_rfc3339` followed by `to_utc` makes of a text.
pub uninterp spec fn rfc3339_instant(text: Seq<char>) -> Option<Moment>;

/// Reads an RFC 3339 date and time with `chrono::DateTime::parse_from_rfc3339` and takes it
/// to UTC (`to_utc`, `timestamp`, `timestamp_subsec_nanos`). Claimed: the outcome depends on
/// the text alone, and an instant read is one that `DateTime<Utc>` holds.
#[verifier::external_body]
pub(crate) fn parse_rfc3339(text: &[char]) -> (r: Option<Moment>)
    ensures
        r == rfc3339_instant(text@),
        r matches Some(m) ==> m.wf(),
{
    let source: String = text.iter().collect();
    match chrono::DateTime::parse_from_rfc3339(&source) {
        Ok(t) => Some(Moment { secs: t.to_utc().timestamp(), nanos: t.to_utc().timestamp_subsec_nanos() }),
        Err(_) => None,
    }
}

/// What `chrono::NaiveTime::parse_from_str` makes of a text and a format.
pub uninterp spec fn naive_time_reading(text: Seq<char>, format: Seq<char>) -> Option<TimeOfDay>;

/// Reads a time of day with `chrono::NaiveTime::parse_from_str` (seconds from midnight and
/// nanoseconds, through `Timelike`). Claimed: the outcome depends on the text and the format
/// alone, and a time read is one that `NaiveTime` holds.
#[verifier::external_body]
pub(crate) fn parse_time(text: &[char], format: &str) -> (r: Option<TimeOfDay>)
    ensures
        r == naive_time_reading(text@, format@),
        r matches Some(t) ==> t.wf(),
{
    let source: String = text.iter().collect();
    match chrono::NaiveTime::parse_from_str(&source, format) {
        Ok(t) => Some(TimeOfDay {
            secs: chrono::Timelike::num_seconds_from_midnight(&t),
            nanos: chrono::Timelike::nanosecond(&t),
        }),
        Err(_) => None,
    }
}

/// The week day numbered `n` from Monday as 0 (`chrono::Weekday::try_from(u8)`): claimed to
/// give the seven days for 0 to 6 and an error for anything else, as its source does.
#[verifier::external_body]
pub(crate) fn weekday_from_number(n: u8) -> (r: Option<Weekday>)
    ensures
        r == weekday_numbered(n),
{
    match chrono::Weekday::try_from(n) {
        Ok(chrono::Weekday::Mon) => Some(Weekday::Mon),
        Ok(chrono::Weekday::Tue) => Some(Weekday::Tue),
        Ok(chrono::Weekday::Wed) => Some(Weekday::Wed),
        Ok(chrono::Weekday::Thu) => Some(Weekday::Thu),
        Ok(chrono::Weekday::Fri) => Some(Weekday::Fri),
        Ok(chrono::Weekday::Sat) => Some(Weekday::Sat),
        Ok(chrono::Weekday::Sun) => Some(Weekday::Sun),
        Err(_) => None,
    }
}

/// `std::time::SystemTime`, carried from `system_time_now` into `since_unix_epoch`.
#[verifier::external_type_specification]
#[verifier::external_body]
pub struct ExSystemTime(std::time::SystemTime);

/// The system clock's reading (`std::time::SystemTime::now`). Nothing is claimed of it.
#[verifier::external_body]
fn system_time_now() -> std::time::SystemTime {
    std::time::SystemTime::now()
}

/// The time from the Unix epoch to a reading of the clock
/// (`SystemTime::duration_since(UNIX_EPOCH)`), as whole seconds (`Duration::as_secs`) and the
/// nanoseconds past them (`Duration::subsec_nanos`); nothing when the reading lies before the
/// epoch. Nothing is claimed of the values: they depend on the clock.
#[verifier::external_body]
fn since_unix_epoch(reading: &std::time::SystemTime) -> Option<(u64, u32)> {
    match reading.duration_since(std::time::UNIX_EPOCH) {
        Ok(elapsed) => Some((elapsed.as_secs(), elapsed.subsec_nanos())),
        Err(_) => None,
    }
}

/// The instant `secs` seconds and `nanos` nanoseconds after the Unix epoch, when
/// `chrono::DateTime<Utc>` holds it (`DateTime::from_timestamp`, read back through `timestamp`
/// and `timestamp_subsec_nanos`). Claimed: an instant given back is the one asked for, and one
/// that `DateTime<Utc>` holds.
#[verifier::external_body]
fn instant_from_timestamp(secs: i64, nanos: u32) -> (r: Option<Moment>)
    ensures
        r matches Some(m) ==> m == (Moment { secs, nanos }) && m.wf(),
{
    match chrono::DateTime::from_timestamp(secs, nanos) {
        Some(t) => Some(Moment { secs: t.timestamp(), nanos: t.timestamp_subsec_nanos() }),
        None => None,
    }
}

/// The current instant, read as `chrono::Utc::now` reads it: the clock's time since the Unix
/// epoch, its seconds taken to `i64` with `as`, made a `DateTime<Utc>`. Nothing where
/// `Utc::now` would panic instead: a clock that reads before the epoch, or a time that
/// `DateTime<Utc>` does not hold.
pub(crate) fn current_moment() -> (r: Option<Moment>)
    ensures
        r matches Some(m) ==> m.wf(),
{
    let reading = system_time_now();
    match since_unix_epoch(&reading) {
        Some((secs, nanos)) => instant_from_timestamp(secs as i64, nanos),
        None => None,
    }
}

/// What the `Debug` formatting of `chrono::DateTime<Utc>` writes for an instant.
pub uninterp spec fn instant_debug_text(moment: Moment) -> Seq<char>;

/// Writes an instant the way `{:?}` writes a `chrono::DateTime<Utc>` (built with
/// `DateTime::from_timestamp`, which accepts every well-formed instant). Claimed: the text
/// depends on the instant alone.
#[verifier::external_body]
pub(crate) fn debug_text(moment: &Moment) -> (r: String)
    requires
        moment.wf(),
    ensures
        r@ == instant_debug_text(*moment),
{
    let t = chrono::DateTime::from_timestamp(moment.secs, moment.nanos).unwrap();
    format!("{:?}", t)
}

} // verus!
