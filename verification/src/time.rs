//! Instants, calendar arithmetic and the clock.
use chrono::{DateTime, Datelike, DurationRound, FixedOffset, TimeDelta, Utc};
use vstd::prelude::*;

verus! {

/// First representable second: the start of the year -262143.
pub const MIN_SECONDS: i64 = -8_334_601_228_800;

/// Last representable second: the end of the year 262142.
pub const MAX_SECONDS: i64 = 8_210_266_876_799;

/// Nanoseconds per second.
pub const NANOS: i64 = 1_000_000_000;

/// An instant in UTC, to the nanosecond.
#[derive(Clone, Copy, Debug)]
pub struct UtcTime {
    secs: i64,
    nanos: u32,
}

impl UtcTime {
    #[verifier::type_invariant]
    spec fn in_range(self) -> bool {
        MIN_SECONDS <= self.secs <= MAX_SECONDS && self.nanos < NANOS
    }

    /// Whole seconds since 1970-01-01T00:00:00Z.
    pub closed spec fn seconds(self) -> int {
        self.secs as int
    }

    /// Nanoseconds since 1970-01-01T00:00:00Z.
    pub closed spec fn stamp(self) -> int {
        self.secs * NANOS + self.nanos
    }

    /// The instant `secs` seconds and `nanos` nanoseconds after
    /// 1970-01-01T00:00:00Z, unless it is out of range.
    pub fn new(secs: i64, nanos: u32) -> (r: Option<UtcTime>)
        ensures
            r is Some <==> (MIN_SECONDS <= secs <= MAX_SECONDS && nanos < NANOS),
            r matches Some(t) ==> t.seconds() == secs && t.stamp() == secs * NANOS + nanos,
    {
        if MIN_SECONDS <= secs && secs <= MAX_SECONDS && (nanos as i64) < NANOS {
            Some(UtcTime { secs, nanos })
        } else {
            None
        }
    }

    /// Whole seconds since 1970-01-01T00:00:00Z.
    pub fn secs(&self) -> (r: i64)
        ensures
            r == self.seconds(),
            MIN_SECONDS <= r <= MAX_SECONDS,
            self.stamp() / (NANOS as int) == r,
            r * NANOS <= self.stamp() < (r + 1) * NANOS,
    {
        proof {
            use_type_invariant(self);
            lemma_stamp_seconds(self.secs as int, self.nanos as int);
        }
        self.secs
    }

    /// Whether `self` is later than `other`.
    pub fn after(&self, other: &UtcTime) -> (r: bool)
        ensures
            r == (self.stamp() > other.stamp()),
    {
        proof {
            use_type_invariant(self);
            use_type_invariant(other);
        }
        self.secs > other.secs || (self.secs == other.secs && self.nanos > other.nanos)
    }

    /// Whole seconds from `earlier` to `self`, truncated toward zero.
    pub fn seconds_since(&self, earlier: &UtcTime) -> (r: i64)
        ensures
            r == whole_seconds(self.stamp() - earlier.stamp()),
            -20_000_000_000_000 < r < 20_000_000_000_000,
    {
        proof {
            use_type_invariant(self);
            use_type_invariant(earlier);
        }
        let d: i64 = self.secs - earlier.secs;
        if d > 0 && self.nanos < earlier.nanos {
            d - 1
        } else if d < 0 && self.nanos > earlier.nanos {
            d + 1
        } else {
            d
        }
    }
}

proof fn lemma_stamp_seconds(secs: int, nanos: int)
    requires
        0 <= nanos < NANOS,
    ensures
        (secs * NANOS + nanos) / (NANOS as int) == secs,
{
}

/// An instant is no earlier than the start of its second; so one whose seconds
/// are not negative is not before 1970.
pub proof fn second_starts_no_later(t: UtcTime)
    ensures
        t.seconds() * NANOS <= t.stamp(),
        0 <= t.seconds() ==> 0 <= t.stamp(),
{
}

/// A nanosecond difference as whole seconds, truncated toward zero.
pub open spec fn whole_seconds(diff: int) -> int {
    if diff >= 0 {
        diff / (NANOS as int)
    } else {
        -((-diff) / (NANOS as int))
    }
}

/// The current instant: chrono's `Utc::now`, which fails before 1970. What
/// the clock shows is left open.
#[verifier::external_body]
pub(crate) fn utc_now() -> (r: UtcTime)
    ensures
        0 <= r.seconds(),
{
    let now = Utc::now();
    UtcTime { secs: now.timestamp(), nanos: now.timestamp_subsec_nanos() }
}

/// `stamp` rounded down to a multiple of `span`, both in nanoseconds, where
/// the span is positive and both fit in 64 bits.
pub open spec fn truncated(stamp: int, span: int) -> Option<int> {
    if 0 < span <= i64::MAX && i64::MIN <= stamp <= i64::MAX {
        Some(stamp - stamp % span)
    } else {
        None
    }
}

/// `t` rounded down to a multiple of `span_secs` seconds: chrono's
/// `DurationRound::duration_trunc` on a UTC instant. It fails exactly where
/// the span is not positive or span or instant exceed 64-bit nanoseconds.
#[verifier::external_body]
pub(crate) fn truncate(t: UtcTime, span_secs: i64) -> (r: Option<UtcTime>)
    requires
        -9_000_000_000_000_000 <= span_secs <= 9_000_000_000_000_000,
    ensures
        match r {
            Some(u) => truncated(t.stamp(), span_secs * NANOS) == Some(u.stamp()),
            None => truncated(t.stamp(), span_secs * NANOS) is None,
        },
{
    let at: DateTime<Utc> = DateTime::from_timestamp(t.secs, t.nanos).unwrap();
    match at.duration_trunc(TimeDelta::seconds(span_secs)) {
        Ok(u) => Some(UtcTime { secs: u.timestamp(), nanos: u.timestamp_subsec_nanos() }),
        Err(_) => None,
    }
}

/// The text of the second `secs` at `offset` seconds east of UTC in one of the
/// strftime patterns of the pages.
pub open spec fn calendar_text(secs: int, offset: int, pattern: Seq<char>) -> Seq<char> {
    let local = secs + offset;
    let date = calendar_date(local);
    if pattern == "%H:%M"@ {
        clock_text(local)
    } else if pattern == "%b %d"@ {
        month_name(date.1) + " "@ + crate::text::dec2_text(date.2 as nat)
    } else if pattern == "%b %Y"@ {
        month_name(date.1) + " "@ + year_text(date.0)
    } else {
        crate::text::dec2_text(date.1 as nat) + "-"@ + crate::text::dec2_text(date.2 as nat) + " "@
            + clock_text(local)
    }
}

/// The English abbreviation of a month, counted from 1.
pub open spec fn month_name(month: int) -> Seq<char> {
    seq![
        "Jan"@,
        "Feb"@,
        "Mar"@,
        "Apr"@,
        "May"@,
        "Jun"@,
        "Jul"@,
        "Aug"@,
        "Sep"@,
        "Oct"@,
        "Nov"@,
        "Dec"@,
    ][month - 1]
}

/// A year with at least four digits, and a sign unless it has just four.
pub open spec fn year_text(year: int) -> Seq<char> {
    if year < 0 {
        "-"@ + dec4_text(-year as nat)
    } else if year < 10_000 {
        dec4_text(year as nat)
    } else {
        "+"@ + dec4_text(year as nat)
    }
}

/// The decimal notation of `n`, padded with zeros to four digits.
pub open spec fn dec4_text(n: nat) -> Seq<char> {
    if n < 100 {
        "00"@ + crate::text::dec2_text(n)
    } else if n < 1000 {
        "0"@ + crate::text::dec_text(n)
    } else {
        crate::text::dec_text(n)
    }
}

/// Hours and minutes of a second of local time, as `HH:MM`.
pub open spec fn clock_text(local: int) -> Seq<char> {
    crate::text::dec2_text((local % 86_400 / 3600) as nat) + ":"@ + crate::text::dec2_text(
        (local % 3600 / 60) as nat,
    )
}

/// chrono's `DateTime::format` at a fixed offset, for the patterns of the
/// pages: `%H`, `%M`, `%d` and `%m` print two digits, `%b` the English
/// abbreviation of the month, `%Y` the year, all of the local date and time.
#[verifier::external_body]
pub(crate) fn format_at(secs: i64, offset: i32, pattern: &str) -> (r: String)
    requires
        MIN_SECONDS <= secs <= MAX_SECONDS,
        -86_400 < offset < 86_400,
        pattern@ == "%H:%M"@ || pattern@ == "%b %d"@ || pattern@ == "%b %Y"@ || pattern@
            == "%m-%d %H:%M"@,
    ensures
        r@ == calendar_text(secs as int, offset as int, pattern@),
{
    let at: DateTime<Utc> = DateTime::from_timestamp(secs, 0).unwrap();
    at.with_timezone(&FixedOffset::east_opt(offset).unwrap()).format(pattern).to_string()
}

/// Calendar days of a month; 30 for a month number out of range.
pub open spec fn month_days(year: int, month: int) -> int {
    if month == 2 {
        if leap_year(year) {
            29
        } else {
            28
        }
    } else if month == 1 || month == 3 || month == 5 || month == 7 || month == 8 || month == 10
        || month == 12 {
        31
    } else {
        30
    }
}

/// Divisible by 4, but by 100 only if by 400.
pub open spec fn leap_year(year: int) -> bool {
    (year % 4 == 0 && year % 100 != 0) || year % 400 == 0
}

/// Calendar days in `(year, month)`, 30 for a month out of range.
pub fn days_in_month(year: i32, month: u32) -> (r: u32)
    ensures
        r == month_days(year as int, month as int),
{
    if month == 2 {
        let size: u64 = if year < 0 {
            (-(year as i64)) as u64
        } else {
            year as u64
        };
        assert(size % 4 == 0 <==> year as int % 4 == 0);
        assert(size % 100 == 0 <==> year as int % 100 == 0);
        assert(size % 400 == 0 <==> year as int % 400 == 0);
        let leap = (size % 4 == 0 && size % 100 != 0) || size % 400 == 0;
        if leap {
            29
        } else {
            28
        }
    } else if month == 1 || month == 3 || month == 5 || month == 7 || month == 8 || month == 10
        || month == 12 {
        31
    } else {
        30
    }
}

/// Every month has 28 to 31 days, February at most 29, and a number that is
/// no month counts 30.
pub proof fn month_days_bounds(year: int, month: int)
    ensures
        28 <= month_days(year, month) <= 31,
        month == 2 ==> month_days(year, month) <= 29,
        !(1 <= month <= 12) ==> month_days(year, month) == 30,
{
}

/// Days of a year.
pub open spec fn year_days(year: int) -> int {
    if leap_year(year) {
        366
    } else {
        365
    }
}

/// Days of a year before its month `month`.
pub open spec fn days_before_month(year: int, month: int) -> int
    decreases month,
{
    if month <= 1 {
        0
    } else {
        days_before_month(year, month - 1) + month_days(year, month - 1)
    }
}

/// Days from 1970-01-01 to the first of January of `year`.
pub open spec fn days_before_year(year: int) -> int {
    let whole = year - 1;
    365 * whole + whole / 4 - whole / 100 + whole / 400 - 719_162
}

/// A date of the Gregorian calendar: year, month and day, months and days
/// counted from 1.
pub open spec fn valid_date(date: (int, int, int)) -> bool {
    1 <= date.1 <= 12 && 1 <= date.2 <= month_days(date.0, date.1)
}

/// Days from 1970-01-01 to a date.
pub open spec fn day_number(date: (int, int, int)) -> int {
    days_before_year(date.0) + days_before_month(date.0, date.1) + date.2 - 1
}

/// `date` is the date of the day `day` days after 1970-01-01.
pub open spec fn date_on(day: int, date: (int, int, int)) -> bool {
    valid_date(date) && day_number(date) == day
}

/// The date, as year, month and day, on which a second of local time falls.
pub open spec fn calendar_date(local: int) -> (int, int, int) {
    date_of_day(local / 86_400)
}

/// The date of the day `day` days after 1970-01-01.
pub open spec fn date_of_day(day: int) -> (int, int, int) {
    choose|date: (int, int, int)| date_on(day, date)
}

proof fn lemma_month_starts(year: int, month: int)
    requires
        1 <= month <= 12,
    ensures
        0 <= days_before_month(year, month),
        days_before_month(year, month) + month_days(year, month) <= year_days(year),
        days_before_month(year, 12) + month_days(year, 12) == year_days(year),
{
    reveal_with_fuel(days_before_month, 13);
}

proof fn lemma_months_in_order(year: int, a: int, b: int)
    requires
        1 <= a < b <= 12,
    ensures
        days_before_month(year, a) + month_days(year, a) <= days_before_month(year, b),
    decreases b - a,
{
    if a + 1 < b {
        lemma_months_in_order(year, a, b - 1);
    }
}

proof fn lemma_next_year(year: int)
    ensures
        days_before_year(year + 1) == days_before_year(year) + year_days(year),
{
    let whole = year - 1;
    assert(year / 4 == whole / 4 + (if year % 4 == 0 {
        1int
    } else {
        0
    }));
    assert(year / 100 == whole / 100 + (if year % 100 == 0 {
        1int
    } else {
        0
    }));
    assert(year / 400 == whole / 400 + (if year % 400 == 0 {
        1int
    } else {
        0
    }));
    assert(year % 100 == 0 ==> year % 4 == 0);
    assert(year % 400 == 0 ==> year % 100 == 0);
}

proof fn lemma_years_in_order(a: int, b: int)
    requires
        a < b,
    ensures
        days_before_year(a) + year_days(a) <= days_before_year(b),
    decreases b - a,
{
    lemma_next_year(b - 1);
    if a + 1 < b {
        lemma_years_in_order(a, b - 1);
    }
}

proof fn lemma_day_in_year(date: (int, int, int))
    requires
        valid_date(date),
    ensures
        days_before_year(date.0) <= day_number(date) < days_before_year(date.0) + year_days(date.0),
{
    lemma_month_starts(date.0, date.1);
}

/// No two dates fall on the same day.
pub proof fn date_is_unique(a: (int, int, int), b: (int, int, int))
    requires
        valid_date(a),
        valid_date(b),
        day_number(a) == day_number(b),
    ensures
        a == b,
{
    lemma_day_in_year(a);
    lemma_day_in_year(b);
    if a.0 < b.0 {
        lemma_years_in_order(a.0, b.0);
    } else if b.0 < a.0 {
        lemma_years_in_order(b.0, a.0);
    } else if a.1 < b.1 {
        lemma_months_in_order(a.0, a.1, b.1);
    } else if b.1 < a.1 {
        lemma_months_in_order(a.0, b.1, a.1);
    }
}

/// The date of the day after.
pub open spec fn next_date(date: (int, int, int)) -> (int, int, int) {
    if date.2 < month_days(date.0, date.1) {
        (date.0, date.1, date.2 + 1)
    } else if date.1 < 12 {
        (date.0, date.1 + 1, 1)
    } else {
        (date.0 + 1, 1, 1)
    }
}

/// Days follow one another as the calendar has them: months and years start
/// anew where the one before ends.
pub proof fn next_date_is_the_next_day(date: (int, int, int))
    requires
        valid_date(date),
    ensures
        valid_date(next_date(date)),
        day_number(next_date(date)) == day_number(date) + 1,
{
    lemma_next_year(date.0);
    lemma_month_starts(date.0, date.1);
}

proof fn lemma_date_from(start: (int, int, int), days: int) -> (date: (int, int, int))
    requires
        valid_date(start),
        days >= 0,
    ensures
        date_on(day_number(start) + days, date),
    decreases days,
{
    if days == 0 {
        start
    } else {
        let before = lemma_date_from(start, days - 1);
        next_date_is_the_next_day(before);
        next_date(before)
    }
}

/// Every day has a date: `calendar_date` is the one date on which a second of
/// local time falls.
pub proof fn every_day_has_a_date(local: int)
    ensures
        date_on(local / 86_400, calendar_date(local)),
{
    let day = local / 86_400;
    let year: int = if day < 0 {
        day
    } else {
        0
    };
    let start = (year, 1int, 1int);
    assert(day_number(start) <= day);
    let date = lemma_date_from(start, day - day_number(start));
    assert(date_on(day, date));
}

/// Year, month and day of `t` in UTC: chrono's `Datelike` on a UTC instant,
/// which counts days in the proleptic Gregorian calendar, with a year zero,
/// from 1970-01-01.
#[verifier::external_body]
fn date_in_utc(t: UtcTime) -> (r: (i32, u32, u32))
    ensures
        date_on(t.seconds() / 86_400, (r.0 as int, r.1 as int, r.2 as int)),
{
    let at: DateTime<Utc> = DateTime::from_timestamp(t.secs, t.nanos).unwrap();
    (at.year(), at.month(), at.day())
}

/// The date of `t` in UTC.
pub(crate) fn date_of(t: UtcTime) -> (r: (i32, u32, u32))
    ensures
        calendar_date(t.seconds()) == (r.0 as int, r.1 as int, r.2 as int),
        1 <= r.1 <= 12,
        1 <= r.2 <= month_days(r.0 as int, r.1 as int),
{
    let r = date_in_utc(t);
    proof {
        every_day_has_a_date(t.seconds());
        date_is_unique(calendar_date(t.seconds()), (r.0 as int, r.1 as int, r.2 as int));
    }
    r
}

} // verus!
