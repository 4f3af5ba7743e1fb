//! The word list: its entries, and the short "when" label shown for each.

use crate::text::{append_chars, append_str, decimal, decimal_chars, digit_char, string_of};
use chrono::{Datelike, Timelike};
use vstd::prelude::*;

verus! {

/// One entry of the word list.
pub struct WordRecord {
    pub word: String,
    pub translation: String,
    pub count: i64,
    pub first_seen_at: String,
    pub last_seen_at: String,
    /// When the word was last looked up, as the list shows it.
    pub recent: String,
}

/// The word list: how many words it holds and the words, most recently
/// looked up first.
pub struct WordListPayload {
    pub total: i64,
    pub words: Vec<WordRecord>,
}

/// The earliest year of the calendar (as `chrono` bounds it).
pub open spec fn min_year() -> int {
    -262143
}

/// The latest year of the calendar (as `chrono` bounds it).
pub open spec fn max_year() -> int {
    262142
}

/// Leap years of the proleptic Gregorian calendar.
pub open spec fn is_leap_year(year: int) -> bool {
    year % 4 == 0 && (year % 100 != 0 || year % 400 == 0)
}

/// The number of days of a month.
pub open spec fn days_in_month(year: int, month: int) -> int {
    if month == 2 {
        if is_leap_year(year) {
            29
        } else {
            28
        }
    } else if month == 4 || month == 6 || month == 9 || month == 11 {
        30
    } else {
        31
    }
}

/// A calendar date.
#[derive(Clone, Copy, PartialEq, Eq, Structural, Debug)]
pub struct CalendarDate {
    pub year: i32,
    pub month: u32,
    pub day: u32,
}

/// Whether a date exists in the calendar.
pub open spec fn valid_date(d: CalendarDate) -> bool {
    &&& min_year() <= d.year <= max_year()
    &&& 1 <= d.month <= 12
    &&& 1 <= d.day <= days_in_month(d.year as int, d.month as int)
}

/// The day before `d`; `None` for the first day of the calendar.
/// (`NaiveDate::pred_opt`.)
pub open spec fn day_before(d: CalendarDate) -> Option<CalendarDate> {
    if d.day > 1 {
        Some(CalendarDate { day: (d.day - 1) as u32, ..d })
    } else if d.month > 1 {
        Some(
            CalendarDate {
                month: (d.month - 1) as u32,
                day: days_in_month(d.year as int, d.month - 1) as u32,
                ..d
            },
        )
    } else if d.year > min_year() {
        Some(CalendarDate { year: (d.year - 1) as i32, month: 12, day: 31 })
    } else {
        None
    }
}

fn month_length(year: i32, month: u32) -> (r: u32)
    requires
        1 <= month <= 12,
        min_year() <= year,
    ensures
        r == days_in_month(year as int, month as int),
{
    if month == 2 {
        // Shifting by a multiple of 400 years keeps the leap-year rule and
        // makes the year positive.
        let shifted: i64 = year as i64 + 280000;
        assert(shifted % 4 == year % 4 && shifted % 100 == year % 100 && shifted % 400 == year
            % 400);
        if shifted % 4 == 0 && (shifted % 100 != 0 || shifted % 400 == 0) {
            29
        } else {
            28
        }
    } else if month == 4 || month == 6 || month == 9 || month == 11 {
        30
    } else {
        31
    }
}

/// The day before `d`, if the calendar has one.
pub fn previous_date(d: CalendarDate) -> (r: Option<CalendarDate>)
    requires
        valid_date(d),
    ensures
        r == day_before(d),
{
    if d.day > 1 {
        Some(CalendarDate { year: d.year, month: d.month, day: d.day - 1 })
    } else if d.month > 1 {
        Some(
            CalendarDate {
                year: d.year,
                month: d.month - 1,
                day: month_length(d.year, d.month - 1),
            },
        )
    } else if d.year > -262143 {
        Some(CalendarDate { year: d.year - 1, month: 12, day: 31 })
    } else {
        None
    }
}

/// Every day of the calendar but its first has a day before it, which is
/// itself a day of the calendar.
pub proof fn day_before_is_a_date(d: CalendarDate)
    requires
        valid_date(d),
    ensures
        day_before(d) is None <==> (d.year == min_year() && d.month == 1 && d.day == 1),
        day_before(d) matches Some(p) ==> valid_date(p),
{
}

/// A moment of local time, to the minute.
#[derive(Clone, Copy, PartialEq, Eq, Structural, Debug)]
pub struct LocalMinute {
    pub date: CalendarDate,
    pub hour: u32,
    pub minute: u32,
}

/// Whether a moment exists: a date of the calendar and a time of day.
pub open spec fn valid_minute(m: LocalMinute) -> bool {
    valid_date(m.date) && m.hour < 24 && m.minute < 60
}

/// The proleptic Gregorian date of a day counted from 1970-01-01 (day 0),
/// as year, month and day.
pub open spec fn civil_from_days(days: int) -> (int, int, int) {
    let z = days + 719468;
    let era = z / 146097;
    let doe = z - era * 146097;
    let yoe = (doe - doe / 1460 + doe / 36524 - doe / 146096) / 365;
    let doy = doe - (365 * yoe + yoe / 4 - yoe / 100);
    let mp = (5 * doy + 2) / 153;
    let day = doy - (153 * mp + 2) / 5 + 1;
    let month = if mp < 10 {
        mp + 3
    } else {
        mp - 9
    };
    let year = yoe + era * 400 + if month <= 2 {
        1int
    } else {
        0int
    };
    (year, month, day)
}

/// The calendar date and the time, to the minute, of the instant `secs`
/// seconds after 1970-01-01 00:00, read on the UTC calendar.
pub open spec fn minute_at(secs: int) -> LocalMinute {
    let days = secs / 86400;
    let rest = secs % 86400;
    let (year, month, day) = civil_from_days(days);
    LocalMinute {
        date: CalendarDate { year: year as i32, month: month as u32, day: day as u32 },
        hour: (rest / 3600) as u32,
        minute: ((rest % 3600) / 60) as u32,
    }
}

/// The local time of the instant `secs` in a time zone `offset` seconds
/// east of UTC.
pub open spec fn minute_with_offset(secs: int, offset: int) -> LocalMinute {
    minute_at(secs + offset)
}

/// Whether `offset` is an offset from UTC that `chrono` can hold
/// (`FixedOffset::east_opt`): less than a day either way.
pub open spec fn offset_in_range(offset: int) -> bool {
    -86400 < offset < 86400
}

/// The instant that a text accepted by `chrono::DateTime::parse_from_rfc3339`
/// names, in seconds since 1970-01-01 00:00 UTC (`DateTime::timestamp`).
pub uninterp spec fn rfc3339_seconds(text: Seq<char>) -> int;

/// Whether `chrono::DateTime::parse_from_rfc3339` accepts a text.
pub uninterp spec fn rfc3339_accepts(text: Seq<char>) -> bool;

/// `chrono::DateTime::parse_from_rfc3339`, then the same instant in the
/// machine's time zone (`with_timezone(&Local)`). Its contract: a moment
/// comes back exactly where the text parses; it is a valid moment, and it
/// is the named instant of the text shifted by some offset of less than a
/// day; which offset depends on the machine's time zone and is not stated.
#[verifier::external_body]
fn local_minute_of_rfc3339(value: &str) -> (r: Option<LocalMinute>)
    ensures
        r is Some <==> rfc3339_accepts(value@),
        r matches Some(m) ==> valid_minute(m),
        r matches Some(m) ==> exists|offset: int|
            offset_in_range(offset) && m == #[trigger] minute_with_offset(
                rfc3339_seconds(value@),
                offset,
            ),
{
    chrono::DateTime::parse_from_rfc3339(value).ok().map(|d| d.with_timezone(&chrono::Local)).map(
        |l| LocalMinute {
            date: CalendarDate { year: l.year(), month: l.month(), day: l.day() },
            hour: l.hour(),
            minute: l.minute(),
        },
    )
}

/// The time elapsed since the Unix epoch, as whole seconds and the
/// nanoseconds beyond them: `SystemTime::now().duration_since(UNIX_EPOCH)`.
/// Its contract: `None` where the clock reads before the epoch, and the
/// nanoseconds are below a second (`Duration::subsec_nanos`); which time
/// comes back depends on the clock and is not stated.
#[verifier::external_body]
fn unix_time() -> (r: Option<(u64, u32)>)
    ensures
        r matches Some((_, nanos)) ==> nanos < 1_000_000_000,
{
    std::time::SystemTime::now().duration_since(std::time::UNIX_EPOCH).ok().map(
        |d| (d.as_secs(), d.subsec_nanos()),
    )
}

/// Whether `chrono::DateTime::from_timestamp` can represent an instant.
pub uninterp spec fn timestamp_representable(secs: i64, nanos: u32) -> bool;

/// The instants, in seconds since 1970, that lie well inside `chrono`'s
/// calendar (a few thousand years from either end), so that their local
/// time in any time zone is a date of the calendar.
pub open spec fn instant_well_inside(secs: int) -> bool {
    -8_000_000_000_000 <= secs <= 8_000_000_000_000
}

/// `chrono::DateTime::from_timestamp`, then the same instant in the
/// machine's time zone (`with_timezone(&Local)`). Its contract, for an
/// instant well inside the calendar: a moment comes back exactly where the
/// instant is representable; it is a valid moment, and it is the instant
/// shifted by some offset of less than a day, which depends on the time
/// zone and is not stated.
#[verifier::external_body]
fn local_minute_at(secs: i64, nanos: u32) -> (r: Option<LocalMinute>)
    requires
        instant_well_inside(secs as int),
    ensures
        r is Some <==> timestamp_representable(secs, nanos),
        r matches Some(m) ==> valid_minute(m),
        r matches Some(m) ==> exists|offset: int|
            offset_in_range(offset) && m == #[trigger] minute_with_offset(secs as int, offset),
{
    chrono::DateTime::from_timestamp(secs, nanos).map(|d| d.with_timezone(&chrono::Local)).map(
        |l| LocalMinute {
            date: CalendarDate { year: l.year(), month: l.month(), day: l.day() },
            hour: l.hour(),
            minute: l.minute(),
        },
    )
}

/// The current local time, to the minute; `None` where the clock cannot be
/// read as a date (before the epoch, or far beyond the calendar).
fn local_now() -> (r: Option<LocalMinute>)
    ensures
        r matches Some(m) ==> valid_minute(m),
        r matches Some(m) ==> exists|secs: int, offset: int|
            offset_in_range(offset) && m == #[trigger] minute_with_offset(secs, offset),
{
    match unix_time() {
        Some((secs, nanos)) => if secs <= 8_000_000_000_000 {
            local_minute_at(secs as i64, nanos)
        } else {
            None
        },
        None => None,
    }
}

/// Two digits for `n < 100`, as `%H` and `%M` write hours and minutes.
pub open spec fn two_digits(n: nat) -> Seq<char> {
    seq![digit_char(n / 10), digit_char(n % 10)]
}

/// The label for a moment seen at `seen`, looked at on `today`: the time
/// (`HH:MM`) for today, `昨天` for yesterday, else month and day (`M/D`,
/// without padding).
pub open spec fn recent_text(seen: LocalMinute, today: CalendarDate) -> Seq<char> {
    let yesterday = match day_before(today) {
        Some(d) => d,
        None => today,
    };
    if seen.date == today {
        two_digits(seen.hour as nat) + ":"@ + two_digits(seen.minute as nat)
    } else if seen.date == yesterday {
        "昨天"@
    } else {
        decimal(seen.date.month as nat) + "/"@ + decimal(seen.date.day as nat)
    }
}

fn two_digit_chars(n: u32) -> (r: Vec<char>)
    requires
        n < 100,
    ensures
        r@ == two_digits(n as nat),
{
    let tens = decimal_chars((n / 10) as u64);
    let ones = decimal_chars((n % 10) as u64);
    let mut r: Vec<char> = Vec::new();
    r.push(tens[0]);
    r.push(ones[0]);
    r
}

/// The label for a word last seen at `seen`, on the day `today`.
pub fn recent_label(seen: LocalMinute, today: CalendarDate) -> (r: String)
    requires
        valid_minute(seen),
        valid_date(today),
    ensures
        r@ == recent_text(seen, today),
{
    let yesterday = match previous_date(today) {
        Some(d) => d,
        None => today,
    };
    if seen.date == today {
        let mut m = two_digit_chars(seen.hour);
        append_str(&mut m, ":");
        let mm = two_digit_chars(seen.minute);
        append_chars(&mut m, &mm);
        string_of(m.as_slice())
    } else if seen.date == yesterday {
        String::from_str("昨天")
    } else {
        let mut m = decimal_chars(seen.date.month as u64);
        append_str(&mut m, "/");
        let d = decimal_chars(seen.date.day as u64);
        append_chars(&mut m, &d);
        string_of(m.as_slice())
    }
}

/// What a label of a stored time is made from: a valid moment and a valid
/// day where known; the moment, for a stored time that parses, is the
/// local time of that time's instant (for some offset under a day); and
/// the day is the local date of some instant.
pub open spec fn recent_label_fits(
    value: Seq<char>,
    seen: Option<LocalMinute>,
    today: Option<CalendarDate>,
) -> bool {
    &&& seen matches Some(s) ==> valid_minute(s)
    &&& today matches Some(t) ==> valid_date(t)
    &&& rfc3339_accepts(value) ==> (seen matches Some(s) && exists|offset: int|
        offset_in_range(offset) && s == #[trigger] minute_with_offset(
            rfc3339_seconds(value),
            offset,
        ))
    &&& today matches Some(t) ==> exists|secs: int, offset: int|
        offset_in_range(offset) && t == (#[trigger] minute_with_offset(secs, offset)).date
}

/// The month and day of a date, as `%-m/%-d` writes them.
pub open spec fn month_day_text(d: CalendarDate) -> Seq<char> {
    decimal(d.month as nat) + "/"@ + decimal(d.day as nat)
}

/// The label for a moment seen at `seen`, on the day `today`, where either
/// may be unknown: with both, [`recent_text`]; without the day, the month
/// and day of the moment; without the moment, nothing.
pub open spec fn recent_text_of(seen: Option<LocalMinute>, today: Option<CalendarDate>) -> Seq<
    char,
> {
    match seen {
        Some(s) => match today {
            Some(t) => recent_text(s, t),
            None => month_day_text(s.date),
        },
        None => Seq::empty(),
    }
}

/// The label for a moment and a day that may be unknown.
pub fn recent_label_of(seen: Option<LocalMinute>, today: Option<CalendarDate>) -> (r: String)
    requires
        seen matches Some(s) ==> valid_minute(s),
        today matches Some(t) ==> valid_date(t),
    ensures
        r@ == recent_text_of(seen, today),
{
    match seen {
        Some(s) => match today {
            Some(t) => recent_label(s, t),
            None => {
                let mut m = decimal_chars(s.date.month as u64);
                append_str(&mut m, "/");
                let d = decimal_chars(s.date.day as u64);
                append_chars(&mut m, &d);
                string_of(m.as_slice())
            },
        },
        None => String::new(),
    }
}

/// The label of when a word was last looked up, from its stored RFC 3339
/// time: the time for today, `昨天` for yesterday, else month and day. A
/// time that does not parse counts as now. Which label comes out depends on
/// the clock and the time zone, so the contract says that it is the label of
/// some valid moment on some valid day; that a stored time that parses is
/// the moment labelled, as the local time of its instant in some time zone;
/// and that the day is the local date of some instant. Where the clock
/// cannot be read, the label falls back as [`recent_text_of`] says.
pub fn format_recent(value: &str) -> (r: String)
    ensures
        exists|seen: Option<LocalMinute>, today: Option<CalendarDate>|
            recent_label_fits(value@, seen, today) && r@ == recent_text_of(seen, today),
{
    let seen = match local_minute_of_rfc3339(value) {
        Some(m) => Some(m),
        None => local_now(),
    };
    let today = match local_now() {
        Some(m) => Some(m.date),
        None => None,
    };
    proof {
        assert(recent_label_fits(value@, seen, today));
    }
    let r = recent_label_of(seen, today);
    proof {
        assert(recent_label_fits(value@, seen, today) && r@ == recent_text_of(seen, today));
    }
    r
}

/// An entry of the word list as the database row gives it, with its label.
pub fn word_record(
    word: String,
    translation: String,
    count: i64,
    first_seen_at: String,
    last_seen_at: String,
) -> (r: WordRecord)
    ensures
        r.word == word,
        r.translation == translation,
        r.count == count,
        r.first_seen_at == first_seen_at,
        r.last_seen_at == last_seen_at,
        exists|seen: Option<LocalMinute>, today: Option<CalendarDate>|
            recent_label_fits(last_seen_at@, seen, today) && r.recent@ == recent_text_of(
                seen,
                today,
            ),
{
    let recent = format_recent(last_seen_at.as_str());
    WordRecord { word, translation, count, first_seen_at, last_seen_at, recent }
}

/// A word looked up today shows its time as `HH:MM`; one looked up the day
/// before shows `昨天`.
pub proof fn recent_label_today_and_yesterday(seen: LocalMinute, today: CalendarDate)
    requires
        valid_minute(seen),
        valid_date(today),
    ensures
        seen.date == today ==> recent_text(seen, today).len() == 5 && recent_text(seen, today)[2]
            == ':',
        (day_before(today) == Some(seen.date)) ==> recent_text(seen, today) == "昨天"@,
{
    reveal_strlit(":");
    if day_before(today) == Some(seen.date) {
        assert(seen.date != today);
    }
}

} // verus!
