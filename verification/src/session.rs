//! Observation sessions.
//!
//! A session is one night of observing, named by the calendar date on which
//! it began: a frame taken before noon belongs to the night that started the
//! day before.

use chrono::{Datelike, Timelike};
use vstd::prelude::*;
use crate::decimal::decimal_digits;
use crate::text::{opt_view, owned};

verus! {

/// The earliest year of a date.
pub const FIRST_YEAR: i32 = -262143;

/// The latest year of a date.
pub const LAST_YEAR: i32 = 262142;

/// The hour at which a new session begins.
pub const NOON: u32 = 12;

/// The name of the collection for frames without a usable timestamp.
pub const UNKNOWN_SESSION: &'static str = "Unknown Session";

/// Year, month and day as mathematical integers.
pub struct DateView {
    pub year: int,
    pub month: int,
    pub day: int,
}

/// Whether `year` is a leap year of the proleptic Gregorian calendar.
pub open spec fn is_leap_year(year: int) -> bool {
    year % 4 == 0 && (year % 100 != 0 || year % 400 == 0)
}

/// The number of days of a month.
pub open spec fn days_in_month(year: int, month: int) -> int {
    if month == 2 {
        if is_leap_year(year) {
            29
        } else {
            28
        }
    } else if month == 4 || month == 6 || month == 9 || month == 11 {
        30
    } else {
        31
    }
}

/// Whether `d` is a date of the calendar within the years supported.
pub open spec fn is_date(d: DateView) -> bool {
    &&& FIRST_YEAR <= d.year <= LAST_YEAR
    &&& 1 <= d.month <= 12
    &&& 1 <= d.day <= days_in_month(d.year, d.month)
}

/// Whether `d` is the first date supported, which has no day before it.
pub open spec fn is_first_date(d: DateView) -> bool {
    d.year == FIRST_YEAR && d.month == 1 && d.day == 1
}

/// The calendar date before `d`.
pub open spec fn day_before(d: DateView) -> DateView {
    if d.day > 1 {
        DateView { day: d.day - 1, ..d }
    } else if d.month > 1 {
        DateView { year: d.year, month: d.month - 1, day: days_in_month(d.year, d.month - 1) }
    } else {
        DateView { year: d.year - 1, month: 12, day: 31 }
    }
}

/// The date before `d`, where `d` is a date that has one.
pub open spec fn previous_date(d: DateView) -> Option<DateView> {
    if is_date(d) && !is_first_date(d) {
        Some(day_before(d))
    } else {
        None
    }
}

/// The digits of `n`, with zeros in front up to `width` characters.
pub open spec fn zero_padded(n: nat, width: nat) -> Seq<char> {
    let digits = decimal_digits(n);
    if digits.len() >= width {
        digits
    } else {
        Seq::new((width - digits.len()) as nat, |i: int| '0') + digits
    }
}

/// A year as four digits, with a sign in front where it is negative or has
/// more than four digits.
pub open spec fn year_text(year: int) -> Seq<char> {
    if 0 <= year <= 9999 {
        zero_padded(year as nat, 4)
    } else if year < 0 {
        seq!['-'] + zero_padded((-year) as nat, 4)
    } else {
        seq!['+'] + zero_padded(year as nat, 4)
    }
}

/// A date as year, month and day with hyphens between them.
pub open spec fn iso_date_text(d: DateView) -> Seq<char> {
    year_text(d.year) + seq!['-'] + zero_padded(d.month as nat, 2) + seq!['-'] + zero_padded(
        d.day as nat,
        2,
    )
}

/// Year, month, day and hour that a text gives when it is read as a date and
/// time in a format.
pub uninterp spec fn date_time_reading(text: Seq<char>, format: Seq<char>) -> Option<
    (i32, u32, u32, u32),
>;

/// Year, month and day that a text gives when it is read as a date in a format.
pub uninterp spec fn date_reading(text: Seq<char>, format: Seq<char>) -> Option<(i32, u32, u32)>;

/// Calls `chrono::NaiveDateTime::parse_from_str` and hands out the year, month,
/// day and hour of what it read, or nothing where it reports an error. The
/// result is named `date_time_reading`. What is read is a date of the calendar
/// and an hour of the day.
#[verifier::external_body]
fn read_date_time(text: &str, format: &str) -> (r: Option<(i32, u32, u32, u32)>)
    ensures
        r == date_time_reading(text@, format@),
        r matches Some(t) ==> is_date(date_view_of(t.0, t.1, t.2)) && t.3 < 24,
{
    match chrono::NaiveDateTime::parse_from_str(text, format) {
        Ok(t) => Some((t.year(), t.month(), t.day(), t.hour())),
        Err(_) => None,
    }
}

/// Calls `chrono::NaiveDate::parse_from_str` and hands out the year, month and
/// day of what it read, or nothing where it reports an error. The result is
/// named `date_reading`. What is read is a date of the calendar.
#[verifier::external_body]
fn read_date(text: &str, format: &str) -> (r: Option<(i32, u32, u32)>)
    ensures
        r == date_reading(text@, format@),
        r matches Some(d) ==> is_date(date_view_of(d.0, d.1, d.2)),
{
    match chrono::NaiveDate::parse_from_str(text, format) {
        Ok(d) => Some((d.year(), d.month(), d.day())),
        Err(_) => None,
    }
}

/// Calls `chrono::NaiveDate::pred_opt` on the date made by
/// `chrono::NaiveDate::from_ymd_opt`. A date of the calendar other than the
/// first has the previous calendar date; anything else has none.
#[verifier::external_body]
fn date_before(year: i32, month: u32, day: u32) -> (r: Option<(i32, u32, u32)>)
    ensures
        match r {
            Some(p) => previous_date(DateView { year: year as int, month: month as int, day: day as int })
                == Some(DateView { year: p.0 as int, month: p.1 as int, day: p.2 as int }),
            None => previous_date(DateView { year: year as int, month: month as int, day: day as int })
                is None,
        },
{
    let date = match chrono::NaiveDate::from_ymd_opt(year, month, day) {
        Some(d) => d,
        None => return None,
    };
    match date.pred_opt() {
        Some(p) => Some((p.year(), p.month(), p.day())),
        None => None,
    }
}

/// Calls `chrono::NaiveDate::format` with the format `%Y-%m-%d` on the date
/// made by `chrono::NaiveDate::from_ymd_opt`. A date of the calendar is written
/// as its year, month and day, zero-padded; anything else has no text.
#[verifier::external_body]
fn render_date(year: i32, month: u32, day: u32, format: &str) -> (r: Option<String>)
    requires
        format@ == "%Y-%m-%d"@,
    ensures
        opt_view(r) == (if is_date(DateView { year: year as int, month: month as int, day: day as int }) {
            Some(iso_date_text(DateView { year: year as int, month: month as int, day: day as int }))
        } else {
            None
        }),
{
    match chrono::NaiveDate::from_ymd_opt(year, month, day) {
        Some(d) => Some(d.format(format).to_string()),
        None => None,
    }
}

/// A date of the proleptic Gregorian calendar.
#[derive(Clone, Copy, Debug, PartialEq, Eq)]
pub struct CalendarDate {
    year: i32,
    month: u32,
    day: u32,
}

impl View for CalendarDate {
    type V = DateView;

    closed spec fn view(&self) -> DateView {
        DateView { year: self.year as int, month: self.month as int, day: self.day as int }
    }
}

impl CalendarDate {
    #[verifier::type_invariant]
    spec fn well_formed(self) -> bool {
        is_date(self@)
    }

    /// The date with this year, month and day, if there is one.
    pub fn new(year: i32, month: u32, day: u32) -> (r: Option<CalendarDate>)
        ensures
            match r {
                Some(d) => is_date(d@) && d@ == (DateView {
                    year: year as int,
                    month: month as int,
                    day: day as int,
                }),
                None => !is_date(DateView { year: year as int, month: month as int, day: day as int }),
            },
    {
        if year < FIRST_YEAR || year > LAST_YEAR || month < 1 || month > 12 || day < 1 {
            return None;
        }
        let leap = year % 4 == 0 && (year % 100 != 0 || year % 400 == 0);
        let days: u32 = if month == 2 {
            if leap {
                29
            } else {
                28
            }
        } else if month == 4 || month == 6 || month == 9 || month == 11 {
            30
        } else {
            31
        };
        if day > days {
            return None;
        }
        Some(CalendarDate { year, month, day })
    }

    /// The date with this year, month and day, which make a date.
    fn of_date(year: i32, month: u32, day: u32) -> (r: CalendarDate)
        requires
            is_date(date_view_of(year, month, day)),
        ensures
            r@ == date_view_of(year, month, day),
    {
        CalendarDate { year, month, day }
    }

    /// The year of the date.
    pub fn year(&self) -> (r: i32)
        ensures
            r == self@.year,
    {
        self.year
    }

    /// The month of the date, from 1 to 12.
    pub fn month(&self) -> (r: u32)
        ensures
            r == self@.month,
    {
        self.month
    }

    /// The day of the month, from 1.
    pub fn day(&self) -> (r: u32)
        ensures
            r == self@.day,
    {
        self.day
    }

    /// Whether two dates are the same day.
    pub fn same_day(&self, other: &CalendarDate) -> (r: bool)
        ensures
            r == (self@ == other@),
    {
        self.year == other.year && self.month == other.month && self.day == other.day
    }

    /// The day before this one, if there is one.
    pub fn previous(&self) -> (r: Option<CalendarDate>)
        ensures
            match r {
                Some(p) => previous_date(self@) == Some(p@),
                None => previous_date(self@) is None,
            },
    {
        proof {
            use_type_invariant(self);
        }
        match date_before(self.year, self.month, self.day) {
            Some(p) => Some(CalendarDate::of_date(p.0, p.1, p.2)),
            None => None,
        }
    }

    /// The date as text: year, month and day with hyphens between them.
    pub fn label(&self) -> (r: String)
        ensures
            r@ == iso_date_text(self@),
    {
        proof {
            use_type_invariant(self);
        }
        match render_date(self.year, self.month, self.day, "%Y-%m-%d") {
            Some(s) => s,
            None => owned(""),
        }
    }
}

/// The view of an optional date.
pub open spec fn opt_date_view(o: Option<CalendarDate>) -> Option<DateView> {
    match o {
        Some(d) => Some(d@),
        None => None,
    }
}

/// Year, month and day as a date view.
pub open spec fn date_view_of(year: i32, month: u32, day: u32) -> DateView {
    DateView { year: year as int, month: month as int, day: day as int }
}

/// The date and hour that an observation timestamp gives. The timestamp is
/// read as a date and time with a fraction of a second, else as a date and time
/// without one, else as a date alone, which counts as noon of that date.
pub open spec fn observation_reading(text: Seq<char>) -> Option<(DateView, int)> {
    let with_fraction = date_time_reading(text, "%Y-%m-%dT%H:%M:%S%.f"@);
    let plain = date_time_reading(text, "%Y-%m-%dT%H:%M:%S"@);
    let date_only = date_reading(text, "%Y-%m-%d"@);
    if let Some(t) = with_fraction {
        Some((date_view_of(t.0, t.1, t.2), t.3 as int))
    } else if let Some(t) = plain {
        Some((date_view_of(t.0, t.1, t.2), t.3 as int))
    } else if let Some(d) = date_only {
        Some((date_view_of(d.0, d.1, d.2), NOON as int))
    } else {
        None
    }
}

/// The session of a frame taken on `date` at `hour`: the date itself from noon
/// on, the day before it earlier in the day.
pub open spec fn session_of(date: DateView, hour: int) -> Option<DateView> {
    if hour < NOON {
        previous_date(date)
    } else {
        Some(date)
    }
}

/// The session that an observation timestamp belongs to, if it can be read.
pub open spec fn session_date(text: Seq<char>) -> Option<DateView> {
    match observation_reading(text) {
        Some((date, hour)) => session_of(date, hour),
        None => None,
    }
}

/// The session of a frame taken on `date` at `hour`.
pub fn session_date_of(date: CalendarDate, hour: u32) -> (r: Option<CalendarDate>)
    ensures
        opt_date_view(r) == session_of(date@, hour as int),
{
    if hour < NOON {
        date.previous()
    } else {
        Some(date)
    }
}

/// Whether a reading has a session: there is a reading, and it does not lie
/// before noon of the first date of the calendar.
pub open spec fn has_session(reading: Option<(DateView, int)>) -> bool {
    match reading {
        Some((date, hour)) => !(is_first_date(date) && hour < NOON),
        None => false,
    }
}

/// The session that an observation timestamp belongs to, if it can be read.
/// A timestamp that can be read has a session, unless it lies before noon of
/// the first date of the calendar.
pub fn get_session_date(date_obs: &str) -> (r: Option<CalendarDate>)
    ensures
        opt_date_view(r) == session_date(date_obs@),
        r is Some <==> has_session(observation_reading(date_obs@)),
{
    let reading = if let Some(t) = read_date_time(date_obs, "%Y-%m-%dT%H:%M:%S%.f") {
        Some(t)
    } else if let Some(t) = read_date_time(date_obs, "%Y-%m-%dT%H:%M:%S") {
        Some(t)
    } else if let Some(d) = read_date(date_obs, "%Y-%m-%d") {
        Some((d.0, d.1, d.2, NOON))
    } else {
        None
    };
    match reading {
        Some(t) => session_date_of(CalendarDate::of_date(t.0, t.1, t.2), t.3),
        None => None,
    }
}

/// The name of the collection of the session that began on `session_date`.
pub fn generate_collection_name(session_date: &CalendarDate, _object_name: Option<&str>) -> (r:
    String)
    ensures
        r@ == iso_date_text(session_date@),
{
    session_date.label()
}

/// What identifies a session: the date of its night, or the mark of frames
/// whose timestamp is missing or cannot be read.
#[derive(Clone, Copy, Debug, PartialEq, Eq)]
pub enum SessionKey {
    Night(CalendarDate),
    Unknown,
}

/// What identifies a session, as mathematical values.
pub enum SessionKeyView {
    Night(DateView),
    Unknown,
}

impl View for SessionKey {
    type V = SessionKeyView;

    open spec fn view(&self) -> SessionKeyView {
        match *self {
            SessionKey::Night(d) => SessionKeyView::Night(d@),
            SessionKey::Unknown => SessionKeyView::Unknown,
        }
    }
}

/// The session key of a frame with this observation timestamp.
pub open spec fn session_key_of(date_obs: Option<Seq<char>>) -> SessionKeyView {
    match date_obs {
        Some(text) => match session_date(text) {
            Some(d) => SessionKeyView::Night(d),
            None => SessionKeyView::Unknown,
        },
        None => SessionKeyView::Unknown,
    }
}

/// The name of the collection of a session.
pub open spec fn collection_name_of(key: SessionKeyView) -> Seq<char> {
    match key {
        SessionKeyView::Night(d) => iso_date_text(d),
        SessionKeyView::Unknown => UNKNOWN_SESSION@,
    }
}

impl SessionKey {
    /// The session key of a frame with this observation timestamp.
    pub fn of(date_obs: &Option<String>) -> (key: SessionKey)
        ensures
            key@ == session_key_of(opt_view(*date_obs)),
    {
        match date_obs {
            Some(text) => match get_session_date(text.as_str()) {
                Some(d) => SessionKey::Night(d),
                None => SessionKey::Unknown,
            },
            None => SessionKey::Unknown,
        }
    }

    /// The name of the collection of this session.
    pub fn collection_name(&self) -> (r: String)
        ensures
            r@ == collection_name_of(self@),
    {
        match self {
            SessionKey::Night(d) => generate_collection_name(d, None),
            SessionKey::Unknown => owned(UNKNOWN_SESSION),
        }
    }
}

/// A night spans midnight: a frame taken from noon on and a frame taken
/// before noon of the following day belong to the same session, the one named
/// by the first day.
pub proof fn lemma_night_spans_midnight(next_day: DateView, evening_hour: int, morning_hour: int)
    requires
        is_date(next_day),
        !is_first_date(next_day),
        evening_hour >= NOON,
        morning_hour < NOON,
    ensures
        session_of(day_before(next_day), evening_hour) == session_of(next_day, morning_hour),
        session_of(next_day, morning_hour) == Some(day_before(next_day)),
{
}

} // verus!
