use vstd::prelude::*;
use chrono::{Datelike, NaiveDate, TimeDelta, Timelike};
use typst::diag::EcoString;
use typst::foundations::{Datetime, Duration};

verus! {

#[verifier::external_type_specification]
#[verifier::external_body]
pub struct ExDatetime(Datetime);

// `Datetime`'s `Sub` impl returns a `Duration` and names `EcoString` in its
// error type; Verus asks for both types to be declared before it accepts
// `Datetime` itself.
#[verifier::external_type_specification]
#[verifier::external_body]
pub struct ExDuration(Duration);

#[verifier::external_type_specification]
#[verifier::external_body]
pub struct ExEcoString(EcoString);

/// A wall-clock reading, field by field, as a calendar reports it.
#[derive(Clone, Copy, PartialEq, Eq, Structural, Debug)]
pub struct Stamp {
    pub year: i32,
    pub month: u32,
    pub day: u32,
    pub hour: u32,
    pub minute: u32,
    pub second: u32,
}

/// One moment read both in local time and in UTC.
#[derive(Clone, Copy, PartialEq, Eq, Structural, Debug)]
pub struct Moment {
    pub local: Stamp,
    pub utc: Stamp,
}

pub open spec fn is_leap_year(y: int) -> bool {
    y % 4 == 0 && (y % 100 != 0 || y % 400 == 0)
}

pub open spec fn days_in_month(y: int, m: int) -> int {
    if m == 2 {
        if is_leap_year(y) { 29 } else { 28 }
    } else if m == 4 || m == 6 || m == 9 || m == 11 {
        30
    } else {
        31
    }
}

/// Whether a year, month and day name a day of the proleptic Gregorian calendar.
pub open spec fn valid_date(y: int, m: int, d: int) -> bool {
    1 <= m <= 12 && 1 <= d <= days_in_month(y, m)
}

/// Whether hours, minutes and seconds name a time of day.
pub open spec fn valid_time(h: int, mi: int, s: int) -> bool {
    0 <= h < 24 && 0 <= mi < 60 && 0 <= s < 60
}

pub open spec fn valid_stamp(t: Stamp) -> bool {
    valid_date(t.year as int, t.month as int, t.day as int)
        && valid_time(t.hour as int, t.minute as int, t.second as int)
}

/// Days from 1970-01-01 to the given day of the proleptic Gregorian calendar.
pub open spec fn days_from_civil(y: int, m: int, d: int) -> int {
    let yy = if m <= 2 { y - 1 } else { y };
    let era = yy / 400;
    let yoe = yy - era * 400;
    let mp = (m + 9) % 12;
    let doy = (153 * mp + 2) / 5 + d - 1;
    let doe = yoe * 365 + yoe / 4 - yoe / 100 + doy;
    era * 146097 + doe - 719468
}

/// Seconds from 1970-01-01 00:00:00 to the reading `t`.
pub open spec fn seconds_of(t: Stamp) -> int {
    days_from_civil(t.year as int, t.month as int, t.day as int) * 86400 + t.hour as int * 3600
        + t.minute as int * 60 + t.second as int
}

/// What typst's calendar makes of a date; `None` where it has no such date.
pub uninterp spec fn typst_date(y: i32, m: u8, d: u8) -> Option<Datetime>;

/// What typst's calendar makes of a date and time; `None` where it has none.
pub uninterp spec fn typst_datetime(y: i32, m: u8, d: u8, h: u8, mi: u8, s: u8) -> Option<Datetime>;

/// Relies on `Datetime::from_ymd` (through `time::Date::from_calendar_date`):
/// `None` exactly for a month or day out of the calendar, or a year beyond
/// the calendar's range, which holds at least -9999 to 9999.
#[verifier::external_body]
fn make_date(y: i32, m: u8, d: u8) -> (r: Option<Datetime>)
    ensures
        r == typst_date(y, m, d),
        r is Some ==> valid_date(y as int, m as int, d as int) && -999999 <= y <= 999999,
        valid_date(y as int, m as int, d as int) && -9999 <= y <= 9999 ==> r is Some,
{
    Datetime::from_ymd(y, m, d)
}

/// Relies on `Datetime::from_ymd_hms` (through `time::Date::from_calendar_date`
/// and `time::Time::from_hms`): as `make_date`, and `None` for a time of day
/// out of range.
#[verifier::external_body]
fn make_datetime(y: i32, m: u8, d: u8, h: u8, mi: u8, s: u8) -> (r: Option<Datetime>)
    ensures
        r == typst_datetime(y, m, d, h, mi, s),
        r is Some ==> valid_date(y as int, m as int, d as int) && valid_time(h as int, mi as int, s as int)
            && -999999 <= y <= 999999,
        valid_date(y as int, m as int, d as int) && valid_time(h as int, mi as int, s as int)
            && -9999 <= y <= 9999 ==> r is Some,
{
    Datetime::from_ymd_hms(y, m, d, h, mi, s)
}

/// Relies on chrono's `NaiveDate::from_ymd_opt`, `and_hms_opt`,
/// `TimeDelta::try_hours` and `NaiveDateTime::checked_add_signed`: the reading
/// `hours` hours later on the same calendar, `None` where `t` is no valid
/// reading or the result leaves chrono's range of years (-262143 to 262142).
#[verifier::external_body]
fn shift_hours(t: Stamp, hours: i64) -> (r: Option<Stamp>)
    ensures
        r is Some ==> valid_stamp(t) && valid_stamp(r->0)
            && seconds_of(r->0) == seconds_of(t) + 3600 * hours
            && -262143 <= r->0.year <= 262142,
        shift_in_range(t, hours) ==> r is Some,
{
    let start = NaiveDate::from_ymd_opt(t.year, t.month, t.day)?.and_hms_opt(t.hour, t.minute, t.second)?;
    let s = start.checked_add_signed(TimeDelta::try_hours(hours)?)?;
    Some(Stamp { year: s.year(), month: s.month(), day: s.day(), hour: s.hour(), minute: s.minute(), second: s.second() })
}

/// A reading and a shift in hours small enough that the shifted reading stays
/// well inside chrono's calendar.
pub open spec fn shift_in_range(t: Stamp, hours: i64) -> bool {
    valid_stamp(t) && -100000 <= t.year <= 100000 && -1_000_000_000 <= hours <= 1_000_000_000
}

/// Whether `s` is what shifting the reading `t` by `hours` hours may give.
pub open spec fn shifted(t: Stamp, hours: i64, s: Option<Stamp>) -> bool {
    &&& s is Some ==> valid_stamp(t) && valid_stamp(s->0)
        && seconds_of(s->0) == seconds_of(t) + 3600 * hours
        && -262143 <= s->0.year <= 262142
    &&& shift_in_range(t, hours) ==> s is Some
}

/// A calendar field narrowed to a byte, `None` where it does not fit.
fn narrow(x: u32) -> (r: Option<u8>)
    ensures
        r is Some <==> x < 256,
        r is Some ==> r->0 as u32 == x,
{
    if x < 256 {
        Some(x as u8)
    } else {
        None
    }
}

/// The timestamp of a reading: `None` where a field does not fit a byte.
pub open spec fn timestamp_of(t: Stamp) -> Option<Datetime> {
    if t.month < 256 && t.day < 256 && t.hour < 256 && t.minute < 256 && t.second < 256 {
        typst_datetime(t.year, t.month as u8, t.day as u8, t.hour as u8, t.minute as u8, t.second as u8)
    } else {
        None
    }
}

/// The date of a reading: `None` where a field does not fit a byte.
pub open spec fn date_of(t: Stamp) -> Option<Datetime> {
    if t.month < 256 && t.day < 256 {
        typst_date(t.year, t.month as u8, t.day as u8)
    } else {
        None
    }
}

/// The date of the moment `m` as `today` reports it: the local date, or the
/// UTC date `offset` hours later.
pub open spec fn today_of(m: Moment, offset: Option<i64>, shifted: Option<Stamp>) -> Option<Datetime> {
    match offset {
        None => date_of(m.local),
        Some(o) => match shifted {
            None => None,
            Some(t) => date_of(t),
        },
    }
}

/// The timestamp of a reading, for the compiler.
pub fn timestamp(t: Stamp) -> (r: Option<Datetime>)
    ensures
        r == timestamp_of(t),
        r is Some ==> valid_stamp(t),
        valid_stamp(t) && -9999 <= t.year <= 9999 ==> r is Some,
{
    let m = narrow(t.month)?;
    let d = narrow(t.day)?;
    let h = narrow(t.hour)?;
    let mi = narrow(t.minute)?;
    let s = narrow(t.second)?;
    make_datetime(t.year, m, d, h, mi, s)
}

/// The date of a reading, for the compiler.
pub fn date(t: Stamp) -> (r: Option<Datetime>)
    ensures
        r == date_of(t),
        r is Some ==> valid_date(t.year as int, t.month as int, t.day as int),
        valid_date(t.year as int, t.month as int, t.day as int) && -9999 <= t.year <= 9999 ==> r is Some,
{
    let m = narrow(t.month)?;
    let d = narrow(t.day)?;
    make_date(t.year, m, d)
}

/// The moment a clock holding `now` reports, `fresh` being the wall clock's
/// reading at the call.
pub open spec fn kept_moment(now: Option<Moment>, fresh: Moment) -> Moment {
    match now {
        Some(m) => m,
        None => fresh,
    }
}

/// The moment of one compilation: unset until first asked for, then fixed.
pub struct Clock {
    pub now: Option<Moment>,
}

impl Clock {
    /// A clock that has not been read yet.
    pub fn new() -> (r: Clock)
        ensures
            r.now is None,
    {
        Clock { now: None }
    }

    /// The moment of this clock: the one kept from the first call, or else
    /// `fresh`, which is kept from now on.
    pub fn moment(&mut self, fresh: Moment) -> (r: Moment)
        ensures
            r == kept_moment(old(self).now, fresh),
            final(self).now == Some(r),
    {
        match self.now {
            Some(m) => m,
            None => {
                self.now = Some(fresh);
                fresh
            },
        }
    }

    /// The current local date and time of this clock, `fresh` being the
    /// reading to keep where the clock was not read yet.
    pub fn now(&mut self, fresh: Moment) -> (r: Option<Datetime>)
        ensures
            final(self).now == Some(kept_moment(old(self).now, fresh)),
            r == timestamp_of(final(self).now->0.local),
            r is Some ==> valid_stamp(final(self).now->0.local),
            valid_stamp(final(self).now->0.local) && -9999 <= final(self).now->0.local.year <= 9999 ==> r is Some,
    {
        let m = self.moment(fresh);
        timestamp(m.local)
    }

    /// The date of this clock's moment: the local date without `offset`, else
    /// the UTC date `offset` hours later (`None` where that leaves the
    /// calendar). `fresh` is the reading to keep where the clock was not read yet.
    pub fn today(&mut self, offset: Option<i64>, fresh: Moment) -> (r: Option<Datetime>)
        ensures
            final(self).now == Some(kept_moment(old(self).now, fresh)),
            offset is None ==> r == date_of(final(self).now->0.local),
            offset is Some ==> exists|s: Option<Stamp>|
                shifted(final(self).now->0.utc, offset->0, s) && r == today_of(final(self).now->0, offset, s),
    {
        let m = self.moment(fresh);
        match offset {
            None => date(m.local),
            Some(o) => {
                let moved = shift_hours(m.utc, o);
                let r = match moved {
                    None => None,
                    Some(t) => date(t),
                };
                assert(r == today_of(m, offset, moved));
                assert(shifted(m.utc, o, moved));
                r
            },
        }
    }
}

} // verus!

verus! {

/// Once read, a clock keeps its moment: a second reading reports the moment of
/// the first, and so the same timestamp and the same local date, whatever the
/// wall clock says by then.
pub proof fn lemma_moment_is_fixed(start: Option<Moment>, first: Moment, second: Moment)
    ensures
        kept_moment(Some(kept_moment(start, first)), second) == kept_moment(start, first),
        timestamp_of(kept_moment(Some(kept_moment(start, first)), second).local)
            == timestamp_of(kept_moment(start, first).local),
        date_of(kept_moment(Some(kept_moment(start, first)), second).local)
            == date_of(kept_moment(start, first).local),
{
}

} // verus!
