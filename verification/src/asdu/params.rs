//! System parameters that fix the on-wire widths of the data unit identifier,
//! and the time zone in which time tags are read.

use vstd::prelude::*;

use chrono::{Datelike, Offset, TimeZone as _, Timelike};

use crate::asdu::identifier::{CommonAddr, INVALID_COMMON_ADDR, OriginAddr};
use crate::asdu::time::{
    calendar_millis, millis_of_timestamp_at, read_only_at, reading_at, timestamp_at, timestamp_millis,
    utc_calendar, utc_reading,
    utc_reading_instant, valid_reading, CalendarTime, Timestamp, CALENDAR_MAX_YEAR,
    CALENDAR_MIN_YEAR,
};
use crate::error::{Error, Result};

verus! {

/// A UTC calendar reading, for an instant inside the calendar's range.
///
/// Calls `chrono::DateTime::from_timestamp_millis` and reads the fields of the
/// result. The contract says that the reading is the proleptic Gregorian one,
/// [`utc_calendar`], that it is a real calendar reading, and that no other
/// instant reads the same: chrono's UTC calendar is one-to-one.
#[verifier::external_body]
fn utc_fields(unix_millis: i64) -> (c: CalendarTime)
    requires
        calendar_millis(unix_millis as int),
    ensures
        c == utc_calendar(unix_millis),
        c.well_formed(),
        read_only_at(c, unix_millis as int),
{
    let t = chrono::DateTime::from_timestamp_millis(unix_millis).unwrap();
    CalendarTime {
        year: t.year(),
        month: t.month(),
        day: t.day(),
        weekday: t.weekday().number_from_monday(),
        hour: t.hour(),
        minute: t.minute(),
        second: t.second(),
        millisecond: t.timestamp_subsec_millis(),
    }
}

/// The instant whose UTC reading shows the given fields.
///
/// Calls `chrono::NaiveDate::from_ymd_opt`, `and_hms_nano_opt` and
/// `and_utc().timestamp_millis()`. chrono answers `None` exactly when the
/// fields name no reading; otherwise the instant it gives reads as the fields,
/// which the contract states through [`utc_reading_instant`].
#[verifier::external_body]
fn utc_instant(year: i32, month: u32, day: u32, hour: u32, minute: u32, second: u32, nano: u32) -> (r: Option<i64>)
    requires
        nano < 1_000_000_000,
        nano % 1_000_000 == 0,
    ensures
        r matches Some(m) ==> calendar_millis(m as int) && utc_reading_instant(
            year as int, month as int, day as int, hour as int, minute as int, second as int, (nano / 1_000_000) as int,
        ) == Some(m as int) && valid_reading(
            year as int, month as int, day as int, hour as int, minute as int, second as int, (nano / 1_000_000) as int,
        ),
        r is None ==> utc_reading_instant(
            year as int, month as int, day as int, hour as int, minute as int, second as int, (nano / 1_000_000) as int,
        ) is None,
{
    let naive = chrono::NaiveDate::from_ymd_opt(year, month, day)?.and_hms_nano_opt(hour, minute, second, nano)?;
    Some(naive.and_utc().timestamp_millis())
}

/// `c` is the UTC reading of the instant `ms` shifted by some offset strictly
/// within a day: what any zone's reading of `ms` is.
pub open spec fn shifted_reading(c: CalendarTime, ms: int) -> bool {
    exists|off: int| -86400 < off < 86400 && c == #[trigger] utc_reading(ms + off * 1000)
}

/// The reading of an instant in the host's time zone.
///
/// Calls `with_timezone(&chrono::Local)` and reads the fields. chrono reads a
/// local time as the UTC time shifted by the zone's offset, whole seconds
/// strictly within a day; which offset depends on how the host is
/// configured, so the contract states that the reading is the UTC reading at
/// some such offset, not which one.
#[verifier::external_body]
fn local_fields(unix_millis: i64) -> (c: CalendarTime)
    requires
        timestamp_millis(unix_millis as int),
    ensures
        c.well_formed(),
        shifted_reading(c, unix_millis as int),
{
    let t = chrono::DateTime::from_timestamp_millis(unix_millis).unwrap().with_timezone(&chrono::Local);
    CalendarTime {
        year: t.year(),
        month: t.month(),
        day: t.day(),
        weekday: t.weekday().number_from_monday(),
        hour: t.hour(),
        minute: t.minute(),
        second: t.second(),
        millisecond: t.timestamp_subsec_millis(),
    }
}

/// Whether chrono-tz knows an IANA zone of this name.
pub uninterp spec fn tz_known(name: Seq<char>) -> bool;

/// The reading chrono-tz gives of the instant `unix_millis` in the zone of
/// this name.
pub uninterp spec fn named_calendar(name: Seq<char>, unix_millis: i64) -> CalendarTime;

/// The offset from UTC, in seconds, that chrono-tz gives the zone of this
/// name at the instant `unix_millis`.
pub uninterp spec fn named_utc_offset(name: Seq<char>, unix_millis: i64) -> i32;

/// The earliest instant, in milliseconds since the epoch, at which chrono-tz
/// says the zone of this name shows the given reading.
pub uninterp spec fn named_earliest_instant(
    name: Seq<char>,
    year: i32,
    month: u32,
    day: u32,
    hour: u32,
    minute: u32,
    second: u32,
    nano: u32,
) -> Option<i64>;

/// Whether `name` is a zone chrono-tz knows.
///
/// Calls `str::parse::<chrono_tz::Tz>`, which looks the name up in the
/// crate's table of IANA names; the result is named [`tz_known`].
#[verifier::external_body]
fn zone_known(name: &str) -> (b: bool)
    ensures
        b == tz_known(name@),
{
    name.parse::<chrono_tz::Tz>().is_ok()
}

/// The reading of an instant in a named IANA zone.
///
/// Calls `with_timezone(&tz)` for the zone of that name and reads the fields.
/// The reading is named [`named_calendar`]; it is a real calendar reading,
/// and it is the UTC reading shifted by the zone's offset at that instant,
/// [`named_utc_offset`], which chrono keeps strictly within a day.
#[verifier::external_body]
fn named_fields(name: &str, unix_millis: i64) -> (c: CalendarTime)
    requires
        tz_known(name@),
        timestamp_millis(unix_millis as int),
    ensures
        c == named_calendar(name@, unix_millis),
        c.well_formed(),
        c == utc_reading(unix_millis + named_utc_offset(name@, unix_millis) * 1000),
        shifted_reading(c, unix_millis as int),
{
    let tz: chrono_tz::Tz = name.parse().unwrap();
    let t = chrono::DateTime::from_timestamp_millis(unix_millis).unwrap().with_timezone(&tz);
    CalendarTime {
        year: t.year(),
        month: t.month(),
        day: t.day(),
        weekday: t.weekday().number_from_monday(),
        hour: t.hour(),
        minute: t.minute(),
        second: t.second(),
        millisecond: t.timestamp_subsec_millis(),
    }
}

/// The instant `m` shows the given reading in UTC shifted by some offset
/// strictly within a day: what any zone's instant for that reading does.
pub open spec fn shows_near(m: int, y: int, mo: int, d: int, h: int, mi: int, s: int, ms: int) -> bool {
    exists|off: int| -86400 < off < 86400 && #[trigger] utc_reading(m + off * 1000).reads(y, mo, d, h, mi, s, ms)
}

/// The earliest instant at which the host's zone shows the given reading.
///
/// Calls `chrono::Local.from_local_datetime(..).earliest()`, which takes the
/// reading back by the host zone's offset there, a whole number of seconds
/// strictly within a day. Which offset depends on the host, so the contract
/// states that a reading that does not exist gives `None`, and that an
/// instant is inside the calendar and shows the reading at some such offset.
#[verifier::external_body]
fn local_instant(year: i32, month: u32, day: u32, hour: u32, minute: u32, second: u32, nano: u32) -> (r: Option<i64>)
    requires
        nano < 1_000_000_000,
        nano % 1_000_000 == 0,
    ensures
        r matches Some(m) ==> calendar_millis(m as int) && valid_reading(
            year as int, month as int, day as int, hour as int, minute as int, second as int, (nano / 1_000_000) as int,
        ),
        r matches Some(m) ==> shows_near(
            m as int, year as int, month as int, day as int, hour as int, minute as int, second as int, (nano / 1_000_000) as int,
        ),
{
    let naive = chrono::NaiveDate::from_ymd_opt(year, month, day)?.and_hms_nano_opt(hour, minute, second, nano)?;
    match chrono::Local.from_local_datetime(&naive).earliest() {
        Some(t) => Some(t.timestamp_millis()),
        None => None,
    }
}

/// The earliest instant at which a named zone shows the given reading.
///
/// Calls `tz.from_local_datetime(..).earliest()` for the zone of that name;
/// the result is named [`named_earliest_instant`]. A reading that does not
/// exist gives `None`, and an instant is inside the calendar.
#[verifier::external_body]
fn named_instant(name: &str, year: i32, month: u32, day: u32, hour: u32, minute: u32, second: u32, nano: u32) -> (r: Option<i64>)
    requires
        tz_known(name@),
        nano < 1_000_000_000,
        nano % 1_000_000 == 0,
    ensures
        r == named_earliest_instant(name@, year, month, day, hour, minute, second, nano),
        r matches Some(m) ==> calendar_millis(m as int) && valid_reading(
            year as int, month as int, day as int, hour as int, minute as int, second as int, (nano / 1_000_000) as int,
        ),
{
    let tz: chrono_tz::Tz = name.parse().unwrap();
    let naive = chrono::NaiveDate::from_ymd_opt(year, month, day)?.and_hms_nano_opt(hour, minute, second, nano)?;
    match tz.from_local_datetime(&naive).earliest() {
        Some(t) => Some(t.timestamp_millis()),
        None => None,
    }
}

/// The offset of the host's zone from UTC at an instant, in seconds.
///
/// Calls `with_timezone(&chrono::Local).offset().local_minus_utc()`; a chrono
/// offset is always strictly within a day of UTC.
#[verifier::external_body]
fn local_offset(unix_millis: i64) -> (off: i32)
    requires
        timestamp_millis(unix_millis as int),
    ensures
        -86400 < off < 86400,
{
    chrono::DateTime::from_timestamp_millis(unix_millis).unwrap().with_timezone(&chrono::Local).offset().local_minus_utc()
}

/// The offset of a named zone from UTC at an instant, in seconds.
///
/// Calls `with_timezone(&tz).offset().fix().local_minus_utc()` for the zone
/// of that name; the result is named [`named_utc_offset`], and a chrono
/// offset is strictly within a day of UTC.
#[verifier::external_body]
fn named_offset(name: &str, unix_millis: i64) -> (off: i32)
    requires
        tz_known(name@),
        timestamp_millis(unix_millis as int),
    ensures
        off == named_utc_offset(name@, unix_millis),
        -86400 < off < 86400,
{
    let tz: chrono_tz::Tz = name.parse().unwrap();
    chrono::DateTime::from_timestamp_millis(unix_millis).unwrap().with_timezone(&tz).offset().fix().local_minus_utc()
}

/// The host clock relative to the epoch: whether it reads at or after
/// 1970-01-01T00:00:00 UTC, and the whole seconds and the nanoseconds of its
/// distance from it.
///
/// Calls `std::time::SystemTime::now().duration_since(UNIX_EPOCH)`; a clock
/// before the epoch is its error, which carries the distance the other way.
/// The clock is read, so two calls may differ; what holds of every reading is
/// that the nanoseconds are below a second.
#[verifier::external_body]
fn clock_since_epoch() -> (r: (bool, u64, u32))
    ensures
        r.2 < 1_000_000_000,
{
    match std::time::SystemTime::now().duration_since(std::time::UNIX_EPOCH) {
        Ok(d) => (true, d.as_secs(), d.subsec_nanos()),
        Err(e) => (false, e.duration().as_secs(), e.duration().subsec_nanos()),
    }
}

/// The instant, in whole milliseconds since the epoch rounded down, that is
/// `secs` seconds and `nanos` nanoseconds after the epoch, or before it when
/// `after` is false.
pub open spec fn clock_millis(after: bool, secs: u64, nanos: u32) -> int {
    let total = secs * 1_000_000_000 + nanos;
    if after {
        total / 1_000_000
    } else {
        -((total + 999_999) / 1_000_000)
    }
}

/// The milliseconds since the epoch of a clock reading, as [`clock_millis`]
/// gives them; `None` when they do not fit an `i64`.
pub fn millis_since_epoch(after: bool, secs: u64, nanos: u32) -> (r: Option<i64>)
    requires
        nanos < 1_000_000_000,
    ensures
        r is Some <==> i64::MIN <= clock_millis(after, secs, nanos) <= i64::MAX,
        r matches Some(m) ==> m == clock_millis(after, secs, nanos),
{
    let total: u128 = secs as u128 * 1_000_000_000 + nanos as u128;
    if after {
        let m = total / 1_000_000;
        if m <= 0x7fff_ffff_ffff_ffff {
            Some(m as i64)
        } else {
            None
        }
    } else {
        let m = (total + 999_999) / 1_000_000;
        if m <= 0x8000_0000_0000_0000 {
            let v: i128 = -(m as i128);
            Some(v as i64)
        } else {
            None
        }
    }
}

/// A zone of the IANA time zone database that chrono-tz knows, by its name.
#[derive(Debug, Clone, Copy, PartialEq, Eq, Hash)]
pub struct NamedZone {
    name: &'static str,
}

impl NamedZone {
    #[verifier::type_invariant]
    closed spec fn known(self) -> bool {
        tz_known(self.name@)
    }

    /// The zone's IANA name.
    pub closed spec fn spec_name(self) -> Seq<char> {
        self.name@
    }

    /// The zone of this IANA name, such as `"Europe/Berlin"`; `None` when
    /// chrono-tz does not know it.
    pub fn new(name: &'static str) -> (r: Option<NamedZone>)
        ensures
            r is Some <==> tz_known(name@),
            r matches Some(z) ==> z.spec_name() == name@,
    {
        if zone_known(name) {
            Some(NamedZone { name })
        } else {
            None
        }
    }

    /// The zone's IANA name.
    pub fn name(&self) -> (s: &'static str)
        ensures
            s@ == self.spec_name(),
            tz_known(s@),
    {
        proof {
            use_type_invariant(self);
        }
        self.name
    }
}

/// An offset from UTC, strictly less than a day either way, in seconds east.
#[derive(Debug, Clone, Copy, PartialEq, Eq, Hash, Structural)]
pub struct UtcOffset {
    secs: i32,
}

impl UtcOffset {
    #[verifier::type_invariant]
    closed spec fn within_a_day(self) -> bool {
        -86400 < self.secs < 86400
    }

    /// Seconds east of UTC.
    pub closed spec fn seconds(self) -> int {
        self.secs as int
    }

    /// The offset `secs` seconds east of UTC, as `FixedOffset::east_opt`:
    /// `None` unless it is strictly within a day.
    pub fn east(secs: i32) -> (r: Option<UtcOffset>)
        ensures
            r is Some <==> -86400 < secs < 86400,
            r matches Some(o) ==> o.seconds() == secs,
    {
        if -86400 < secs && secs < 86400 {
            Some(UtcOffset { secs })
        } else {
            None
        }
    }

    /// Seconds east of UTC, as `FixedOffset::local_minus_utc`.
    pub fn local_minus_utc(&self) -> (s: i32)
        ensures
            s == self.seconds(),
            -86400 < s < 86400,
    {
        proof {
            use_type_invariant(self);
        }
        self.secs
    }
}

/// Time zone used to encode and decode CP24/CP56 time tags.
///
/// The standard leaves the interpretation open; UTC is strongly recommended and
/// is the default of every endpoint in this crate.
#[derive(Debug, Clone, Copy, PartialEq, Eq, Default)]
pub enum TimeZone {
    /// Encode and decode time tags in UTC (default, recommended).
    #[default]
    Utc,
    /// Encode and decode time tags in the host's local time zone.
    Local,
    /// Encode and decode time tags at a fixed offset from UTC.
    Fixed(UtcOffset),
    /// Encode and decode time tags in a named IANA time zone.
    ///
    /// Unlike [`TimeZone::Local`] this does not depend on how the host is
    /// configured, and unlike [`TimeZone::Fixed`] it observes summer time, so
    /// the SU bit of a CP56Time2a tag is set and honoured.
    Named(NamedZone),
}

/// The offset from UTC of a zone that keeps one all year: 0 for UTC, its
/// offset for a fixed zone; `None` for the host's zone and a named zone.
pub open spec fn zone_offset(zone: TimeZone) -> Option<int> {
    match zone {
        TimeZone::Utc => Some(0),
        TimeZone::Fixed(o) => Some(o.seconds()),
        _ => None,
    }
}

/// The day `month`/1 of `year` exists and a timestamp holds its first instant,
/// 00:00 UTC.
pub open spec fn first_of_month_held(year: int, month: int) -> bool {
    match utc_reading_instant(year, month, 1, 0, 0, 0, 0) {
        Some(m) => timestamp_millis(m),
        None => false,
    }
}

/// Summer time by the offsets of a zone: on when the offset `offset` differs
/// from the smaller of the January and July offsets, and off when either of
/// those is unknown.
pub open spec fn summer_time_by(offset: int, jan: Option<i32>, jul: Option<i32>) -> bool {
    match (jan, jul) {
        (Some(j), Some(k)) => offset != (if j < k {
            j
        } else {
            k
        }),
        _ => false,
    }
}

/// `b` is the summer time decision for a zone whose offset is `o` at the
/// instant asked about and `jan` and `jul` on January 1 and July 1, 00:00
/// UTC, of year `y`; each offset is within a day of UTC, and the January or
/// July one is known exactly when that instant is one a timestamp holds.
pub open spec fn summer_time_decided(b: bool, y: int, o: int, jan: Option<i32>, jul: Option<i32>) -> bool {
    &&& -86400 < o < 86400
    &&& (jan is Some <==> first_of_month_held(y, 1))
    &&& (jul is Some <==> first_of_month_held(y, 7))
    &&& (jan matches Some(j) ==> -86400 < j < 86400)
    &&& (jul matches Some(k) ==> -86400 < k < 86400)
    &&& b == summer_time_by(o, jan, jul)
}

/// Whether a zone is on summer time, given its offset at the instant asked
/// about and its offsets on January 1 and July 1 of that year: the offset
/// differs from the smaller of the two, the standard offset in both
/// hemispheres; off when either is unknown.
pub fn summer_time_by_offsets(offset: i32, jan: Option<i32>, jul: Option<i32>) -> (b: bool)
    ensures
        b == summer_time_by(offset as int, jan, jul),
{
    match (jan, jul) {
        (Some(j), Some(k)) => {
            let standard = if j < k {
                j
            } else {
                k
            };
            offset != standard
        },
        _ => false,
    }
}

/// `r` is the reading in `zone` of the host clock when it reads `ms`: none
/// when a timestamp cannot hold that instant, otherwise a real calendar
/// reading: in UTC and at a fixed offset the reading of `ms` there, in a
/// named zone what chrono-tz reads, and in any zone the UTC reading at some
/// offset within a day.
pub open spec fn clock_parts(zone: TimeZone, ms: int, r: Option<CalendarTime>) -> bool {
    &&& (r is Some <==> timestamp_millis(ms))
    &&& (r matches Some(c) ==> c.well_formed())
    &&& (timestamp_millis(ms) ==> match zone_offset(zone) {
        Some(off) => r == Some(reading_at(timestamp_at(ms), off)),
        None => r matches Some(c) && shifted_reading(c, ms),
    })
    &&& (timestamp_millis(ms) ==> match zone {
        TimeZone::Named(z) => r == Some(named_calendar(z.spec_name(), ms as i64)),
        _ => true,
    })
}

/// The offset chrono-tz gives the zone of this name at 00:00 UTC on the
/// first of `month` in `year`, when that day exists and a timestamp holds it.
pub open spec fn named_offset_on_first(name: Seq<char>, year: int, month: int) -> Option<i32> {
    match utc_reading_instant(year, month, 1, 0, 0, 0, 0) {
        Some(m) => if timestamp_millis(m) {
            Some(named_utc_offset(name, m as i64))
        } else {
            None
        },
        None => None,
    }
}

/// Whether the zone of this name is on summer time at the instant `ms`: its
/// offset then differs from the smaller of its offsets on January 1 and July
/// 1 of the year it reads there.
pub open spec fn named_summer_time(name: Seq<char>, ms: int) -> bool {
    let y = named_calendar(name, ms as i64).year as int;
    summer_time_by(
        named_utc_offset(name, ms as i64) as int,
        named_offset_on_first(name, y, 1),
        named_offset_on_first(name, y, 7),
    )
}

/// `c` is the reading of `t` in `zone`: its UTC reading shifted by the
/// zone's fixed offset, what chrono-tz reads in a named zone, and in the
/// host's zone the UTC reading shifted by some offset within a day.
pub open spec fn reading_in(zone: TimeZone, t: Timestamp, c: CalendarTime) -> bool {
    match zone {
        TimeZone::Utc => c == reading_at(t, 0),
        TimeZone::Fixed(o) => c == reading_at(t, o.seconds()),
        TimeZone::Named(z) => c == named_calendar(z.spec_name(), t.millis() as i64),
        TimeZone::Local => shifted_reading(c, t.millis()),
    }
}

/// `su` is the summer time flag of `zone` at `t`: never set in UTC or at a
/// fixed offset, as chrono-tz's offsets give it in a named zone, and
/// whatever the host's offsets give in the host's zone.
pub open spec fn summer_flag(zone: TimeZone, t: Timestamp, su: bool) -> bool {
    match zone {
        TimeZone::Named(z) => su == named_summer_time(z.spec_name(), t.millis()),
        TimeZone::Local => true,
        _ => !su,
    }
}

/// The timestamp at the instant `m`, when there is one and a timestamp holds
/// it.
pub open spec fn held_instant(m: Option<i64>) -> Option<Timestamp> {
    match m {
        Some(ms) => if timestamp_millis(ms as int) {
            Some(timestamp_at(ms as int))
        } else {
            None
        },
        None => None,
    }
}

/// The shifts, in minutes, tried in turn when a reading disagrees with the
/// SU flag it came with.
pub open spec fn summer_shifts() -> Seq<int> {
    seq![-60, 60, -30, 30, -120, 120]
}

/// In the zone of this name, the instant `k` minutes after `ms` is one a
/// timestamp holds, agrees with the SU flag `su`, and reads the same wall
/// clock as `ms`.
pub open spec fn named_shift_ok(name: Seq<char>, ms: int, su: bool, k: int) -> bool {
    &&& timestamp_millis(ms + k * 60000)
    &&& named_summer_time(name, ms + k * 60000) == su
    &&& named_calendar(name, (ms + k * 60000) as i64) == named_calendar(name, ms as i64)
}

/// The first of the shifts from the `i`-th on that is acceptable, applied to
/// `ms`; `ms` itself when none is.
pub open spec fn named_pick_from(name: Seq<char>, ms: int, su: bool, i: nat) -> int
    decreases 6 - i,
{
    if i >= 6 {
        ms
    } else if named_shift_ok(name, ms, su, summer_shifts()[i as int]) {
        ms + summer_shifts()[i as int] * 60000
    } else {
        named_pick_from(name, ms, su, i + 1)
    }
}

/// The instant, in the zone of this name, that a reading at `ms` with SU
/// flag `su` stands for: `ms` when its summer time agrees with `su`, else the
/// first acceptable shift.
pub open spec fn named_resolve(name: Seq<char>, ms: int, su: bool) -> int {
    if named_summer_time(name, ms) == su {
        ms
    } else {
        named_pick_from(name, ms, su, 0)
    }
}

/// The hour, in minutes, by which a summer time reading may be shifted.
pub open spec fn summer_shift(k: int) -> bool {
    k == -60 || k == 60 || k == -30 || k == 30 || k == -120 || k == 120
}

impl TimeZone {
    /// Split an instant into the broken-down calendar fields of this zone.
    pub fn parts(&self, t: Timestamp) -> (c: CalendarTime)
        ensures
            c.well_formed(),
            zone_offset(*self) matches Some(off) ==> c == reading_at(t, off) && read_only_at(
                c,
                t.millis() + off * 1000,
            ) && calendar_millis(t.millis() + off * 1000),
            zone_offset(*self) is None ==> shifted_reading(c, t.millis()),
            reading_in(*self, t, c),
            self matches TimeZone::Named(z) ==> c == named_calendar(z.spec_name(), t.millis() as i64),
    {
        let ms = t.unix_millis();
        let mut c = match self {
            TimeZone::Utc => utc_fields(ms),
            TimeZone::Local => local_fields(ms),
            TimeZone::Fixed(off) => {
                let s = off.local_minus_utc();
                utc_fields(ms + s as i64 * 1000)
            },
            TimeZone::Named(z) => named_fields(z.name(), ms),
        };
        if c.millisecond > 999 {
            c.millisecond = 999;
        }
        c
    }

    /// The timestamp `s` seconds west of the UTC instant `u`, when it holds it.
    fn shifted(u: Option<i64>, s: i32) -> (r: Option<Timestamp>)
        requires
            u matches Some(m) ==> calendar_millis(m as int),
            -86400 < s < 86400,
        ensures
            r == (match u {
                Some(m) => if timestamp_millis(m - s * 1000) {
                    Some(crate::asdu::time::timestamp_at(m - s * 1000))
                } else {
                    None
                },
                None => None,
            }),
    {
        match u {
            Some(m) => {
                let r = Timestamp::from_unix_millis(m - s as i64 * 1000);
                proof {
                    if let Some(t) = r {
                        crate::asdu::time::timestamp_at_millis(t, m - s * 1000);
                    }
                }
                r
            },
            None => None,
        }
    }

    /// Rebuild an instant from broken-down calendar fields interpreted in this zone.
    ///
    /// Ambiguous or non-existent local times (DST transitions) resolve to the
    /// earliest valid instant. A reading that does not exist, or an instant a
    /// timestamp cannot hold, gives `None`.
    pub(crate) fn instant_from(
        &self,
        year: i32,
        month: u32,
        day: u32,
        hour: u32,
        min: u32,
        sec: u32,
        milli: u32,
    ) -> (r: Option<Timestamp>)
        requires
            milli < 1000,
        ensures
            r is Some ==> valid_reading(year as int, month as int, day as int, hour as int, min as int, sec as int, milli as int),
            zone_offset(*self) matches Some(off) ==> r == crate::asdu::time::instant_at(
                off,
                year as int,
                month as int,
                day as int,
                hour as int,
                min as int,
                sec as int,
                milli as int,
            ),
            self matches TimeZone::Named(z) ==> r == held_instant(
                named_earliest_instant(z.spec_name(), year, month, day, hour, min, sec, (milli * 1_000_000) as u32),
            ),
            self matches TimeZone::Local ==> (r matches Some(t) ==> shows_near(
                t.millis(),
                year as int,
                month as int,
                day as int,
                hour as int,
                min as int,
                sec as int,
                milli as int,
            )),
    {
        let nano = milli * 1_000_000;
        match self {
            TimeZone::Utc => Self::shifted(utc_instant(year, month, day, hour, min, sec, nano), 0),
            TimeZone::Fixed(off) => {
                let s = off.local_minus_utc();
                Self::shifted(utc_instant(year, month, day, hour, min, sec, nano), s)
            },
            TimeZone::Local => match local_instant(year, month, day, hour, min, sec, nano) {
                Some(m) => Timestamp::from_unix_millis(m),
                None => None,
            },
            TimeZone::Named(z) => match named_instant(z.name(), year, month, day, hour, min, sec, nano) {
                Some(m) => {
                    let r = Timestamp::from_unix_millis(m);
                    proof {
                        if let Some(t) = r {
                            crate::asdu::time::timestamp_at_millis(t, m as int);
                        }
                    }
                    r
                },
                None => None,
            },
        }
    }
}


impl TimeZone {
    /// The offset from UTC this zone is at during `t`, in seconds.
    fn offset_secs(&self, t: Timestamp) -> (off: i32)
        ensures
            -86400 < off < 86400,
            zone_offset(*self) matches Some(o) ==> off == o,
            self matches TimeZone::Named(z) ==> off == named_utc_offset(z.spec_name(), t.millis() as i64),
    {
        match self {
            TimeZone::Utc => 0,
            TimeZone::Local => local_offset(t.unix_millis()),
            TimeZone::Fixed(o) => o.local_minus_utc(),
            TimeZone::Named(z) => named_offset(z.name(), t.unix_millis()),
        }
    }

    /// The offset of this zone at 00:00 UTC on the first of `month` in `year`:
    /// `None` when that day does not exist or a timestamp cannot hold it.
    fn offset_on_first(&self, year: i32, month: u32) -> (r: Option<i32>)
        ensures
            r is Some <==> first_of_month_held(year as int, month as int),
            r matches Some(o) ==> -86400 < o < 86400,
            r matches Some(o) ==> match zone_offset(*self) {
                Some(z) => o == z,
                None => true,
            },
            self matches TimeZone::Named(z) ==> r == named_offset_on_first(z.spec_name(), year as int, month as int),
    {
        match utc_instant(year, month, 1, 0, 0, 0, 0) {
            Some(m) => match Timestamp::from_unix_millis(m) {
                Some(at) => Some(self.offset_secs(at)),
                None => None,
            },
            None => None,
        }
    }

    /// Whether this zone is on summer time during `t`.
    ///
    /// This is the SU bit of a CP56Time2a or CP32Time2a tag. It is always
    /// false for UTC and for any fixed offset, because neither observes summer
    /// time. A zone is taken to be on summer time when its offset differs from
    /// the smaller of the offsets it has on January 1 and July 1 that year:
    /// that is the standard offset in both hemispheres.
    pub fn is_dst(&self, t: Timestamp) -> (b: bool)
        ensures
            zone_offset(*self) is Some ==> !b,
            zone_offset(*self) is None ==> exists|y: int, o: int, jan: Option<i32>, jul: Option<i32>|
                #[trigger] summer_time_decided(b, y, o, jan, jul),
            self matches TimeZone::Named(z) ==> b == named_summer_time(z.spec_name(), t.millis()),
            summer_flag(*self, t, b),
    {
        match self {
            TimeZone::Utc | TimeZone::Fixed(_) => {
                return false;
            },
            _ => {},
        }
        let year = self.parts(t).year;
        let jan = self.offset_on_first(year, 1);
        let jul = self.offset_on_first(year, 7);
        match (jan, jul) {
            (Some(_), Some(_)) => {
                let o = self.offset_secs(t);
                let b = summer_time_by_offsets(o, jan, jul);
                assert(summer_time_decided(b, year as int, o as int, jan, jul));
                b
            },
            _ => {
                assert(summer_time_decided(false, year as int, 0, jan, jul));
                false
            },
        }
    }

    /// Pick the instant matching a CP56Time2a or CP32Time2a SU flag.
    ///
    /// A wall clock reading is ambiguous for one hour a year: when the clocks
    /// go back the same local time occurs twice. Returns `t` unchanged when it
    /// already agrees with `su`, and when no instant shifted by an hour, half
    /// an hour or two hours either way reads the same wall clock and agrees
    /// with `su`; otherwise the first such instant, in that order.
    pub fn resolve_summer_time(&self, t: Timestamp, su: bool) -> (r: Timestamp)
        ensures
            zone_offset(*self) is Some ==> r == t,
            r == t || exists|k: int| summer_shift(k) && r.millis() == t.millis() + k * 60000,
            self matches TimeZone::Named(z) ==> r.millis() == named_resolve(z.spec_name(), t.millis(), su),
    {
        if self.is_dst(t) == su {
            return t;
        }
        let wall = self.parts(t);
        let shifts: [i64; 6] = [-60, 60, -30, 30, -120, 120];
        let ms = t.unix_millis();
        let mut i: usize = 0;
        while i < 6
            invariant
                0 <= i <= 6,
                shifts@ == seq![-60i64, 60i64, -30i64, 30i64, -120i64, 120i64],
                ms == t.millis(),
                timestamp_millis(ms as int),
                zone_offset(*self) is Some ==> su,
                self matches TimeZone::Named(z) ==> wall == named_calendar(z.spec_name(), ms)
                    && named_summer_time(z.spec_name(), ms as int) != su && named_resolve(
                    z.spec_name(),
                    ms as int,
                    su,
                ) == named_pick_from(z.spec_name(), ms as int, su, i as nat),
            decreases 6 - i,
        {
            let minutes = shifts[i];
            assert(summer_shift(minutes as int) && -120 <= minutes <= 120);
            assert(minutes as int == summer_shifts()[i as int]);
            if let Some(alt) = Timestamp::from_unix_millis(ms + minutes * 60000) {
                if self.is_dst(alt) == su && self.parts(alt) == wall {
                    return alt;
                }
            }
            i = i + 1;
        }
        t
    }

    /// "Now" as broken-down fields in this zone, used to complete CP24 time
    /// tags; `None` when the host clock reads outside the range of a
    /// timestamp.
    pub fn now_parts(&self) -> (r: Option<CalendarTime>)
        ensures
            exists|ms: int| #[trigger] clock_parts(*self, ms, r),
    {
        let (after, secs, nanos) = clock_since_epoch();
        self.clock_reading(after, secs, nanos)
    }

    /// The reading in this zone of a clock that reads `secs` seconds and
    /// `nanos` nanoseconds after the epoch, or before it when `after` is
    /// false: as [`clock_parts`] says of the instant [`clock_millis`] gives.
    pub fn clock_reading(&self, after: bool, secs: u64, nanos: u32) -> (r: Option<CalendarTime>)
        requires
            nanos < 1_000_000_000,
        ensures
            clock_parts(*self, clock_millis(after, secs, nanos), r),
    {
        let ms = match millis_since_epoch(after, secs, nanos) {
            Some(ms) => ms,
            None => {
                assert(clock_parts(*self, clock_millis(after, secs, nanos), None));
                return None;
            },
        };
        match Timestamp::from_unix_millis(ms) {
            Some(now) => {
                let c = self.parts(now);
                proof {
                    millis_of_timestamp_at(ms as int);
                    assert(clock_parts(*self, ms as int, Some(c)));
                }
                Some(c)
            },
            None => {
                assert(clock_parts(*self, ms as int, None));
                None
            },
        }
    }
}

/// The largest value that `n` octets hold, plus one.
pub open spec fn octet_limit(n: nat) -> nat
    decreases n,
{
    if n == 0 {
        1
    } else {
        256 * octet_limit((n - 1) as nat)
    }
}

/// Specific parameters related to an ASDU.
///
/// See companion standard 101, subclass 7.1. **Both peers must be configured
/// identically** or every ASDU will be mis-parsed.
#[derive(Debug, Clone, Copy, PartialEq, Eq)]
pub struct Params {
    /// Octets of the cause of transmission field, 1 or 2.
    /// A width of 2 includes (activates) the originator address.
    pub cause_size: u8,
    /// Originator address `[1, 255]`, or 0 for the default.
    /// Only present on the wire when `cause_size == 2`.
    pub orig_address: OriginAddr,
    /// Octets of the ASDU common (station) address, 1 or 2.
    pub common_addr_size: u8,
    /// Octets of the information object address, 1, 2 or 3.
    pub info_obj_addr_size: u8,
    /// Time zone used to interpret CP24/CP56 time tags.
    pub info_obj_time_zone: TimeZone,
    /// Accept an ASDU whose information objects are longer than its variable
    /// structure qualifier accounts for, silently discarding the surplus.
    ///
    /// The default — reject, with [`Error::TrailingOctets`] — is what the
    /// standard implies. Set this only for a device that is known to pad.
    pub allow_trailing_octets: bool,
}

/// The parameters with the given widths, UTC time tags, no originator
/// address and no surplus octets accepted.
pub open spec fn params_of(cause_size: u8, common_addr_size: u8, info_obj_addr_size: u8) -> Params {
    Params {
        cause_size,
        orig_address: 0,
        common_addr_size,
        info_obj_addr_size,
        info_obj_time_zone: TimeZone::Utc,
        allow_trailing_octets: false,
    }
}

/// The smallest configuration: COT 1, CA 1, IOA 1.
#[allow(non_snake_case)]
pub fn PARAMS_NARROW() -> (p: Params)
    ensures
        p == params_of(1, 1, 1),
{
    Params {
        cause_size: 1,
        orig_address: 0,
        common_addr_size: 1,
        info_obj_addr_size: 1,
        info_obj_time_zone: TimeZone::Utc,
        allow_trailing_octets: false,
    }
}

/// The standard configuration for IEC 60870-5-101: COT 1, CA 1, IOA 2.
#[allow(non_snake_case)]
pub fn PARAMS_STANDARD_101() -> (p: Params)
    ensures
        p == params_of(1, 1, 2),
{
    Params {
        cause_size: 1,
        orig_address: 0,
        common_addr_size: 1,
        info_obj_addr_size: 2,
        info_obj_time_zone: TimeZone::Utc,
        allow_trailing_octets: false,
    }
}

/// The largest configuration: COT 2 (with originator address), CA 2, IOA 3.
///
/// This is the standard layout for IEC 60870-5-104.
#[allow(non_snake_case)]
pub fn PARAMS_WIDE() -> (p: Params)
    ensures
        p == params_of(2, 2, 3),
{
    Params {
        cause_size: 2,
        orig_address: 0,
        common_addr_size: 2,
        info_obj_addr_size: 3,
        info_obj_time_zone: TimeZone::Utc,
        allow_trailing_octets: false,
    }
}

/// The IEC 60870-5-104 standard layout, the same as [`PARAMS_WIDE`].
#[allow(non_snake_case)]
pub fn PARAMS_STANDARD_104() -> (p: Params)
    ensures
        p == params_of(2, 2, 3),
{
    PARAMS_WIDE()
}

impl Default for Params {
    fn default() -> (p: Params)
        ensures
            p == params_of(2, 2, 3),
    {
        PARAMS_WIDE()
    }
}

impl Params {
    /// The field widths are those the standard allows.
    pub open spec fn spec_valid(self) -> bool {
        1 <= self.cause_size <= 2 && 1 <= self.common_addr_size <= 2 && 1 <= self.info_obj_addr_size <= 3
    }

    /// Validate the field widths.
    pub fn valid(&self) -> (r: Result<()>)
        ensures
            r is Ok <==> self.spec_valid(),
            r is Err ==> r == Err::<(), Error>(Error::Param),
    {
        if self.cause_size < 1 || self.cause_size > 2 || self.common_addr_size < 1
            || self.common_addr_size > 2 || self.info_obj_addr_size < 1 || self.info_obj_addr_size > 3 {
            return Err(Error::Param);
        }
        Ok(())
    }

    /// Validate a station common address against these parameters: it must
    /// not be zero and must fit `common_addr_size` octets.
    pub fn valid_common_addr(&self, addr: CommonAddr) -> (r: Result<()>)
        requires
            self.common_addr_size < 32,
        ensures
            addr == INVALID_COMMON_ADDR ==> r == Err::<(), Error>(Error::CommonAddrZero),
            addr != INVALID_COMMON_ADDR && addr >= octet_limit(self.common_addr_size as nat)
                ==> r == Err::<(), Error>(Error::CommonAddrFit),
            addr != INVALID_COMMON_ADDR && addr < octet_limit(self.common_addr_size as nat) ==> r is Ok,
    {
        if addr == INVALID_COMMON_ADDR {
            return Err(Error::CommonAddrZero);
        }
        proof {
            reveal_with_fuel(octet_limit, 3);
            octet_limit_grows(self.common_addr_size as nat);
        }
        if self.common_addr_size == 0 || (self.common_addr_size == 1 && addr > 255) {
            return Err(Error::CommonAddrFit);
        }
        Ok(())
    }

    /// Size in octets of the application service data unit identifier.
    pub fn identifier_size(&self) -> (n: usize)
        ensures
            n == 2 + self.cause_size + self.common_addr_size,
    {
        2 + self.cause_size as usize + self.common_addr_size as usize
    }
}

/// Two or more octets hold any 16-bit value.
proof fn octet_limit_grows(n: nat)
    ensures
        n >= 2 ==> octet_limit(n) >= 65536,
    decreases n,
{
    reveal_with_fuel(octet_limit, 3);
    if n > 2 {
        octet_limit_grows((n - 1) as nat);
    }
}

} // verus!
