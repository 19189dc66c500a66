//! Binary time tags CP56Time2a, CP24Time2a and CP16Time2a.
//!
//! ```text
//! |         Milliseconds(D7--D0)        | Milliseconds = 0..59999
//! |         Milliseconds(D15--D8)       |
//! | IV(D7)   SB(D6)    Minutes(D5--D0)  | Minutes = 0..59, IV: 0 = valid, 1 = invalid
//! | SU(D7)   RES2(D6-D5)  Hours(D4--D0) | Hours = 0..23, SU: 0 = standard, 1 = summer time
//! | DayOfWeek(D7--D5) DayOfMonth(D4--D0)| DayOfMonth = 1..31, DayOfWeek = 1..7
//! | RES3(D7--D4)        Months(D3--D0)  | Months = 1..12
//! | RES4(D7)            Year(D6--D0)    | Year = 0..99
//! ```
//!
//! Bit 6 of the minutes octet, reserved in IEC 60870-5-4, is SB in the
//! companion standards: the time was substituted by an intermediate station
//! rather than tagged by the one that acquired the value. CP24Time2a and
//! CP32Time2a carry IV and SB in the same octet.
//!
//! Two decoders are offered. [`parse_cp56time2a`] returns only a time that can
//! be trusted — `None` for an invalid tag — which is what a clock
//! synchronization must use. [`parse_cp56time2a_tag`] returns the reading
//! whatever its validity, together with the [`TimeTagFlags`], which is what an
//! event log needs.
//!
//! An instant is a [`Timestamp`]: milliseconds since the Unix epoch. Its
//! reading in a zone is a [`CalendarTime`]. In UTC and at a fixed offset the
//! reading is the UTC calendar reading of the (shifted) instant, [`utc_calendar`],
//! and the contracts below say exactly what each tag encodes and decodes; in
//! the host's zone and in a named zone they say what holds of every reading.

use vstd::prelude::*;

use crate::asdu::params::{
    clock_parts, held_instant, named_calendar, named_earliest_instant, named_summer_time, shifted_reading, shows_near, summer_shift, named_resolve, reading_in, summer_flag, zone_offset, TimeZone,
};

verus! {

/// Octet length of a CP56Time2a time tag.
pub const CP56TIME2A_SIZE: usize = 7;

/// Octet length of a CP24Time2a time tag.
pub const CP24TIME2A_SIZE: usize = 3;

/// Octet length of a CP16Time2a time tag.
pub const CP16TIME2A_SIZE: usize = 2;

/// The earliest year of the proleptic Gregorian calendar that has a reading.
pub const CALENDAR_MIN_YEAR: i32 = -262143;

/// The latest year of the proleptic Gregorian calendar that has a reading.
pub const CALENDAR_MAX_YEAR: i32 = 262142;

/// The first millisecond of year [`CALENDAR_MIN_YEAR`], UTC, since the epoch.
pub const CALENDAR_MIN_MILLIS: i64 = -8334601228800000;

/// The last millisecond of year [`CALENDAR_MAX_YEAR`], UTC, since the epoch.
pub const CALENDAR_MAX_MILLIS: i64 = 8210266876799999;

/// The earliest instant a [`Timestamp`] holds: one day after
/// [`CALENDAR_MIN_MILLIS`], so that its reading at any offset from UTC is a
/// calendar reading.
pub const TIMESTAMP_MIN_MILLIS: i64 = -8334601142400000;

/// The latest instant a [`Timestamp`] holds: one day before
/// [`CALENDAR_MAX_MILLIS`].
pub const TIMESTAMP_MAX_MILLIS: i64 = 8210266790399999;

/// Milliseconds in an hour.
pub const MILLIS_PER_HOUR: i64 = 3600000;

/// An instant inside the calendar's range.
pub open spec fn calendar_millis(ms: int) -> bool {
    CALENDAR_MIN_MILLIS <= ms <= CALENDAR_MAX_MILLIS
}

/// An instant a [`Timestamp`] can hold.
pub open spec fn timestamp_millis(ms: int) -> bool {
    TIMESTAMP_MIN_MILLIS <= ms <= TIMESTAMP_MAX_MILLIS
}

/// An instant, in whole milliseconds since 1970-01-01T00:00:00 UTC.
#[derive(Debug, Clone, Copy, PartialEq, Eq, Hash, Structural)]
pub struct Timestamp {
    unix_millis: i64,
}

impl Timestamp {
    #[verifier::type_invariant]
    closed spec fn inside_range(self) -> bool {
        timestamp_millis(self.unix_millis as int)
    }

    /// Milliseconds since the epoch.
    pub closed spec fn millis(self) -> int {
        self.unix_millis as int
    }

    /// The instant `ms` milliseconds after the epoch, when a timestamp holds it.
    pub fn from_unix_millis(ms: i64) -> (r: Option<Timestamp>)
        ensures
            r is Some <==> timestamp_millis(ms as int),
            r matches Some(t) ==> t.millis() == ms,
    {
        if TIMESTAMP_MIN_MILLIS <= ms && ms <= TIMESTAMP_MAX_MILLIS {
            Some(Timestamp { unix_millis: ms })
        } else {
            None
        }
    }

    /// Milliseconds since the epoch.
    pub fn unix_millis(&self) -> (ms: i64)
        ensures
            ms == self.millis(),
            timestamp_millis(ms as int),
    {
        proof {
            use_type_invariant(self);
        }
        self.unix_millis
    }
}

/// The timestamp at `ms` milliseconds after the epoch.
pub closed spec fn timestamp_at(ms: int) -> Timestamp {
    Timestamp { unix_millis: ms as i64 }
}

/// A timestamp is its instant.
pub proof fn timestamp_at_millis(t: Timestamp, ms: int)
    requires
        t.millis() == ms,
        timestamp_millis(ms),
    ensures
        timestamp_at(ms) == t,
        timestamp_at(ms).millis() == ms,
{
}

/// The instant of `timestamp_at`.
pub proof fn millis_of_timestamp_at(ms: int)
    requires
        timestamp_millis(ms),
    ensures
        timestamp_at(ms).millis() == ms,
{
}

/// A year of the proleptic Gregorian calendar with 366 days.
pub open spec fn is_leap_year(y: int) -> bool {
    (y % 4 == 0 && y % 100 != 0) || y % 400 == 0
}

/// The number of days of a month.
pub open spec fn days_in_month(y: int, m: int) -> int {
    if m == 2 {
        if is_leap_year(y) {
            29
        } else {
            28
        }
    } else if m == 4 || m == 6 || m == 9 || m == 11 {
        30
    } else {
        31
    }
}

/// A day that exists in the calendar.
pub open spec fn valid_date(y: int, m: int, d: int) -> bool {
    CALENDAR_MIN_YEAR <= y <= CALENDAR_MAX_YEAR && 1 <= m <= 12 && 1 <= d <= days_in_month(y, m)
}

/// A wall clock reading that exists: a real day, and a time of day to the
/// millisecond.
pub open spec fn valid_reading(y: int, mo: int, d: int, h: int, mi: int, s: int, ms: int) -> bool {
    valid_date(y, mo, d) && 0 <= h < 24 && 0 <= mi < 60 && 0 <= s < 60 && 0 <= ms < 1000
}

/// The broken-down calendar fields of an instant in some zone.
#[derive(Debug, Clone, Copy, PartialEq, Eq, Structural)]
pub struct CalendarTime {
    /// Year of the proleptic Gregorian calendar.
    pub year: i32,
    /// Month, 1 = January.
    pub month: u32,
    /// Day of the month, from 1.
    pub day: u32,
    /// Day of the week, 1 = Monday .. 7 = Sunday, as IEC 60870-5-4 counts.
    pub weekday: u32,
    /// Hour, 0..=23.
    pub hour: u32,
    /// Minute, 0..=59.
    pub minute: u32,
    /// Second, 0..=59.
    pub second: u32,
    /// Millisecond, 0..=999.
    pub millisecond: u32,
}

impl CalendarTime {
    /// Every field in its range, on a day that exists.
    pub open spec fn well_formed(self) -> bool {
        &&& valid_reading(
            self.year as int,
            self.month as int,
            self.day as int,
            self.hour as int,
            self.minute as int,
            self.second as int,
            self.millisecond as int,
        )
        &&& 1 <= self.weekday <= 7
    }

    /// The reading shows these fields (the weekday follows from the date).
    pub open spec fn reads(self, y: int, mo: int, d: int, h: int, mi: int, s: int, ms: int) -> bool {
        self.year == y && self.month == mo && self.day == d && self.hour == h && self.minute == mi
            && self.second == s && self.millisecond == ms
    }

    /// Two readings show the same wall clock.
    pub open spec fn same_reading(self, other: CalendarTime) -> bool {
        other.reads(
            self.year as int,
            self.month as int,
            self.day as int,
            self.hour as int,
            self.minute as int,
            self.second as int,
            self.millisecond as int,
        )
    }
}

/// The UTC reading of the instant `unix_millis` milliseconds after the
/// epoch in the proleptic Gregorian calendar: the day count and the time of
/// day, the day count turned into a date by eras of 400 years counted from
/// March 1 of year 0, and the weekday counted from Thursday, 1970-01-01.
#[verifier::opaque]
pub closed spec fn utc_calendar(unix_millis: i64) -> CalendarTime {
    let ms = unix_millis as int;
    let days = ms / 86_400_000;
    let rem = ms % 86_400_000;
    let z = days + 719_468;
    let era = z / 146_097;
    let doe = z - era * 146_097;
    let yoe = (doe - doe / 1460 + doe / 36_524 - doe / 146_096) / 365;
    let doy = doe - (365 * yoe + yoe / 4 - yoe / 100);
    let mp = (5 * doy + 2) / 153;
    let month = if mp < 10 {
        mp + 3
    } else {
        mp - 9
    };
    CalendarTime {
        year: (yoe + era * 400 + (if month <= 2 {
            1int
        } else {
            0
        })) as i32,
        month: month as u32,
        day: (doy - (153 * mp + 2) / 5 + 1) as u32,
        weekday: ((days + 3) % 7 + 1) as u32,
        hour: (rem / 3_600_000) as u32,
        minute: (rem / 60_000 % 60) as u32,
        second: (rem / 1000 % 60) as u32,
        millisecond: (rem % 1000) as u32,
    }
}

/// The UTC reading of `ms`, for an instant inside the calendar.
pub open spec fn utc_reading(ms: int) -> CalendarTime {
    utc_calendar(ms as i64)
}

/// `ms` is the only instant of the calendar whose UTC reading is `c`.
pub open spec fn read_only_at(c: CalendarTime, ms: int) -> bool {
    forall|m: int| #[trigger] calendar_millis(m) && c.same_reading(utc_reading(m)) ==> m == ms
}

/// The instant whose UTC reading shows these fields, when there is one.
pub open spec fn utc_reading_instant(
    y: int,
    mo: int,
    d: int,
    h: int,
    mi: int,
    s: int,
    ms: int,
) -> Option<int> {
    if exists|m: int| #[trigger] calendar_millis(m) && utc_reading(m).reads(y, mo, d, h, mi, s, ms) {
        Some(choose|m: int| #[trigger] calendar_millis(m) && utc_reading(m).reads(y, mo, d, h, mi, s, ms))
    } else {
        None
    }
}

/// The reading of `t` at `off` seconds east of UTC.
pub open spec fn reading_at(t: Timestamp, off: int) -> CalendarTime {
    utc_reading(t.millis() + off * 1000)
}

/// The instant at which a zone `off` seconds east of UTC shows these fields,
/// when a timestamp holds it.
pub open spec fn instant_at(
    off: int,
    y: int,
    mo: int,
    d: int,
    h: int,
    mi: int,
    s: int,
    ms: int,
) -> Option<Timestamp> {
    match utc_reading_instant(y, mo, d, h, mi, s, ms) {
        Some(u) => if timestamp_millis(u - off * 1000) {
            Some(timestamp_at(u - off * 1000))
        } else {
            None
        },
        None => None,
    }
}

/// When the UTC reading of `m` is read only at `m`, the instant showing that
/// reading at `off` seconds east is `m` shifted back by the offset.
pub proof fn instant_at_reading(t: Timestamp, off: int)
    requires
        timestamp_millis(t.millis()),
        calendar_millis(t.millis() + off * 1000),
        read_only_at(reading_at(t, off), t.millis() + off * 1000),
    ensures
        ({
            let c = reading_at(t, off);
            instant_at(
                off,
                c.year as int,
                c.month as int,
                c.day as int,
                c.hour as int,
                c.minute as int,
                c.second as int,
                c.millisecond as int,
            ) == Some(t)
        }),
{
    let m = t.millis() + off * 1000;
    let c = reading_at(t, off);
    assert(calendar_millis(m) && utc_reading(m).reads(
        c.year as int,
        c.month as int,
        c.day as int,
        c.hour as int,
        c.minute as int,
        c.second as int,
        c.millisecond as int,
    ));
    let u = choose|u: int|
        #[trigger] calendar_millis(u) && utc_reading(u).reads(
            c.year as int,
            c.month as int,
            c.day as int,
            c.hour as int,
            c.minute as int,
            c.second as int,
            c.millisecond as int,
        );
    assert(c.same_reading(utc_reading(u)));
    assert(u == m);
    timestamp_at_millis(t, t.millis());
}

/// The validity flags of a CP24Time2a, CP32Time2a or CP56Time2a time tag.
#[derive(Debug, Clone, Copy, PartialEq, Eq, Default, Hash, Structural)]
pub struct TimeTagFlags {
    /// IV: the time is invalid — the station's clock was not synchronized, or
    /// could not be read. The reading may still be carried, but must not be
    /// taken as the time of the event.
    pub invalid: bool,
    /// SB: the time was substituted by an intermediate station, not tagged by
    /// the station that acquired the value.
    pub substituted: bool,
}

impl TimeTagFlags {
    /// The IV and SB bits of a minutes octet.
    pub open spec fn spec_minutes_bits(self) -> u8 {
        ((if self.invalid { 128int } else { 0 }) + (if self.substituted { 64int } else { 0 })) as u8
    }

    /// The flags a minutes octet carries.
    pub open spec fn spec_from_minutes_octet(b: u8) -> TimeTagFlags {
        TimeTagFlags { invalid: b >= 128, substituted: b % 128 >= 64 }
    }

    /// A time that is neither invalid nor substituted.
    #[allow(non_snake_case)]
    pub fn GOOD() -> (f: TimeTagFlags)
        ensures
            !f.invalid && !f.substituted,
    {
        TimeTagFlags { invalid: false, substituted: false }
    }

    /// True when the time may be taken as the time of the event.
    pub fn is_valid(self) -> (b: bool)
        ensures
            b == !self.invalid,
    {
        !self.invalid
    }

    /// Decode from the minutes octet, where IV is bit 7 and SB bit 6.
    pub fn from_minutes_octet(b: u8) -> (f: Self)
        ensures
            f == Self::spec_from_minutes_octet(b),
    {
        TimeTagFlags { invalid: b >= 128, substituted: b % 128 >= 64 }
    }

    /// The IV and SB bits of the minutes octet.
    pub fn minutes_bits(self) -> (b: u8)
        ensures
            b == self.spec_minutes_bits(),
    {
        let iv: u8 = if self.invalid { 128 } else { 0 };
        let sb: u8 = if self.substituted { 64 } else { 0 };
        iv + sb
    }
}

/// The octet `b` with the IV and SB bits of `f` set as well.
pub open spec fn with_flags(b: u8, f: TimeTagFlags) -> u8 {
    let iv = if f.invalid || b >= 128 { 128int } else { 0 };
    let sb = if f.substituted || b % 128 >= 64 { 64int } else { 0 };
    (iv + sb + b % 64) as u8
}

/// Set the IV and SB bits of `f` in the octet `b`, as `b | f.minutes_bits()`.
fn set_flags(b: u8, f: TimeTagFlags) -> (r: u8)
    ensures
        r == with_flags(b, f),
{
    let iv: u8 = if f.invalid || b >= 128 { 128 } else { 0 };
    let sb: u8 = if f.substituted || b % 128 >= 64 { 64 } else { 0 };
    iv + sb + b % 64
}

/// The two octets of a CP16Time2a tag: the count, low octet first.
pub open spec fn cp16_octets(msec: u16) -> Seq<u8> {
    seq![(msec % 256) as u8, (msec / 256) as u8]
}

/// Encode a millisecond count as a 2-octet CP16Time2a tag.
pub fn cp16time2a(msec: u16) -> (b: [u8; CP16TIME2A_SIZE])
    ensures
        b@ == cp16_octets(msec),
{
    let b = [(msec % 256) as u8, (msec / 256) as u8];
    assert(b@ =~= cp16_octets(msec));
    b
}

/// Decode a 2-octet CP16Time2a tag into a millisecond count; 0 when the
/// buffer is short.
pub fn parse_cp16time2a(b: &[u8]) -> (msec: u16)
    ensures
        b@.len() < 2 ==> msec == 0,
        b@.len() >= 2 ==> msec == b@[0] + b@[1] * 256,
{
    if b.len() < CP16TIME2A_SIZE {
        return 0;
    }
    b[0] as u16 + b[1] as u16 * 256
}

/// CP16Time2a decodes what it encodes.
pub proof fn cp16_round_trip(msec: u16)
    ensures
        cp16_octets(msec)[0] + cp16_octets(msec)[1] * 256 == msec,
{
}


/// The seven octets of a CP56Time2a tag for a reading, with SU as given.
pub open spec fn cp56_octets(c: CalendarTime, su: bool) -> Seq<u8> {
    let msec = c.millisecond + c.second * 1000;
    seq![
        (msec % 256) as u8,
        (msec / 256) as u8,
        c.minute as u8,
        (c.hour + (if su { 128int } else { 0 })) as u8,
        (c.weekday * 32 + c.day) as u8,
        c.month as u8,
        ((c.year - 2000) % 100) as u8,
    ]
}

/// The tag that carries no time: all octets zero but IV.
pub open spec fn cp56_no_time() -> Seq<u8> {
    seq![0u8, 0u8, 128u8, 0u8, 0u8, 0u8, 0u8]
}

/// The milliseconds-in-the-minute count of the first two octets of a tag.
pub open spec fn tag_msec(b: Seq<u8>) -> int {
    b[0] + b[1] * 256
}

/// The year a CP56Time2a tag reads, in this century.
pub open spec fn cp56_year(b: Seq<u8>) -> int {
    2000 + b[6] % 128
}

/// The instant a CP56Time2a tag reads in a zone `off` seconds east of UTC:
/// `None` when the year lies beyond 2099, or the fields name no reading, or
/// the instant is outside the range of a timestamp. IV, SB and SU are not
/// consulted.
pub open spec fn decode_cp56_at(b: Seq<u8>, off: int) -> Option<Timestamp> {
    if cp56_year(b) > 2099 {
        None
    } else {
        instant_at(
            off,
            cp56_year(b),
            (b[5] % 16) as int,
            (b[4] % 32) as int,
            (b[3] % 32) as int,
            (b[2] % 64) as int,
            tag_msec(b) / 1000,
            tag_msec(b) % 1000,
        )
    }
}

/// The CP56Time2a layout of IEC 60870-5-4, subclause 6.8, octet by octet:
/// milliseconds of the minute in the first two octets, low octet first; the
/// minute in bits 0 to 5 of the third, with IV at 0x80 and SB at 0x40; the
/// hour in bits 0 to 4 of the fourth, with SU at 0x80; the day of the month
/// in bits 0 to 4 of the fifth and the day of the week in bits 5 to 7; the
/// month in bits 0 to 3 of the sixth; the year of the century in bits 0 to 6
/// of the seventh. A reading is written so, and a tag is read by the same
/// bits whatever the others hold.
pub proof fn cp56_octet_layout(c: CalendarTime, su: bool, b: Seq<u8>, off: int)
    requires
        c.well_formed(),
        2000 <= c.year <= 2099,
        b.len() == 7,
    ensures
        cp56_octets(c, su).len() == 7,
        cp56_octets(c, su)[0] + cp56_octets(c, su)[1] * 256 == c.second * 1000 + c.millisecond,
        cp56_octets(c, su)[2] == c.minute,
        cp56_octets(c, su)[3] & 0x1f == c.hour,
        cp56_octets(c, su)[3] & 0x60 == 0,
        (cp56_octets(c, su)[3] & 0x80 == 0x80) == su,
        cp56_octets(c, su)[4] & 0x1f == c.day,
        cp56_octets(c, su)[4] >> 5 == c.weekday,
        cp56_octets(c, su)[5] == c.month,
        cp56_octets(c, su)[6] == c.year - 2000,
        decode_cp56_at(b, off) == (if 2000 + (b[6] & 0x7f) > 2099 {
            None
        } else {
            instant_at(
                off,
                2000 + (b[6] & 0x7f),
                (b[5] & 0x0f) as int,
                (b[4] & 0x1f) as int,
                (b[3] & 0x1f) as int,
                (b[2] & 0x3f) as int,
                (b[0] + b[1] * 256) / 1000,
                (b[0] + b[1] * 256) % 1000,
            )
        }),
{
    let o = cp56_octets(c, su);
    let h = c.hour as u8;
    let d = c.day as u8;
    let w = c.weekday as u8;
    let o3 = o[3];
    let o4 = o[4];
    assert(o3 == (h + (if su { 128u8 } else { 0u8 })) as u8);
    assert(o4 == (w * 32 + d) as u8);
    assert(o3 & 0x1f == h && o3 & 0x60 == 0 && ((o3 & 0x80 == 0x80) == su) && o4 & 0x1f == d && o4 >> 5
        == w) by (bit_vector)
        requires
            h < 24,
            d < 32,
            1 <= w < 8,
            o3 == (h + (if su { 128u8 } else { 0u8 })) as u8,
            o4 == (w * 32 + d) as u8,
    ;
    crate::asdu::info::octet_bit_facts(b[2]);
    crate::asdu::info::octet_bit_facts(b[3]);
    crate::asdu::info::octet_bit_facts(b[4]);
    crate::asdu::info::octet_bit_facts(b[5]);
    crate::asdu::info::octet_bit_facts(b[6]);
}

/// The validity flags of a time tag sit in its minutes octet, IV at 0x80 and
/// SB at 0x40 (IEC 60870-5-4, subclause 6.8): they are written there and
/// nowhere else, setting them keeps the minute's six bits, and every octet
/// is read by those two bits.
pub proof fn time_tag_flag_bits(f: TimeTagFlags, x: u8)
    ensures
        f.spec_minutes_bits() & 0x3f == 0,
        (f.spec_minutes_bits() & 0x80 == 0x80) == f.invalid,
        (f.spec_minutes_bits() & 0x40 == 0x40) == f.substituted,
        TimeTagFlags::spec_from_minutes_octet(x).invalid == (x & 0x80 == 0x80),
        TimeTagFlags::spec_from_minutes_octet(x).substituted == (x & 0x40 == 0x40),
        with_flags(x, f) & 0x3f == x & 0x3f,
        (with_flags(x, f) & 0x80 == 0x80) == (f.invalid || x & 0x80 == 0x80),
        (with_flags(x, f) & 0x40 == 0x40) == (f.substituted || x & 0x40 == 0x40),
{
    let i = f.invalid;
    let s = f.substituted;
    let m = f.spec_minutes_bits();
    let w = with_flags(x, f);
    let xi = x >= 128;
    let xs = x % 128 >= 64;
    assert(m & 0x3f == 0 && ((m & 0x80 == 0x80) == i) && ((m & 0x40 == 0x40) == s) && w & 0x3f == x & 0x3f && ((w
        & 0x80 == 0x80) == (i || xi)) && ((w & 0x40 == 0x40) == (s || xs))) by (bit_vector)
        requires
            m == ((if i { 128u8 } else { 0u8 }) + (if s { 64u8 } else { 0u8 })) as u8,
            w == ((if i || xi { 128u8 } else { 0u8 }) + (if s || xs { 64u8 } else { 0u8 }) + x % 64) as u8,
    ;
    crate::asdu::info::octet_bit_facts(x);
}

/// The instant a CP56Time2a tag reads in the zone of this name: `None` when
/// the year lies beyond 2099, or chrono-tz finds no instant showing the
/// reading, or a timestamp cannot hold it; otherwise the earliest such
/// instant, shifted as [`named_resolve`] says to agree with the SU flag. IV
/// and SB are not consulted.
pub open spec fn named_decode_cp56(name: Seq<char>, b: Seq<u8>) -> Option<Timestamp> {
    if cp56_year(b) > 2099 {
        None
    } else {
        match held_instant(
            named_earliest_instant(
                name,
                cp56_year(b) as i32,
                (b[5] % 16) as u32,
                (b[4] % 32) as u32,
                (b[3] % 32) as u32,
                (b[2] % 64) as u32,
                (tag_msec(b) / 1000) as u32,
                ((tag_msec(b) % 1000) * 1_000_000) as u32,
            ),
        ) {
            Some(t) => Some(timestamp_at(named_resolve(name, t.millis(), b[3] >= 128))),
            None => None,
        }
    }
}

/// What holds of any instant `v` a CP56Time2a tag decodes to in the host's
/// zone: shifted back by none, or by one of the summer time shifts, it shows
/// the tag's reading at some offset within a day.
pub open spec fn local_cp56_read(v: int, b: Seq<u8>) -> bool {
    exists|k: int|
        (k == 0 || summer_shift(k)) && #[trigger] shows_near(
            v - k * 60000,
            cp56_year(b),
            (b[5] % 16) as int,
            (b[4] % 32) as int,
            (b[3] % 32) as int,
            (b[2] % 64) as int,
            tag_msec(b) / 1000,
            tag_msec(b) % 1000,
        )
}

/// What a CP56Time2a tag `b` decodes to in a named zone and in the host's
/// zone: in a named zone exactly [`named_decode_cp56`], in the host's zone,
/// if anything, an instant [`local_cp56_read`] allows.
pub open spec fn cp56_zone_read(zone: TimeZone, b: Seq<u8>, t: Option<Timestamp>) -> bool {
    match zone {
        TimeZone::Named(z) => t == named_decode_cp56(z.spec_name(), b),
        TimeZone::Local => t matches Some(v) ==> local_cp56_read(v.millis(), b),
        _ => true,
    }
}

/// The fields of a CP56Time2a tag name a reading in this century.
pub open spec fn cp56_reading_valid(b: Seq<u8>) -> bool {
    cp56_year(b) <= 2099 && valid_reading(
        cp56_year(b),
        (b[5] % 16) as int,
        (b[4] % 32) as int,
        (b[3] % 32) as int,
        (b[2] % 64) as int,
        tag_msec(b) / 1000,
        tag_msec(b) % 1000,
    )
}

/// Build the octets of a CP56Time2a tag for a reading.
fn cp56_from(c: CalendarTime, su: bool) -> (r: [u8; CP56TIME2A_SIZE])
    requires
        c.well_formed(),
    ensures
        r@ == cp56_octets(c, su),
{
    let msec: u32 = c.millisecond + c.second * 1000;
    let yy: u64 = if c.year >= 2000 {
        (c.year as i64 - 2000) as u64 % 100
    } else {
        let n: u64 = (2000 - c.year as i64) as u64 % 100;
        if n == 0 {
            0
        } else {
            100 - n
        }
    };
    proof {
        let y = c.year - 2000;
        if c.year < 2000 {
            let n = (-y) % 100;
            assert((-y) == ((-y) / 100) * 100 + n);
            if n == 0 {
                assert(y == -((-y) / 100) * 100);
                assert(y % 100 == 0) by (nonlinear_arith)
                    requires
                        y == -((-y) / 100) * 100,
                ;
            } else {
                assert(y == (-((-y) / 100) - 1) * 100 + (100 - n));
                assert(y % 100 == 100 - n) by (nonlinear_arith)
                    requires
                        y == (-((-y) / 100) - 1) * 100 + (100 - n),
                        0 < n < 100,
                ;
            }
        }
    }
    let hour: u32 = if su {
        c.hour + 128
    } else {
        c.hour
    };
    let r = [
        (msec % 256) as u8,
        (msec / 256) as u8,
        c.minute as u8,
        hour as u8,
        (c.weekday * 32 + c.day) as u8,
        c.month as u8,
        yy as u8,
    ];
    assert(r@ =~= cp56_octets(c, su));
    r
}

/// The octets of a reading in this century decode to its fields.
proof fn cp56_octets_decode(c: CalendarTime, su: bool)
    requires
        c.well_formed(),
        2000 <= c.year <= 2099,
    ensures
        ({
            let b = cp56_octets(c, su);
            &&& tag_msec(b) / 1000 == c.second
            &&& tag_msec(b) % 1000 == c.millisecond
            &&& b[2] % 64 == c.minute
            &&& b[3] % 32 == c.hour
            &&& b[4] % 32 == c.day
            &&& b[5] % 16 == c.month
            &&& cp56_year(b) == c.year
            &&& (b[3] >= 128) == su
            &&& b[2] < 64
        }),
{
    let msec = c.millisecond + c.second * 1000;
    assert(msec % 256 + (msec / 256) * 256 == msec);
    assert((c.weekday * 32 + c.day) % 32 == c.day as int) by (nonlinear_arith)
        requires
            0 <= c.day < 32,
            0 <= c.weekday <= 7,
    ;
}

/// In a named zone, the CP56Time2a tag of an instant `t` — its reading there,
/// in 2000..=2099, with its summer time flag — decodes back to `t` when `t`
/// is the earliest instant showing that reading, as it is for every reading
/// but those of the hour repeated when the clocks go back.
pub proof fn named_cp56_round_trip(name: Seq<char>, t: Timestamp)
    requires
        timestamp_millis(t.millis()),
        named_calendar(name, t.millis() as i64).well_formed(),
        2000 <= named_calendar(name, t.millis() as i64).year <= 2099,
        ({
            let c = named_calendar(name, t.millis() as i64);
            named_earliest_instant(name, c.year, c.month, c.day, c.hour, c.minute, c.second, (c.millisecond * 1_000_000) as u32)
                == Some(t.millis() as i64)
        }),
    ensures
        named_decode_cp56(
            name,
            cp56_octets(named_calendar(name, t.millis() as i64), named_summer_time(name, t.millis())),
        ) == Some(t),
{
    let c = named_calendar(name, t.millis() as i64);
    let su = named_summer_time(name, t.millis());
    let b = cp56_octets(c, su);
    cp56_octets_decode(c, su);
    timestamp_at_millis(t, t.millis());
    assert(cp56_year(b) as i32 == c.year);
    assert(((b[5] % 16) as u32) == c.month);
    assert(((b[4] % 32) as u32) == c.day);
    assert(((b[3] % 32) as u32) == c.hour);
    assert(((b[2] % 64) as u32) == c.minute);
    assert(((tag_msec(b) / 1000) as u32) == c.second);
    assert((((tag_msec(b) % 1000) * 1_000_000) as u32) == (c.millisecond * 1_000_000) as u32);
}

/// Encode an instant as a 7-octet CP56Time2a tag in the given zone.
///
/// A `None` instant encodes as all-zero octets with the IV (invalid) bit set,
/// which is how the standard signals "no valid time". In UTC and at a fixed
/// offset the tag decodes, by [`parse_cp56time2a`], to the same instant
/// whenever its reading falls in 2000..=2099.
pub fn cp56time2a(t: Option<Timestamp>, zone: TimeZone) -> (r: [u8; CP56TIME2A_SIZE])
    ensures
        t is None ==> r@ == cp56_no_time(),
        t matches Some(ts) ==> exists|c: CalendarTime, su: bool|
            c.well_formed() && reading_in(zone, ts, c) && summer_flag(zone, ts, su) && r@ == #[trigger] cp56_octets(c, su),
        t matches Some(ts) ==> match zone_offset(zone) {
            Some(off) => r@ == cp56_octets(reading_at(ts, off), false) && (2000 <= reading_at(ts, off).year
                <= 2099 ==> decode_cp56_at(r@, off) == Some(ts)),
            None => true,
        },
{
    match t {
        None => {
            let r = [0u8, 0, 0x80, 0, 0, 0, 0];
            assert(r@ =~= cp56_no_time());
            r
        },
        Some(ts) => {
            let c = zone.parts(ts);
            let su = zone.is_dst(ts);
            let r = cp56_from(c, su);
            proof {
                use_type_invariant(&ts);
                if let Some(off) = zone_offset(zone) {
                    assert(c == reading_at(ts, off));
                    assert(!su);
                    if 2000 <= c.year <= 2099 {
                        cp56_octets_decode(c, su);
                        instant_at_reading(ts, off);
                    }
                }
            }
            r
        },
    }
}

/// Encode an instant as a CP56Time2a tag carrying the given validity flags.
///
/// A `None` instant is encoded as by [`cp56time2a`], with IV set whatever
/// `flags` says, since there is no time to be valid.
pub fn cp56time2a_tag(t: Option<Timestamp>, flags: TimeTagFlags, zone: TimeZone) -> (r: [u8; CP56TIME2A_SIZE])
    ensures
        t is None ==> r@ == cp56_no_time().update(2, with_flags(128, flags)),
        t matches Some(ts) ==> exists|c: CalendarTime, su: bool|
            c.well_formed() && reading_in(zone, ts, c) && summer_flag(zone, ts, su) && r@ == #[trigger] cp56_octets(
                c,
                su,
            ).update(2, with_flags(c.minute as u8, flags)),
        t matches Some(ts) ==> match zone_offset(zone) {
            Some(off) => r@ == cp56_octets(reading_at(ts, off), false).update(
                2,
                with_flags(reading_at(ts, off).minute as u8, flags),
            ) && (2000 <= reading_at(ts, off).year <= 2099 ==> decode_cp56_at(r@, off) == Some(ts)
                && TimeTagFlags::spec_from_minutes_octet(r@[2]) == flags),
            None => true,
        },
{
    let mut b = cp56time2a(t, zone);
    let m = set_flags(b[2], flags);
    b[2] = m;
    b
}

/// The reading of a tag of at least seven octets, in the given zone.
fn decode_cp56(b: &[u8], zone: TimeZone) -> (r: Option<Timestamp>)
    requires
        b@.len() >= CP56TIME2A_SIZE,
    ensures
        r is Some ==> cp56_reading_valid(b@),
        zone_offset(zone) matches Some(off) ==> r == decode_cp56_at(b@, off),
        zone matches TimeZone::Named(z) ==> r == named_decode_cp56(z.spec_name(), b@),
        zone matches TimeZone::Local ==> (r matches Some(v) ==> local_cp56_read(v.millis(), b@)),
{
    let x: u32 = b[0] as u32 + b[1] as u32 * 256;
    let msec = x % 1000;
    let sec = x / 1000;
    let min = (b[2] % 64) as u32;
    let hour = (b[3] % 32) as u32;
    let day = (b[4] % 32) as u32;
    let month = (b[5] % 16) as u32;
    let year: i32 = 2000 + (b[6] % 128) as i32;
    // The year field is 7 bits, so it reaches 2127; the standard defines it as
    // 0..99 within the century. A value beyond that is a fault in the sender,
    // not a time.
    if year > 2099 {
        return None;
    }
    match zone.instant_from(year, month, day, hour, min, sec, msec) {
        Some(t) => {
            let r = zone.resolve_summer_time(t, b[3] >= 128);
            proof {
                use_type_invariant(&r);
                timestamp_at_millis(r, r.millis());
                if let TimeZone::Local = zone {
                    let k = if r == t {
                        0int
                    } else {
                        choose|k: int| summer_shift(k) && r.millis() == t.millis() + k * 60000
                    };
                    assert(r.millis() - k * 60000 == t.millis());
                    assert(shows_near(
                        r.millis() - k * 60000,
                        cp56_year(b@),
                        (b@[5] % 16) as int,
                        (b@[4] % 32) as int,
                        (b@[3] % 32) as int,
                        (b@[2] % 64) as int,
                        tag_msec(b@) / 1000,
                        tag_msec(b@) % 1000,
                    ));
                }
            }
            Some(r)
        },
        None => None,
    }
}

/// Decode a 7-octet CP56Time2a tag interpreted in the given zone.
///
/// Returns `None` when the buffer is short, the IV bit is set, or the calendar
/// fields do not name a real instant: only a time that can be trusted.
pub fn parse_cp56time2a(b: &[u8], zone: TimeZone) -> (r: Option<Timestamp>)
    ensures
        b@.len() < CP56TIME2A_SIZE ==> r is None,
        b@.len() >= CP56TIME2A_SIZE && b@[2] >= 128 ==> r is None,
        b@.len() >= CP56TIME2A_SIZE && b@[2] < 128 ==> match zone_offset(zone) {
            Some(off) => r == decode_cp56_at(b@, off),
            None => r is Some ==> cp56_reading_valid(b@),
        },
        b@.len() >= CP56TIME2A_SIZE && b@[2] < 128 ==> (zone matches TimeZone::Named(z) ==> r == named_decode_cp56(
            z.spec_name(),
            b@,
        )),
        b@.len() >= CP56TIME2A_SIZE && b@[2] < 128 ==> (zone matches TimeZone::Local ==> (r matches Some(v)
            ==> local_cp56_read(v.millis(), b@))),
{
    if b.len() < CP56TIME2A_SIZE || b[2] >= 128 {
        return None;
    }
    decode_cp56(b, zone)
}

/// Decode a CP56Time2a tag into its reading and its validity flags.
///
/// The reading is returned even when IV is set, as long as the calendar fields
/// name a real instant; `None` means the octets hold no time at all.
pub fn parse_cp56time2a_tag(b: &[u8], zone: TimeZone) -> (r: (Option<Timestamp>, TimeTagFlags))
    ensures
        b@.len() < CP56TIME2A_SIZE ==> r == (None::<Timestamp>, TimeTagFlags { invalid: false, substituted: false }),
        b@.len() >= CP56TIME2A_SIZE ==> r.1 == TimeTagFlags::spec_from_minutes_octet(b@[2]) && match zone_offset(zone) {
            Some(off) => r.0 == decode_cp56_at(b@, off),
            None => r.0 is Some ==> cp56_reading_valid(b@),
        },
        b@.len() >= CP56TIME2A_SIZE ==> (zone matches TimeZone::Named(z) ==> r.0 == named_decode_cp56(
            z.spec_name(),
            b@,
        )),
        b@.len() >= CP56TIME2A_SIZE ==> (zone matches TimeZone::Local ==> (r.0 matches Some(v) ==> local_cp56_read(
            v.millis(),
            b@,
        ))),
{
    if b.len() < CP56TIME2A_SIZE {
        return (None, TimeTagFlags { invalid: false, substituted: false });
    }
    (decode_cp56(b, zone), TimeTagFlags::from_minutes_octet(b[2]))
}

/// The three octets of a CP24Time2a tag for a reading.
pub open spec fn cp24_octets(c: CalendarTime) -> Seq<u8> {
    let msec = c.millisecond + c.second * 1000;
    seq![(msec % 256) as u8, (msec / 256) as u8, c.minute as u8]
}

/// Encode an instant as a 3-octet CP24Time2a tag (minutes and milliseconds only).
pub fn cp24time2a(t: Option<Timestamp>, zone: TimeZone) -> (r: [u8; CP24TIME2A_SIZE])
    ensures
        t is None ==> r@ == seq![0u8, 0u8, 128u8],
        t matches Some(ts) ==> exists|c: CalendarTime| c.well_formed() && reading_in(zone, ts, c) && r@ == #[trigger] cp24_octets(c),
        t matches Some(ts) ==> match zone_offset(zone) {
            Some(off) => r@ == cp24_octets(reading_at(ts, off)),
            None => true,
        },
{
    match t {
        None => {
            let r = [0u8, 0, 0x80];
            assert(r@ =~= seq![0u8, 0u8, 128u8]);
            r
        },
        Some(ts) => {
            let c = zone.parts(ts);
            let msec: u32 = c.millisecond + c.second * 1000;
            let r = [(msec % 256) as u8, (msec / 256) as u8, c.minute as u8];
            assert(r@ =~= cp24_octets(c));
            r
        },
    }
}

/// Encode an instant as a CP24Time2a tag carrying the given validity flags.
pub fn cp24time2a_tag(t: Option<Timestamp>, flags: TimeTagFlags, zone: TimeZone) -> (r: [u8; CP24TIME2A_SIZE])
    ensures
        t is None ==> r@ == seq![0u8, 0u8, with_flags(128, flags)],
        t matches Some(ts) ==> exists|c: CalendarTime|
            c.well_formed() && reading_in(zone, ts, c) && r@ == #[trigger] cp24_octets(c).update(
                2,
                with_flags(c.minute as u8, flags),
            ),
        t matches Some(ts) ==> match zone_offset(zone) {
            Some(off) => r@ == cp24_octets(reading_at(ts, off)).update(
                2,
                with_flags(reading_at(ts, off).minute as u8, flags),
            ),
            None => true,
        },
        TimeTagFlags::spec_from_minutes_octet(r@[2]) == (TimeTagFlags {
            invalid: flags.invalid || t is None,
            substituted: flags.substituted,
        }),
{
    let b0 = cp24time2a(t, zone);
    let m = set_flags(b0[2], flags);
    let mut b = b0;
    b[2] = m;
    assert(t is None ==> b@ =~= seq![0u8, 0u8, with_flags(128, flags)]);
    proof {
        if t is Some {
            let c = choose|c: CalendarTime| c.well_formed() && b0@ == #[trigger] cp24_octets(c);
            assert(b@ == cp24_octets(c).update(2, with_flags(c.minute as u8, flags)));
        }
    }
    b
}

/// The instant a CP24Time2a tag reads in a zone `off` seconds east of UTC,
/// completed with the date and hour of `now`: a minute more than five minutes
/// ahead of `now`'s belongs to the previous hour.
pub open spec fn decode_cp24_at(b: Seq<u8>, off: int, now: CalendarTime) -> Option<Timestamp> {
    let min = b[2] % 64;
    match instant_at(
        off,
        now.year as int,
        now.month as int,
        now.day as int,
        now.hour as int,
        min as int,
        tag_msec(b) / 1000,
        tag_msec(b) % 1000,
    ) {
        Some(v) => if min > now.minute + 5 {
            if timestamp_millis(v.millis() - MILLIS_PER_HOUR) {
                Some(timestamp_at(v.millis() - MILLIS_PER_HOUR))
            } else {
                None
            }
        } else {
            Some(v)
        },
        None => None,
    }
}

/// The instant a CP24Time2a tag reads in the zone of this name, given its
/// current reading `now`: as [`decode_cp24_at`], with the instant showing the
/// reading found by chrono-tz.
pub open spec fn named_decode_cp24(name: Seq<char>, b: Seq<u8>, now: CalendarTime) -> Option<Timestamp> {
    let min = b[2] % 64;
    match held_instant(
        named_earliest_instant(
            name,
            now.year,
            now.month,
            now.day,
            now.hour,
            min as u32,
            (tag_msec(b) / 1000) as u32,
            ((tag_msec(b) % 1000) * 1_000_000) as u32,
        ),
    ) {
        Some(v) => if min > now.minute + 5 {
            if timestamp_millis(v.millis() - MILLIS_PER_HOUR) {
                Some(timestamp_at(v.millis() - MILLIS_PER_HOUR))
            } else {
                None
            }
        } else {
            Some(v)
        },
        None => None,
    }
}

/// What holds of any instant `v` a CP24Time2a tag decodes to in the host's
/// zone given its current reading `now`: it, or the instant an hour after it,
/// shows the tag's minute and milliseconds in `now`'s date and hour at some
/// offset within a day.
pub open spec fn local_cp24_read(v: int, b: Seq<u8>, now: CalendarTime) -> bool {
    exists|j: int|
        (j == 0 || j == 1) && #[trigger] shows_near(
            v + j * MILLIS_PER_HOUR,
            now.year as int,
            now.month as int,
            now.day as int,
            now.hour as int,
            (b[2] % 64) as int,
            tag_msec(b) / 1000,
            tag_msec(b) % 1000,
        )
}

/// Decode the reading of a CP24Time2a tag of at least three octets, given
/// the current reading `now` of the zone.
///
/// CP24Time2a carries only minutes and milliseconds; the date and hour come
/// from `now`. A tag whose minute is more than five minutes *ahead* of the
/// current minute is taken to belong to the previous hour, which keeps events
/// that cross an hour boundary in order. IV and SB are not consulted.
pub fn decode_cp24time2a(b: &[u8], zone: TimeZone, now: CalendarTime) -> (r: Option<Timestamp>)
    requires
        b@.len() >= CP24TIME2A_SIZE,
    ensures
        zone_offset(zone) matches Some(off) ==> r == decode_cp24_at(b@, off, now),
        zone matches TimeZone::Named(z) ==> r == named_decode_cp24(z.spec_name(), b@, now),
        zone matches TimeZone::Local ==> (r matches Some(v) ==> local_cp24_read(v.millis(), b@, now)),
        r is Some ==> valid_reading(
            now.year as int,
            now.month as int,
            now.day as int,
            now.hour as int,
            (b@[2] % 64) as int,
            tag_msec(b@) / 1000,
            tag_msec(b@) % 1000,
        ),
{
    let x: u32 = b[0] as u32 + b[1] as u32 * 256;
    let msec = x % 1000;
    let sec = x / 1000;
    let min = (b[2] % 64) as u32;
    let val = match zone.instant_from(now.year, now.month, now.day, now.hour, min, sec, msec) {
        Some(v) => v,
        None => {
            return None;
        },
    };
    if min as u64 > now.minute as u64 + 5 {
        let earlier = Timestamp::from_unix_millis(val.unix_millis() - MILLIS_PER_HOUR);
        proof {
            if let Some(e) = earlier {
                timestamp_at_millis(e, val.millis() - MILLIS_PER_HOUR);
                if let TimeZone::Local = zone {
                    assert(shows_near(
                        e.millis() + 1 * MILLIS_PER_HOUR,
                        now.year as int,
                        now.month as int,
                        now.day as int,
                        now.hour as int,
                        (b@[2] % 64) as int,
                        tag_msec(b@) / 1000,
                        tag_msec(b@) % 1000,
                    ));
                }
            }
        }
        earlier
    } else {
        proof {
            if let TimeZone::Local = zone {
                assert(shows_near(
                    val.millis() + 0 * MILLIS_PER_HOUR,
                    now.year as int,
                    now.month as int,
                    now.day as int,
                    now.hour as int,
                    (b@[2] % 64) as int,
                    tag_msec(b@) / 1000,
                    tag_msec(b@) % 1000,
                ));
            }
        }
        Some(val)
    }
}

/// `r` is what a CP24Time2a tag `b` decodes to in `zone` when the host clock
/// reads `ms`: nothing when a timestamp cannot hold that instant, otherwise,
/// in UTC, at a fixed offset and in a named zone, the tag's reading with the
/// date and hour of that instant there, and in the host's zone an instant
/// that [`local_cp24_read`] allows for some reading of that instant.
pub open spec fn cp24_clock_read(zone: TimeZone, b: Seq<u8>, ms: int, r: Option<Timestamp>) -> bool {
    &&& (!timestamp_millis(ms) ==> r is None)
    &&& (timestamp_millis(ms) ==> match zone_offset(zone) {
        Some(off) => r == decode_cp24_at(b, off, reading_at(timestamp_at(ms), off)),
        None => true,
    })
    &&& (timestamp_millis(ms) ==> match zone {
        TimeZone::Named(z) => r == named_decode_cp24(z.spec_name(), b, named_calendar(z.spec_name(), ms as i64)),
        TimeZone::Local => exists|c: CalendarTime|
            #[trigger] shifted_reading(c, ms) && c.well_formed() && (r matches Some(v) ==> local_cp24_read(
                v.millis(),
                b,
                c,
            )),
        _ => true,
    })
}

/// The reading of a tag of at least three octets with the date and hour of
/// the host clock in `zone`; IV and SB are not consulted.
fn decode_cp24_now(b: &[u8], zone: TimeZone) -> (r: Option<Timestamp>)
    requires
        b@.len() >= CP24TIME2A_SIZE,
    ensures
        exists|ms: int| #[trigger] cp24_clock_read(zone, b@, ms, r),
        r is Some ==> b@[2] % 64 < 60 && tag_msec(b@) < 60000,
{
    let now = zone.now_parts();
    let ghost ms = choose|ms: int| #[trigger] clock_parts(zone, ms, now);
    match now {
        Some(now) => {
            let r = decode_cp24time2a(b, zone, now);
            assert(cp24_clock_read(zone, b@, ms, r));
            r
        },
        None => {
            assert(cp24_clock_read(zone, b@, ms, None));
            None
        },
    }
}

/// Decode a 3-octet CP24Time2a tag interpreted in the given zone, with the
/// date and hour of the host clock.
///
/// Returns `None` for a short or invalid tag, and when the host clock reads
/// outside the range of a timestamp; see [`decode_cp24time2a`] for the
/// reading given the current time.
pub fn parse_cp24time2a(b: &[u8], zone: TimeZone) -> (r: Option<Timestamp>)
    ensures
        b@.len() < CP24TIME2A_SIZE ==> r is None,
        b@.len() >= CP24TIME2A_SIZE && b@[2] >= 128 ==> r is None,
        b@.len() >= CP24TIME2A_SIZE && b@[2] < 128 ==> exists|ms: int| #[trigger] cp24_clock_read(zone, b@, ms, r),
        r is Some ==> b@[2] % 64 < 60 && tag_msec(b@) < 60000,
{
    if b.len() < CP24TIME2A_SIZE || b[2] >= 128 {
        return None;
    }
    decode_cp24_now(b, zone)
}

/// Decode a CP24Time2a tag into its reading, with the date and hour of the
/// host clock, and its validity flags.
pub fn parse_cp24time2a_tag(b: &[u8], zone: TimeZone) -> (r: (Option<Timestamp>, TimeTagFlags))
    ensures
        b@.len() < CP24TIME2A_SIZE ==> r == (None::<Timestamp>, TimeTagFlags { invalid: false, substituted: false }),
        b@.len() >= CP24TIME2A_SIZE ==> r.1 == TimeTagFlags::spec_from_minutes_octet(b@[2]),
        b@.len() >= CP24TIME2A_SIZE ==> exists|ms: int| #[trigger] cp24_clock_read(zone, b@, ms, r.0),
{
    if b.len() < CP24TIME2A_SIZE {
        return (None, TimeTagFlags { invalid: false, substituted: false });
    }
    let t = decode_cp24_now(b, zone);
    proof {
        let ms = choose|ms: int| #[trigger] cp24_clock_read(zone, b@, ms, t);
        assert(cp24_clock_read(zone, b@, ms, (t, TimeTagFlags::spec_from_minutes_octet(b@[2])).0));
    }
    (t, TimeTagFlags::from_minutes_octet(b[2]))
}

} // verus!
