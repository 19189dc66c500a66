use chrono::{TimeZone as _, Timelike, Utc};
use chrono_tz::{Asia::Kolkata, Australia::Sydney, Europe::Berlin};
use rs_iec60870_5::asdu::time::{
    cp16time2a, cp24time2a, cp24time2a_tag, cp56time2a, cp56time2a_tag, parse_cp16time2a, parse_cp24time2a,
    parse_cp24time2a_tag, parse_cp56time2a, parse_cp56time2a_tag,
};
use rs_iec60870_5::asdu::params::{millis_since_epoch, summer_time_by_offsets, NamedZone};
use rs_iec60870_5::asdu::{TimeTagFlags, TimeZone, Timestamp, UtcOffset};

fn utc(y: i32, mo: u32, d: u32, h: u32, mi: u32, s: u32, ms: u32) -> Timestamp {
    let dt = Utc.with_ymd_and_hms(y, mo, d, h, mi, s).unwrap() + chrono::Duration::milliseconds(ms as i64);
    Timestamp::from_unix_millis(dt.timestamp_millis()).unwrap()
}

fn now() -> Timestamp {
    Timestamp::from_unix_millis(Utc::now().timestamp_millis()).unwrap()
}

fn named(tz: chrono_tz::Tz) -> TimeZone {
    TimeZone::Named(NamedZone::new(tz.name()).unwrap())
}

#[test]
fn cp56_encodes_the_documented_octet_layout() {
    // 2019-06-05 (Wednesday) 21:17:45.678 UTC
    let t = utc(2019, 6, 5, 21, 17, 45, 678);
    let b = cp56time2a(Some(t), TimeZone::Utc);
    let msec = 45 * 1000 + 678u32;
    assert_eq!(b[0], msec as u8);
    assert_eq!(b[1], (msec >> 8) as u8);
    assert_eq!(b[2], 17);
    assert_eq!(b[3], 21);
    assert_eq!(b[4] & 0x1f, 5);
    assert_eq!(b[4] >> 5, 3, "Wednesday is ISO weekday 3");
    assert_eq!(b[5], 6);
    assert_eq!(b[6], 19);
}

#[test]
fn cp56_round_trips_to_millisecond_resolution() {
    for t in [
        utc(2000, 1, 1, 0, 0, 0, 0),
        utc(2026, 12, 31, 23, 59, 59, 999),
        utc(2024, 2, 29, 12, 0, 0, 500),
    ] {
        let b = cp56time2a(Some(t), TimeZone::Utc);
        assert_eq!(parse_cp56time2a(&b, TimeZone::Utc), Some(t));
    }
}

#[test]
fn cp56_sunday_maps_to_iso_weekday_seven() {
    // 2026-08-16 is a Sunday.
    let b = cp56time2a(Some(utc(2026, 8, 16, 0, 0, 0, 0)), TimeZone::Utc);
    assert_eq!(b[4] >> 5, 7);
}

#[test]
fn cp56_rejects_invalid_and_short_tags() {
    assert_eq!(parse_cp56time2a(&[0; 6], TimeZone::Utc), None);
    let mut b = cp56time2a(Some(utc(2020, 1, 2, 3, 4, 5, 6)), TimeZone::Utc);
    b[2] |= 0x80; // IV
    assert_eq!(parse_cp56time2a(&b, TimeZone::Utc), None);
    assert_eq!(cp56time2a(None, TimeZone::Utc)[2] & 0x80, 0x80);
}

#[test]
fn cp24_carries_minutes_and_milliseconds() {
    let t = utc(2021, 3, 4, 5, 6, 7, 800);
    let b = cp24time2a(Some(t), TimeZone::Utc);
    assert_eq!(b, [(7800u32 % 256) as u8, (7800u32 / 256) as u8, 6]);
    assert_eq!(parse_cp16time2a(&b[..2]), 7800);
}

#[test]
fn cp24_round_trips_the_minute_and_second_of_now() {
    let now = Utc::now();
    let ts = Timestamp::from_unix_millis(now.timestamp_millis()).unwrap();
    let b = cp24time2a(Some(ts), TimeZone::Utc);
    let got = parse_cp24time2a(&b, TimeZone::Utc).expect("valid tag");
    let got = Utc.timestamp_millis_opt(got.unix_millis()).unwrap();
    assert_eq!(got.minute(), now.minute());
    assert_eq!(got.second(), now.second());
}

#[test]
fn cp56_leaves_su_clear_for_utc_and_fixed_zones() {
    // Neither UTC nor a fixed offset observes summer time.
    let midsummer = utc(2026, 7, 1, 12, 0, 0, 0);
    for zone in [TimeZone::Utc, TimeZone::Fixed(UtcOffset::east(2 * 3600).unwrap())] {
        assert_eq!(cp56time2a(Some(midsummer), zone)[3] & 0x80, 0, "{zone:?}");
    }
}

#[test]
fn cp56_sets_su_exactly_when_the_zone_is_on_summer_time() {
    // (zone, instant, expected SU). The seasons are reversed in Sydney,
    // and Kolkata never observes summer time.
    for (tz, t, want) in [
        (Berlin, utc(2026, 1, 15, 12, 0, 0, 0), false),
        (Berlin, utc(2026, 7, 15, 12, 0, 0, 0), true),
        (Sydney, utc(2026, 1, 15, 12, 0, 0, 0), true),
        (Sydney, utc(2026, 7, 15, 12, 0, 0, 0), false),
        (Kolkata, utc(2026, 1, 15, 12, 0, 0, 0), false),
        (Kolkata, utc(2026, 7, 15, 12, 0, 0, 0), false),
    ] {
        let zone = named(tz);
        assert_eq!(zone.is_dst(t), want, "{tz} at {t:?}");
        let su = cp56time2a(Some(t), zone)[3] & 0x80 != 0;
        assert_eq!(su, want, "SU octet for {tz} at {t:?}");
        // The hour octet must still carry the local hour in D4..D0.
        let hour = zone.parts(t).hour;
        assert_eq!((cp56time2a(Some(t), zone)[3] & 0x1f) as u32, hour);
    }
}

#[test]
fn cp56_round_trips_through_a_summer_time_transition() {
    // Berlin's clocks go back at 01:00 UTC on 2026-10-25, so 02:30 local
    // occurs twice; SU is the only thing that tells the two apart.
    let ambiguous = [utc(2026, 10, 25, 0, 30, 0, 0), utc(2026, 10, 25, 1, 30, 0, 0)];
    let tags: Vec<_> = ambiguous.iter().map(|t| cp56time2a(Some(*t), named(Berlin))).collect();
    assert_eq!(tags[0][3] & 0x1f, tags[1][3] & 0x1f, "the two readings share a wall clock hour");
    assert_ne!(tags[0][3] & 0x80, tags[1][3] & 0x80, "and differ only in SU");

    for (t, tag) in ambiguous.iter().zip(&tags) {
        assert_eq!(parse_cp56time2a(tag, named(Berlin)), Some(*t), "at {t:?}");
    }

    // And ordinary instants either side of both transitions, in both
    // hemispheres.
    for tz in [Berlin, Sydney] {
        for t in [
            utc(2026, 1, 15, 12, 0, 0, 0),
            utc(2026, 3, 29, 3, 0, 0, 0),
            utc(2026, 7, 15, 12, 0, 0, 0),
            utc(2026, 10, 25, 12, 0, 0, 0),
        ] {
            let b = cp56time2a(Some(t), named(tz));
            assert_eq!(parse_cp56time2a(&b, named(tz)), Some(t), "{tz} at {t:?}");
        }
    }
}

#[test]
fn a_tag_from_a_peer_with_different_rules_keeps_its_wall_clock() {
    // A sender that never sets SU still has to be understood: the reading is
    // kept as-is rather than shifted.
    let t = utc(2026, 7, 15, 12, 0, 0, 0);
    let mut b = cp56time2a(Some(t), named(Berlin));
    assert_eq!(b[3] & 0x80, 0x80, "Berlin is on summer time in July");
    b[3] &= 0x7f; // the peer omits SU
    let got = parse_cp56time2a(&b, named(Berlin)).expect("still a valid tag");
    assert_eq!(named(Berlin).parts(got), named(Berlin).parts(t), "the wall clock reading is preserved");
}

#[test]
fn cp56_rejects_a_year_beyond_the_century() {
    // The year field is 7 bits and reaches 2127; the standard defines 0..99.
    let mut b = cp56time2a(Some(utc(2026, 1, 2, 3, 4, 5, 6)), TimeZone::Utc);
    b[6] = 100;
    assert_eq!(parse_cp56time2a(&b, TimeZone::Utc), None);
    b[6] = 99;
    assert!(parse_cp56time2a(&b, TimeZone::Utc).is_some());
}

#[test]
fn an_invalid_tag_keeps_its_reading_for_those_who_ask() {
    let t = utc(2026, 3, 4, 5, 6, 7, 800);
    let flags = TimeTagFlags { invalid: true, substituted: false };
    let b = cp56time2a_tag(Some(t), flags, TimeZone::Utc);
    assert_eq!(b[2] & 0xc0, 0x80, "IV set, SB clear");
    assert_eq!(b[2] & 0x3f, 6, "the minutes are untouched");

    // The trusted-time decoder refuses it, as a clock sync must...
    assert_eq!(parse_cp56time2a(&b, TimeZone::Utc), None);
    // ...while the tag decoder keeps the reading and says it is invalid.
    assert_eq!(parse_cp56time2a_tag(&b, TimeZone::Utc), (Some(t), flags));
}

#[test]
fn the_substituted_flag_round_trips_and_leaves_the_time_valid() {
    let t = utc(2026, 3, 4, 5, 6, 7, 800);
    let flags = TimeTagFlags { invalid: false, substituted: true };
    let b = cp56time2a_tag(Some(t), flags, TimeZone::Utc);
    assert_eq!(b[2] & 0xc0, 0x40);
    assert_eq!(parse_cp56time2a_tag(&b, TimeZone::Utc), (Some(t), flags));
    assert_eq!(parse_cp56time2a(&b, TimeZone::Utc), Some(t), "a substituted time is still a valid time");
}

#[test]
fn cp24_carries_the_same_flags_in_its_minutes_octet() {
    for flags in [
        TimeTagFlags::GOOD(),
        TimeTagFlags { invalid: true, substituted: false },
        TimeTagFlags { invalid: false, substituted: true },
        TimeTagFlags { invalid: true, substituted: true },
    ] {
        let b = cp24time2a_tag(Some(now()), flags, TimeZone::Utc);
        let (t, got) = parse_cp24time2a_tag(&b, TimeZone::Utc);
        assert_eq!(got, flags);
        assert!(t.is_some(), "the reading survives {flags:?}");
    }
}

#[test]
fn no_time_is_always_invalid() {
    let b = cp56time2a_tag(None, TimeTagFlags::GOOD(), TimeZone::Utc);
    let (t, flags) = parse_cp56time2a_tag(&b, TimeZone::Utc);
    assert_eq!(t, None);
    assert!(flags.invalid);
}

#[test]
fn cp16_round_trips() {
    for ms in [0u16, 1, 999, 59_999, u16::MAX] {
        assert_eq!(parse_cp16time2a(&cp16time2a(ms)), ms);
    }
}

#[test]
fn fixed_zone_shifts_the_wall_clock_by_its_offset() {
    let t = utc(2026, 3, 4, 5, 6, 7, 800);
    let zone = TimeZone::Fixed(UtcOffset::east(2 * 3600).unwrap());
    let b = cp56time2a(Some(t), zone);
    assert_eq!(b[3] & 0x1f, 7);
    assert_eq!(parse_cp56time2a(&b, zone), Some(t));
    assert!(UtcOffset::east(86_400).is_none());
    assert_eq!(UtcOffset::east(-3600).unwrap().local_minus_utc(), -3600);
}

#[test]
fn cp24_decodes_a_short_buffer_as_no_time() {
    assert_eq!(parse_cp24time2a(&[0, 0], TimeZone::Utc), None);
    assert_eq!(parse_cp16time2a(&[7]), 0);
}

#[test]
fn summer_time_is_an_offset_above_the_smaller_of_january_and_july() {
    // Berlin: +1 h in January, +2 h in July.
    assert!(summer_time_by_offsets(7200, Some(3600), Some(7200)));
    assert!(!summer_time_by_offsets(3600, Some(3600), Some(7200)));
    // Sydney: the seasons are reversed.
    assert!(summer_time_by_offsets(39600, Some(39600), Some(36000)));
    assert!(!summer_time_by_offsets(36000, Some(39600), Some(36000)));
    // Unknown offsets never mean summer time.
    assert!(!summer_time_by_offsets(7200, None, Some(3600)));
    assert!(!summer_time_by_offsets(7200, Some(3600), None));
}

#[test]
fn named_zones_are_known_by_their_iana_names() {
    assert_eq!(NamedZone::new("Europe/Berlin").unwrap().name(), "Europe/Berlin");
    assert!(NamedZone::new("Europe/Atlantis").is_none());
    assert_eq!(named(Berlin), TimeZone::Named(NamedZone::new("Europe/Berlin").unwrap()));
    // 12:00 UTC in July is 14:00 in Berlin and 22:00 in Sydney.
    let t = utc(2026, 7, 15, 12, 0, 0, 0);
    assert_eq!(named(Berlin).parts(t).hour, 14);
    assert_eq!(named(Sydney).parts(t).hour, 22);
}

#[test]
fn clock_readings_round_down_to_the_millisecond_on_both_sides_of_the_epoch() {
    assert_eq!(millis_since_epoch(true, 1, 999_999), Some(1000));
    assert_eq!(millis_since_epoch(true, 1, 1_000_000), Some(1001));
    assert_eq!(millis_since_epoch(false, 0, 1), Some(-1));
    assert_eq!(millis_since_epoch(false, 1, 0), Some(-1000));
    assert_eq!(millis_since_epoch(false, 1, 500_000), Some(-1001));
    assert_eq!(millis_since_epoch(true, u64::MAX, 0), None);
    assert_eq!(millis_since_epoch(false, 9_223_372_036_854_775, 808_000_000), Some(i64::MIN));
}

#[test]
fn a_clock_reading_is_read_in_the_zone_on_both_sides_of_the_epoch() {
    let c = TimeZone::Utc.clock_reading(true, 86_400 + 3_723, 4_000_000).unwrap();
    assert_eq!((c.year, c.month, c.day, c.hour, c.minute, c.second, c.millisecond), (1970, 1, 2, 1, 2, 3, 4));
    assert_eq!(c.weekday, 5);
    let c = TimeZone::Utc.clock_reading(false, 1, 500_000).unwrap();
    assert_eq!((c.year, c.month, c.day, c.hour, c.minute, c.second, c.millisecond), (1969, 12, 31, 23, 59, 58, 999));
    let c = TimeZone::Fixed(UtcOffset::east(3600).unwrap()).clock_reading(true, 0, 0).unwrap();
    assert_eq!((c.day, c.hour), (1, 1));
    assert!(TimeZone::Utc.clock_reading(true, u64::MAX, 0).is_none());
}
