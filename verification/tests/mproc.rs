use chrono::{TimeZone as _, Utc};
use rs_iec60870_5::asdu::{
    Asdu, BinaryCounterReading, BinaryCounterReadingInfo, BitString32Info, Cause, CauseOfTransmission,
    DoublePoint, DoublePointInfo, EventOfProtectionEquipmentInfo, MeasuredValueFloatInfo, MeasuredValueNormalInfo,
    MeasuredValueScaledInfo, Normalize, OutputCircuitInfo, PackedOutputCircuitInfoInfo,
    PackedSinglePointWithScdInfo, PackedStartEventsOfProtectionEquipmentInfo, QualityDescriptor,
    QualityDescriptorProtection, SingleEvent, SinglePointInfo, StartEvent, StatusAndStatusChangeDetection,
    StepPosition, StepPositionInfo, Timestamp, PARAMS_STANDARD_101, PARAMS_WIDE,
};
use rs_iec60870_5::Error;

fn coa(c: Cause) -> CauseOfTransmission {
    CauseOfTransmission::new(c)
}

fn t() -> Option<Timestamp> {
    let dt = Utc.with_ymd_and_hms(2019, 6, 5, 21, 17, 45).unwrap() + chrono::Duration::milliseconds(678);
    Timestamp::from_unix_millis(dt.timestamp_millis())
}

#[test]
fn single_encodes_value_and_quality_in_one_octet() {
    let a = Asdu::single(
        PARAMS_STANDARD_101(),
        false,
        coa(Cause::SPONTANEOUS()),
        1,
        &[SinglePointInfo { ioa: 0x1234, value: true, qds: QualityDescriptor::INVALID(), time: None }],
    )
    .unwrap();
    assert_eq!(a.info_obj, vec![0x34, 0x12, 0x81]);
    let got = a.get_single_point().unwrap();
    assert_eq!(got.len(), 1);
    assert_eq!(got[0].ioa, 0x1234);
    assert!(got[0].value);
    assert_eq!(got[0].qds, QualityDescriptor::INVALID());
}

#[test]
fn single_sequence_writes_only_the_first_address() {
    let infos: Vec<_> = (0..3).map(|i| SinglePointInfo::new(100 + i, i % 2 == 0)).collect();
    let a = Asdu::single(PARAMS_WIDE(), true, coa(Cause::SPONTANEOUS()), 1, &infos).unwrap();
    // 3 address octets + 3 value octets.
    assert_eq!(a.info_obj.len(), 6);
    assert!(a.variable().is_sequence);
    assert_eq!(a.get_single_point().unwrap(), infos);
}

#[test]
fn single_rejects_causes_outside_the_standard() {
    assert_eq!(
        Asdu::single(PARAMS_WIDE(), false, coa(Cause::ACTIVATION()), 1, &[SinglePointInfo::new(1, true)]),
        Err(Error::CmdCause)
    );
    assert_eq!(
        Asdu::single_cp56time2a(PARAMS_WIDE(), coa(Cause::BACKGROUND()), 1, &[SinglePointInfo::new(1, true)]),
        Err(Error::CmdCause)
    );
    assert_eq!(Asdu::single(PARAMS_WIDE(), false, coa(Cause::SPONTANEOUS()), 1, &[]), Err(Error::NotAnyObjInfo));
}

#[test]
fn time_tagged_families_round_trip() {
    let time = t();
    let a = Asdu::single_cp56time2a(
        PARAMS_WIDE(),
        coa(Cause::SPONTANEOUS()),
        1,
        &[SinglePointInfo { ioa: 100, value: true, qds: QualityDescriptor::GOOD(), time }],
    )
    .unwrap();
    assert_eq!(a.get_single_point().unwrap()[0].time, time);

    let a = Asdu::double_cp56time2a(
        PARAMS_WIDE(),
        coa(Cause::SPONTANEOUS()),
        1,
        &[DoublePointInfo { ioa: 101, value: DoublePoint::DeterminedOn, qds: QualityDescriptor::GOOD(), time }],
    )
    .unwrap();
    let got = a.get_double_point().unwrap();
    assert_eq!(got[0].value, DoublePoint::DeterminedOn);
    assert_eq!(got[0].time, time);
}

#[test]
fn step_position_round_trips_with_transient() {
    let info = StepPositionInfo {
        ioa: 200,
        value: StepPosition { val: -17, has_transient: true },
        qds: QualityDescriptor::BLOCKED(),
        time: None,
    };
    let a = Asdu::step(PARAMS_WIDE(), false, coa(Cause::SPONTANEOUS()), 1, &[info]).unwrap();
    assert_eq!(a.get_step_position().unwrap()[0], info);
}

#[test]
fn measured_float_masks_quality_to_ov_nt_iv() {
    let a = Asdu::measured_value_float(
        PARAMS_WIDE(),
        false,
        coa(Cause::PERIODIC()),
        1,
        &[MeasuredValueFloatInfo {
            ioa: 400,
            value: 22.5f32.to_bits(),
            // BLOCKED (0x10) and SUBSTITUTED (0x20) are not carried here.
            qds: QualityDescriptor(0xff),
            time: None,
        }],
    )
    .unwrap();
    let got = a.get_measured_value_float().unwrap();
    assert_eq!(f32::from_bits(got[0].value), 22.5);
    assert_eq!(got[0].qds, QualityDescriptor(0xf1));
}

#[test]
fn measured_normal_without_quality_omits_the_octet() {
    let infos = [MeasuredValueNormalInfo {
        ioa: 300,
        value: Normalize(16384),
        qds: QualityDescriptor::INVALID(),
        time: None,
    }];
    let a = Asdu::measured_value_normal_no_quality(PARAMS_WIDE(), false, coa(Cause::PERIODIC()), 1, &infos).unwrap();
    // 3 address + 2 value octets only.
    assert_eq!(a.info_obj.len(), 5);
    let got = a.get_measured_value_normal().unwrap();
    // 16384 / 32768 == 0.5
    assert_eq!(got[0].value, Normalize(16384));
    assert_eq!(got[0].value.0 as f64 / 32768.0, 0.5);
    assert_eq!(got[0].qds, QualityDescriptor::GOOD());
}

#[test]
fn integrated_totals_accept_only_counter_causes() {
    let info = BinaryCounterReadingInfo {
        ioa: 500,
        value: BinaryCounterReading {
            counter_reading: 987_654,
            seq_number: 3,
            has_carry: true,
            is_adjusted: false,
            is_invalid: false,
        },
        time: None,
    };
    assert!(
        Asdu::integrated_totals(PARAMS_WIDE(), false, coa(Cause::REQUEST_BY_GENERAL_COUNTER()), 1, &[info]).is_ok()
    );
    assert_eq!(
        Asdu::integrated_totals(PARAMS_WIDE(), false, coa(Cause::PERIODIC()), 1, &[info]),
        Err(Error::CmdCause)
    );
    let a = Asdu::integrated_totals(PARAMS_WIDE(), false, coa(Cause::SPONTANEOUS()), 1, &[info]).unwrap();
    assert_eq!(a.get_integrated_totals().unwrap()[0], info);
}

#[test]
fn protection_events_require_spontaneous() {
    let info = EventOfProtectionEquipmentInfo {
        ioa: 600,
        event: SingleEvent::DeterminedOn,
        qdp: QualityDescriptorProtection::INVALID(),
        msec: 1234,
        time: t(),
    };
    assert_eq!(
        Asdu::event_of_protection_equipment_cp56time2a(PARAMS_WIDE(), coa(Cause::PERIODIC()), 1, &[info]),
        Err(Error::CmdCause)
    );
    let a = Asdu::event_of_protection_equipment_cp56time2a(PARAMS_WIDE(), coa(Cause::SPONTANEOUS()), 1, &[info])
        .unwrap();
    assert_eq!(a.get_event_of_protection_equipment().unwrap()[0], info);
}

#[test]
fn packed_start_events_round_trip() {
    let info = PackedStartEventsOfProtectionEquipmentInfo {
        ioa: 700,
        event: StartEvent::GENERAL_START() | StartEvent::START_L2(),
        qdp: QualityDescriptorProtection::BLOCKED(),
        msec: 42,
        time: t(),
    };
    let a = Asdu::packed_start_events_cp56time2a(PARAMS_WIDE(), coa(Cause::SPONTANEOUS()), 1, info).unwrap();
    assert_eq!(a.get_packed_start_events().unwrap(), info);
}

#[test]
fn packed_output_circuit_info_round_trips() {
    let info = PackedOutputCircuitInfoInfo {
        ioa: 701,
        oci: OutputCircuitInfo::GENERAL_COMMAND() | OutputCircuitInfo::COMMAND_L3(),
        qdp: QualityDescriptorProtection::GOOD(),
        msec: 7,
        time: t(),
    };
    let a = Asdu::packed_output_circuit_info_cp56time2a(PARAMS_WIDE(), coa(Cause::SPONTANEOUS()), 1, info).unwrap();
    assert_eq!(a.get_packed_output_circuit_info().unwrap(), info);
}

#[test]
fn packed_single_point_with_scd_round_trips() {
    let infos = [
        PackedSinglePointWithScdInfo {
            ioa: 800,
            scd: StatusAndStatusChangeDetection(0xdead_beef),
            qds: QualityDescriptor::GOOD(),
        },
        PackedSinglePointWithScdInfo {
            ioa: 801,
            scd: StatusAndStatusChangeDetection(0x0000_ffff),
            qds: QualityDescriptor::NOT_TOPICAL(),
        },
    ];
    let a = Asdu::packed_single_point_with_scd(PARAMS_WIDE(), false, coa(Cause::INTERROGATED_BY_STATION()), 1, &infos)
        .unwrap();
    assert_eq!(a.get_packed_single_point_with_scd().unwrap(), infos);
    assert_eq!(infos[0].scd.status(), 0xbeef);
    assert_eq!(infos[0].scd.change_detection(), 0xdead);
}

#[test]
fn mproc_every_family_survives_a_wire_round_trip() {
    let p = PARAMS_WIDE();
    let asdus = [
        Asdu::single(p, false, coa(Cause::SPONTANEOUS()), 1, &[SinglePointInfo::new(1, true)]).unwrap(),
        Asdu::double(
            p,
            false,
            coa(Cause::SPONTANEOUS()),
            1,
            &[DoublePointInfo { ioa: 2, value: DoublePoint::DeterminedOff, ..Default::default() }],
        )
        .unwrap(),
        Asdu::step(p, false, coa(Cause::SPONTANEOUS()), 1, &[StepPositionInfo::default()]).unwrap(),
        Asdu::bitstring32(
            p,
            false,
            coa(Cause::SPONTANEOUS()),
            1,
            &[BitString32Info { ioa: 4, value: 0x1234_5678, ..Default::default() }],
        )
        .unwrap(),
        Asdu::measured_value_normal(p, false, coa(Cause::PERIODIC()), 1, &[MeasuredValueNormalInfo::default()])
            .unwrap(),
        Asdu::measured_value_scaled(
            p,
            false,
            coa(Cause::PERIODIC()),
            1,
            &[MeasuredValueScaledInfo { ioa: 6, value: -1234, ..Default::default() }],
        )
        .unwrap(),
        Asdu::measured_value_float(
            p,
            false,
            coa(Cause::PERIODIC()),
            1,
            &[MeasuredValueFloatInfo { ioa: 7, value: 3.25f32.to_bits(), ..Default::default() }],
        )
        .unwrap(),
        Asdu::integrated_totals(p, false, coa(Cause::SPONTANEOUS()), 1, &[BinaryCounterReadingInfo::default()])
            .unwrap(),
    ];
    for a in asdus {
        let raw = a.marshal_binary().unwrap();
        let b = Asdu::unmarshal_binary(p, &raw).unwrap();
        assert_eq!(a, b, "round trip failed for {:?}", a.type_id());
    }
}

#[test]
fn tagged_single_point_refuses_a_sequence_of_one_cause() {
    // Time-tagged process information may not be sent as background data.
    assert_eq!(
        Asdu::single_cp24time2a(PARAMS_WIDE(), coa(Cause::BACKGROUND()), 1, &[SinglePointInfo::new(1, true)]),
        Err(Error::CmdCause)
    );
    let a = Asdu::single_cp24time2a(
        PARAMS_WIDE(),
        coa(Cause::SPONTANEOUS()),
        1,
        &[SinglePointInfo::new(9, false)],
    )
    .unwrap();
    // 3 address octets, 1 value octet, 3 time octets.
    assert_eq!(a.info_obj.len(), 7);
}

#[test]
fn scaled_value_is_carried_little_endian() {
    let a = Asdu::measured_value_scaled(
        PARAMS_STANDARD_101(),
        false,
        coa(Cause::PERIODIC()),
        1,
        &[MeasuredValueScaledInfo { ioa: 0x0102, value: -2, qds: QualityDescriptor::OVERFLOW(), time: None }],
    )
    .unwrap();
    assert_eq!(a.info_obj, vec![0x02, 0x01, 0xfe, 0xff, 0x01]);
}
