use chrono::TimeZone as _;
use chrono::Utc;
use rs_iec60870_5::asdu::filet::{file_checksum, LENGTH_OF_FILE_MAX};
use rs_iec60870_5::asdu::{
    AckFileOrSectionInfo, AckFileOrSectionQualifier, AfqAction, Asdu, CallOrSelectFileInfo, Cause,
    CauseOfTransmission, DirectoryInfo, FileError, FileReadyInfo, FileReadyQualifier, LastSectionOrSegmentInfo,
    LastSectionQualifier, NameOfFile, ScqAction, SectionReadyInfo, SectionReadyQualifier, SegmentInfo,
    SelectAndCallQualifier, StatusOfFile, TimeTagFlags, Timestamp, PARAMS_NARROW, PARAMS_STANDARD_101,
    PARAMS_WIDE,
};
use rs_iec60870_5::Error;

fn coa(c: Cause) -> CauseOfTransmission {
    CauseOfTransmission::new(c)
}

fn transfer() -> CauseOfTransmission {
    coa(Cause::FILE_TRANSFER())
}

fn round_trip(a: &Asdu) -> Asdu {
    let wire = a.marshal_binary().expect("marshal");
    Asdu::unmarshal_binary(a.params, &wire).expect("unmarshal")
}

#[test]
fn qualifiers_round_trip_through_their_octets() {
    for b in 0u8..=255 {
        assert_eq!(FileReadyQualifier::parse(b).value(), b);
        assert_eq!(SectionReadyQualifier::parse(b).value(), b);
        assert_eq!(SelectAndCallQualifier::parse(b).value(), b);
        assert_eq!(AckFileOrSectionQualifier::parse(b).value(), b);
        assert_eq!(StatusOfFile::parse(b).value(), b);
    }
}

#[test]
fn qualifiers_split_the_documented_bit_fields() {
    let scq = SelectAndCallQualifier::parse(0x25);
    assert_eq!(scq.action, ScqAction::SELECT_SECTION());
    assert_eq!(scq.error, FileError::CHECKSUM_FAILED());

    let afq = AckFileOrSectionQualifier::parse(0x13);
    assert_eq!(afq.action, AfqAction::POS_ACK_SECTION());
    assert_eq!(afq.error, FileError::MEMORY_UNAVAILABLE());

    assert_eq!(FileReadyQualifier::parse(0x81), FileReadyQualifier { qual: 1, is_negative: true });
    assert_eq!(SectionReadyQualifier::parse(0x02), SectionReadyQualifier { qual: 2, is_not_ready: false });

    assert_eq!(
        StatusOfFile::parse(0xe3),
        StatusOfFile { status: 3, is_last_file_of_directory: true, is_directory: true, is_transfer_active: true }
    );
}

#[test]
fn filet_every_family_survives_a_wire_round_trip() {
    for params in [PARAMS_NARROW(), PARAMS_STANDARD_101(), PARAMS_WIDE()] {
        let ioa = 1;

        let fr = FileReadyInfo {
            ioa,
            nof: NameOfFile::DISTURBANCE_DATA(),
            length_of_file: 0x01_2345,
            frq: FileReadyQualifier { qual: 1, is_negative: false },
        };
        let a = Asdu::file_ready(params, transfer(), 1, fr).unwrap();
        assert_eq!(round_trip(&a).get_file_ready().unwrap(), fr);

        let sr = SectionReadyInfo {
            ioa,
            nof: NameOfFile::DISTURBANCE_DATA(),
            nos: 2,
            length_of_section: 4096,
            srq: SectionReadyQualifier { qual: 0, is_not_ready: false },
        };
        let a = Asdu::section_ready(params, transfer(), 1, sr).unwrap();
        assert_eq!(round_trip(&a).get_section_ready().unwrap(), sr);

        let cs = CallOrSelectFileInfo {
            ioa,
            nof: NameOfFile::DISTURBANCE_DATA(),
            nos: 2,
            scq: SelectAndCallQualifier { action: ScqAction::REQUEST_SECTION(), error: FileError::NONE() },
        };
        let a = Asdu::call_or_select_file(params, transfer(), 1, cs).unwrap();
        assert_eq!(round_trip(&a).get_call_or_select_file().unwrap(), cs);

        let ls = LastSectionOrSegmentInfo {
            ioa,
            nof: NameOfFile::DISTURBANCE_DATA(),
            nos: 2,
            lsq: LastSectionQualifier::SECTION_WITHOUT_DEACTIVATE(),
            chs: 0x5a,
        };
        let a = Asdu::last_section_or_segment(params, transfer(), 1, ls).unwrap();
        assert_eq!(round_trip(&a).get_last_section_or_segment().unwrap(), ls);

        let af = AckFileOrSectionInfo {
            ioa,
            nof: NameOfFile::DISTURBANCE_DATA(),
            nos: 2,
            afq: AckFileOrSectionQualifier { action: AfqAction::POS_ACK_SECTION(), error: FileError::NONE() },
        };
        let a = Asdu::ack_file_or_section(params, transfer(), 1, af).unwrap();
        assert_eq!(round_trip(&a).get_ack_file_or_section().unwrap(), af);

        let sg = SegmentInfo { ioa, nof: NameOfFile::DISTURBANCE_DATA(), nos: 2, segment: (0u8..64).collect() };
        let a = Asdu::file_segment(params, transfer(), 1, &sg).unwrap();
        assert_eq!(round_trip(&a).get_file_segment().unwrap(), sg);

        let t = Utc.with_ymd_and_hms(2026, 3, 4, 5, 6, 7).unwrap();
        let t = Timestamp::from_unix_millis(t.timestamp_millis()).unwrap();
        let dir = [
            DirectoryInfo {
                ioa,
                nof: NameOfFile::DISTURBANCE_DATA(),
                length_of_file: 1024,
                sof: StatusOfFile { status: 1, ..Default::default() },
                time: Some(t),
                time_flags: TimeTagFlags::GOOD(),
            },
            DirectoryInfo {
                ioa: 2,
                nof: NameOfFile(0x1234),
                length_of_file: LENGTH_OF_FILE_MAX,
                sof: StatusOfFile {
                    status: 2,
                    is_last_file_of_directory: true,
                    is_directory: false,
                    is_transfer_active: true,
                },
                time: Some(t),
                time_flags: TimeTagFlags::GOOD(),
            },
        ];
        let a = Asdu::file_directory(params, coa(Cause::REQUEST()), 1, &dir).unwrap();
        assert_eq!(round_trip(&a).get_file_directory().unwrap(), dir);
    }
}

#[test]
fn file_ready_writes_the_documented_octet_layout() {
    let a = Asdu::file_ready(
        PARAMS_WIDE(),
        transfer(),
        1,
        FileReadyInfo {
            ioa: 0x0201,
            nof: NameOfFile::DISTURBANCE_DATA(),
            length_of_file: 0x00_03_02_01,
            frq: FileReadyQualifier { qual: 0x7f, is_negative: true },
        },
    )
    .unwrap();
    let wire = a.marshal_binary().unwrap();
    assert_eq!(wire[0], 120, "F_FR_NA_1");
    assert_eq!(wire[1], 1, "one object, SQ = 0");
    assert_eq!(wire[2], Cause::FILE_TRANSFER().0);
    assert_eq!(&wire[6..9], &[0x01, 0x02, 0x00], "IOA, 3 octets");
    assert_eq!(&wire[9..11], &[0x02, 0x00], "NOF, 2 octets");
    assert_eq!(&wire[11..14], &[0x01, 0x02, 0x03], "LOF, 3 octets");
    assert_eq!(wire[14], 0xff, "FRQ with the P/N bit set");
}

#[test]
fn a_segment_is_bounded_by_the_length_of_segment_octet() {
    for params in [PARAMS_NARROW(), PARAMS_STANDARD_101(), PARAMS_WIDE()] {
        let max = params.max_segment_size();
        assert!(max <= 255, "{max}");

        let at_max = SegmentInfo { ioa: 1, nof: NameOfFile::TRANSPARENT(), nos: 1, segment: vec![0xab; max] };
        let a = Asdu::file_segment(params, transfer(), 1, &at_max)
            .unwrap_or_else(|e| panic!("the largest segment was refused: {e:?}"));
        assert_eq!(round_trip(&a).get_file_segment().unwrap(), at_max);

        let over = SegmentInfo { segment: vec![0xab; max + 1], ..at_max };
        assert_eq!(Asdu::file_segment(params, transfer(), 1, &over), Err(Error::LengthOutOfRange));
    }
}

#[test]
fn a_segment_is_sized_from_its_own_length_octet_not_the_qualifier() {
    let sg = SegmentInfo { ioa: 100, nof: NameOfFile::DISTURBANCE_DATA(), nos: 1, segment: vec![1, 2, 3, 4, 5] };
    let wire = Asdu::file_segment(PARAMS_WIDE(), transfer(), 1, &sg).unwrap().marshal_binary().unwrap();
    let back = Asdu::unmarshal_binary(PARAMS_WIDE(), &wire).unwrap();
    assert_eq!(back.get_file_segment().unwrap(), sg);

    assert_eq!(Asdu::unmarshal_binary(PARAMS_WIDE(), &wire[..wire.len() - 1]), Err(Error::UnexpectedEof));
}

#[test]
fn the_length_of_file_element_is_three_octets() {
    let a = Asdu::file_ready(
        PARAMS_WIDE(),
        transfer(),
        1,
        FileReadyInfo { ioa: 1, length_of_file: LENGTH_OF_FILE_MAX, ..Default::default() },
    )
    .unwrap();
    assert_eq!(round_trip(&a).get_file_ready().unwrap().length_of_file, LENGTH_OF_FILE_MAX);

    assert_eq!(
        Asdu::file_ready(
            PARAMS_WIDE(),
            transfer(),
            1,
            FileReadyInfo { ioa: 1, length_of_file: LENGTH_OF_FILE_MAX + 1, ..Default::default() },
        ),
        Err(Error::LengthOutOfRange)
    );
}

#[test]
fn the_causes_the_standard_permits_are_enforced() {
    let bad = coa(Cause::PERIODIC());
    assert_eq!(
        Asdu::file_ready(PARAMS_WIDE(), bad, 1, FileReadyInfo { ioa: 1, ..Default::default() }),
        Err(Error::CmdCause)
    );
    assert_eq!(
        Asdu::section_ready(PARAMS_WIDE(), bad, 1, SectionReadyInfo { ioa: 1, ..Default::default() }),
        Err(Error::CmdCause)
    );
    assert_eq!(
        Asdu::ack_file_or_section(PARAMS_WIDE(), bad, 1, AckFileOrSectionInfo { ioa: 1, ..Default::default() }),
        Err(Error::CmdCause)
    );
    assert_eq!(
        Asdu::file_directory(
            PARAMS_WIDE(),
            coa(Cause::FILE_TRANSFER()),
            1,
            &[DirectoryInfo { ioa: 1, ..Default::default() }]
        ),
        Err(Error::CmdCause),
        "a directory is spontaneous or requested, never a file transfer"
    );

    for c in [Cause::REQUEST(), Cause::FILE_TRANSFER()] {
        assert!(
            Asdu::call_or_select_file(PARAMS_WIDE(), coa(c), 1, CallOrSelectFileInfo { ioa: 1, ..Default::default() })
                .is_ok(),
            "{c:?}"
        );
    }
}

#[test]
fn the_section_checksum_is_the_arithmetic_sum_modulo_256() {
    assert_eq!(file_checksum(&[]), 0);
    assert_eq!(file_checksum(&[1, 2, 3]), 6);
    assert_eq!(file_checksum(&[0xff, 0x02]), 1);
    assert_eq!(file_checksum(&vec![0xff; 256]), 0);
}

#[test]
fn a_truncated_information_object_is_reported_not_guessed() {
    let a = Asdu::file_ready(PARAMS_WIDE(), transfer(), 1, FileReadyInfo { ioa: 1, ..Default::default() }).unwrap();
    let mut short = a.clone();
    short.info_obj.truncate(4);
    assert_eq!(short.get_file_ready(), Err(Error::UnexpectedEof));
}

#[test]
fn names_and_errors_print_their_names() {
    assert_eq!(NameOfFile::DISTURBANCE_DATA().to_string(), "DisturbanceData");
    assert_eq!(NameOfFile(77).to_string(), "NameOfFile(77)");
    assert_eq!(FileError::CHECKSUM_FAILED().to_string(), "ChecksumFailed");
    assert_eq!(FileError(9).to_string(), "FileError(9)");
    assert!(FileError::NONE().is_none());
    assert!(LastSectionQualifier::FILE_WITH_DEACTIVATE().is_end_of_file());
    assert!(!LastSectionQualifier::SECTION_WITH_DEACTIVATE().is_end_of_file());
}

#[test]
fn an_address_that_does_not_fit_is_refused() {
    assert_eq!(
        Asdu::file_ready(PARAMS_NARROW(), transfer(), 1, FileReadyInfo { ioa: 256, ..Default::default() }),
        Err(Error::InfoObjAddrFit)
    );
    let dir = [
        DirectoryInfo { ioa: 1, ..Default::default() },
        DirectoryInfo { ioa: 1, length_of_file: LENGTH_OF_FILE_MAX + 1, ..Default::default() },
    ];
    assert_eq!(
        Asdu::file_directory(PARAMS_WIDE(), coa(Cause::SPONTANEOUS()), 1, &dir),
        Err(Error::LengthOutOfRange)
    );
}
