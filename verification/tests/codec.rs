use rs_iec60870_5::asdu::codec::check_valid;
use rs_iec60870_5::asdu::{
    Asdu, BinaryCounterReading, Cause, CauseOfTransmission, CommonAddr, Identifier, Params, TypeId,
    VariableStruct, ASDU_SIZE_MAX, GLOBAL_COMMON_ADDR, PARAMS_NARROW, PARAMS_STANDARD_101, PARAMS_WIDE,
};
use rs_iec60870_5::Error;

fn ident(t: TypeId, n: u8, cause: Cause, ca: CommonAddr) -> Identifier {
    Identifier::new(t, VariableStruct::new(n), CauseOfTransmission::new(cause), ca)
}

#[test]
fn marshal_wide_writes_six_identifier_octets() {
    let mut a = Asdu::new(PARAMS_WIDE(), ident(TypeId::M_SP_NA_1(), 1, Cause::SPONTANEOUS(), 0x1234));
    a.identifier.orig_addr = 7;
    let mut e = a.encoder();
    e.info_obj_addr(0x010203).unwrap().byte(0x01);
    e.finish(&mut a);
    let raw = a.marshal_binary().unwrap();
    assert_eq!(raw, vec![1, 1, 3, 7, 0x34, 0x12, 0x03, 0x02, 0x01, 0x01]);
}

#[test]
fn marshal_narrow_writes_four_identifier_octets() {
    let mut a = Asdu::new(PARAMS_STANDARD_101(), ident(TypeId::M_SP_NA_1(), 1, Cause::SPONTANEOUS(), 0x12));
    let mut e = a.encoder();
    e.info_obj_addr(0x0102).unwrap().byte(0x01);
    e.finish(&mut a);
    let raw = a.marshal_binary().unwrap();
    assert_eq!(raw, vec![1, 1, 3, 0x12, 0x02, 0x01, 0x01]);
}

#[test]
fn round_trip_through_unmarshal() {
    let mut a = Asdu::new(PARAMS_WIDE(), ident(TypeId::M_ME_NC_1(), 2, Cause::PERIODIC(), 1));
    let mut e = a.encoder();
    e.info_obj_addr(100).unwrap().f32_bits(1.5f32.to_bits()).byte(0);
    e.info_obj_addr(101).unwrap().f32_bits((-2.5f32).to_bits()).byte(0x80);
    e.finish(&mut a);
    let raw = a.marshal_binary().unwrap();
    let b = Asdu::unmarshal_binary(PARAMS_WIDE(), &raw).unwrap();
    assert_eq!(a, b);
}

#[test]
fn global_common_addr_maps_to_255_in_eight_bit_mode() {
    let mut a = Asdu::new(PARAMS_NARROW(), ident(TypeId::C_IC_NA_1(), 1, Cause::ACTIVATION(), GLOBAL_COMMON_ADDR));
    let mut e = a.encoder();
    e.info_obj_addr(0).unwrap().byte(20);
    e.finish(&mut a);
    let raw = a.marshal_binary().unwrap();
    assert_eq!(raw[3], 255);
    let b = Asdu::unmarshal_binary(PARAMS_NARROW(), &raw).unwrap();
    assert_eq!(b.common_addr(), GLOBAL_COMMON_ADDR);
}

#[test]
fn marshal_rejects_invalid_identifiers() {
    let a = Asdu::new(PARAMS_WIDE(), ident(TypeId::M_SP_NA_1(), 1, Cause::UNUSED(), 1));
    assert_eq!(a.marshal_binary(), Err(Error::CauseZero));

    let a = Asdu::new(PARAMS_WIDE(), ident(TypeId::M_SP_NA_1(), 1, Cause::SPONTANEOUS(), 0));
    assert_eq!(a.marshal_binary(), Err(Error::CommonAddrZero));

    let a = Asdu::new(PARAMS_NARROW(), ident(TypeId::M_SP_NA_1(), 1, Cause::SPONTANEOUS(), 255));
    assert_eq!(a.marshal_binary(), Err(Error::Param));
}

#[test]
fn marshal_rejects_oversized_payloads() {
    let mut a = Asdu::new(PARAMS_WIDE(), ident(TypeId::M_SP_NA_1(), 1, Cause::SPONTANEOUS(), 1));
    a.info_obj = vec![0; ASDU_SIZE_MAX];
    assert_eq!(a.marshal_binary(), Err(Error::LengthOutOfRange));
}

#[test]
fn unmarshal_rejects_trailing_octets_and_short_payloads() {
    let exact = [1u8, 1, 3, 0, 1, 0, 1, 0, 0, 0x01];
    assert_eq!(Asdu::unmarshal_binary(PARAMS_WIDE(), &exact).unwrap().info_obj.len(), 4);

    let padded = [1u8, 1, 3, 0, 1, 0, 1, 0, 0, 0x01, 0xde, 0xad];
    assert_eq!(Asdu::unmarshal_binary(PARAMS_WIDE(), &padded), Err(Error::TrailingOctets));

    let short = [1u8, 1, 3, 0, 1, 0, 1, 0];
    assert_eq!(Asdu::unmarshal_binary(PARAMS_WIDE(), &short), Err(Error::UnexpectedEof));
}

#[test]
fn trailing_octets_are_discarded_only_when_the_parameter_allows_it() {
    let lenient = Params { allow_trailing_octets: true, ..PARAMS_WIDE() };
    let padded = [1u8, 1, 3, 0, 1, 0, 1, 0, 0, 0x01, 0xde, 0xad];
    let a = Asdu::unmarshal_binary(lenient, &padded).unwrap();
    assert_eq!(a.info_obj, vec![1, 0, 0, 0x01], "the surplus is discarded");
}

#[test]
fn a_file_segment_is_sized_by_its_own_length_octet() {
    let raw = [
        125u8, 1, 13, 0, 1, 0, // identifier: F_SG_NA_1, 1 object, FileTransfer, CA 1
        0x64, 0, 0, // IOA 100
        0x02, 0, // NOF
        0x01, // NOS
        0x03, // LOS = 3
        0xaa, 0xbb, 0xcc,
    ];
    let a = Asdu::unmarshal_binary(PARAMS_WIDE(), &raw).unwrap();
    assert_eq!(a.info_obj.len(), 10);

    assert_eq!(Asdu::unmarshal_binary(PARAMS_WIDE(), &raw[..raw.len() - 1]), Err(Error::UnexpectedEof));
    let mut padded = raw.to_vec();
    padded.push(0xdd);
    assert_eq!(Asdu::unmarshal_binary(PARAMS_WIDE(), &padded), Err(Error::TrailingOctets));
    assert_eq!(Asdu::unmarshal_binary(PARAMS_WIDE(), &raw[..9]), Err(Error::UnexpectedEof));
}

#[test]
fn unmarshal_rejects_unknown_type_identifications() {
    let raw = [200u8, 1, 3, 0, 1, 0, 1, 0, 0, 0x01];
    assert_eq!(Asdu::unmarshal_binary(PARAMS_WIDE(), &raw), Err(Error::TypeIdentifier));
}

#[test]
fn sequence_addresses_are_implied_by_increment() {
    let mut a = Asdu::new(
        PARAMS_WIDE(),
        Identifier::new(
            TypeId::M_SP_NA_1(),
            VariableStruct { number: 3, is_sequence: true },
            CauseOfTransmission::new(Cause::SPONTANEOUS()),
            1,
        ),
    );
    let mut e = a.encoder();
    e.info_obj_addr(100).unwrap().byte(1).byte(0).byte(1);
    e.finish(&mut a);
    let mut r = a.reader();
    let mut addr = 0;
    for i in 0..3 {
        addr = r.next_obj_addr(i, true, addr).unwrap();
        let _ = r.byte().unwrap();
        assert_eq!(addr, 100 + i as u32);
    }
}

#[test]
fn reader_reports_truncation_instead_of_panicking() {
    let a = Asdu::new(PARAMS_WIDE(), ident(TypeId::M_SP_NA_1(), 1, Cause::SPONTANEOUS(), 1));
    let mut r = a.reader();
    assert_eq!(r.byte(), Err(Error::UnexpectedEof));
    assert_eq!(r.cp56time2a(), Err(Error::UnexpectedEof));
}

#[test]
fn encoder_enforces_the_address_width() {
    let mut a = Asdu::new(PARAMS_NARROW(), ident(TypeId::M_SP_NA_1(), 1, Cause::SPONTANEOUS(), 1));
    assert_eq!(a.encoder().info_obj_addr(256).err(), Some(Error::InfoObjAddrFit));
    let mut a = Asdu::new(PARAMS_WIDE(), ident(TypeId::M_SP_NA_1(), 1, Cause::SPONTANEOUS(), 1));
    assert!(a.encoder().info_obj_addr(16_777_215).is_ok());
    assert_eq!(a.encoder().info_obj_addr(16_777_216).err(), Some(Error::InfoObjAddrFit));
}

#[test]
fn check_valid_bounds_the_object_count() {
    assert_eq!(check_valid(&PARAMS_WIDE(), TypeId::M_SP_NA_1(), false, 0), Err(Error::NotAnyObjInfo));
    assert!(check_valid(&PARAMS_WIDE(), TypeId::M_SP_NA_1(), false, 60).is_ok());
    assert_eq!(check_valid(&PARAMS_WIDE(), TypeId::M_SP_NA_1(), false, 61), Err(Error::LengthOutOfRange));
    assert!(check_valid(&PARAMS_WIDE(), TypeId::M_SP_NA_1(), true, 240).is_ok());
}

#[test]
fn reply_mirror_keeps_the_payload_and_changes_the_cause() {
    let mut a = Asdu::new(PARAMS_WIDE(), ident(TypeId::C_IC_NA_1(), 1, Cause::ACTIVATION(), 5));
    let mut e = a.encoder();
    e.info_obj_addr(0).unwrap().byte(20);
    e.finish(&mut a);
    let m = a.reply_mirror(Cause::ACTIVATION_CON());
    assert_eq!(m.coa().cause, Cause::ACTIVATION_CON());
    assert_eq!(m.common_addr(), 5);
    assert_eq!(m.info_obj, a.info_obj);
    assert_eq!(a.coa().cause, Cause::ACTIVATION());
}

#[test]
fn binary_counter_reading_round_trips() {
    let bcr = BinaryCounterReading {
        counter_reading: -12345,
        seq_number: 17,
        has_carry: true,
        is_adjusted: false,
        is_invalid: true,
    };
    let mut a = Asdu::new(PARAMS_WIDE(), ident(TypeId::M_IT_NA_1(), 1, Cause::SPONTANEOUS(), 1));
    let mut e = a.encoder();
    e.binary_counter_reading(bcr);
    e.finish(&mut a);
    assert_eq!(a.reader().binary_counter_reading().unwrap(), bcr);
}

#[test]
fn the_dump_header_names_type_cause_station_qualifier_and_width() {
    let mut a = Asdu::new(PARAMS_WIDE(), ident(TypeId::M_SP_NA_1(), 2, Cause::SPONTANEOUS(), 0x1234));
    assert_eq!(a.header_text(), "TID<M_SP_NA_1> COT<Spontaneous> @4660 VSQ<2> IOA-Width=3");
    a.identifier.orig_addr = 7;
    a.identifier.variable.is_sequence = true;
    assert_eq!(a.header_text(), "TID<M_SP_NA_1> COT<Spontaneous> 7@4660 VSQ<sq,2> IOA-Width=3");
}
