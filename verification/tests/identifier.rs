use rs_iec60870_5::asdu::{Cause, CauseOfTransmission, Identifier, TypeId, VariableStruct};

#[test]
fn type_id_names_cover_the_standard_ranges() {
    assert_eq!(TypeId::M_SP_NA_1().name(), Some("M_SP_NA_1"));
    assert_eq!(TypeId::M_ME_ND_1().name(), Some("M_ME_ND_1"));
    assert_eq!(TypeId::M_SP_TB_1().name(), Some("M_SP_TB_1"));
    assert_eq!(TypeId::S_IT_TC_1().name(), Some("S_IT_TC_1"));
    assert_eq!(TypeId::C_BO_TA_1().name(), Some("C_BO_TA_1"));
    assert_eq!(TypeId::M_EI_NA_1().name(), Some("M_EI_NA_1"));
    assert_eq!(TypeId::C_TS_TA_1().name(), Some("C_TS_TA_1"));
    assert_eq!(TypeId::F_SC_NB_1().name(), Some("F_SC_NB_1"));
    assert_eq!(TypeId(200).name(), None);
    assert_eq!(TypeId(200).to_string(), "TID<200>");
}

#[test]
fn variable_struct_round_trips() {
    for n in 0u8..=127 {
        for sq in [false, true] {
            let v = VariableStruct { number: n, is_sequence: sq };
            assert_eq!(VariableStruct::parse(v.value()), v);
        }
    }
}

#[test]
fn cause_of_transmission_round_trips() {
    for b in 0u8..=255 {
        assert_eq!(CauseOfTransmission::parse(b).value(), b);
    }
}

#[test]
fn cause_classification() {
    assert!(Cause::INTERROGATED_BY_STATION().is_interrogation());
    assert!(Cause::INTERROGATED_BY_GROUP16().is_interrogation());
    assert!(!Cause::REQUEST_BY_GENERAL_COUNTER().is_interrogation());
    assert!(Cause::REQUEST_BY_GROUP4_COUNTER().is_counter_request());
    assert_eq!(Cause::interrogated_by_group(1), Ok(Cause(21)));
    assert_eq!(Cause::interrogated_by_group(16), Ok(Cause(36)));
    assert!(Cause::interrogated_by_group(17).is_err());
}

#[test]
fn info_obj_sizes_match_the_standard() {
    assert_eq!(TypeId::M_SP_NA_1().info_obj_size(), Ok(1));
    assert_eq!(TypeId::M_ME_NC_1().info_obj_size(), Ok(5));
    assert_eq!(TypeId::M_ME_TF_1().info_obj_size(), Ok(12));
    assert_eq!(TypeId::C_RD_NA_1().info_obj_size(), Ok(0));
    assert_eq!(TypeId::C_TS_TA_1().info_obj_size(), Ok(9));
    assert!(TypeId::F_SG_NA_1().info_obj_size().is_err());
    assert!(TypeId(0).info_obj_size().is_err());
}

#[test]
fn known_type_ids_print_their_mnemonic() {
    assert_eq!(TypeId::M_SP_NA_1().to_string(), "TID<M_SP_NA_1>");
    assert_eq!(TypeId::C_IC_NA_1().info_obj_size(), Ok(1));
}

#[test]
fn identifier_prints_type_cause_and_station() {
    let mut id = Identifier::new(
        TypeId::M_SP_NA_1(),
        VariableStruct::new(1),
        CauseOfTransmission::new(Cause::SPONTANEOUS()),
        12,
    );
    assert_eq!(id.to_string(), "TID<M_SP_NA_1> COT<Spontaneous> @12");
    id.orig_addr = 7;
    assert_eq!(id.to_string(), "TID<M_SP_NA_1> COT<Spontaneous> 7@12");
}
