use chrono::TimeZone as _;
use chrono::Utc;
use rs_iec60870_5::asdu::{
    Asdu, BitsString32CommandInfo, Cause, CauseOfTransmission, DoubleCommand, DoubleCommandInfo, Normalize,
    QocQual, QosQual, QualifierOfCommand, QualifierOfSetpointCmd, SetpointCommandFloatInfo,
    SetpointCommandNormalInfo, SetpointCommandScaledInfo, SingleCommandInfo, StepCommand, StepCommandInfo,
    Timestamp, TypeId, PARAMS_WIDE,
};
use rs_iec60870_5::Error;

fn act() -> CauseOfTransmission {
    CauseOfTransmission::new(Cause::ACTIVATION())
}

fn t() -> Option<Timestamp> {
    let dt = Utc.with_ymd_and_hms(2026, 8, 17, 10, 30, 15).unwrap();
    Timestamp::from_unix_millis(dt.timestamp_millis())
}

#[test]
fn single_cmd_packs_value_and_qualifier_in_one_octet() {
    let cmd = SingleCommandInfo {
        ioa: 6000,
        value: true,
        qoc: QualifierOfCommand { qual: QocQual::SHORT_PULSE_DURATION(), in_select: true },
        time: None,
    };
    let a = Asdu::single_cmd(PARAMS_WIDE(), TypeId::C_SC_NA_1(), act(), 1, cmd).unwrap();
    assert_eq!(a.info_obj.last(), Some(&0x85));
    assert_eq!(a.get_single_cmd().unwrap(), cmd);
}

#[test]
fn commands_reject_non_activation_causes() {
    let cmd = SingleCommandInfo::default();
    assert_eq!(
        Asdu::single_cmd(PARAMS_WIDE(), TypeId::C_SC_NA_1(), CauseOfTransmission::new(Cause::SPONTANEOUS()), 1, cmd),
        Err(Error::CmdCause)
    );
    assert!(Asdu::single_cmd(PARAMS_WIDE(), TypeId::C_SC_NA_1(), CauseOfTransmission::new(Cause::DEACTIVATION()), 1, cmd)
        .is_ok());
}

#[test]
fn commands_reject_a_mismatched_type_identification() {
    assert_eq!(
        Asdu::single_cmd(PARAMS_WIDE(), TypeId::C_DC_NA_1(), act(), 1, SingleCommandInfo::default()),
        Err(Error::TypeIdNotMatch)
    );
}

#[test]
fn every_command_family_round_trips_untagged_and_tagged() {
    let p = PARAMS_WIDE();
    let qoc = QualifierOfCommand { qual: QocQual::LONG_PULSE_DURATION(), in_select: false };
    let qos = QualifierOfSetpointCmd { qual: QosQual(3), in_select: true };

    let sc = SingleCommandInfo { ioa: 1, value: true, qoc, time: None };
    assert_eq!(Asdu::single_cmd(p, TypeId::C_SC_NA_1(), act(), 1, sc).unwrap().get_single_cmd().unwrap(), sc);
    let sc = SingleCommandInfo { time: t(), ..sc };
    assert_eq!(Asdu::single_cmd(p, TypeId::C_SC_TA_1(), act(), 1, sc).unwrap().get_single_cmd().unwrap(), sc);

    let dc = DoubleCommandInfo { ioa: 2, value: DoubleCommand::On, qoc, time: t() };
    assert_eq!(Asdu::double_cmd(p, TypeId::C_DC_TA_1(), act(), 1, dc).unwrap().get_double_cmd().unwrap(), dc);

    let rc = StepCommandInfo { ioa: 3, value: StepCommand::StepUp, qoc, time: None };
    assert_eq!(Asdu::step_cmd(p, TypeId::C_RC_NA_1(), act(), 1, rc).unwrap().get_step_cmd().unwrap(), rc);

    let na = SetpointCommandNormalInfo { ioa: 4, value: Normalize(-16384), qos, time: t() };
    assert_eq!(
        Asdu::setpoint_cmd_normal(p, TypeId::C_SE_TA_1(), act(), 1, na).unwrap().get_setpoint_normal_cmd().unwrap(),
        na
    );

    let nb = SetpointCommandScaledInfo { ioa: 5, value: -30000, qos, time: None };
    assert_eq!(
        Asdu::setpoint_cmd_scaled(p, TypeId::C_SE_NB_1(), act(), 1, nb).unwrap().get_setpoint_scaled_cmd().unwrap(),
        nb
    );

    let nc = SetpointCommandFloatInfo { ioa: 6, value: (-1.75f32).to_bits(), qos, time: t() };
    assert_eq!(
        Asdu::setpoint_cmd_float(p, TypeId::C_SE_TC_1(), act(), 1, nc).unwrap().get_setpoint_float_cmd().unwrap(),
        nc
    );

    let bo = BitsString32CommandInfo { ioa: 7, value: 0xcafe_babe, time: t() };
    assert_eq!(
        Asdu::bits_string32_cmd(p, TypeId::C_BO_TA_1(), act(), 1, bo).unwrap().get_bits_string32_cmd().unwrap(),
        bo
    );
}

#[test]
fn tagged_commands_survive_a_wire_round_trip() {
    let cmd = SingleCommandInfo { ioa: 6000, value: true, qoc: QualifierOfCommand::default(), time: t() };
    let a = Asdu::single_cmd(PARAMS_WIDE(), TypeId::C_SC_TA_1(), act(), 1, cmd).unwrap();
    let raw = a.marshal_binary().unwrap();
    let b = Asdu::unmarshal_binary(PARAMS_WIDE(), &raw).unwrap();
    assert_eq!(b.get_single_cmd().unwrap(), cmd);
}
