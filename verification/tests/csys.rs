use chrono::TimeZone as _;
use chrono::Utc;
use rs_iec60870_5::asdu::{
    Asdu, Cause, CauseOfInitial, CauseOfTransmission, CoiCause, QccFreeze, QccRequest, QualifierCountCall,
    QualifierOfInterrogation, QualifierOfResetProcessCmd, Timestamp, GLOBAL_COMMON_ADDR, PARAMS_STANDARD_101,
    PARAMS_WIDE,
};
use rs_iec60870_5::Error;

fn act() -> CauseOfTransmission {
    CauseOfTransmission::new(Cause::ACTIVATION())
}

fn ts(y: i32, mo: u32, d: u32, h: u32, mi: u32, s: u32) -> Timestamp {
    let dt = Utc.with_ymd_and_hms(y, mo, d, h, mi, s).unwrap();
    Timestamp::from_unix_millis(dt.timestamp_millis()).unwrap()
}

#[test]
fn interrogation_cmd_uses_the_irrelevant_address() {
    let a = Asdu::interrogation_cmd(PARAMS_WIDE(), act(), 1, QualifierOfInterrogation::STATION()).unwrap();
    assert_eq!(a.info_obj, vec![0, 0, 0, 20]);
    assert_eq!(a.get_interrogation_cmd().unwrap(), (0, QualifierOfInterrogation::STATION()));
}

#[test]
fn interrogation_cmd_rejects_other_causes() {
    assert_eq!(
        Asdu::interrogation_cmd(
            PARAMS_WIDE(),
            CauseOfTransmission::new(Cause::SPONTANEOUS()),
            1,
            QualifierOfInterrogation::STATION()
        ),
        Err(Error::CmdCause)
    );
}

#[test]
fn interrogation_cmd_may_be_broadcast() {
    let a = Asdu::interrogation_cmd(PARAMS_STANDARD_101(), act(), GLOBAL_COMMON_ADDR, QualifierOfInterrogation::GROUP1())
        .unwrap();
    let raw = a.marshal_binary().unwrap();
    assert_eq!(raw[3], 255);
}

#[test]
fn counter_interrogation_forces_activation() {
    let qcc = QualifierCountCall { request: QccRequest::TOTAL(), freeze: QccFreeze::FREEZE_RESET() };
    let a = Asdu::counter_interrogation_cmd(PARAMS_WIDE(), CauseOfTransmission::new(Cause::SPONTANEOUS()), 1, qcc)
        .unwrap();
    assert_eq!(a.coa().cause, Cause::ACTIVATION());
    assert_eq!(a.get_counter_interrogation_cmd().unwrap(), (0, qcc));
}

#[test]
fn read_cmd_forces_request_and_keeps_the_address() {
    let a = Asdu::read_cmd(PARAMS_WIDE(), act(), 1, 4242).unwrap();
    assert_eq!(a.coa().cause, Cause::REQUEST());
    assert_eq!(a.get_read_cmd().unwrap(), 4242);
}

#[test]
fn clock_sync_round_trips_the_time() {
    let t = ts(2026, 8, 17, 12, 34, 56);
    let a = Asdu::clock_synchronization_cmd(PARAMS_WIDE(), act(), 1, t).unwrap();
    assert_eq!(a.coa().cause, Cause::ACTIVATION());
    assert_eq!(a.get_clock_synchronization_cmd().unwrap(), (0, Some(t)));
}

#[test]
fn test_commands_carry_the_fixed_bit_pattern() {
    let a = Asdu::test_command(PARAMS_WIDE(), act(), 1).unwrap();
    assert_eq!(a.info_obj, vec![0, 0, 0, 0xaa, 0x55]);
    assert_eq!(a.get_test_command().unwrap(), (0, true));

    let t = ts(2026, 1, 1, 0, 0, 0);
    let a = Asdu::test_command_cp56time2a(PARAMS_WIDE(), act(), 1, t).unwrap();
    assert_eq!(a.get_test_command_cp56time2a().unwrap(), (0, true, Some(t)));
}

#[test]
fn reset_process_and_delay_acquisition_round_trip() {
    let a = Asdu::reset_process_cmd(PARAMS_WIDE(), act(), 1, QualifierOfResetProcessCmd::GENERAL_RESET()).unwrap();
    assert_eq!(a.get_reset_process_cmd().unwrap(), (0, QualifierOfResetProcessCmd::GENERAL_RESET()));

    let a = Asdu::delay_acquire_command(PARAMS_STANDARD_101(), act(), 1, 2500).unwrap();
    assert_eq!(a.get_delay_acquire_command().unwrap(), (0, 2500));
    assert_eq!(
        Asdu::delay_acquire_command(PARAMS_STANDARD_101(), CauseOfTransmission::new(Cause::REQUEST()), 1, 0),
        Err(Error::CmdCause)
    );
}

#[test]
fn end_of_initialization_forces_the_initialized_cause() {
    let coi = CauseOfInitial { cause: CoiCause::REMOTE_RESET(), is_local_change: true };
    let a = Asdu::end_of_initialization(PARAMS_WIDE(), act(), 1, 0, coi).unwrap();
    assert_eq!(a.coa().cause, Cause::INITIALIZED());
    assert_eq!(a.get_end_of_initialization().unwrap(), (0, coi));
}

#[test]
fn system_commands_survive_a_wire_round_trip() {
    let p = PARAMS_WIDE();
    let t = ts(2026, 5, 4, 3, 2, 1);
    for a in [
        Asdu::interrogation_cmd(p, act(), 1, QualifierOfInterrogation::STATION()).unwrap(),
        Asdu::counter_interrogation_cmd(p, act(), 1, QualifierCountCall::default()).unwrap(),
        Asdu::read_cmd(p, act(), 1, 99).unwrap(),
        Asdu::clock_synchronization_cmd(p, act(), 1, t).unwrap(),
        Asdu::test_command(p, act(), 1).unwrap(),
        Asdu::test_command_cp56time2a(p, act(), 1, t).unwrap(),
        Asdu::reset_process_cmd(p, act(), 1, QualifierOfResetProcessCmd::GENERAL_RESET()).unwrap(),
        Asdu::delay_acquire_command(p, act(), 1, 10).unwrap(),
        Asdu::end_of_initialization(p, act(), 1, 0, CauseOfInitial::default()).unwrap(),
    ] {
        let raw = a.marshal_binary().unwrap();
        assert_eq!(Asdu::unmarshal_binary(p, &raw).unwrap(), a, "round trip failed for {}", a.type_id().to_string());
    }
}

#[test]
fn a_clock_sync_with_an_invalid_time_carries_no_time() {
    let t = ts(2026, 3, 4, 5, 6, 7);
    let mut a =
        Asdu::clock_synchronization_cmd(PARAMS_WIDE(), CauseOfTransmission::new(Cause::ACTIVATION()), 1, t).unwrap();
    a.info_obj[3 + 2] |= 0x80;
    assert_eq!(a.get_clock_synchronization_cmd().unwrap().1, None);
}
