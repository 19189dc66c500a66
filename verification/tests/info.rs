use rs_iec60870_5::asdu::{
    CauseOfInitial, QocQual, QualifierCountCall, QualifierOfCommand, QualifierOfInterrogation,
    QualifierOfSetpointCmd, QualityDescriptor, StepPosition,
};

#[test]
fn step_position_sign_extends_the_seven_bit_field() {
    for v in -64i8..=63 {
        for transient in [false, true] {
            let sp = StepPosition { val: v, has_transient: transient };
            assert_eq!(StepPosition::parse(sp.value()), sp, "val {v}");
        }
    }
    assert_eq!(StepPosition::parse(0x40).val, -64);
    assert_eq!(StepPosition::parse(0x3f).val, 63);
    assert!(StepPosition::parse(0x80).has_transient);
}

#[test]
fn qualifier_of_command_round_trips() {
    for qual in 0u8..32 {
        for sel in [false, true] {
            let q = QualifierOfCommand { qual: QocQual(qual), in_select: sel };
            assert_eq!(QualifierOfCommand::parse(q.value()), q);
        }
    }
}

#[test]
fn qualifier_of_setpoint_round_trips() {
    for b in 0u8..=255 {
        assert_eq!(QualifierOfSetpointCmd::parse(b).value(), b);
    }
}

#[test]
fn counter_call_qualifier_round_trips() {
    for b in 0u8..=255 {
        assert_eq!(QualifierCountCall::parse(b).value(), b);
    }
}

#[test]
fn quality_descriptor_formats_flags() {
    assert_eq!(QualityDescriptor::GOOD().to_string(), "Good");
    assert_eq!(QualityDescriptor::INVALID().to_string(), "Invalid");
    assert_eq!(
        (QualityDescriptor::OVERFLOW() | QualityDescriptor::INVALID()).to_string(),
        "Overflow,Invalid"
    );
    assert_eq!(QualityDescriptor(0x02).to_string(), "QualityDescriptor(2)");
}

#[test]
fn cause_of_initial_round_trips() {
    for b in 0u8..=255 {
        assert_eq!(CauseOfInitial::parse(b).value(), b);
    }
}

#[test]
fn interrogation_groups_are_bounded() {
    assert_eq!(QualifierOfInterrogation::group(1), Some(QualifierOfInterrogation::GROUP1()));
    assert_eq!(QualifierOfInterrogation::group(16), Some(QualifierOfInterrogation::GROUP16()));
    assert_eq!(QualifierOfInterrogation::group(17), None);
    assert_eq!(QualifierOfInterrogation::group(0), None);
}
