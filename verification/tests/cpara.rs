use rs_iec60870_5::asdu::{
    Asdu, Cause, CauseOfTransmission, Normalize, ParameterActivationInfo, ParameterFloatInfo,
    ParameterNormalInfo, ParameterScaledInfo, QpmCategory, QualifierOfParameterAct, QualifierOfParameterMv,
    PARAMS_WIDE,
};
use rs_iec60870_5::Error;

fn act() -> CauseOfTransmission {
    CauseOfTransmission::new(Cause::ACTIVATION())
}

#[test]
fn parameter_families_round_trip() {
    let qpm = QualifierOfParameterMv { category: QpmCategory::THRESHOLD(), is_change: true, is_in_operation: false };

    let n = ParameterNormalInfo { ioa: 400, value: Normalize(1024), qpm };
    assert_eq!(Asdu::parameter_normal(PARAMS_WIDE(), act(), 1, n).unwrap().get_parameter_normal().unwrap(), n);

    let s = ParameterScaledInfo { ioa: 401, value: -500, qpm };
    assert_eq!(Asdu::parameter_scaled(PARAMS_WIDE(), act(), 1, s).unwrap().get_parameter_scaled().unwrap(), s);

    let f = ParameterFloatInfo { ioa: 402, value: 12.5f32.to_bits(), qpm };
    assert_eq!(Asdu::parameter_float(PARAMS_WIDE(), act(), 1, f).unwrap().get_parameter_float().unwrap(), f);
    assert_eq!(f32::from_bits(f.value), 12.5);

    let a = ParameterActivationInfo { ioa: 403, qpa: QualifierOfParameterAct::DEACT_OBJECT_PARAMETER() };
    assert_eq!(Asdu::parameter_activation(PARAMS_WIDE(), act(), 1, a).unwrap().get_parameter_activation().unwrap(), a);
}

#[test]
fn parameters_require_activation() {
    let coa = CauseOfTransmission::new(Cause::SPONTANEOUS());
    assert_eq!(Asdu::parameter_normal(PARAMS_WIDE(), coa, 1, ParameterNormalInfo::default()), Err(Error::CmdCause));
    assert!(Asdu::parameter_activation(
        PARAMS_WIDE(),
        CauseOfTransmission::new(Cause::DEACTIVATION()),
        1,
        ParameterActivationInfo::default()
    )
    .is_ok());
}
