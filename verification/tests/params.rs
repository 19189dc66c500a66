use rs_iec60870_5::asdu::{Params, PARAMS_NARROW, PARAMS_STANDARD_101, PARAMS_STANDARD_104, PARAMS_WIDE};

#[test]
fn identifier_sizes_match_the_standard_layouts() {
    assert_eq!(PARAMS_NARROW().identifier_size(), 4);
    assert_eq!(PARAMS_STANDARD_101().identifier_size(), 4);
    assert_eq!(PARAMS_WIDE().identifier_size(), 6);
    assert_eq!(PARAMS_STANDARD_104().identifier_size(), 6);
}

#[test]
fn params_reject_out_of_range_widths() {
    assert!(PARAMS_WIDE().valid().is_ok());
    let bad = Params { info_obj_addr_size: 4, ..PARAMS_WIDE() };
    assert!(bad.valid().is_err());
}

#[test]
fn common_addr_must_fit_the_configured_width() {
    assert!(PARAMS_STANDARD_101().valid_common_addr(0).is_err());
    assert!(PARAMS_STANDARD_101().valid_common_addr(255).is_ok());
    assert!(PARAMS_STANDARD_101().valid_common_addr(256).is_err());
    assert!(PARAMS_WIDE().valid_common_addr(65535).is_ok());
}
