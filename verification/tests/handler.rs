use rs_iec60870_5::asdu::{Cause, TypeId};
use rs_iec60870_5::cs101::handler::{
    client_route, is_counter_type, is_monitor_type, server_route, ClientRoute, ServerRoute,
};

#[test]
fn monitor_types_cover_both_standard_ranges() {
    assert!(is_monitor_type(TypeId::M_SP_NA_1()));
    assert!(is_monitor_type(TypeId::M_ME_ND_1()));
    assert!(is_monitor_type(TypeId::M_SP_TB_1()));
    assert!(is_monitor_type(TypeId::M_EP_TF_1()));
    assert!(!is_monitor_type(TypeId::S_IT_TC_1()));
    assert!(!is_monitor_type(TypeId::C_SC_NA_1()));
    assert!(!is_monitor_type(TypeId::M_EI_NA_1()));
}

#[test]
fn counter_types_are_the_integrated_totals() {
    assert!(is_counter_type(TypeId::M_IT_NA_1()));
    assert!(is_counter_type(TypeId::M_IT_TA_1()));
    assert!(is_counter_type(TypeId::M_IT_TB_1()));
    assert!(!is_counter_type(TypeId::M_ME_NC_1()));
}

#[test]
fn client_routes_confirmations_by_type_and_data_by_cause() {
    assert_eq!(client_route(TypeId::C_IC_NA_1(), Cause::ACTIVATION_CON()), ClientRoute::Interrogation);
    assert_eq!(client_route(TypeId::C_TS_NA_1(), Cause::ACTIVATION_CON()), ClientRoute::TestCommand);
    assert_eq!(
        client_route(TypeId::M_ME_NC_1(), Cause::INTERROGATED_BY_STATION()),
        ClientRoute::Interrogation
    );
    assert_eq!(
        client_route(TypeId::M_IT_NA_1(), Cause::REQUEST_BY_GENERAL_COUNTER()),
        ClientRoute::CounterInterrogation
    );
    assert_eq!(client_route(TypeId::M_ME_NC_1(), Cause::SPONTANEOUS()), ClientRoute::Other);
    // Monitor data under a counter request cause is not a counter answer.
    assert_eq!(
        client_route(TypeId::M_ME_NC_1(), Cause::REQUEST_BY_GENERAL_COUNTER()),
        ClientRoute::Other
    );
}

#[test]
fn server_routes_commands_by_type() {
    assert_eq!(server_route(TypeId::C_IC_NA_1()), ServerRoute::Interrogation);
    assert_eq!(server_route(TypeId::C_CI_NA_1()), ServerRoute::CounterInterrogation);
    assert_eq!(server_route(TypeId::C_RD_NA_1()), ServerRoute::Read);
    assert_eq!(server_route(TypeId::C_CS_NA_1()), ServerRoute::ClockSync);
    assert_eq!(server_route(TypeId::C_RP_NA_1()), ServerRoute::ResetProcess);
    assert_eq!(server_route(TypeId::C_CD_NA_1()), ServerRoute::DelayAcquisition);
    assert_eq!(server_route(TypeId::C_TS_NA_1()), ServerRoute::Other);
    assert_eq!(server_route(TypeId::C_SC_NA_1()), ServerRoute::Other);
}
