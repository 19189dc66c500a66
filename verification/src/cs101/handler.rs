//! Which handler method an incoming ASDU goes to.
//!
//! The handler traits themselves, which applications implement, and the
//! calls into them live with the endpoints; this module holds the choice of
//! method, so that it is the same wherever an ASDU arrives.

use vstd::prelude::*;

use crate::asdu::identifier::{Cause, TypeId};

verus! {

/// A monitor-direction process-information type: `M_SP_NA_1..=M_ME_ND_1`
/// (1..=21) or `M_SP_TB_1..=M_EP_TF_1` (30..=40).
pub open spec fn spec_is_monitor_type(t: TypeId) -> bool {
    (1 <= t.0 <= 21) || (30 <= t.0 <= 40)
}

/// True for the monitor-direction process-information types, the ones an
/// interrogation returns.
pub fn is_monitor_type(t: TypeId) -> (b: bool)
    ensures
        b == spec_is_monitor_type(t),
{
    (t.0 >= 1 && t.0 <= 21) || (t.0 >= 30 && t.0 <= 40)
}

/// An integrated-totals type: `M_IT_NA_1` (15), `M_IT_TA_1` (16) or
/// `M_IT_TB_1` (37).
pub open spec fn spec_is_counter_type(t: TypeId) -> bool {
    t.0 == 15 || t.0 == 16 || t.0 == 37
}

/// True for the integrated-totals types, the ones a counter interrogation
/// returns.
pub fn is_counter_type(t: TypeId) -> (b: bool)
    ensures
        b == spec_is_counter_type(t),
{
    t.0 == 15 || t.0 == 16 || t.0 == 37
}

/// The client handler method an ASDU goes to.
#[derive(Debug, Clone, Copy, PartialEq, Eq, Structural)]
pub enum ClientRoute {
    /// `interrogation`.
    Interrogation,
    /// `counter_interrogation`.
    CounterInterrogation,
    /// `read`.
    Read,
    /// `test_command`.
    TestCommand,
    /// `clock_sync`.
    ClockSync,
    /// `reset_process`.
    ResetProcess,
    /// `delay_acquisition`.
    DelayAcquisition,
    /// `asdu`, for everything else.
    Other,
}

/// The client handler method for an ASDU of type `t` and cause `cause`: the
/// system command confirmations by their type, then monitor data answering an
/// interrogation and integrated totals answering a counter interrogation, and
/// everything else to the general method.
pub open spec fn spec_client_route(t: TypeId, cause: Cause) -> ClientRoute {
    if t.0 == 100 {
        ClientRoute::Interrogation
    } else if t.0 == 101 {
        ClientRoute::CounterInterrogation
    } else if t.0 == 102 {
        ClientRoute::Read
    } else if t.0 == 104 {
        ClientRoute::TestCommand
    } else if t.0 == 103 {
        ClientRoute::ClockSync
    } else if t.0 == 105 {
        ClientRoute::ResetProcess
    } else if t.0 == 106 {
        ClientRoute::DelayAcquisition
    } else if cause.spec_is_interrogation() && spec_is_monitor_type(t) {
        ClientRoute::Interrogation
    } else if cause.spec_is_counter_request() && spec_is_counter_type(t) {
        ClientRoute::CounterInterrogation
    } else {
        ClientRoute::Other
    }
}

/// Choose the client handler method for an ASDU.
pub fn client_route(t: TypeId, cause: Cause) -> (r: ClientRoute)
    ensures
        r == spec_client_route(t, cause),
{
    match t.0 {
        100 => ClientRoute::Interrogation,
        101 => ClientRoute::CounterInterrogation,
        102 => ClientRoute::Read,
        104 => ClientRoute::TestCommand,
        103 => ClientRoute::ClockSync,
        105 => ClientRoute::ResetProcess,
        106 => ClientRoute::DelayAcquisition,
        _ => {
            if cause.is_interrogation() && is_monitor_type(t) {
                ClientRoute::Interrogation
            } else if cause.is_counter_request() && is_counter_type(t) {
                ClientRoute::CounterInterrogation
            } else {
                ClientRoute::Other
            }
        },
    }
}

/// The server handler method a command goes to.
#[derive(Debug, Clone, Copy, PartialEq, Eq, Structural)]
pub enum ServerRoute {
    /// `interrogation`, with the qualifier of `C_IC_NA_1`.
    Interrogation,
    /// `counter_interrogation`, with the qualifier of `C_CI_NA_1`.
    CounterInterrogation,
    /// `read`, with the address of `C_RD_NA_1`.
    Read,
    /// `clock_sync`, with the time of `C_CS_NA_1`.
    ClockSync,
    /// `reset_process`, with the qualifier of `C_RP_NA_1`.
    ResetProcess,
    /// `delay_acquisition`, with the delay of `C_CD_NA_1`.
    DelayAcquisition,
    /// `asdu`, for everything else.
    Other,
}

/// The server handler method for an ASDU of type `t`.
pub open spec fn spec_server_route(t: TypeId) -> ServerRoute {
    if t.0 == 100 {
        ServerRoute::Interrogation
    } else if t.0 == 101 {
        ServerRoute::CounterInterrogation
    } else if t.0 == 102 {
        ServerRoute::Read
    } else if t.0 == 103 {
        ServerRoute::ClockSync
    } else if t.0 == 105 {
        ServerRoute::ResetProcess
    } else if t.0 == 106 {
        ServerRoute::DelayAcquisition
    } else {
        ServerRoute::Other
    }
}

/// Choose the server handler method for an ASDU.
pub fn server_route(t: TypeId) -> (r: ServerRoute)
    ensures
        r == spec_server_route(t),
{
    match t.0 {
        100 => ServerRoute::Interrogation,
        101 => ServerRoute::CounterInterrogation,
        102 => ServerRoute::Read,
        103 => ServerRoute::ClockSync,
        105 => ServerRoute::ResetProcess,
        106 => ServerRoute::DelayAcquisition,
        _ => ServerRoute::Other,
    }
}

} // verus!
