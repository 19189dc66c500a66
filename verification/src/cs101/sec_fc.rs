//! Function codes sent by the secondary station (PRM = 0).

use vstd::prelude::*;

verus! {

/// 0: positive acknowledgement
pub const CONF_ACK: u8 = 0;

/// 1: negative acknowledgement, link busy
pub const CONF_NACK: u8 = 1;

/// 8: user data
pub const USER_DATA_CONF: u8 = 8;

/// 9: negative acknowledgement, requested data not available
pub const USER_DATA_NO_REP: u8 = 9;

/// 11: status of link / access demand
pub const RESP_STATUS: u8 = 11;

/// 14: link service not functioning
pub const RESP_LINK_NF: u8 = 14;

/// 15: link service not implemented
pub const RESP_LINK_NI: u8 = 15;

} // verus!
