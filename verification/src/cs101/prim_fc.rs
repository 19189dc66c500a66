//! Function codes sent by the primary station (PRM = 1).

use vstd::prelude::*;

verus! {

/// 0: reset of remote link
pub const RESET_LINK: u8 = 0;

/// 1: reset of user process
pub const RESET_USER: u8 = 1;

/// 2: test function of link
pub const TEST_LINK: u8 = 2;

/// 3: user data, confirmed
pub const USER_DATA_CONF: u8 = 3;

/// 4: user data, unconfirmed
pub const USER_DATA_NO_CONF: u8 = 4;

/// 8: request access demand
pub const REQ_ACCESS: u8 = 8;

/// 9: request status of link
pub const REQ_STATUS: u8 = 9;

/// 10: request user data class 1
pub const REQ_DATA1: u8 = 10;

/// 11: request user data class 2
pub const REQ_DATA2: u8 = 11;

} // verus!
