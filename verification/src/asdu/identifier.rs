//! The data unit identifier: type identification, variable structure qualifier,
//! cause of transmission and common address.

use vstd::prelude::*;

use crate::error::{Error, Result};
use crate::text::{decimal, decimal_string};

verus! {

/// ASDU type identification. See companion standard 101, subclass 7.2.1.
///
/// A newtype over the wire octet so that private and reserved identifications
/// (`128..=255`) round-trip unchanged. The standard identifications are the
/// associated functions named by their mnemonic, such as [`TypeId::M_SP_NA_1`].
#[derive(Debug, Clone, Copy, PartialEq, Eq, Hash, Structural)]
pub struct TypeId(pub u8);

#[allow(non_snake_case)]
impl TypeId {
    /// 1: single-point information
    pub fn M_SP_NA_1() -> (t: TypeId)
        ensures
            t.0 == 1,
    {
        TypeId(1)
    }

    /// 2: single-point information with CP24Time2a time tag
    pub fn M_SP_TA_1() -> (t: TypeId)
        ensures
            t.0 == 2,
    {
        TypeId(2)
    }

    /// 3: double-point information
    pub fn M_DP_NA_1() -> (t: TypeId)
        ensures
            t.0 == 3,
    {
        TypeId(3)
    }

    /// 4: double-point information with CP24Time2a time tag
    pub fn M_DP_TA_1() -> (t: TypeId)
        ensures
            t.0 == 4,
    {
        TypeId(4)
    }

    /// 5: step position information
    pub fn M_ST_NA_1() -> (t: TypeId)
        ensures
            t.0 == 5,
    {
        TypeId(5)
    }

    /// 6: step position information with CP24Time2a time tag
    pub fn M_ST_TA_1() -> (t: TypeId)
        ensures
            t.0 == 6,
    {
        TypeId(6)
    }

    /// 7: bitstring of 32 bits
    pub fn M_BO_NA_1() -> (t: TypeId)
        ensures
            t.0 == 7,
    {
        TypeId(7)
    }

    /// 8: bitstring of 32 bits with CP24Time2a time tag
    pub fn M_BO_TA_1() -> (t: TypeId)
        ensures
            t.0 == 8,
    {
        TypeId(8)
    }

    /// 9: measured value, normalized value
    pub fn M_ME_NA_1() -> (t: TypeId)
        ensures
            t.0 == 9,
    {
        TypeId(9)
    }

    /// 10: measured value, normalized value with CP24Time2a time tag
    pub fn M_ME_TA_1() -> (t: TypeId)
        ensures
            t.0 == 10,
    {
        TypeId(10)
    }

    /// 11: measured value, scaled value
    pub fn M_ME_NB_1() -> (t: TypeId)
        ensures
            t.0 == 11,
    {
        TypeId(11)
    }

    /// 12: measured value, scaled value with CP24Time2a time tag
    pub fn M_ME_TB_1() -> (t: TypeId)
        ensures
            t.0 == 12,
    {
        TypeId(12)
    }

    /// 13: measured value, short floating point number
    pub fn M_ME_NC_1() -> (t: TypeId)
        ensures
            t.0 == 13,
    {
        TypeId(13)
    }

    /// 14: measured value, short floating point number with CP24Time2a time tag
    pub fn M_ME_TC_1() -> (t: TypeId)
        ensures
            t.0 == 14,
    {
        TypeId(14)
    }

    /// 15: integrated totals
    pub fn M_IT_NA_1() -> (t: TypeId)
        ensures
            t.0 == 15,
    {
        TypeId(15)
    }

    /// 16: integrated totals with CP24Time2a time tag
    pub fn M_IT_TA_1() -> (t: TypeId)
        ensures
            t.0 == 16,
    {
        TypeId(16)
    }

    /// 17: event of protection equipment with CP24Time2a time tag
    pub fn M_EP_TA_1() -> (t: TypeId)
        ensures
            t.0 == 17,
    {
        TypeId(17)
    }

    /// 18: packed start events of protection equipment with CP24Time2a time tag
    pub fn M_EP_TB_1() -> (t: TypeId)
        ensures
            t.0 == 18,
    {
        TypeId(18)
    }

    /// 19: packed output circuit information of protection equipment, CP24Time2a
    pub fn M_EP_TC_1() -> (t: TypeId)
        ensures
            t.0 == 19,
    {
        TypeId(19)
    }

    /// 20: packed single-point information with status change detection
    pub fn M_PS_NA_1() -> (t: TypeId)
        ensures
            t.0 == 20,
    {
        TypeId(20)
    }

    /// 21: measured value, normalized value without quality descriptor
    pub fn M_ME_ND_1() -> (t: TypeId)
        ensures
            t.0 == 21,
    {
        TypeId(21)
    }

    /// 30: single-point information with CP56Time2a time tag
    pub fn M_SP_TB_1() -> (t: TypeId)
        ensures
            t.0 == 30,
    {
        TypeId(30)
    }

    /// 31: double-point information with CP56Time2a time tag
    pub fn M_DP_TB_1() -> (t: TypeId)
        ensures
            t.0 == 31,
    {
        TypeId(31)
    }

    /// 32: step position information with CP56Time2a time tag
    pub fn M_ST_TB_1() -> (t: TypeId)
        ensures
            t.0 == 32,
    {
        TypeId(32)
    }

    /// 33: bitstring of 32 bits with CP56Time2a time tag
    pub fn M_BO_TB_1() -> (t: TypeId)
        ensures
            t.0 == 33,
    {
        TypeId(33)
    }

    /// 34: measured value, normalized value with CP56Time2a time tag
    pub fn M_ME_TD_1() -> (t: TypeId)
        ensures
            t.0 == 34,
    {
        TypeId(34)
    }

    /// 35: measured value, scaled value with CP56Time2a time tag
    pub fn M_ME_TE_1() -> (t: TypeId)
        ensures
            t.0 == 35,
    {
        TypeId(35)
    }

    /// 36: measured value, short floating point number with CP56Time2a time tag
    pub fn M_ME_TF_1() -> (t: TypeId)
        ensures
            t.0 == 36,
    {
        TypeId(36)
    }

    /// 37: integrated totals with CP56Time2a time tag
    pub fn M_IT_TB_1() -> (t: TypeId)
        ensures
            t.0 == 37,
    {
        TypeId(37)
    }

    /// 38: event of protection equipment with CP56Time2a time tag
    pub fn M_EP_TD_1() -> (t: TypeId)
        ensures
            t.0 == 38,
    {
        TypeId(38)
    }

    /// 39: packed start events of protection equipment with CP56Time2a time tag
    pub fn M_EP_TE_1() -> (t: TypeId)
        ensures
            t.0 == 39,
    {
        TypeId(39)
    }

    /// 40: packed output circuit information of protection equipment, CP56Time2a
    pub fn M_EP_TF_1() -> (t: TypeId)
        ensures
            t.0 == 40,
    {
        TypeId(40)
    }

    /// 41: integrated totals containing time-tagged security statistics
    pub fn S_IT_TC_1() -> (t: TypeId)
        ensures
            t.0 == 41,
    {
        TypeId(41)
    }

    /// 45: single command
    pub fn C_SC_NA_1() -> (t: TypeId)
        ensures
            t.0 == 45,
    {
        TypeId(45)
    }

    /// 46: double command
    pub fn C_DC_NA_1() -> (t: TypeId)
        ensures
            t.0 == 46,
    {
        TypeId(46)
    }

    /// 47: regulating step command
    pub fn C_RC_NA_1() -> (t: TypeId)
        ensures
            t.0 == 47,
    {
        TypeId(47)
    }

    /// 48: set-point command, normalized value
    pub fn C_SE_NA_1() -> (t: TypeId)
        ensures
            t.0 == 48,
    {
        TypeId(48)
    }

    /// 49: set-point command, scaled value
    pub fn C_SE_NB_1() -> (t: TypeId)
        ensures
            t.0 == 49,
    {
        TypeId(49)
    }

    /// 50: set-point command, short floating point number
    pub fn C_SE_NC_1() -> (t: TypeId)
        ensures
            t.0 == 50,
    {
        TypeId(50)
    }

    /// 51: bitstring of 32 bits command
    pub fn C_BO_NA_1() -> (t: TypeId)
        ensures
            t.0 == 51,
    {
        TypeId(51)
    }

    /// 58: single command with CP56Time2a time tag
    pub fn C_SC_TA_1() -> (t: TypeId)
        ensures
            t.0 == 58,
    {
        TypeId(58)
    }

    /// 59: double command with CP56Time2a time tag
    pub fn C_DC_TA_1() -> (t: TypeId)
        ensures
            t.0 == 59,
    {
        TypeId(59)
    }

    /// 60: regulating step command with CP56Time2a time tag
    pub fn C_RC_TA_1() -> (t: TypeId)
        ensures
            t.0 == 60,
    {
        TypeId(60)
    }

    /// 61: set-point command, normalized value, with CP56Time2a time tag
    pub fn C_SE_TA_1() -> (t: TypeId)
        ensures
            t.0 == 61,
    {
        TypeId(61)
    }

    /// 62: set-point command, scaled value, with CP56Time2a time tag
    pub fn C_SE_TB_1() -> (t: TypeId)
        ensures
            t.0 == 62,
    {
        TypeId(62)
    }

    /// 63: set-point command, short float, with CP56Time2a time tag
    pub fn C_SE_TC_1() -> (t: TypeId)
        ensures
            t.0 == 63,
    {
        TypeId(63)
    }

    /// 64: bitstring of 32 bits command with CP56Time2a time tag
    pub fn C_BO_TA_1() -> (t: TypeId)
        ensures
            t.0 == 64,
    {
        TypeId(64)
    }

    /// 70: end of initialization
    pub fn M_EI_NA_1() -> (t: TypeId)
        ensures
            t.0 == 70,
    {
        TypeId(70)
    }

    /// 81: authentication challenge (IEC 62351-5)
    pub fn S_CH_NA_1() -> (t: TypeId)
        ensures
            t.0 == 81,
    {
        TypeId(81)
    }

    /// 82: authentication reply (IEC 62351-5)
    pub fn S_RP_NA_1() -> (t: TypeId)
        ensures
            t.0 == 82,
    {
        TypeId(82)
    }

    /// 83: aggressive mode authentication request (IEC 62351-5)
    pub fn S_AR_NA_1() -> (t: TypeId)
        ensures
            t.0 == 83,
    {
        TypeId(83)
    }

    /// 84: session key status request (IEC 62351-5)
    pub fn S_KR_NA_1() -> (t: TypeId)
        ensures
            t.0 == 84,
    {
        TypeId(84)
    }

    /// 85: session key status (IEC 62351-5)
    pub fn S_KS_NA_1() -> (t: TypeId)
        ensures
            t.0 == 85,
    {
        TypeId(85)
    }

    /// 86: session key change (IEC 62351-5)
    pub fn S_KC_NA_1() -> (t: TypeId)
        ensures
            t.0 == 86,
    {
        TypeId(86)
    }

    /// 87: authentication error (IEC 62351-5)
    pub fn S_ER_NA_1() -> (t: TypeId)
        ensures
            t.0 == 87,
    {
        TypeId(87)
    }

    /// 90: user status change (IEC 62351-5)
    pub fn S_US_NA_1() -> (t: TypeId)
        ensures
            t.0 == 90,
    {
        TypeId(90)
    }

    /// 91: update key change request (IEC 62351-5)
    pub fn S_UQ_NA_1() -> (t: TypeId)
        ensures
            t.0 == 91,
    {
        TypeId(91)
    }

    /// 92: update key change reply (IEC 62351-5)
    pub fn S_UR_NA_1() -> (t: TypeId)
        ensures
            t.0 == 92,
    {
        TypeId(92)
    }

    /// 93: update key change, symmetric (IEC 62351-5)
    pub fn S_UK_NA_1() -> (t: TypeId)
        ensures
            t.0 == 93,
    {
        TypeId(93)
    }

    /// 94: update key change, asymmetric (IEC 62351-5)
    pub fn S_UA_NA_1() -> (t: TypeId)
        ensures
            t.0 == 94,
    {
        TypeId(94)
    }

    /// 95: update key change confirmation (IEC 62351-5)
    pub fn S_UC_NA_1() -> (t: TypeId)
        ensures
            t.0 == 95,
    {
        TypeId(95)
    }

    /// 100: interrogation command
    pub fn C_IC_NA_1() -> (t: TypeId)
        ensures
            t.0 == 100,
    {
        TypeId(100)
    }

    /// 101: counter interrogation command
    pub fn C_CI_NA_1() -> (t: TypeId)
        ensures
            t.0 == 101,
    {
        TypeId(101)
    }

    /// 102: read command
    pub fn C_RD_NA_1() -> (t: TypeId)
        ensures
            t.0 == 102,
    {
        TypeId(102)
    }

    /// 103: clock synchronization command
    pub fn C_CS_NA_1() -> (t: TypeId)
        ensures
            t.0 == 103,
    {
        TypeId(103)
    }

    /// 104: test command
    pub fn C_TS_NA_1() -> (t: TypeId)
        ensures
            t.0 == 104,
    {
        TypeId(104)
    }

    /// 105: reset process command
    pub fn C_RP_NA_1() -> (t: TypeId)
        ensures
            t.0 == 105,
    {
        TypeId(105)
    }

    /// 106: delay acquisition command (IEC 101 only)
    pub fn C_CD_NA_1() -> (t: TypeId)
        ensures
            t.0 == 106,
    {
        TypeId(106)
    }

    /// 107: test command with CP56Time2a time tag
    pub fn C_TS_TA_1() -> (t: TypeId)
        ensures
            t.0 == 107,
    {
        TypeId(107)
    }

    /// 110: parameter of measured value, normalized value
    pub fn P_ME_NA_1() -> (t: TypeId)
        ensures
            t.0 == 110,
    {
        TypeId(110)
    }

    /// 111: parameter of measured value, scaled value
    pub fn P_ME_NB_1() -> (t: TypeId)
        ensures
            t.0 == 111,
    {
        TypeId(111)
    }

    /// 112: parameter of measured value, short floating point number
    pub fn P_ME_NC_1() -> (t: TypeId)
        ensures
            t.0 == 112,
    {
        TypeId(112)
    }

    /// 113: parameter activation
    pub fn P_AC_NA_1() -> (t: TypeId)
        ensures
            t.0 == 113,
    {
        TypeId(113)
    }

    /// 120: file ready
    pub fn F_FR_NA_1() -> (t: TypeId)
        ensures
            t.0 == 120,
    {
        TypeId(120)
    }

    /// 121: section ready
    pub fn F_SR_NA_1() -> (t: TypeId)
        ensures
            t.0 == 121,
    {
        TypeId(121)
    }

    /// 122: call directory, select file, call file, call section
    pub fn F_SC_NA_1() -> (t: TypeId)
        ensures
            t.0 == 122,
    {
        TypeId(122)
    }

    /// 123: last section, last segment
    pub fn F_LS_NA_1() -> (t: TypeId)
        ensures
            t.0 == 123,
    {
        TypeId(123)
    }

    /// 124: ack file, ack section
    pub fn F_AF_NA_1() -> (t: TypeId)
        ensures
            t.0 == 124,
    {
        TypeId(124)
    }

    /// 125: segment
    pub fn F_SG_NA_1() -> (t: TypeId)
        ensures
            t.0 == 125,
    {
        TypeId(125)
    }

    /// 126: directory
    pub fn F_DR_TA_1() -> (t: TypeId)
        ensures
            t.0 == 126,
    {
        TypeId(126)
    }

    /// 127: QueryLog, request archive file (IEC 104 section)
    pub fn F_SC_NB_1() -> (t: TypeId)
        ensures
            t.0 == 127,
    {
        TypeId(127)
    }

}

/// The mnemonic of a standard type identification.
pub open spec fn type_id_mnemonic(v: u8) -> Option<Seq<char>> {
    match v {
        1u8 => Some("M_SP_NA_1"@),
        2u8 => Some("M_SP_TA_1"@),
        3u8 => Some("M_DP_NA_1"@),
        4u8 => Some("M_DP_TA_1"@),
        5u8 => Some("M_ST_NA_1"@),
        6u8 => Some("M_ST_TA_1"@),
        7u8 => Some("M_BO_NA_1"@),
        8u8 => Some("M_BO_TA_1"@),
        9u8 => Some("M_ME_NA_1"@),
        10u8 => Some("M_ME_TA_1"@),
        11u8 => Some("M_ME_NB_1"@),
        12u8 => Some("M_ME_TB_1"@),
        13u8 => Some("M_ME_NC_1"@),
        14u8 => Some("M_ME_TC_1"@),
        15u8 => Some("M_IT_NA_1"@),
        16u8 => Some("M_IT_TA_1"@),
        17u8 => Some("M_EP_TA_1"@),
        18u8 => Some("M_EP_TB_1"@),
        19u8 => Some("M_EP_TC_1"@),
        20u8 => Some("M_PS_NA_1"@),
        21u8 => Some("M_ME_ND_1"@),
        30u8 => Some("M_SP_TB_1"@),
        31u8 => Some("M_DP_TB_1"@),
        32u8 => Some("M_ST_TB_1"@),
        33u8 => Some("M_BO_TB_1"@),
        34u8 => Some("M_ME_TD_1"@),
        35u8 => Some("M_ME_TE_1"@),
        36u8 => Some("M_ME_TF_1"@),
        37u8 => Some("M_IT_TB_1"@),
        38u8 => Some("M_EP_TD_1"@),
        39u8 => Some("M_EP_TE_1"@),
        40u8 => Some("M_EP_TF_1"@),
        41u8 => Some("S_IT_TC_1"@),
        45u8 => Some("C_SC_NA_1"@),
        46u8 => Some("C_DC_NA_1"@),
        47u8 => Some("C_RC_NA_1"@),
        48u8 => Some("C_SE_NA_1"@),
        49u8 => Some("C_SE_NB_1"@),
        50u8 => Some("C_SE_NC_1"@),
        51u8 => Some("C_BO_NA_1"@),
        58u8 => Some("C_SC_TA_1"@),
        59u8 => Some("C_DC_TA_1"@),
        60u8 => Some("C_RC_TA_1"@),
        61u8 => Some("C_SE_TA_1"@),
        62u8 => Some("C_SE_TB_1"@),
        63u8 => Some("C_SE_TC_1"@),
        64u8 => Some("C_BO_TA_1"@),
        70u8 => Some("M_EI_NA_1"@),
        81u8 => Some("S_CH_NA_1"@),
        82u8 => Some("S_RP_NA_1"@),
        83u8 => Some("S_AR_NA_1"@),
        84u8 => Some("S_KR_NA_1"@),
        85u8 => Some("S_KS_NA_1"@),
        86u8 => Some("S_KC_NA_1"@),
        87u8 => Some("S_ER_NA_1"@),
        90u8 => Some("S_US_NA_1"@),
        91u8 => Some("S_UQ_NA_1"@),
        92u8 => Some("S_UR_NA_1"@),
        93u8 => Some("S_UK_NA_1"@),
        94u8 => Some("S_UA_NA_1"@),
        95u8 => Some("S_UC_NA_1"@),
        100u8 => Some("C_IC_NA_1"@),
        101u8 => Some("C_CI_NA_1"@),
        102u8 => Some("C_RD_NA_1"@),
        103u8 => Some("C_CS_NA_1"@),
        104u8 => Some("C_TS_NA_1"@),
        105u8 => Some("C_RP_NA_1"@),
        106u8 => Some("C_CD_NA_1"@),
        107u8 => Some("C_TS_TA_1"@),
        110u8 => Some("P_ME_NA_1"@),
        111u8 => Some("P_ME_NB_1"@),
        112u8 => Some("P_ME_NC_1"@),
        113u8 => Some("P_AC_NA_1"@),
        120u8 => Some("F_FR_NA_1"@),
        121u8 => Some("F_SR_NA_1"@),
        122u8 => Some("F_SC_NA_1"@),
        123u8 => Some("F_LS_NA_1"@),
        124u8 => Some("F_AF_NA_1"@),
        125u8 => Some("F_SG_NA_1"@),
        126u8 => Some("F_DR_TA_1"@),
        127u8 => Some("F_SC_NB_1"@),
        _ => None,
    }
}

/// Octets of one information element set of a type, excluding the
/// information object address; `None` for the types without a fixed size.
pub open spec fn info_obj_size_of(v: u8) -> Option<usize> {
    match v {
        1 | 3 => Some(1usize),
        2 | 4 => Some(4usize),
        5 => Some(2usize),
        6 => Some(5usize),
        7 => Some(5usize),
        8 => Some(8usize),
        9 | 11 => Some(3usize),
        10 | 12 => Some(6usize),
        13 => Some(5usize),
        14 => Some(8usize),
        15 => Some(5usize),
        16 => Some(8usize),
        17 => Some(6usize),
        18 | 19 => Some(7usize),
        20 => Some(5usize),
        21 => Some(2usize),
        30 | 31 => Some(8usize),
        32 => Some(9usize),
        33 => Some(12usize),
        34 | 35 => Some(10usize),
        36 | 37 => Some(12usize),
        38 => Some(10usize),
        39 | 40 => Some(11usize),
        45 | 46 | 47 => Some(1usize),
        48 | 49 => Some(3usize),
        50 => Some(5usize),
        51 => Some(4usize),
        58 | 59 | 60 => Some(8usize),
        61 | 62 => Some(10usize),
        63 => Some(12usize),
        64 => Some(11usize),
        70 => Some(1usize),
        100 | 101 => Some(1usize),
        102 => Some(0usize),
        103 => Some(7usize),
        104 => Some(2usize),
        105 => Some(1usize),
        106 => Some(2usize),
        107 => Some(9usize),
        110 | 111 => Some(3usize),
        112 => Some(5usize),
        113 => Some(1usize),
        120 => Some(6usize),
        121 => Some(7usize),
        122 => Some(4usize),
        123 => Some(5usize),
        124 => Some(4usize),
        126 => Some(13usize),
        _ => None,
    }
}

/// The semantic name of a cause, from its low six bits.
pub open spec fn cause_semantic(v: u8) -> Seq<char> {
    match v % 64 {
        0u8 => "Unused0"@,
        1u8 => "Periodic"@,
        2u8 => "Background"@,
        3u8 => "Spontaneous"@,
        4u8 => "Initialized"@,
        5u8 => "Request"@,
        6u8 => "Activation"@,
        7u8 => "ActivationCon"@,
        8u8 => "Deactivation"@,
        9u8 => "DeactivationCon"@,
        10u8 => "ActivationTerm"@,
        11u8 => "ReturnInfoRemote"@,
        12u8 => "ReturnInfoLocal"@,
        13u8 => "FileTransfer"@,
        14u8 => "Authentication"@,
        15u8 => "SessionKey"@,
        16u8 => "UserRoleAndUpdateKey"@,
        17u8 => "Reserved17"@,
        18u8 => "Reserved18"@,
        19u8 => "Reserved19"@,
        20u8 => "InterrogatedByStation"@,
        21u8 => "InterrogatedByGroup1"@,
        22u8 => "InterrogatedByGroup2"@,
        23u8 => "InterrogatedByGroup3"@,
        24u8 => "InterrogatedByGroup4"@,
        25u8 => "InterrogatedByGroup5"@,
        26u8 => "InterrogatedByGroup6"@,
        27u8 => "InterrogatedByGroup7"@,
        28u8 => "InterrogatedByGroup8"@,
        29u8 => "InterrogatedByGroup9"@,
        30u8 => "InterrogatedByGroup10"@,
        31u8 => "InterrogatedByGroup11"@,
        32u8 => "InterrogatedByGroup12"@,
        33u8 => "InterrogatedByGroup13"@,
        34u8 => "InterrogatedByGroup14"@,
        35u8 => "InterrogatedByGroup15"@,
        36u8 => "InterrogatedByGroup16"@,
        37u8 => "RequestByGeneralCounter"@,
        38u8 => "RequestByGroup1Counter"@,
        39u8 => "RequestByGroup2Counter"@,
        40u8 => "RequestByGroup3Counter"@,
        41u8 => "RequestByGroup4Counter"@,
        42u8 => "Reserved42"@,
        43u8 => "Reserved43"@,
        44u8 => "UnknownTypeID"@,
        45u8 => "UnknownCOT"@,
        46u8 => "UnknownCA"@,
        47u8 => "UnknownIOA"@,
        48u8 => "Special48"@,
        49u8 => "Special49"@,
        50u8 => "Special50"@,
        51u8 => "Special51"@,
        52u8 => "Special52"@,
        53u8 => "Special53"@,
        54u8 => "Special54"@,
        55u8 => "Special55"@,
        56u8 => "Special56"@,
        57u8 => "Special57"@,
        58u8 => "Special58"@,
        59u8 => "Special59"@,
        60u8 => "Special60"@,
        61u8 => "Special61"@,
        62u8 => "Special62"@,
        _ => "Special63"@,
    }
}

impl TypeId {
    /// The mnemonic of a standard type identification, e.g. `"M_SP_NA_1"`.
    ///
    /// Returns `None` for reserved and private identifications.
    pub fn name(self) -> (r: Option<&'static str>)
        ensures
            r.is_some() == type_id_mnemonic(self.0).is_some(),
            r.is_some() ==> r.unwrap()@ == type_id_mnemonic(self.0).unwrap(),
    {
        match self.0 {
            1 => Some("M_SP_NA_1"),
            2 => Some("M_SP_TA_1"),
            3 => Some("M_DP_NA_1"),
            4 => Some("M_DP_TA_1"),
            5 => Some("M_ST_NA_1"),
            6 => Some("M_ST_TA_1"),
            7 => Some("M_BO_NA_1"),
            8 => Some("M_BO_TA_1"),
            9 => Some("M_ME_NA_1"),
            10 => Some("M_ME_TA_1"),
            11 => Some("M_ME_NB_1"),
            12 => Some("M_ME_TB_1"),
            13 => Some("M_ME_NC_1"),
            14 => Some("M_ME_TC_1"),
            15 => Some("M_IT_NA_1"),
            16 => Some("M_IT_TA_1"),
            17 => Some("M_EP_TA_1"),
            18 => Some("M_EP_TB_1"),
            19 => Some("M_EP_TC_1"),
            20 => Some("M_PS_NA_1"),
            21 => Some("M_ME_ND_1"),
            30 => Some("M_SP_TB_1"),
            31 => Some("M_DP_TB_1"),
            32 => Some("M_ST_TB_1"),
            33 => Some("M_BO_TB_1"),
            34 => Some("M_ME_TD_1"),
            35 => Some("M_ME_TE_1"),
            36 => Some("M_ME_TF_1"),
            37 => Some("M_IT_TB_1"),
            38 => Some("M_EP_TD_1"),
            39 => Some("M_EP_TE_1"),
            40 => Some("M_EP_TF_1"),
            41 => Some("S_IT_TC_1"),
            45 => Some("C_SC_NA_1"),
            46 => Some("C_DC_NA_1"),
            47 => Some("C_RC_NA_1"),
            48 => Some("C_SE_NA_1"),
            49 => Some("C_SE_NB_1"),
            50 => Some("C_SE_NC_1"),
            51 => Some("C_BO_NA_1"),
            58 => Some("C_SC_TA_1"),
            59 => Some("C_DC_TA_1"),
            60 => Some("C_RC_TA_1"),
            61 => Some("C_SE_TA_1"),
            62 => Some("C_SE_TB_1"),
            63 => Some("C_SE_TC_1"),
            64 => Some("C_BO_TA_1"),
            70 => Some("M_EI_NA_1"),
            81 => Some("S_CH_NA_1"),
            82 => Some("S_RP_NA_1"),
            83 => Some("S_AR_NA_1"),
            84 => Some("S_KR_NA_1"),
            85 => Some("S_KS_NA_1"),
            86 => Some("S_KC_NA_1"),
            87 => Some("S_ER_NA_1"),
            90 => Some("S_US_NA_1"),
            91 => Some("S_UQ_NA_1"),
            92 => Some("S_UR_NA_1"),
            93 => Some("S_UK_NA_1"),
            94 => Some("S_UA_NA_1"),
            95 => Some("S_UC_NA_1"),
            100 => Some("C_IC_NA_1"),
            101 => Some("C_CI_NA_1"),
            102 => Some("C_RD_NA_1"),
            103 => Some("C_CS_NA_1"),
            104 => Some("C_TS_NA_1"),
            105 => Some("C_RP_NA_1"),
            106 => Some("C_CD_NA_1"),
            107 => Some("C_TS_TA_1"),
            110 => Some("P_ME_NA_1"),
            111 => Some("P_ME_NB_1"),
            112 => Some("P_ME_NC_1"),
            113 => Some("P_AC_NA_1"),
            120 => Some("F_FR_NA_1"),
            121 => Some("F_SR_NA_1"),
            122 => Some("F_SC_NA_1"),
            123 => Some("F_LS_NA_1"),
            124 => Some("F_AF_NA_1"),
            125 => Some("F_SG_NA_1"),
            126 => Some("F_DR_TA_1"),
            127 => Some("F_SC_NB_1"),
            _ => None,
        }
    }

    /// Size in octets of one information element set of this type, excluding
    /// the information object address.
    ///
    /// Returns [`Error::TypeIdentifier`] for types this library cannot size,
    /// which includes the variable-length `F_SG_NA_1` segment type.
    pub fn info_obj_size(self) -> (r: Result<usize>)
        ensures
            match info_obj_size_of(self.0) {
                Some(n) => r == Ok::<usize, Error>(n),
                None => r == Err::<usize, Error>(Error::TypeIdentifier),
            },
    {
        let size: usize = match self.0 {
            1 | 3 => 1,
            2 | 4 => 4,
            5 => 2,
            6 => 5,
            7 => 5,
            8 => 8,
            9 | 11 => 3,
            10 | 12 => 6,
            13 => 5,
            14 => 8,
            15 => 5,
            16 => 8,
            17 => 6,
            18 | 19 => 7,
            20 => 5,
            21 => 2,
            30 | 31 => 8,
            32 => 9,
            33 => 12,
            34 | 35 => 10,
            36 | 37 => 12,
            38 => 10,
            39 | 40 => 11,
            45..=47 => 1,
            48 | 49 => 3,
            50 => 5,
            51 => 4,
            58..=60 => 8,
            61 | 62 => 10,
            63 => 12,
            64 => 11,
            70 => 1,
            100 | 101 => 1,
            102 => 0,
            103 => 7,
            104 => 2,
            105 => 1,
            106 => 2,
            107 => 9,
            110 | 111 => 3,
            112 => 5,
            113 => 1,
            120 => 6,
            121 => 7,
            122 => 4,
            123 => 5,
            124 => 4,
            126 => 13,
            _ => return Err(Error::TypeIdentifier),
        };
        Ok(size)
    }

    /// `TID<mnemonic>`, or `TID<number>` for a reserved or private type.
    pub open spec fn spec_text(self) -> Seq<char> {
        seq!['T', 'I', 'D', '<'] + match type_id_mnemonic(self.0) {
            Some(n) => n,
            None => decimal(self.0 as nat),
        } + seq!['>']
    }

    /// `TID<mnemonic>`, or `TID<number>` for a reserved or private type.
    pub fn to_string(&self) -> (s: String)
        ensures
            s@ == self.spec_text(),
    {
        let mut s = String::from_str("TID<");
        match self.name() {
            Some(n) => s.append(n),
            None => {
                let d = decimal_string(self.0 as u64);
                s.append(d.as_str());
            },
        }
        s.append(">");
        proof {
            reveal_strlit("TID<");
            reveal_strlit(">");
        }
        s
    }
}

/// Variable structure qualifier. See companion standard 101, subclass 7.2.2.
///
/// * `number` (bits 0..=6): count of information objects or elements, `0..=127`.
/// * `is_sequence` (bit 7): when set, the objects share one starting address and
///   the following addresses are implied by incrementing it.
#[derive(Debug, Clone, Copy, PartialEq, Eq, Default, Structural)]
pub struct VariableStruct {
    /// Number of information objects (SQ = 0) or elements (SQ = 1).
    pub number: u8,
    /// The SQ bit: a sequence of elements sharing one starting address.
    pub is_sequence: bool,
}

impl VariableStruct {
    /// The wire octet of a qualifier.
    pub open spec fn spec_value(self) -> u8 {
        if self.is_sequence {
            self.number | 0x80
        } else {
            self.number
        }
    }

    /// The qualifier a wire octet holds.
    pub open spec fn spec_parse(b: u8) -> VariableStruct {
        VariableStruct { number: b & 0x7f, is_sequence: (b & 0x80) == 0x80 }
    }

    /// A non-sequence qualifier for `number` information objects.
    pub fn new(number: u8) -> (v: Self)
        ensures
            v == (VariableStruct { number, is_sequence: false }),
    {
        VariableStruct { number, is_sequence: false }
    }

    /// A qualifier for a single information object (the common case for commands).
    pub fn single() -> (v: Self)
        ensures
            v == (VariableStruct { number: 1, is_sequence: false }),
    {
        VariableStruct { number: 1, is_sequence: false }
    }

    /// Parse the wire octet.
    pub fn parse(b: u8) -> (v: Self)
        ensures
            v == Self::spec_parse(b),
    {
        VariableStruct { number: b & 0x7f, is_sequence: (b & 0x80) == 0x80 }
    }

    /// Encode to the wire octet.
    pub fn value(self) -> (b: u8)
        ensures
            b == self.spec_value(),
    {
        if self.is_sequence {
            self.number | 0x80
        } else {
            self.number
        }
    }

    /// `VSQ<n>`, or `VSQ<sq,n>` for a sequence.
    pub open spec fn spec_text(self) -> Seq<char> {
        (if self.is_sequence {
            seq!['V', 'S', 'Q', '<', 's', 'q', ',']
        } else {
            seq!['V', 'S', 'Q', '<']
        }) + decimal(self.number as nat) + seq!['>']
    }

    /// `VSQ<n>`, or `VSQ<sq,n>` for a sequence.
    pub fn to_string(&self) -> (s: String)
        ensures
            s@ == self.spec_text(),
    {
        let mut s = if self.is_sequence {
            String::from_str("VSQ<sq,")
        } else {
            String::from_str("VSQ<")
        };
        let d = decimal_string(self.number as u64);
        s.append(d.as_str());
        s.append(">");
        proof {
            reveal_strlit("VSQ<sq,");
            reveal_strlit("VSQ<");
            reveal_strlit(">");
        }
        s
    }
}

/// Parsing the octet of a qualifier gives the qualifier back, for every
/// number that fits the seven bits; and encoding a parsed octet gives the
/// octet back.
pub proof fn variable_struct_round_trip(v: VariableStruct, b: u8)
    requires
        v.number < 128,
    ensures
        VariableStruct::spec_parse(v.spec_value()) == v,
        VariableStruct::spec_parse(b).spec_value() == b,
{
    let n = v.number;
    assert((n | 0x80u8) & 0x7f == n && (n | 0x80u8) & 0x80 == 0x80 && n & 0x7f == n && n & 0x80
        == 0) by (bit_vector)
        requires
            n < 128,
    ;
    assert((b & 0x80 == 0x80 ==> (b & 0x7f) | 0x80 == b) && (b & 0x80 != 0x80 ==> b & 0x7f == b))
        by (bit_vector);
}

/// The variable structure qualifier of IEC 60870-5-101, subclass 7.2.2: the
/// number of objects or elements in bits 0 to 6 and SQ (sequence) in bit 7.
/// The octet written keeps the number's seven bits and sets bit 7 for a
/// sequence; every octet is read the same way.
pub proof fn variable_struct_bits(v: VariableStruct, b: u8)
    ensures
        v.spec_value() & 0x7f == v.number & 0x7f,
        (v.spec_value() & 0x80 == 0x80) == (v.is_sequence || v.number & 0x80 == 0x80),
        VariableStruct::spec_parse(b).number == b & 0x7f,
        VariableStruct::spec_parse(b).is_sequence == (b & 0x80 == 0x80),
{
    let n = v.number;
    let q = v.is_sequence;
    let x = v.spec_value();
    assert(x & 0x7f == n & 0x7f && ((x & 0x80 == 0x80) == (q || n & 0x80 == 0x80))) by (bit_vector)
        requires
            x == (if q { n | 0x80 } else { n }),
    ;
}

/// Cause of transmission, bits 0..=5. See companion standard 101, subclass 7.2.3.
///
/// `<0>` undefined, `<1..=47>` standard definitions, `<48..=63>` private range.
/// The standard causes are the associated functions named after them, such as
/// [`Cause::SPONTANEOUS`].
#[derive(Debug, Clone, Copy, PartialEq, Eq, Hash, Default, Structural)]
pub struct Cause(pub u8);

#[allow(non_snake_case)]
impl Cause {
    /// 0: unused (invalid on the wire)
    pub fn UNUSED() -> (c: Cause)
        ensures
            c.0 == 0,
    {
        Cause(0)
    }

    /// 1: periodic, cyclic
    pub fn PERIODIC() -> (c: Cause)
        ensures
            c.0 == 1,
    {
        Cause(1)
    }

    /// 2: background scan
    pub fn BACKGROUND() -> (c: Cause)
        ensures
            c.0 == 2,
    {
        Cause(2)
    }

    /// 3: spontaneous
    pub fn SPONTANEOUS() -> (c: Cause)
        ensures
            c.0 == 3,
    {
        Cause(3)
    }

    /// 4: initialized
    pub fn INITIALIZED() -> (c: Cause)
        ensures
            c.0 == 4,
    {
        Cause(4)
    }

    /// 5: request or requested
    pub fn REQUEST() -> (c: Cause)
        ensures
            c.0 == 5,
    {
        Cause(5)
    }

    /// 6: activation
    pub fn ACTIVATION() -> (c: Cause)
        ensures
            c.0 == 6,
    {
        Cause(6)
    }

    /// 7: activation confirmation
    pub fn ACTIVATION_CON() -> (c: Cause)
        ensures
            c.0 == 7,
    {
        Cause(7)
    }

    /// 8: deactivation
    pub fn DEACTIVATION() -> (c: Cause)
        ensures
            c.0 == 8,
    {
        Cause(8)
    }

    /// 9: deactivation confirmation
    pub fn DEACTIVATION_CON() -> (c: Cause)
        ensures
            c.0 == 9,
    {
        Cause(9)
    }

    /// 10: activation termination
    pub fn ACTIVATION_TERM() -> (c: Cause)
        ensures
            c.0 == 10,
    {
        Cause(10)
    }

    /// 11: return information caused by a remote command
    pub fn RETURN_INFO_REMOTE() -> (c: Cause)
        ensures
            c.0 == 11,
    {
        Cause(11)
    }

    /// 12: return information caused by a local command
    pub fn RETURN_INFO_LOCAL() -> (c: Cause)
        ensures
            c.0 == 12,
    {
        Cause(12)
    }

    /// 13: file transfer
    pub fn FILE_TRANSFER() -> (c: Cause)
        ensures
            c.0 == 13,
    {
        Cause(13)
    }

    /// 14: authentication (IEC 62351-5)
    pub fn AUTHENTICATION() -> (c: Cause)
        ensures
            c.0 == 14,
    {
        Cause(14)
    }

    /// 15: maintenance of authentication session key (IEC 62351-5)
    pub fn SESSION_KEY() -> (c: Cause)
        ensures
            c.0 == 15,
    {
        Cause(15)
    }

    /// 16: maintenance of user role and update key (IEC 62351-5)
    pub fn USER_ROLE_AND_UPDATE_KEY() -> (c: Cause)
        ensures
            c.0 == 16,
    {
        Cause(16)
    }

    /// 20: interrogated by station interrogation
    pub fn INTERROGATED_BY_STATION() -> (c: Cause)
        ensures
            c.0 == 20,
    {
        Cause(20)
    }

    /// 21: interrogated by group 1 interrogation
    pub fn INTERROGATED_BY_GROUP1() -> (c: Cause)
        ensures
            c.0 == 21,
    {
        Cause(21)
    }

    /// 36: interrogated by group 16 interrogation
    pub fn INTERROGATED_BY_GROUP16() -> (c: Cause)
        ensures
            c.0 == 36,
    {
        Cause(36)
    }

    /// 37: requested by general counter request
    pub fn REQUEST_BY_GENERAL_COUNTER() -> (c: Cause)
        ensures
            c.0 == 37,
    {
        Cause(37)
    }

    /// 38: requested by group 1 counter request
    pub fn REQUEST_BY_GROUP1_COUNTER() -> (c: Cause)
        ensures
            c.0 == 38,
    {
        Cause(38)
    }

    /// 41: requested by group 4 counter request
    pub fn REQUEST_BY_GROUP4_COUNTER() -> (c: Cause)
        ensures
            c.0 == 41,
    {
        Cause(41)
    }

    /// 44: unknown type identification
    pub fn UNKNOWN_TYPE_ID() -> (c: Cause)
        ensures
            c.0 == 44,
    {
        Cause(44)
    }

    /// 45: unknown cause of transmission
    pub fn UNKNOWN_COT() -> (c: Cause)
        ensures
            c.0 == 45,
    {
        Cause(45)
    }

    /// 46: unknown common address of ASDU
    pub fn UNKNOWN_CA() -> (c: Cause)
        ensures
            c.0 == 46,
    {
        Cause(46)
    }

    /// 47: unknown information object address
    pub fn UNKNOWN_IOA() -> (c: Cause)
        ensures
            c.0 == 47,
    {
        Cause(47)
    }

    /// `interrogated by group N interrogation` for `n` in `1..=16`.
    pub fn interrogated_by_group(n: u8) -> (r: Result<Cause>)
        ensures
            1 <= n <= 16 ==> r == Ok::<Cause, Error>(Cause((20 + n) as u8)),
            !(1 <= n <= 16) ==> r == Err::<Cause, Error>(Error::InroGroupNumFit),
    {
        if n == 0 || n > 16 {
            return Err(Error::InroGroupNumFit);
        }
        Ok(Cause(20 + n))
    }

    /// Whether a cause is the station interrogation or a group interrogation.
    pub open spec fn spec_is_interrogation(self) -> bool {
        20 <= self.0 <= 36
    }

    /// Whether a cause is one of the counter requests.
    pub open spec fn spec_is_counter_request(self) -> bool {
        37 <= self.0 <= 41
    }

    /// True when this is `InterrogatedByStation` or any group interrogation cause.
    pub fn is_interrogation(self) -> (b: bool)
        ensures
            b == self.spec_is_interrogation(),
    {
        self.0 >= 20 && self.0 <= 36
    }

    /// True when this is any of the counter request causes (37..=41).
    pub fn is_counter_request(self) -> (b: bool)
        ensures
            b == self.spec_is_counter_request(),
    {
        self.0 >= 37 && self.0 <= 41
    }

    /// The semantic name of this cause, e.g. `"Spontaneous"`, from its low six bits.
    pub fn name(self) -> (s: &'static str)
        ensures
            s@ == cause_semantic(self.0),
    {
        match self.0 % 64 {
            0 => "Unused0",
            1 => "Periodic",
            2 => "Background",
            3 => "Spontaneous",
            4 => "Initialized",
            5 => "Request",
            6 => "Activation",
            7 => "ActivationCon",
            8 => "Deactivation",
            9 => "DeactivationCon",
            10 => "ActivationTerm",
            11 => "ReturnInfoRemote",
            12 => "ReturnInfoLocal",
            13 => "FileTransfer",
            14 => "Authentication",
            15 => "SessionKey",
            16 => "UserRoleAndUpdateKey",
            17 => "Reserved17",
            18 => "Reserved18",
            19 => "Reserved19",
            20 => "InterrogatedByStation",
            21 => "InterrogatedByGroup1",
            22 => "InterrogatedByGroup2",
            23 => "InterrogatedByGroup3",
            24 => "InterrogatedByGroup4",
            25 => "InterrogatedByGroup5",
            26 => "InterrogatedByGroup6",
            27 => "InterrogatedByGroup7",
            28 => "InterrogatedByGroup8",
            29 => "InterrogatedByGroup9",
            30 => "InterrogatedByGroup10",
            31 => "InterrogatedByGroup11",
            32 => "InterrogatedByGroup12",
            33 => "InterrogatedByGroup13",
            34 => "InterrogatedByGroup14",
            35 => "InterrogatedByGroup15",
            36 => "InterrogatedByGroup16",
            37 => "RequestByGeneralCounter",
            38 => "RequestByGroup1Counter",
            39 => "RequestByGroup2Counter",
            40 => "RequestByGroup3Counter",
            41 => "RequestByGroup4Counter",
            42 => "Reserved42",
            43 => "Reserved43",
            44 => "UnknownTypeID",
            45 => "UnknownCOT",
            46 => "UnknownCA",
            47 => "UnknownIOA",
            48 => "Special48",
            49 => "Special49",
            50 => "Special50",
            51 => "Special51",
            52 => "Special52",
            53 => "Special53",
            54 => "Special54",
            55 => "Special55",
            56 => "Special56",
            57 => "Special57",
            58 => "Special58",
            59 => "Special59",
            60 => "Special60",
            61 => "Special61",
            62 => "Special62",
            _ => "Special63",
        }
    }

    /// The semantic name, as the `Display` rendering of a cause.
    pub fn to_string(&self) -> (s: String)
        ensures
            s@ == cause_semantic(self.0),
    {
        String::from_str(self.name())
    }
}

impl From<u8> for Cause {
    /// The cause in the low six bits of an octet.
    fn from(v: u8) -> (c: Cause)
        ensures
            c.0 == v & 0x3f,
    {
        Cause(v & 0x3f)
    }
}

impl vstd::std_specs::convert::FromSpecImpl<u8> for Cause {
    open spec fn obeys_from_spec() -> bool {
        true
    }

    open spec fn from_spec(v: u8) -> Cause {
        Cause(v & 0x3f)
    }
}


/// The cause of transmission octet: cause plus the T and P/N flags.
///
/// ```text
/// | T | P/N | 5..0 cause |
/// ```
#[derive(Debug, Clone, Copy, PartialEq, Eq, Default, Structural)]
pub struct CauseOfTransmission {
    /// The T bit: this transmission is caused by a test.
    pub is_test: bool,
    /// The P/N bit: negative confirmation of the requested activation.
    pub is_negative: bool,
    /// The cause itself, bits 0..=5.
    pub cause: Cause,
}

impl CauseOfTransmission {
    /// The wire octet of a cause of transmission.
    pub open spec fn spec_value(self) -> u8 {
        (self.cause.0 & 0x3f) | (if self.is_negative { 0x40u8 } else { 0u8 }) | (if self.is_test {
            0x80u8
        } else {
            0u8
        })
    }

    /// The cause of transmission a wire octet holds.
    pub open spec fn spec_parse(b: u8) -> CauseOfTransmission {
        CauseOfTransmission {
            is_negative: (b & 0x40) == 0x40,
            is_test: (b & 0x80) == 0x80,
            cause: Cause(b & 0x3f),
        }
    }

    /// A plain cause of transmission with both flags clear.
    pub fn new(cause: Cause) -> (c: Self)
        ensures
            c == (CauseOfTransmission { is_test: false, is_negative: false, cause }),
    {
        CauseOfTransmission { is_test: false, is_negative: false, cause }
    }

    /// Parse the wire octet.
    pub fn parse(b: u8) -> (c: Self)
        ensures
            c == Self::spec_parse(b),
    {
        CauseOfTransmission {
            is_negative: (b & 0x40) == 0x40,
            is_test: (b & 0x80) == 0x80,
            cause: Cause(b & 0x3f),
        }
    }

    /// Encode to the wire octet.
    pub fn value(self) -> (b: u8)
        ensures
            b == self.spec_value(),
    {
        let mut v = self.cause.0 & 0x3f;
        if self.is_negative {
            v |= 0x40;
        }
        if self.is_test {
            v |= 0x80;
        }
        proof {
            let c = self.cause.0;
            assert((c & 0x3f) | 0u8 == c & 0x3f && ((c & 0x3f) | 0u8) | 0u8 == c & 0x3f && ((c & 0x3f)
                | 0x40u8) | 0u8 == (c & 0x3f) | 0x40u8 && ((c & 0x3f) | 0u8) | 0x80u8 == (c & 0x3f)
                | 0x80u8) by (bit_vector);
        }
        v
    }

    /// Return a copy with the negative confirmation flag set.
    pub fn negative(self) -> (c: Self)
        ensures
            c == (CauseOfTransmission { is_negative: true, ..self }),
    {
        let mut s = self;
        s.is_negative = true;
        s
    }

    /// Return a copy with the test flag set.
    pub fn test(self) -> (c: Self)
        ensures
            c == (CauseOfTransmission { is_test: true, ..self }),
    {
        let mut s = self;
        s.is_test = true;
        s
    }

    /// `COT<name>`, with `,neg` and `,test` for the flags that are set.
    pub open spec fn spec_text(self) -> Seq<char> {
        seq!['C', 'O', 'T', '<'] + cause_semantic(self.cause.0) + (if self.is_negative {
            seq![',', 'n', 'e', 'g']
        } else {
            Seq::<char>::empty()
        }) + (if self.is_test {
            seq![',', 't', 'e', 's', 't']
        } else {
            Seq::<char>::empty()
        }) + seq!['>']
    }

    /// `COT<name>`, with `,neg` and `,test` for the flags that are set.
    pub fn to_string(&self) -> (s: String)
        ensures
            s@ == self.spec_text(),
    {
        let mut s = String::from_str("COT<");
        s.append(self.cause.name());
        if self.is_negative {
            s.append(",neg");
        }
        if self.is_test {
            s.append(",test");
        }
        s.append(">");
        proof {
            reveal_strlit("COT<");
            reveal_strlit(",neg");
            reveal_strlit(",test");
            reveal_strlit(">");
        }
        s
    }
}

/// Encoding a parsed cause of transmission octet gives the octet back, and
/// parsing an encoded cause of transmission gives it back when its cause fits
/// six bits.
pub proof fn cause_of_transmission_round_trip(c: CauseOfTransmission, b: u8)
    requires
        c.cause.0 < 64,
    ensures
        CauseOfTransmission::spec_parse(b).spec_value() == b,
        CauseOfTransmission::spec_parse(c.spec_value()) == c,
{
    let x = c.cause.0;
    let n = c.is_negative;
    let t = c.is_test;
    assert(((b & 0x3f) & 0x3f) | (if b & 0x40 == 0x40 { 0x40u8 } else { 0u8 }) | (if b & 0x80
        == 0x80 { 0x80u8 } else { 0u8 }) == b) by (bit_vector);
    let v = (x & 0x3f) | (if n { 0x40u8 } else { 0u8 }) | (if t { 0x80u8 } else { 0u8 });
    assert(v & 0x3f == x && ((v & 0x40) == 0x40) == n && ((v & 0x80) == 0x80) == t) by (bit_vector)
        requires
            x < 64,
            v == (x & 0x3f) | (if n { 0x40u8 } else { 0u8 }) | (if t { 0x80u8 } else { 0u8 }),
    ;
}

/// The cause of transmission octet of IEC 60870-5-101, subclass 7.2.3: the
/// cause in bits 0 to 5, P/N (negative confirmation) in bit 6, 0x40, and T
/// (test) in bit 7, 0x80. The octet written holds each flag at its bit and
/// the cause's six bits below them; every octet is read the same way.
pub proof fn cause_of_transmission_bits(c: CauseOfTransmission, b: u8)
    ensures
        (c.spec_value() & 0x40 == 0x40) == c.is_negative,
        (c.spec_value() & 0x80 == 0x80) == c.is_test,
        c.spec_value() & 0x3f == c.cause.0 & 0x3f,
        CauseOfTransmission::spec_parse(b).is_negative == (b & 0x40 == 0x40),
        CauseOfTransmission::spec_parse(b).is_test == (b & 0x80 == 0x80),
        CauseOfTransmission::spec_parse(b).cause.0 == b & 0x3f,
{
    let x = c.cause.0;
    let n = c.is_negative;
    let t = c.is_test;
    let v = c.spec_value();
    assert(((v & 0x40 == 0x40) == n) && ((v & 0x80 == 0x80) == t) && v & 0x3f == x & 0x3f) by (bit_vector)
        requires
            v == (x & 0x3f) | (if n { 0x40u8 } else { 0u8 }) | (if t { 0x80u8 } else { 0u8 }),
    ;
}

/// Originator address `[1, 255]`, or 0 for the default.
///
/// Only carried on the wire when `Params::cause_size == 2`.
pub type OriginAddr = u8;

/// A station (common) address. See companion standard 101, subclass 7.2.4.
///
/// The width on the wire is controlled by `Params::common_addr_size`:
/// width 1 uses `<1..=254>` with `255` as the global address, width 2 uses
/// `<1..=65534>` with `65535` as the global address.
pub type CommonAddr = u16;

/// The invalid common address; 0 is never a usable station address.
pub const INVALID_COMMON_ADDR: u16 = 0;

/// The broadcast (global) common address.
///
/// Use this value even with 1-octet addressing — it is mapped to `255` on the
/// wire automatically.
pub const GLOBAL_COMMON_ADDR: u16 = 65535;

/// The complete application service data unit identifier.
#[derive(Debug, Clone, Copy, PartialEq, Eq, Structural)]
pub struct Identifier {
    /// Type identification: what the information objects contain.
    pub type_id: TypeId,
    /// Variable structure qualifier: how many objects, and whether they are a sequence.
    pub variable: VariableStruct,
    /// Cause of transmission.
    pub coa: CauseOfTransmission,
    /// Originator address; on the wire only when `cause_size == 2`.
    pub orig_addr: OriginAddr,
    /// Station address. Zero is not used.
    pub common_addr: CommonAddr,
}

impl Identifier {
    /// Build an identifier with a default (zero) originator address.
    pub fn new(
        type_id: TypeId,
        variable: VariableStruct,
        coa: CauseOfTransmission,
        common_addr: CommonAddr,
    ) -> (i: Self)
        ensures
            i == (Identifier { type_id, variable, coa, orig_addr: 0, common_addr }),
    {
        Identifier { type_id, variable, coa, orig_addr: 0, common_addr }
    }

    /// The type, the cause and the station: `TID<..> COT<..> @ca`, with the
    /// originator address before the `@` when it is not the default.
    pub open spec fn spec_text(self) -> Seq<char> {
        self.type_id.spec_text() + seq![' '] + self.coa.spec_text() + seq![' '] + (if self.orig_addr == 0 {
            Seq::<char>::empty()
        } else {
            decimal(self.orig_addr as nat)
        }) + seq!['@'] + decimal(self.common_addr as nat)
    }

    /// The type, the cause and the station: `TID<..> COT<..> @ca`, with the
    /// originator address before the `@` when it is not the default.
    pub fn to_string(&self) -> (s: String)
        ensures
            s@ == self.spec_text(),
    {
        let mut s = self.type_id.to_string();
        s.append(" ");
        let c = self.coa.to_string();
        s.append(c.as_str());
        s.append(" ");
        if self.orig_addr != 0 {
            let o = decimal_string(self.orig_addr as u64);
            s.append(o.as_str());
        }
        s.append("@");
        let a = decimal_string(self.common_addr as u64);
        s.append(a.as_str());
        proof {
            reveal_strlit(" ");
            reveal_strlit("@");
        }
        s
    }
}

} // verus!
