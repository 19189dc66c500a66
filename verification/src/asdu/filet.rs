//! File transfer: the `F_*` types that move a file from a controlled station
//! to the master, section by section and segment by segment.
//!
//! See companion standard 101, subclass 7.3.6 (the ASDUs) and subclass 7.4.11
//! (the transfer procedures).
//!
//! | Type | Direction | Purpose |
//! |------|-----------|---------|
//! | `F_FR_NA_1` `<120>` | monitor | file ready |
//! | `F_SR_NA_1` `<121>` | monitor | section ready |
//! | `F_SC_NA_1` `<122>` | control | call directory, select file, call file, call section |
//! | `F_LS_NA_1` `<123>` | monitor | last section, last segment |
//! | `F_AF_NA_1` `<124>` | control | acknowledge file, acknowledge section |
//! | `F_SG_NA_1` `<125>` | monitor | segment |
//! | `F_DR_TA_1` `<126>` | monitor | directory |
//!
//! `F_SC_NB_1 <127>` (query log) is not implemented.
//!
//! Every type but the directory carries exactly one information object
//! (SQ = 0). The segment type is the only one in the compatible range whose
//! object length is not fixed by the type identification: it carries its own
//! LOS (length of segment) octet, which is why [`Asdu::unmarshal_binary`]
//! sizes it from the payload rather than from the variable structure
//! qualifier.

use vstd::prelude::*;

use crate::asdu::codec::{
    addr_at, addr_fits, addr_octets, check_valid, check_valid_error, get_u16, get_u24, put_bytes, put_u16,
    put_u24, put_u8, u16_at, u16_octets, u24_at, u24_octets, Asdu, ASDU_SIZE_MAX,
};
use crate::asdu::csys::{build_sys, sys_outcome, sys_read_error};
use crate::asdu::identifier::{Cause, CauseOfTransmission, CommonAddr, Identifier, TypeId, VariableStruct};
use crate::asdu::info::InfoObjAddr;
use crate::asdu::objects::{
    built_identifier, elem_of, elem_pos, obj_ioa, object_positions, objects_empty, objects_extend, objects_ok,
    objects_read_back, put_object_addr, read_error, spec_writes_addr, start,
};
use crate::asdu::params::{reading_in, summer_flag, zone_offset, Params, TimeZone};
use crate::asdu::time::{
    cp56_no_time, cp56_octets, cp56_reading_valid, cp56_zone_read, cp56time2a_tag, decode_cp56_at, parse_cp56time2a_tag,
    reading_at, with_flags, CalendarTime, TimeTagFlags, Timestamp,
};
use crate::error::{Error, Result};
use crate::text::{decimal, decimal_string};

verus! {

/// The name (identification) of a file.
///
/// See companion standard 101, subclass 7.2.6.33. Values above the compatible
/// range are available for private assignment.
#[derive(Debug, Clone, Copy, PartialEq, Eq, PartialOrd, Ord, Hash, Default, Structural)]
pub struct NameOfFile(pub u16);

#[allow(non_snake_case)]
impl NameOfFile {
    /// 0: default.
    pub fn DEFAULT() -> (n: NameOfFile)
        ensures
            n.0 == 0,
    {
        NameOfFile(0)
    }

    /// 1: transparent file.
    pub fn TRANSPARENT() -> (n: NameOfFile)
        ensures
            n.0 == 1,
    {
        NameOfFile(1)
    }

    /// 2: transmission of disturbance data of protection equipment.
    pub fn DISTURBANCE_DATA() -> (n: NameOfFile)
        ensures
            n.0 == 2,
    {
        NameOfFile(2)
    }

    /// 3: transmission of sequences of events.
    pub fn SEQUENCES_OF_EVENTS() -> (n: NameOfFile)
        ensures
            n.0 == 3,
    {
        NameOfFile(3)
    }

    /// 4: transmission of sequences of recorded analogue values.
    pub fn SEQUENCES_OF_ANALOGUES() -> (n: NameOfFile)
        ensures
            n.0 == 4,
    {
        NameOfFile(4)
    }

    /// The name of a defined file kind, or `NameOfFile(v)` in decimal.
    pub fn to_string(&self) -> (s: String)
        ensures
            s@ == name_of_file_text(self.0),
    {
        proof {
            reveal_strlit("Default");
            reveal_strlit("Transparent");
            reveal_strlit("DisturbanceData");
            reveal_strlit("SequencesOfEvents");
            reveal_strlit("SequencesOfAnalogues");
            reveal_strlit("NameOfFile(");
            reveal_strlit(")");
        }
        match self.0 {
            0 => String::from_str("Default"),
            1 => String::from_str("Transparent"),
            2 => String::from_str("DisturbanceData"),
            3 => String::from_str("SequencesOfEvents"),
            4 => String::from_str("SequencesOfAnalogues"),
            v => {
                let mut r = String::from_str("NameOfFile(");
                let d = decimal_string(v as u64);
                r.append(d.as_str());
                r.append(")");
                r
            },
        }
    }
}

/// The text of a name of file.
pub open spec fn name_of_file_text(v: u16) -> Seq<char> {
    if v == 0 {
        "Default"@
    } else if v == 1 {
        "Transparent"@
    } else if v == 2 {
        "DisturbanceData"@
    } else if v == 3 {
        "SequencesOfEvents"@
    } else if v == 4 {
        "SequencesOfAnalogues"@
    } else {
        "NameOfFile("@ + decimal(v as nat) + ")"@
    }
}

impl From<u16> for NameOfFile {
    fn from(v: u16) -> (n: NameOfFile) {
        NameOfFile(v)
    }
}

impl vstd::std_specs::convert::FromSpecImpl<u16> for NameOfFile {
    open spec fn obeys_from_spec() -> bool {
        true
    }

    open spec fn from_spec(v: u16) -> NameOfFile {
        NameOfFile(v)
    }
}

/// The error code in the high nibble of the select-and-call qualifier (SCQ)
/// and of the acknowledge qualifier (AFQ).
///
/// See companion standard 101, subclasses 7.2.6.31 and 7.2.6.33.
#[derive(Debug, Clone, Copy, PartialEq, Eq, PartialOrd, Ord, Hash, Default, Structural)]
pub struct FileError(pub u8);

#[allow(non_snake_case)]
impl FileError {
    /// 0: default, no error.
    pub fn NONE() -> (e: FileError)
        ensures
            e.0 == 0,
    {
        FileError(0)
    }

    /// 1: requested memory space not available.
    pub fn MEMORY_UNAVAILABLE() -> (e: FileError)
        ensures
            e.0 == 1,
    {
        FileError(1)
    }

    /// 2: checksum failed.
    pub fn CHECKSUM_FAILED() -> (e: FileError)
        ensures
            e.0 == 2,
    {
        FileError(2)
    }

    /// 3: unexpected communication service.
    pub fn UNEXPECTED_SERVICE() -> (e: FileError)
        ensures
            e.0 == 3,
    {
        FileError(3)
    }

    /// 4: unexpected name of file.
    pub fn UNEXPECTED_NAME_OF_FILE() -> (e: FileError)
        ensures
            e.0 == 4,
    {
        FileError(4)
    }

    /// 5: unexpected name of section.
    pub fn UNEXPECTED_NAME_OF_SECTION() -> (e: FileError)
        ensures
            e.0 == 5,
    {
        FileError(5)
    }

    /// True when no error is reported.
    pub fn is_none(self) -> (b: bool)
        ensures
            b == (self.0 == 0),
    {
        self.0 == 0
    }

    /// The name of a defined error, or `FileError(v)` in decimal.
    pub fn to_string(&self) -> (s: String)
        ensures
            s@ == file_error_text(self.0),
    {
        proof {
            reveal_strlit("None");
            reveal_strlit("MemoryUnavailable");
            reveal_strlit("ChecksumFailed");
            reveal_strlit("UnexpectedService");
            reveal_strlit("UnexpectedNameOfFile");
            reveal_strlit("UnexpectedNameOfSection");
            reveal_strlit("FileError(");
            reveal_strlit(")");
        }
        match self.0 {
            0 => String::from_str("None"),
            1 => String::from_str("MemoryUnavailable"),
            2 => String::from_str("ChecksumFailed"),
            3 => String::from_str("UnexpectedService"),
            4 => String::from_str("UnexpectedNameOfFile"),
            5 => String::from_str("UnexpectedNameOfSection"),
            v => {
                let mut r = String::from_str("FileError(");
                let d = decimal_string(v as u64);
                r.append(d.as_str());
                r.append(")");
                r
            },
        }
    }
}

/// The text of a file error.
pub open spec fn file_error_text(v: u8) -> Seq<char> {
    if v == 0 {
        "None"@
    } else if v == 1 {
        "MemoryUnavailable"@
    } else if v == 2 {
        "ChecksumFailed"@
    } else if v == 3 {
        "UnexpectedService"@
    } else if v == 4 {
        "UnexpectedNameOfFile"@
    } else if v == 5 {
        "UnexpectedNameOfSection"@
    } else {
        "FileError("@ + decimal(v as nat) + ")"@
    }
}

impl From<u8> for FileError {
    fn from(v: u8) -> (e: FileError) {
        FileError(v)
    }
}

impl vstd::std_specs::convert::FromSpecImpl<u8> for FileError {
    open spec fn obeys_from_spec() -> bool {
        true
    }

    open spec fn from_spec(v: u8) -> FileError {
        FileError(v)
    }
}

/// The action in the low nibble of the select-and-call qualifier (SCQ).
///
/// See companion standard 101, subclass 7.2.6.31.
#[derive(Debug, Clone, Copy, PartialEq, Eq, PartialOrd, Ord, Hash, Default, Structural)]
pub struct ScqAction(pub u8);

#[allow(non_snake_case)]
impl ScqAction {
    /// 0: default (call directory).
    pub fn DEFAULT() -> (a: ScqAction)
        ensures
            a.0 == 0,
    {
        ScqAction(0)
    }

    /// 1: select file.
    pub fn SELECT_FILE() -> (a: ScqAction)
        ensures
            a.0 == 1,
    {
        ScqAction(1)
    }

    /// 2: request file.
    pub fn REQUEST_FILE() -> (a: ScqAction)
        ensures
            a.0 == 2,
    {
        ScqAction(2)
    }

    /// 3: deactivate file.
    pub fn DEACTIVATE_FILE() -> (a: ScqAction)
        ensures
            a.0 == 3,
    {
        ScqAction(3)
    }

    /// 4: delete file.
    pub fn DELETE_FILE() -> (a: ScqAction)
        ensures
            a.0 == 4,
    {
        ScqAction(4)
    }

    /// 5: select section.
    pub fn SELECT_SECTION() -> (a: ScqAction)
        ensures
            a.0 == 5,
    {
        ScqAction(5)
    }

    /// 6: request section.
    pub fn REQUEST_SECTION() -> (a: ScqAction)
        ensures
            a.0 == 6,
    {
        ScqAction(6)
    }

    /// 7: deactivate section.
    pub fn DEACTIVATE_SECTION() -> (a: ScqAction)
        ensures
            a.0 == 7,
    {
        ScqAction(7)
    }
}

impl From<u8> for ScqAction {
    fn from(v: u8) -> (a: ScqAction) {
        ScqAction(v)
    }
}

impl vstd::std_specs::convert::FromSpecImpl<u8> for ScqAction {
    open spec fn obeys_from_spec() -> bool {
        true
    }

    open spec fn from_spec(v: u8) -> ScqAction {
        ScqAction(v)
    }
}

/// The action in the low nibble of the acknowledge file or section qualifier
/// (AFQ).
///
/// See companion standard 101, subclass 7.2.6.33.
#[derive(Debug, Clone, Copy, PartialEq, Eq, PartialOrd, Ord, Hash, Default, Structural)]
pub struct AfqAction(pub u8);

#[allow(non_snake_case)]
impl AfqAction {
    /// 0: not used.
    pub fn NOT_USED() -> (a: AfqAction)
        ensures
            a.0 == 0,
    {
        AfqAction(0)
    }

    /// 1: positive acknowledge of file transfer.
    pub fn POS_ACK_FILE() -> (a: AfqAction)
        ensures
            a.0 == 1,
    {
        AfqAction(1)
    }

    /// 2: negative acknowledge of file transfer.
    pub fn NEG_ACK_FILE() -> (a: AfqAction)
        ensures
            a.0 == 2,
    {
        AfqAction(2)
    }

    /// 3: positive acknowledge of section transfer.
    pub fn POS_ACK_SECTION() -> (a: AfqAction)
        ensures
            a.0 == 3,
    {
        AfqAction(3)
    }

    /// 4: negative acknowledge of section transfer.
    pub fn NEG_ACK_SECTION() -> (a: AfqAction)
        ensures
            a.0 == 4,
    {
        AfqAction(4)
    }
}

impl From<u8> for AfqAction {
    fn from(v: u8) -> (a: AfqAction) {
        AfqAction(v)
    }
}

impl vstd::std_specs::convert::FromSpecImpl<u8> for AfqAction {
    open spec fn obeys_from_spec() -> bool {
        true
    }

    open spec fn from_spec(v: u8) -> AfqAction {
        AfqAction(v)
    }
}

/// The last section or segment qualifier (LSQ).
///
/// See companion standard 101, subclass 7.2.6.32.
#[derive(Debug, Clone, Copy, PartialEq, Eq, PartialOrd, Ord, Hash, Default, Structural)]
pub struct LastSectionQualifier(pub u8);

#[allow(non_snake_case)]
impl LastSectionQualifier {
    /// 0: not used.
    pub fn NOT_USED() -> (q: LastSectionQualifier)
        ensures
            q.0 == 0,
    {
        LastSectionQualifier(0)
    }

    /// 1: file transfer without deactivation.
    pub fn FILE_WITHOUT_DEACTIVATE() -> (q: LastSectionQualifier)
        ensures
            q.0 == 1,
    {
        LastSectionQualifier(1)
    }

    /// 2: file transfer with deactivation.
    pub fn FILE_WITH_DEACTIVATE() -> (q: LastSectionQualifier)
        ensures
            q.0 == 2,
    {
        LastSectionQualifier(2)
    }

    /// 3: section transfer without deactivation.
    pub fn SECTION_WITHOUT_DEACTIVATE() -> (q: LastSectionQualifier)
        ensures
            q.0 == 3,
    {
        LastSectionQualifier(3)
    }

    /// 4: section transfer with deactivation.
    pub fn SECTION_WITH_DEACTIVATE() -> (q: LastSectionQualifier)
        ensures
            q.0 == 4,
    {
        LastSectionQualifier(4)
    }

    /// True when this marks the end of a whole file rather than of a section.
    pub fn is_end_of_file(self) -> (b: bool)
        ensures
            b == (self.0 == 1 || self.0 == 2),
    {
        self.0 == 1 || self.0 == 2
    }
}

impl From<u8> for LastSectionQualifier {
    fn from(v: u8) -> (q: LastSectionQualifier) {
        LastSectionQualifier(v)
    }
}

impl vstd::std_specs::convert::FromSpecImpl<u8> for LastSectionQualifier {
    open spec fn obeys_from_spec() -> bool {
        true
    }

    open spec fn from_spec(v: u8) -> LastSectionQualifier {
        LastSectionQualifier(v)
    }
}

/// The file ready qualifier (FRQ).
///
/// See companion standard 101, subclass 7.2.6.29. `qual` is bits 0..=6 and the
/// P/N bit is bit 7.
#[derive(Debug, Clone, Copy, PartialEq, Eq, Default, Structural)]
pub struct FileReadyQualifier {
    /// Implementation-defined qualifier, `0..=127`.
    pub qual: u8,
    /// P/N: the transfer of this file is *not* possible.
    pub is_negative: bool,
}

impl FileReadyQualifier {
    /// The wire octet.
    pub open spec fn spec_value(self) -> u8 {
        (self.qual % 128 + (if self.is_negative { 128int } else { 0 })) as u8
    }

    /// The qualifier a wire octet holds.
    pub open spec fn spec_parse(b: u8) -> FileReadyQualifier {
        FileReadyQualifier { qual: b % 128, is_negative: b >= 128 }
    }

    /// Decode the wire octet.
    pub fn parse(b: u8) -> (q: Self)
        ensures
            q == Self::spec_parse(b),
    {
        FileReadyQualifier { qual: b % 128, is_negative: b >= 128 }
    }

    /// Encode to the wire octet.
    pub fn value(self) -> (b: u8)
        ensures
            b == self.spec_value(),
    {
        let v = self.qual % 128;
        if self.is_negative {
            v + 128
        } else {
            v
        }
    }
}

/// The section ready qualifier (SRQ).
///
/// See companion standard 101, subclass 7.2.6.30. `qual` is bits 0..=6 and
/// bit 7 says the section is not ready to load.
#[derive(Debug, Clone, Copy, PartialEq, Eq, Default, Structural)]
pub struct SectionReadyQualifier {
    /// Implementation-defined qualifier, `0..=127`.
    pub qual: u8,
    /// The section is not ready to load.
    pub is_not_ready: bool,
}

impl SectionReadyQualifier {
    /// The wire octet.
    pub open spec fn spec_value(self) -> u8 {
        (self.qual % 128 + (if self.is_not_ready { 128int } else { 0 })) as u8
    }

    /// The qualifier a wire octet holds.
    pub open spec fn spec_parse(b: u8) -> SectionReadyQualifier {
        SectionReadyQualifier { qual: b % 128, is_not_ready: b >= 128 }
    }

    /// Decode the wire octet.
    pub fn parse(b: u8) -> (q: Self)
        ensures
            q == Self::spec_parse(b),
    {
        SectionReadyQualifier { qual: b % 128, is_not_ready: b >= 128 }
    }

    /// Encode to the wire octet.
    pub fn value(self) -> (b: u8)
        ensures
            b == self.spec_value(),
    {
        let v = self.qual % 128;
        if self.is_not_ready {
            v + 128
        } else {
            v
        }
    }
}

/// The select and call qualifier (SCQ).
///
/// See companion standard 101, subclass 7.2.6.31. The action is bits 0..=3 and
/// the error code bits 4..=7.
#[derive(Debug, Clone, Copy, PartialEq, Eq, Default, Structural)]
pub struct SelectAndCallQualifier {
    /// What the master is asking for.
    pub action: ScqAction,
    /// Why the request could not be met, or `FileError::NONE`.
    pub error: FileError,
}

impl SelectAndCallQualifier {
    /// The wire octet: the low nibble of the action, then the low nibble of
    /// the error shifted into the high nibble.
    pub open spec fn spec_value(self) -> u8 {
        (self.action.0 % 16 + (self.error.0 % 16) * 16) as u8
    }

    /// The qualifier a wire octet holds.
    pub open spec fn spec_parse(b: u8) -> SelectAndCallQualifier {
        SelectAndCallQualifier { action: ScqAction(b % 16), error: FileError(b / 16) }
    }

    /// Decode the wire octet.
    pub fn parse(b: u8) -> (q: Self)
        ensures
            q == Self::spec_parse(b),
    {
        SelectAndCallQualifier { action: ScqAction(b % 16), error: FileError(b / 16) }
    }

    /// Encode to the wire octet.
    pub fn value(self) -> (b: u8)
        ensures
            b == self.spec_value(),
    {
        self.action.0 % 16 + (self.error.0 % 16) * 16
    }
}

/// The acknowledge file or section qualifier (AFQ).
///
/// See companion standard 101, subclass 7.2.6.33. The action is bits 0..=3 and
/// the error code bits 4..=7.
#[derive(Debug, Clone, Copy, PartialEq, Eq, Default, Structural)]
pub struct AckFileOrSectionQualifier {
    /// What is being acknowledged.
    pub action: AfqAction,
    /// Why it is a negative acknowledgement, or `FileError::NONE`.
    pub error: FileError,
}

impl AckFileOrSectionQualifier {
    /// The wire octet: the low nibble of the action, then the low nibble of
    /// the error shifted into the high nibble.
    pub open spec fn spec_value(self) -> u8 {
        (self.action.0 % 16 + (self.error.0 % 16) * 16) as u8
    }

    /// The qualifier a wire octet holds.
    pub open spec fn spec_parse(b: u8) -> AckFileOrSectionQualifier {
        AckFileOrSectionQualifier { action: AfqAction(b % 16), error: FileError(b / 16) }
    }

    /// Decode the wire octet.
    pub fn parse(b: u8) -> (q: Self)
        ensures
            q == Self::spec_parse(b),
    {
        AckFileOrSectionQualifier { action: AfqAction(b % 16), error: FileError(b / 16) }
    }

    /// Encode to the wire octet.
    pub fn value(self) -> (b: u8)
        ensures
            b == self.spec_value(),
    {
        self.action.0 % 16 + (self.error.0 % 16) * 16
    }
}

/// The status of file (SOF).
///
/// See companion standard 101, subclass 7.2.6.38. `status` is bits 0..=4, LFD
/// is bit 5, FOR is bit 6 and FA is bit 7.
#[derive(Debug, Clone, Copy, PartialEq, Eq, Default, Structural)]
pub struct StatusOfFile {
    /// Implementation-defined status, `0..=31`.
    pub status: u8,
    /// LFD: this is the last file of the directory.
    pub is_last_file_of_directory: bool,
    /// FOR: this entry names a subdirectory rather than a file.
    pub is_directory: bool,
    /// FA: the transfer of this file is active.
    pub is_transfer_active: bool,
}

impl StatusOfFile {
    /// The wire octet.
    pub open spec fn spec_value(self) -> u8 {
        (self.status % 32 + (if self.is_last_file_of_directory { 32int } else { 0 }) + (if self.is_directory {
            64int
        } else {
            0
        }) + (if self.is_transfer_active {
            128int
        } else {
            0
        })) as u8
    }

    /// The status a wire octet holds.
    pub open spec fn spec_parse(b: u8) -> StatusOfFile {
        StatusOfFile {
            status: b % 32,
            is_last_file_of_directory: (b / 32) % 2 == 1,
            is_directory: (b / 64) % 2 == 1,
            is_transfer_active: b >= 128,
        }
    }

    /// Decode the wire octet.
    pub fn parse(b: u8) -> (s: Self)
        ensures
            s == Self::spec_parse(b),
    {
        StatusOfFile {
            status: b % 32,
            is_last_file_of_directory: (b / 32) % 2 == 1,
            is_directory: (b / 64) % 2 == 1,
            is_transfer_active: b >= 128,
        }
    }

    /// Encode to the wire octet.
    pub fn value(self) -> (b: u8)
        ensures
            b == self.spec_value(),
    {
        let mut v = self.status % 32;
        if self.is_last_file_of_directory {
            v = v + 32;
        }
        if self.is_directory {
            v = v + 64;
        }
        if self.is_transfer_active {
            v = v + 128;
        }
        v
    }
}

/// The file qualifier octets decode what they encode, for every field value
/// that fits its bits, and re-encode every octet unchanged.
pub proof fn file_qualifiers_round_trip(
    frq: FileReadyQualifier,
    srq: SectionReadyQualifier,
    scq: SelectAndCallQualifier,
    afq: AckFileOrSectionQualifier,
    sof: StatusOfFile,
    b: u8,
)
    requires
        frq.qual < 128,
        srq.qual < 128,
        scq.action.0 < 16,
        scq.error.0 < 16,
        afq.action.0 < 16,
        afq.error.0 < 16,
        sof.status < 32,
    ensures
        FileReadyQualifier::spec_parse(frq.spec_value()) == frq,
        FileReadyQualifier::spec_parse(b).spec_value() == b,
        SectionReadyQualifier::spec_parse(srq.spec_value()) == srq,
        SectionReadyQualifier::spec_parse(b).spec_value() == b,
        SelectAndCallQualifier::spec_parse(scq.spec_value()) == scq,
        SelectAndCallQualifier::spec_parse(b).spec_value() == b,
        AckFileOrSectionQualifier::spec_parse(afq.spec_value()) == afq,
        AckFileOrSectionQualifier::spec_parse(b).spec_value() == b,
        StatusOfFile::spec_parse(sof.spec_value()) == sof,
        StatusOfFile::spec_parse(b).spec_value() == b,
{
    flag_octet_round_trip(frq.qual, frq.is_negative, b);
    flag_octet_round_trip(srq.qual, srq.is_not_ready, b);
    nibble_octet_round_trip(scq.action.0, scq.error.0, b);
    nibble_octet_round_trip(afq.action.0, afq.error.0, b);
    status_octet_round_trip(sof, b);
}

/// The file transfer qualifier octets of IEC 60870-5-101, subclasses
/// 7.2.6.29 to 7.2.6.38, field by field. File and section ready: the
/// qualifier in bits 0 to 6 and the negative (not ready) flag at 0x80.
/// Select and call, acknowledge: the action in the low nibble and the error
/// in the high nibble. Status of file: the status in bits 0 to 4, LFD at
/// 0x20, FOR at 0x40 and FA at 0x80. Each octet written holds each field at
/// its bits, and every octet is read the same way.
pub proof fn file_qualifier_bits(
    frq: FileReadyQualifier,
    srq: SectionReadyQualifier,
    scq: SelectAndCallQualifier,
    afq: AckFileOrSectionQualifier,
    sof: StatusOfFile,
    b: u8,
)
    ensures
        frq.spec_value() & 0x7f == frq.qual & 0x7f,
        (frq.spec_value() & 0x80 == 0x80) == frq.is_negative,
        FileReadyQualifier::spec_parse(b).qual == b & 0x7f,
        FileReadyQualifier::spec_parse(b).is_negative == (b & 0x80 == 0x80),
        srq.spec_value() & 0x7f == srq.qual & 0x7f,
        (srq.spec_value() & 0x80 == 0x80) == srq.is_not_ready,
        SectionReadyQualifier::spec_parse(b).qual == b & 0x7f,
        SectionReadyQualifier::spec_parse(b).is_not_ready == (b & 0x80 == 0x80),
        scq.spec_value() & 0x0f == scq.action.0 & 0x0f,
        scq.spec_value() >> 4 == scq.error.0 & 0x0f,
        SelectAndCallQualifier::spec_parse(b).action.0 == b & 0x0f,
        SelectAndCallQualifier::spec_parse(b).error.0 == b >> 4,
        afq.spec_value() & 0x0f == afq.action.0 & 0x0f,
        afq.spec_value() >> 4 == afq.error.0 & 0x0f,
        AckFileOrSectionQualifier::spec_parse(b).action.0 == b & 0x0f,
        AckFileOrSectionQualifier::spec_parse(b).error.0 == b >> 4,
        sof.spec_value() & 0x1f == sof.status & 0x1f,
        (sof.spec_value() & 0x20 == 0x20) == sof.is_last_file_of_directory,
        (sof.spec_value() & 0x40 == 0x40) == sof.is_directory,
        (sof.spec_value() & 0x80 == 0x80) == sof.is_transfer_active,
        StatusOfFile::spec_parse(b).status == b & 0x1f,
        StatusOfFile::spec_parse(b).is_last_file_of_directory == (b & 0x20 == 0x20),
        StatusOfFile::spec_parse(b).is_directory == (b & 0x40 == 0x40),
        StatusOfFile::spec_parse(b).is_transfer_active == (b & 0x80 == 0x80),
{
    let v1 = frq.spec_value();
    let q1 = frq.qual;
    let n1 = frq.is_negative;
    let v2 = srq.spec_value();
    let q2 = srq.qual;
    let n2 = srq.is_not_ready;
    let v3 = scq.spec_value();
    let a3 = scq.action.0;
    let e3 = scq.error.0;
    let v4 = afq.spec_value();
    let a4 = afq.action.0;
    let e4 = afq.error.0;
    let v5 = sof.spec_value();
    let s5 = sof.status;
    let l5 = sof.is_last_file_of_directory;
    let d5 = sof.is_directory;
    let t5 = sof.is_transfer_active;
    assert({
        &&& v1 & 0x7f == q1 & 0x7f
        &&& (v1 & 0x80 == 0x80) == n1
        &&& v2 & 0x7f == q2 & 0x7f
        &&& (v2 & 0x80 == 0x80) == n2
        &&& v3 & 0x0f == a3 & 0x0f
        &&& v3 >> 4 == e3 & 0x0f
        &&& v4 & 0x0f == a4 & 0x0f
        &&& v4 >> 4 == e4 & 0x0f
        &&& v5 & 0x1f == s5 & 0x1f
        &&& (v5 & 0x20 == 0x20) == l5
        &&& (v5 & 0x40 == 0x40) == d5
        &&& (v5 & 0x80 == 0x80) == t5
    }) by (bit_vector)
        requires
            v1 == (q1 % 128 + (if n1 { 128u8 } else { 0u8 })) as u8,
            v2 == (q2 % 128 + (if n2 { 128u8 } else { 0u8 })) as u8,
            v3 == (a3 % 16 + (e3 % 16) * 16) as u8,
            v4 == (a4 % 16 + (e4 % 16) * 16) as u8,
            v5 == (s5 % 32 + (if l5 { 32u8 } else { 0u8 }) + (if d5 { 64u8 } else { 0u8 }) + (if t5 {
                128u8
            } else {
                0u8
            })) as u8,
    ;
    crate::asdu::info::octet_bit_facts(b);
}

/// A 7 bit value and a flag in bit 7 survive their octet, and every octet
/// splits into them and back.
proof fn flag_octet_round_trip(q: u8, f: bool, b: u8)
    requires
        q < 128,
    ensures
        ((q % 128 + (if f { 128int } else { 0 })) as u8) % 128 == q,
        (((q % 128 + (if f { 128int } else { 0 })) as u8) >= 128) == f,
        ((b % 128 + (if b >= 128 { 128int } else { 0 })) as u8) == b,
{
}

/// Two nibbles survive their octet, and every octet splits into them and back.
proof fn nibble_octet_round_trip(lo: u8, hi: u8, b: u8)
    requires
        lo < 16,
        hi < 16,
    ensures
        ((lo % 16 + (hi % 16) * 16) as u8) % 16 == lo,
        ((lo % 16 + (hi % 16) * 16) as u8) / 16 == hi,
        ((b % 16 + ((b / 16) % 16) * 16) as u8) == b,
{
}

/// The status of file survives its octet, and every octet splits into its
/// fields and back.
proof fn status_octet_round_trip(sof: StatusOfFile, b: u8)
    requires
        sof.status < 32,
    ensures
        StatusOfFile::spec_parse(sof.spec_value()) == sof,
        StatusOfFile::spec_parse(b).spec_value() == b,
{
    let v = sof.spec_value();
    assert(v as int == sof.status + (if sof.is_last_file_of_directory { 32int } else { 0 }) + (if sof.is_directory {
        64int
    } else {
        0
    }) + (if sof.is_transfer_active {
        128int
    } else {
        0
    }));
}

/// The largest value the 3 octet length of file (LOF) element can carry.
pub const LENGTH_OF_FILE_MAX: u32 = 16777215;

/// The sum of octets, modulo 256.
pub open spec fn octet_sum(b: Seq<u8>) -> nat
    decreases b.len(),
{
    if b.len() == 0 {
        0
    } else {
        ((octet_sum(b.drop_last()) + b.last()) % 256) as nat
    }
}

/// The checksum (CHS) of a section: the arithmetic sum of all its segment
/// octets, modulo 256.
///
/// See companion standard 101, subclass 7.2.6.35.
pub fn file_checksum(b: &[u8]) -> (sum: u8)
    ensures
        sum == octet_sum(b@),
{
    let mut sum: u8 = 0;
    let mut i: usize = 0;
    while i < b.len()
        invariant
            i <= b@.len(),
            sum == octet_sum(b@.subrange(0, i as int)),
        decreases b@.len() - i,
    {
        assert(b@.subrange(0, i + 1).drop_last() =~= b@.subrange(0, i as int));
        sum = sum.wrapping_add(b[i]);
        i = i + 1;
    }
    assert(b@.subrange(0, i as int) =~= b@);
    sum
}

/// A checksum is an arithmetic sum modulo 256: no octets sum to 0, one
/// octet sums to itself, and two runs of octets together sum to the sum of
/// their sums with the carry out of bit 7 dropped.
pub proof fn octet_sum_is_modular_sum(a: Seq<u8>, b: Seq<u8>, x: u8)
    ensures
        octet_sum(Seq::<u8>::empty()) == 0,
        octet_sum(seq![x]) == x,
        octet_sum(a + b) == (octet_sum(a) + octet_sum(b)) % 256,
    decreases b.len(),
{
    assert(seq![x].drop_last() =~= Seq::<u8>::empty());
    assert(seq![x].last() == x);
    assert(octet_sum(Seq::<u8>::empty()) == 0);
    assert(octet_sum(seq![x]) == ((octet_sum(Seq::<u8>::empty()) + x) % 256) as nat);
    vstd::arithmetic::div_mod::lemma_small_mod(x as nat, 256);
    if a.len() > 0 {
        assert(octet_sum(a) < 256);
    }
    if b.len() == 0 {
        assert(a + b =~= a);
        vstd::arithmetic::div_mod::lemma_small_mod(octet_sum(a), 256);
    } else {
        octet_sum_is_modular_sum(a, b.drop_last(), x);
        assert((a + b).drop_last() =~= a + b.drop_last());
        assert((a + b).last() == b.last());
        let sa = octet_sum(a) as int;
        let sb = octet_sum(b.drop_last()) as int;
        let l = b.last() as int;
        vstd::arithmetic::div_mod::lemma_add_mod_noop(sa + sb, l, 256);
        vstd::arithmetic::div_mod::lemma_add_mod_noop(sa, sb + l, 256);
        vstd::arithmetic::div_mod::lemma_small_mod(l as nat, 256);
        vstd::arithmetic::div_mod::lemma_mod_twice(sa + sb, 256);
        vstd::arithmetic::div_mod::lemma_mod_twice(sb + l, 256);
        vstd::arithmetic::div_mod::lemma_add_mod_noop(sa, sb + l, 256);
        if a.len() == 0 {
            vstd::arithmetic::div_mod::lemma_small_mod(0, 256);
        }
        vstd::arithmetic::div_mod::lemma_small_mod(sa as nat, 256);
    }
}

/// The largest segment payload that fits one `F_SG_NA_1` ASDU: what the ASDU
/// size leaves after the identifier, the address and NOF, NOS and LOS, and
/// never more than the 255 a single LOS octet counts.
pub open spec fn spec_max_segment_size(p: Params) -> int {
    let used = 2 + p.cause_size + p.common_addr_size + p.info_obj_addr_size + 4;
    let room = if used > ASDU_SIZE_MAX { 0 } else { ASDU_SIZE_MAX - used };
    if room > 255 {
        255
    } else {
        room
    }
}

impl Params {
    /// The largest segment payload that fits one `F_SG_NA_1` ASDU.
    ///
    /// Bounded by the ASDU size and, because LOS is a single octet, by 255.
    pub fn max_segment_size(&self) -> (n: usize)
        ensures
            n == spec_max_segment_size(*self),
    {
        let used = self.identifier_size() + self.info_obj_addr_size as usize + 4;
        let room = if used > ASDU_SIZE_MAX {
            0
        } else {
            ASDU_SIZE_MAX - used
        };
        if room > 255 {
            255
        } else {
            room
        }
    }
}

/// Validate the cause of transmission of a file transfer ASDU: it must be one
/// of `allowed`, and then the parameters must be valid.
fn check_file_cause(params: &Params, coa: CauseOfTransmission, allowed: &[u8]) -> (r: Result<()>)
    ensures
        !allowed@.contains(coa.cause.0) ==> r == Err::<(), Error>(Error::CmdCause),
        allowed@.contains(coa.cause.0) && !params.spec_valid() ==> r == Err::<(), Error>(Error::Param),
        allowed@.contains(coa.cause.0) && params.spec_valid() ==> r is Ok,
{
    let mut found = false;
    let mut i: usize = 0;
    while i < allowed.len()
        invariant
            i <= allowed@.len(),
            found == exists|j: int| 0 <= j < i && allowed@[j] == coa.cause.0,
        decreases allowed@.len() - i,
    {
        if allowed[i] == coa.cause.0 {
            found = true;
        }
        i = i + 1;
    }
    if !found {
        return Err(Error::CmdCause);
    }
    params.valid()
}


/// The information object of `F_FR_NA_1`: file ready.
#[derive(Debug, Clone, Copy, PartialEq, Eq, Default, Structural)]
pub struct FileReadyInfo {
    /// Information object address.
    pub ioa: InfoObjAddr,
    /// Name of the file.
    pub nof: NameOfFile,
    /// Total length of the file in octets.
    pub length_of_file: u32,
    /// File ready qualifier.
    pub frq: FileReadyQualifier,
}

/// The information object of `F_SR_NA_1`: section ready.
#[derive(Debug, Clone, Copy, PartialEq, Eq, Default, Structural)]
pub struct SectionReadyInfo {
    /// Information object address.
    pub ioa: InfoObjAddr,
    /// Name of the file.
    pub nof: NameOfFile,
    /// Name (number) of the section.
    pub nos: u8,
    /// Length of this section in octets.
    pub length_of_section: u32,
    /// Section ready qualifier.
    pub srq: SectionReadyQualifier,
}

/// The information object of `F_SC_NA_1`: call directory, select file, call
/// file, call section.
#[derive(Debug, Clone, Copy, PartialEq, Eq, Default, Structural)]
pub struct CallOrSelectFileInfo {
    /// Information object address.
    pub ioa: InfoObjAddr,
    /// Name of the file.
    pub nof: NameOfFile,
    /// Name (number) of the section.
    pub nos: u8,
    /// Select and call qualifier.
    pub scq: SelectAndCallQualifier,
}

/// The information object of `F_LS_NA_1`: last section, last segment.
#[derive(Debug, Clone, Copy, PartialEq, Eq, Default, Structural)]
pub struct LastSectionOrSegmentInfo {
    /// Information object address.
    pub ioa: InfoObjAddr,
    /// Name of the file.
    pub nof: NameOfFile,
    /// Name (number) of the section.
    pub nos: u8,
    /// Last section or segment qualifier.
    pub lsq: LastSectionQualifier,
    /// Checksum of the section; 0 when `lsq` marks the end of a file rather
    /// than the end of a section.
    pub chs: u8,
}

/// The information object of `F_AF_NA_1`: acknowledge file or section.
#[derive(Debug, Clone, Copy, PartialEq, Eq, Default, Structural)]
pub struct AckFileOrSectionInfo {
    /// Information object address.
    pub ioa: InfoObjAddr,
    /// Name of the file.
    pub nof: NameOfFile,
    /// Name (number) of the section.
    pub nos: u8,
    /// Acknowledge qualifier.
    pub afq: AckFileOrSectionQualifier,
}

/// The element set of `F_FR_NA_1`: NOF, LOF, FRQ.
pub open spec fn file_ready_octets(info: FileReadyInfo) -> Seq<u8> {
    u16_octets(info.nof.0) + u24_octets(info.length_of_file) + seq![info.frq.spec_value()]
}

/// The element set of `F_SR_NA_1`: NOF, NOS, LOF, SRQ.
pub open spec fn section_ready_octets(info: SectionReadyInfo) -> Seq<u8> {
    u16_octets(info.nof.0) + seq![info.nos] + u24_octets(info.length_of_section) + seq![info.srq.spec_value()]
}

/// The element set of `F_SC_NA_1`: NOF, NOS, SCQ.
pub open spec fn call_or_select_octets(info: CallOrSelectFileInfo) -> Seq<u8> {
    u16_octets(info.nof.0) + seq![info.nos, info.scq.spec_value()]
}

/// The element set of `F_LS_NA_1`: NOF, NOS, LSQ, CHS.
pub open spec fn last_section_octets(info: LastSectionOrSegmentInfo) -> Seq<u8> {
    u16_octets(info.nof.0) + seq![info.nos, info.lsq.0, info.chs]
}

/// The element set of `F_AF_NA_1`: NOF, NOS, AFQ.
pub open spec fn ack_octets(info: AckFileOrSectionInfo) -> Seq<u8> {
    u16_octets(info.nof.0) + seq![info.nos, info.afq.spec_value()]
}

/// The file ready object whose element set starts at `at`.
pub open spec fn file_ready_at(ioa: u32, b: Seq<u8>, at: int) -> FileReadyInfo {
    FileReadyInfo {
        ioa,
        nof: NameOfFile(u16_at(b, at)),
        length_of_file: u24_at(b, at + 2),
        frq: FileReadyQualifier::spec_parse(b[at + 5]),
    }
}

/// The section ready object whose element set starts at `at`.
pub open spec fn section_ready_at(ioa: u32, b: Seq<u8>, at: int) -> SectionReadyInfo {
    SectionReadyInfo {
        ioa,
        nof: NameOfFile(u16_at(b, at)),
        nos: b[at + 2],
        length_of_section: u24_at(b, at + 3),
        srq: SectionReadyQualifier::spec_parse(b[at + 6]),
    }
}

/// The call or select object whose element set starts at `at`.
pub open spec fn call_or_select_at(ioa: u32, b: Seq<u8>, at: int) -> CallOrSelectFileInfo {
    CallOrSelectFileInfo {
        ioa,
        nof: NameOfFile(u16_at(b, at)),
        nos: b[at + 2],
        scq: SelectAndCallQualifier::spec_parse(b[at + 3]),
    }
}

/// The last section or segment object whose element set starts at `at`.
pub open spec fn last_section_at(ioa: u32, b: Seq<u8>, at: int) -> LastSectionOrSegmentInfo {
    LastSectionOrSegmentInfo {
        ioa,
        nof: NameOfFile(u16_at(b, at)),
        nos: b[at + 2],
        lsq: LastSectionQualifier(b[at + 3]),
        chs: b[at + 4],
    }
}

/// The acknowledge object whose element set starts at `at`.
pub open spec fn ack_at(ioa: u32, b: Seq<u8>, at: int) -> AckFileOrSectionInfo {
    AckFileOrSectionInfo {
        ioa,
        nof: NameOfFile(u16_at(b, at)),
        nos: b[at + 2],
        afq: AckFileOrSectionQualifier::spec_parse(b[at + 3]),
    }
}

impl Asdu {
    /// Build `F_FR_NA_1`: file ready.
    ///
    /// See companion standard 101, subclass 7.3.6.1. Permitted cause in the
    /// monitor direction: `FileTransfer`. A length of file that does not fit
    /// the 3 octet LOF element is refused.
    pub fn file_ready(params: Params, coa: CauseOfTransmission, ca: CommonAddr, info: FileReadyInfo) -> (r: Result<Asdu>)
        ensures
            coa.cause.0 != 13 ==> r == Err::<Asdu, Error>(Error::CmdCause),
            coa.cause.0 == 13 && params.spec_valid() && info.length_of_file > LENGTH_OF_FILE_MAX ==> r == Err::<
                Asdu,
                Error,
            >(Error::LengthOutOfRange),
            coa.cause.0 == 13 && (!params.spec_valid() || info.length_of_file <= LENGTH_OF_FILE_MAX) ==> sys_outcome(
                r,
                params,
                TypeId(120),
                coa,
                ca,
                info.ioa,
                |b: Seq<u8>| b == file_ready_octets(info),
            ),
    {
        let allowed = [13u8];
        proof {
            assert(allowed@[0] == 13u8);
        }
        check_file_cause(&params, coa, allowed.as_slice())?;
        if info.length_of_file > LENGTH_OF_FILE_MAX {
            return Err(Error::LengthOutOfRange);
        }
        let mut rest: Vec<u8> = Vec::new();
        put_u16(&mut rest, info.nof.0);
        put_u24(&mut rest, info.length_of_file);
        put_u8(&mut rest, info.frq.value());
        assert(rest@ =~= file_ready_octets(info));
        build_sys(params, TypeId(120), coa, ca, info.ioa, rest.as_slice())
    }

    /// Decode `F_FR_NA_1`.
    pub fn get_file_ready(&self) -> (r: Result<FileReadyInfo>)
        ensures
            match sys_read_error(self.params, self.info_obj@.len() as int, 6) {
                Some(e) => r == Err::<FileReadyInfo, Error>(e),
                None => r == Ok::<FileReadyInfo, Error>(
                    file_ready_at(
                        addr_at(self.params.info_obj_addr_size, self.info_obj@, 0),
                        self.info_obj@,
                        self.params.info_obj_addr_size as int,
                    ),
                ),
            },
    {
        let (ioa, at) = self.read_sys(6)?;
        let b = self.info_obj.as_slice();
        Ok(FileReadyInfo {
            ioa,
            nof: NameOfFile(get_u16(b, at)),
            length_of_file: get_u24(b, at + 2),
            frq: FileReadyQualifier::parse(b[at + 5]),
        })
    }

    /// Build `F_SR_NA_1`: section ready.
    ///
    /// See companion standard 101, subclass 7.3.6.2. Permitted cause in the
    /// monitor direction: `FileTransfer`. A length of section that does not
    /// fit the 3 octet LOF element is refused.
    pub fn section_ready(params: Params, coa: CauseOfTransmission, ca: CommonAddr, info: SectionReadyInfo) -> (r: Result<Asdu>)
        ensures
            coa.cause.0 != 13 ==> r == Err::<Asdu, Error>(Error::CmdCause),
            coa.cause.0 == 13 && params.spec_valid() && info.length_of_section > LENGTH_OF_FILE_MAX ==> r == Err::<
                Asdu,
                Error,
            >(Error::LengthOutOfRange),
            coa.cause.0 == 13 && (!params.spec_valid() || info.length_of_section <= LENGTH_OF_FILE_MAX)
                ==> sys_outcome(r, params, TypeId(121), coa, ca, info.ioa, |b: Seq<u8>| b == section_ready_octets(info)),
    {
        let allowed = [13u8];
        proof {
            assert(allowed@[0] == 13u8);
        }
        check_file_cause(&params, coa, allowed.as_slice())?;
        if info.length_of_section > LENGTH_OF_FILE_MAX {
            return Err(Error::LengthOutOfRange);
        }
        let mut rest: Vec<u8> = Vec::new();
        put_u16(&mut rest, info.nof.0);
        put_u8(&mut rest, info.nos);
        put_u24(&mut rest, info.length_of_section);
        put_u8(&mut rest, info.srq.value());
        assert(rest@ =~= section_ready_octets(info));
        build_sys(params, TypeId(121), coa, ca, info.ioa, rest.as_slice())
    }

    /// Decode `F_SR_NA_1`.
    pub fn get_section_ready(&self) -> (r: Result<SectionReadyInfo>)
        ensures
            match sys_read_error(self.params, self.info_obj@.len() as int, 7) {
                Some(e) => r == Err::<SectionReadyInfo, Error>(e),
                None => r == Ok::<SectionReadyInfo, Error>(
                    section_ready_at(
                        addr_at(self.params.info_obj_addr_size, self.info_obj@, 0),
                        self.info_obj@,
                        self.params.info_obj_addr_size as int,
                    ),
                ),
            },
    {
        let (ioa, at) = self.read_sys(7)?;
        let b = self.info_obj.as_slice();
        Ok(SectionReadyInfo {
            ioa,
            nof: NameOfFile(get_u16(b, at)),
            nos: b[at + 2],
            length_of_section: get_u24(b, at + 3),
            srq: SectionReadyQualifier::parse(b[at + 6]),
        })
    }

    /// Build `F_SC_NA_1`: call directory, select file, call file, call section.
    ///
    /// See companion standard 101, subclass 7.3.6.3. Permitted causes in the
    /// control direction: `Request` (to call the directory) and `FileTransfer`.
    pub fn call_or_select_file(
        params: Params,
        coa: CauseOfTransmission,
        ca: CommonAddr,
        info: CallOrSelectFileInfo,
    ) -> (r: Result<Asdu>)
        ensures
            !(coa.cause.0 == 5 || coa.cause.0 == 13) ==> r == Err::<Asdu, Error>(Error::CmdCause),
            (coa.cause.0 == 5 || coa.cause.0 == 13) ==> sys_outcome(
                r,
                params,
                TypeId(122),
                coa,
                ca,
                info.ioa,
                |b: Seq<u8>| b == call_or_select_octets(info),
            ),
    {
        let allowed = [5u8, 13u8];
        proof {
            assert(allowed@[0] == 5u8);
            assert(allowed@[1] == 13u8);
        }
        check_file_cause(&params, coa, allowed.as_slice())?;
        let mut rest: Vec<u8> = Vec::new();
        put_u16(&mut rest, info.nof.0);
        put_u8(&mut rest, info.nos);
        put_u8(&mut rest, info.scq.value());
        assert(rest@ =~= call_or_select_octets(info));
        build_sys(params, TypeId(122), coa, ca, info.ioa, rest.as_slice())
    }

    /// Decode `F_SC_NA_1`.
    pub fn get_call_or_select_file(&self) -> (r: Result<CallOrSelectFileInfo>)
        ensures
            match sys_read_error(self.params, self.info_obj@.len() as int, 4) {
                Some(e) => r == Err::<CallOrSelectFileInfo, Error>(e),
                None => r == Ok::<CallOrSelectFileInfo, Error>(
                    call_or_select_at(
                        addr_at(self.params.info_obj_addr_size, self.info_obj@, 0),
                        self.info_obj@,
                        self.params.info_obj_addr_size as int,
                    ),
                ),
            },
    {
        let (ioa, at) = self.read_sys(4)?;
        let b = self.info_obj.as_slice();
        Ok(CallOrSelectFileInfo {
            ioa,
            nof: NameOfFile(get_u16(b, at)),
            nos: b[at + 2],
            scq: SelectAndCallQualifier::parse(b[at + 3]),
        })
    }

    /// Build `F_LS_NA_1`: last section, last segment.
    ///
    /// See companion standard 101, subclass 7.3.6.4. Permitted cause in the
    /// monitor direction: `FileTransfer`.
    pub fn last_section_or_segment(
        params: Params,
        coa: CauseOfTransmission,
        ca: CommonAddr,
        info: LastSectionOrSegmentInfo,
    ) -> (r: Result<Asdu>)
        ensures
            coa.cause.0 != 13 ==> r == Err::<Asdu, Error>(Error::CmdCause),
            coa.cause.0 == 13 ==> sys_outcome(
                r,
                params,
                TypeId(123),
                coa,
                ca,
                info.ioa,
                |b: Seq<u8>| b == last_section_octets(info),
            ),
    {
        let allowed = [13u8];
        proof {
            assert(allowed@[0] == 13u8);
        }
        check_file_cause(&params, coa, allowed.as_slice())?;
        let mut rest: Vec<u8> = Vec::new();
        put_u16(&mut rest, info.nof.0);
        put_u8(&mut rest, info.nos);
        put_u8(&mut rest, info.lsq.0);
        put_u8(&mut rest, info.chs);
        assert(rest@ =~= last_section_octets(info));
        build_sys(params, TypeId(123), coa, ca, info.ioa, rest.as_slice())
    }

    /// Decode `F_LS_NA_1`.
    pub fn get_last_section_or_segment(&self) -> (r: Result<LastSectionOrSegmentInfo>)
        ensures
            match sys_read_error(self.params, self.info_obj@.len() as int, 5) {
                Some(e) => r == Err::<LastSectionOrSegmentInfo, Error>(e),
                None => r == Ok::<LastSectionOrSegmentInfo, Error>(
                    last_section_at(
                        addr_at(self.params.info_obj_addr_size, self.info_obj@, 0),
                        self.info_obj@,
                        self.params.info_obj_addr_size as int,
                    ),
                ),
            },
    {
        let (ioa, at) = self.read_sys(5)?;
        let b = self.info_obj.as_slice();
        Ok(LastSectionOrSegmentInfo {
            ioa,
            nof: NameOfFile(get_u16(b, at)),
            nos: b[at + 2],
            lsq: LastSectionQualifier(b[at + 3]),
            chs: b[at + 4],
        })
    }

    /// Build `F_AF_NA_1`: acknowledge file, acknowledge section.
    ///
    /// See companion standard 101, subclass 7.3.6.5. Permitted cause in the
    /// control direction: `FileTransfer`.
    pub fn ack_file_or_section(
        params: Params,
        coa: CauseOfTransmission,
        ca: CommonAddr,
        info: AckFileOrSectionInfo,
    ) -> (r: Result<Asdu>)
        ensures
            coa.cause.0 != 13 ==> r == Err::<Asdu, Error>(Error::CmdCause),
            coa.cause.0 == 13 ==> sys_outcome(r, params, TypeId(124), coa, ca, info.ioa, |b: Seq<u8>| b == ack_octets(info)),
    {
        let allowed = [13u8];
        proof {
            assert(allowed@[0] == 13u8);
        }
        check_file_cause(&params, coa, allowed.as_slice())?;
        let mut rest: Vec<u8> = Vec::new();
        put_u16(&mut rest, info.nof.0);
        put_u8(&mut rest, info.nos);
        put_u8(&mut rest, info.afq.value());
        assert(rest@ =~= ack_octets(info));
        build_sys(params, TypeId(124), coa, ca, info.ioa, rest.as_slice())
    }

    /// Decode `F_AF_NA_1`.
    pub fn get_ack_file_or_section(&self) -> (r: Result<AckFileOrSectionInfo>)
        ensures
            match sys_read_error(self.params, self.info_obj@.len() as int, 4) {
                Some(e) => r == Err::<AckFileOrSectionInfo, Error>(e),
                None => r == Ok::<AckFileOrSectionInfo, Error>(
                    ack_at(
                        addr_at(self.params.info_obj_addr_size, self.info_obj@, 0),
                        self.info_obj@,
                        self.params.info_obj_addr_size as int,
                    ),
                ),
            },
    {
        let (ioa, at) = self.read_sys(4)?;
        let b = self.info_obj.as_slice();
        Ok(AckFileOrSectionInfo {
            ioa,
            nof: NameOfFile(get_u16(b, at)),
            nos: b[at + 2],
            afq: AckFileOrSectionQualifier::parse(b[at + 3]),
        })
    }
}


/// The information object of `F_SG_NA_1`: a segment.
#[derive(Debug, Clone, PartialEq, Eq, Default)]
pub struct SegmentInfo {
    /// Information object address.
    pub ioa: InfoObjAddr,
    /// Name of the file.
    pub nof: NameOfFile,
    /// Name (number) of the section.
    pub nos: u8,
    /// The segment payload. Its length must not exceed
    /// [`Params::max_segment_size`].
    pub segment: Vec<u8>,
}

/// One directory entry of `F_DR_TA_1`.
#[derive(Debug, Clone, Copy, PartialEq, Eq, Default)]
pub struct DirectoryInfo {
    /// Information object address.
    pub ioa: InfoObjAddr,
    /// Name of the file.
    pub nof: NameOfFile,
    /// Total length of the file in octets.
    pub length_of_file: u32,
    /// Status of the file.
    pub sof: StatusOfFile,
    /// Creation time of the file.
    pub time: Option<Timestamp>,
    /// IV (invalid) and SB (substituted) of the time tag.
    ///
    /// `time` holds the reading even when it is invalid, so check
    /// [`TimeTagFlags::is_valid`] before taking it as the time of the
    /// event.
    pub time_flags: TimeTagFlags,
}

/// The element set of `F_SG_NA_1`: NOF, NOS, LOS and the segment itself.
pub open spec fn segment_octets(nof: NameOfFile, nos: u8, segment: Seq<u8>) -> Seq<u8> {
    u16_octets(nof.0) + seq![nos, segment.len() as u8] + segment
}

/// The octets a CP56Time2a tag with flags takes for `t` in `zone`: the
/// no-time tag with the flags for `None`; otherwise the tag of the reading
/// of `t` in the zone, with its SU flag and the flags, which in UTC and at a
/// fixed offset is stated exactly and reads back with the flags when it
/// falls in 2000..=2099.
pub open spec fn flagged_tag_ok(tag: Seq<u8>, t: Option<Timestamp>, flags: TimeTagFlags, zone: TimeZone) -> bool {
    &&& tag.len() == 7
    &&& t is None ==> tag == cp56_no_time().update(2, with_flags(128, flags))
    &&& t matches Some(ts) ==> exists|c: CalendarTime, su: bool|
        c.well_formed() && reading_in(zone, ts, c) && summer_flag(zone, ts, su) && tag == #[trigger] cp56_octets(
            c,
            su,
        ).update(2, with_flags(c.minute as u8, flags))
    &&& t matches Some(ts) ==> match zone_offset(zone) {
        Some(off) => tag == cp56_octets(reading_at(ts, off), false).update(
            2,
            with_flags(reading_at(ts, off).minute as u8, flags),
        ) && (2000 <= reading_at(ts, off).year <= 2099 ==> decode_cp56_at(tag, off) == Some(ts)
            && TimeTagFlags::spec_from_minutes_octet(tag[2]) == flags),
        None => true,
    }
}

/// What reading a CP56Time2a tag gives in `zone`: in UTC, at a fixed offset
/// and in a named zone exactly its reading; in the host's zone, if
/// anything, a valid reading that [`cp56_zone_read`] allows.
pub open spec fn flagged_tag_decoded(tag: Seq<u8>, t: Option<Timestamp>, zone: TimeZone) -> bool {
    &&& match zone_offset(zone) {
        Some(off) => t == decode_cp56_at(tag, off),
        None => t is Some ==> cp56_reading_valid(tag),
    }
    &&& cp56_zone_read(zone, tag, t)
}

/// The first six octets of a directory entry: NOF, LOF, SOF.
pub open spec fn directory_fixed_octets(v: DirectoryInfo) -> Seq<u8> {
    u16_octets(v.nof.0) + u24_octets(v.length_of_file) + seq![v.sof.spec_value()]
}

/// The element set of a directory entry as the builder writes it.
pub open spec fn directory_elem_ok(e: Seq<u8>, v: DirectoryInfo, zone: TimeZone) -> bool {
    &&& e.len() == 13
    &&& e.subrange(0, 6) == directory_fixed_octets(v)
    &&& flagged_tag_ok(e.subrange(6, 13), v.time, v.time_flags, zone)
}

/// A directory entry as the getter reads it from its element set.
pub open spec fn directory_decoded(e: Seq<u8>, ioa: u32, v: DirectoryInfo, zone: TimeZone) -> bool {
    &&& v.ioa == ioa
    &&& v.nof == NameOfFile(u16_at(e, 0))
    &&& v.length_of_file == u24_at(e, 2)
    &&& v.sof == StatusOfFile::spec_parse(e[5])
    &&& v.time_flags == TimeTagFlags::spec_from_minutes_octet(e[8])
    &&& flagged_tag_decoded(e.subrange(6, 13), v.time, zone)
}

/// Why one directory entry is refused: its length of file, then its address.
pub open spec fn directory_entry_error(v: DirectoryInfo, w: u8) -> Option<Error> {
    if v.length_of_file > LENGTH_OF_FILE_MAX {
        Some(Error::LengthOutOfRange)
    } else if !addr_fits(w, v.ioa) {
        Some(Error::InfoObjAddrFit)
    } else {
        None
    }
}

/// Why the first refused entry of a directory is refused; `None` when none is.
pub open spec fn directory_entries_error(s: Seq<DirectoryInfo>, w: u8) -> Option<Error>
    decreases s.len(),
{
    if s.len() == 0 {
        None
    } else {
        match directory_entries_error(s.drop_last(), w) {
            Some(e) => Some(e),
            None => directory_entry_error(s.last(), w),
        }
    }
}

/// A refusal among the first `k` entries is the refusal of the whole directory.
proof fn directory_error_prefix(s: Seq<DirectoryInfo>, w: u8, k: int)
    requires
        0 <= k <= s.len(),
        directory_entries_error(s.subrange(0, k), w) is Some,
    ensures
        directory_entries_error(s, w) == directory_entries_error(s.subrange(0, k), w),
    decreases s.len() - k,
{
    if k < s.len() {
        assert(s.subrange(0, k + 1).drop_last() =~= s.subrange(0, k));
        directory_error_prefix(s, w, k + 1);
    } else {
        assert(s.subrange(0, k) =~= s);
    }
}

/// The addresses of directory entries.
pub open spec fn directory_ioas(infos: Seq<DirectoryInfo>) -> spec_fn(int) -> u32 {
    |i: int| infos[i].ioa
}

/// The element sets of directory entries.
pub open spec fn directory_elems(infos: Seq<DirectoryInfo>, zone: TimeZone) -> spec_fn(int, Seq<u8>) -> bool {
    |i: int, e: Seq<u8>| directory_elem_ok(e, infos[i], zone)
}

/// The payload the directory builder writes for `infos`: each entry its own
/// address, then its element set.
pub open spec fn directory_built(p: Params, infos: Seq<DirectoryInfo>, payload: Seq<u8>) -> bool {
    objects_ok(
        payload,
        p.info_obj_addr_size,
        13,
        false,
        infos.len() as int,
        directory_ioas(infos),
        directory_elems(infos, p.info_obj_time_zone),
    )
}

/// What the directory getter reads from a payload of `n` entries.
pub open spec fn directory_read(p: Params, n: int, payload: Seq<u8>, out: Seq<DirectoryInfo>) -> bool {
    let w = p.info_obj_addr_size;
    &&& out.len() == n
    &&& forall|i: int|
        0 <= i < out.len() ==> directory_decoded(
            elem_of(w as int, 13, false, payload, i),
            obj_ioa(w, 13, false, payload, i),
            #[trigger] out[i],
            p.info_obj_time_zone,
        )
}

/// Append the element set of one directory entry.
fn put_directory_entry(buf: &mut Vec<u8>, v: DirectoryInfo, zone: TimeZone)
    ensures
        final(buf)@.len() == old(buf)@.len() + 13,
        final(buf)@.subrange(0, old(buf)@.len() as int) == old(buf)@,
        directory_elem_ok(final(buf)@.subrange(old(buf)@.len() as int, final(buf)@.len() as int), v, zone),
{
    let ghost b0 = buf@;
    put_u16(buf, v.nof.0);
    put_u24(buf, v.length_of_file);
    put_u8(buf, v.sof.value());
    let tag = cp56time2a_tag(v.time, v.time_flags, zone);
    put_bytes(buf, tag.as_slice());
    proof {
        let e = buf@.subrange(b0.len() as int, buf@.len() as int);
        assert(e.subrange(0, 6) =~= directory_fixed_octets(v));
        assert(e.subrange(6, 13) =~= tag@);
        assert(buf@.subrange(0, b0.len() as int) =~= b0);
    }
}

/// Read the directory entry whose address is `ioa` and whose element set
/// starts at `at`.
fn read_directory_entry(b: &[u8], at: usize, ioa: u32, zone: TimeZone) -> (v: DirectoryInfo)
    requires
        at + 13 <= b.len(),
    ensures
        directory_decoded(b@.subrange(at as int, at + 13), ioa, v, zone),
{
    let tag = vstd::slice::slice_subrange(b, at + 6, at + 13);
    let (time, time_flags) = parse_cp56time2a_tag(tag, zone);
    let v = DirectoryInfo {
        ioa,
        nof: NameOfFile(get_u16(b, at)),
        length_of_file: get_u24(b, at + 2),
        sof: StatusOfFile::parse(b[at + 5]),
        time,
        time_flags,
    };
    proof {
        let e = b@.subrange(at as int, at + 13);
        assert(e.subrange(6, 13) =~= tag@);
        assert(e[8] == tag@[2]);
        assert(u16_at(e, 0) == u16_at(b@, at as int));
        assert(u24_at(e, 2) == u24_at(b@, at + 2));
    }
    v
}

impl Asdu {
    /// Build `F_SG_NA_1`: a segment.
    ///
    /// See companion standard 101, subclass 7.3.6.6. Permitted cause in the
    /// monitor direction: `FileTransfer`. The payload must not exceed
    /// [`Params::max_segment_size`], which is what the single LOS octet and the
    /// ASDU size between them allow.
    pub fn file_segment(params: Params, coa: CauseOfTransmission, ca: CommonAddr, info: &SegmentInfo) -> (r: Result<Asdu>)
        ensures
            coa.cause.0 != 13 ==> r == Err::<Asdu, Error>(Error::CmdCause),
            coa.cause.0 == 13 && params.spec_valid() && info.segment@.len() > spec_max_segment_size(params) ==> r
                == Err::<Asdu, Error>(Error::LengthOutOfRange),
            coa.cause.0 == 13 && (!params.spec_valid() || info.segment@.len() <= spec_max_segment_size(params))
                ==> sys_outcome(
                r,
                params,
                TypeId(125),
                coa,
                ca,
                info.ioa,
                |b: Seq<u8>| b == segment_octets(info.nof, info.nos, info.segment@),
            ),
    {
        let allowed = [13u8];
        proof {
            assert(allowed@[0] == 13u8);
        }
        check_file_cause(&params, coa, allowed.as_slice())?;
        if info.segment.len() > params.max_segment_size() {
            return Err(Error::LengthOutOfRange);
        }
        let mut rest: Vec<u8> = Vec::new();
        put_u16(&mut rest, info.nof.0);
        put_u8(&mut rest, info.nos);
        put_u8(&mut rest, info.segment.len() as u8);
        put_bytes(&mut rest, info.segment.as_slice());
        assert(rest@ =~= segment_octets(info.nof, info.nos, info.segment@));
        build_sys(params, TypeId(125), coa, ca, info.ioa, rest.as_slice())
    }

    /// Decode `F_SG_NA_1`: the segment is as long as its LOS octet says.
    pub fn get_file_segment(&self) -> (r: Result<SegmentInfo>)
        ensures
            match sys_read_error(self.params, self.info_obj@.len() as int, 4) {
                Some(e) => r == Err::<SegmentInfo, Error>(e),
                None => {
                    let b = self.info_obj@;
                    let w = self.params.info_obj_addr_size as int;
                    let los = b[w + 3] as int;
                    if b.len() < w + 4 + los {
                        r == Err::<SegmentInfo, Error>(Error::UnexpectedEof)
                    } else {
                        r matches Ok(s) && s.ioa == addr_at(self.params.info_obj_addr_size, b, 0) && s.nof
                            == NameOfFile(u16_at(b, w)) && s.nos == b[w + 2] && s.segment@ == b.subrange(
                            w + 4,
                            w + 4 + los,
                        )
                    }
                },
            },
    {
        let (ioa, at) = self.read_sys(4)?;
        let b = self.info_obj.as_slice();
        let los = b[at + 3] as usize;
        if b.len() < at + 4 + los {
            return Err(Error::UnexpectedEof);
        }
        let seg = vstd::slice::slice_subrange(b, at + 4, at + 4 + los);
        Ok(SegmentInfo { ioa, nof: NameOfFile(get_u16(b, at)), nos: b[at + 2], segment: vstd::slice::slice_to_vec(seg) })
    }

    /// Build `F_DR_TA_1`: a directory, one information object per entry.
    ///
    /// See companion standard 101, subclass 7.3.6.7. Permitted causes in the
    /// monitor direction: `Spontaneous` and `Request`. The entries are
    /// written in order; the first whose length of file does not fit LOF, or
    /// whose address does not fit, is refused.
    pub fn file_directory(params: Params, coa: CauseOfTransmission, ca: CommonAddr, infos: &[DirectoryInfo]) -> (r: Result<Asdu>)
        ensures
            !(coa.cause.0 == 3 || coa.cause.0 == 5) ==> r == Err::<Asdu, Error>(Error::CmdCause),
            (coa.cause.0 == 3 || coa.cause.0 == 5) && !params.spec_valid() ==> r == Err::<Asdu, Error>(Error::Param),
            (coa.cause.0 == 3 || coa.cause.0 == 5) && params.spec_valid() ==> match check_valid_error(
                params,
                TypeId(126),
                false,
                infos@.len() as int,
            ) {
                Some(e) => r == Err::<Asdu, Error>(e),
                None => if infos@.len() >= 128 {
                    r == Err::<Asdu, Error>(Error::InfoObjIndexFit)
                } else {
                    match directory_entries_error(infos@, params.info_obj_addr_size) {
                        Some(e) => r == Err::<Asdu, Error>(e),
                        None => r matches Ok(u) && u.params == params && u.identifier == built_identifier(
                            TypeId(126),
                            false,
                            coa,
                            ca,
                            infos@.len() as int,
                        ) && directory_built(params, infos@, u.info_obj@),
                    }
                },
            },
    {
        let allowed = [3u8, 5u8];
        proof {
            assert(allowed@[0] == 3u8);
            assert(allowed@[1] == 5u8);
        }
        check_file_cause(&params, coa, allowed.as_slice())?;
        let mut u = start(params, TypeId(126), false, coa, ca, infos.len())?;
        let w = params.info_obj_addr_size;
        let zone = params.info_obj_time_zone;
        let ghost ioa = directory_ioas(infos@);
        let ghost ok = directory_elems(infos@, zone);
        let mut buf: Vec<u8> = Vec::new();
        proof {
            objects_empty(w, 13, false, ioa, ok);
        }
        let mut i: usize = 0;
        while i < infos.len()
            invariant
                1 <= w <= 3,
                w == params.info_obj_addr_size,
                zone == params.info_obj_time_zone,
                i <= infos@.len(),
                ioa == directory_ioas(infos@),
                ok == directory_elems(infos@, zone),
                objects_ok(buf@, w, 13, false, i as int, ioa, ok),
                directory_entries_error(infos@.subrange(0, i as int), w) is None,
                coa.cause.0 == 3 || coa.cause.0 == 5,
                params.spec_valid(),
                check_valid_error(params, TypeId(126), false, infos@.len() as int) is None,
                infos@.len() < 128,
                u.params == params,
                u.identifier == built_identifier(TypeId(126), false, coa, ca, infos@.len() as int),
            decreases infos@.len() - i,
        {
            let v = infos[i];
            proof {
                assert(infos@.subrange(0, i + 1).drop_last() =~= infos@.subrange(0, i as int));
                assert(infos@.subrange(0, i + 1).last() == v);
            }
            if v.length_of_file > LENGTH_OF_FILE_MAX {
                proof {
                    directory_error_prefix(infos@, w, i + 1);
                }
                return Err(Error::LengthOutOfRange);
            }
            let ghost b0 = buf@;
            match put_object_addr(&mut buf, w, false, i, v.ioa) {
                Ok(()) => {},
                Err(e) => {
                    proof {
                        directory_error_prefix(infos@, w, i + 1);
                    }
                    return Err(e);
                },
            }
            let ghost b1 = buf@;
            put_directory_entry(&mut buf, v, zone);
            proof {
                assert(addr_octets(w, ioa(i as int)).len() == w);
                objects_extend(b0, b1, buf@, w, 13, false, i as int, ioa, ok);
            }
            i = i + 1;
        }
        proof {
            assert(infos@.subrange(0, i as int) =~= infos@);
        }
        u.info_obj = buf;
        Ok(u)
    }

    /// Decode `F_DR_TA_1`: every entry carries its own address, whatever the
    /// variable structure qualifier says.
    pub fn get_file_directory(&self) -> (r: Result<Vec<DirectoryInfo>>)
        ensures
            match read_error(
                self.params,
                VariableStruct { number: self.identifier.variable.number, is_sequence: false },
                self.info_obj@.len() as int,
                true,
                0,
                13,
            ) {
                Some(e) => r == Err::<Vec<DirectoryInfo>, Error>(e),
                None => r matches Ok(v) && directory_read(
                    self.params,
                    self.identifier.variable.number as int,
                    self.info_obj@,
                    v@,
                ),
            },
    {
        let vs = VariableStruct { number: self.identifier.variable.number, is_sequence: false };
        let b = self.info_obj.as_slice();
        let pos = object_positions(&self.params, vs, b, true, 0, 13)?;
        let zone = self.params.info_obj_time_zone;
        let ghost w = self.params.info_obj_addr_size;
        let mut out: Vec<DirectoryInfo> = Vec::new();
        let mut i: usize = 0;
        while i < pos.len()
            invariant
                i <= pos@.len(),
                pos@.len() == vs.number,
                w == self.params.info_obj_addr_size,
                zone == self.params.info_obj_time_zone,
                b@ == self.info_obj@,
                forall|k: int|
                    0 <= k < vs.number ==> (#[trigger] pos@[k]).0 == obj_ioa(w, 13, false, b@, k) && pos@[k].1
                        == elem_pos(w as int, 13, false, k) && pos@[k].1 + 13 <= b@.len(),
                out@.len() == i,
                forall|k: int|
                    0 <= k < i ==> directory_decoded(
                        elem_of(w as int, 13, false, b@, k),
                        obj_ioa(w, 13, false, b@, k),
                        #[trigger] out@[k],
                        zone,
                    ),
            decreases pos@.len() - i,
        {
            let (ioa, at) = pos[i];
            let v = read_directory_entry(b, at, ioa, zone);
            out.push(v);
            i = i + 1;
        }
        Ok(out)
    }
}


/// The octets after an address read back as the element set they hold.
proof fn element_set_after_addr(p: Params, ioa: u32, rest: Seq<u8>, payload: Seq<u8>)
    requires
        p.spec_valid(),
        addr_fits(p.info_obj_addr_size, ioa),
        payload == addr_octets(p.info_obj_addr_size, ioa) + rest,
    ensures
        payload.len() == p.info_obj_addr_size + rest.len(),
        payload.subrange(0, p.info_obj_addr_size as int) == addr_octets(p.info_obj_addr_size, ioa),
        forall|j: int| 0 <= j < rest.len() ==> payload[p.info_obj_addr_size + j] == #[trigger] rest[j],
        rest.len() >= 2 ==> u16_at(payload, p.info_obj_addr_size as int) == u16_at(rest, 0),
{
    crate::asdu::codec::addr_round_trip(p.info_obj_addr_size, ioa);
    assert(payload.subrange(0, p.info_obj_addr_size as int) =~= addr_octets(p.info_obj_addr_size, ioa));
}

/// A file ready object reads back as it was built, when its length of file
/// fits LOF and its qualifier fits seven bits.
pub proof fn file_ready_round_trip(p: Params, info: FileReadyInfo, payload: Seq<u8>)
    requires
        p.spec_valid(),
        addr_fits(p.info_obj_addr_size, info.ioa),
        info.length_of_file <= LENGTH_OF_FILE_MAX,
        info.frq.qual < 128,
        payload == addr_octets(p.info_obj_addr_size, info.ioa) + file_ready_octets(info),
    ensures
        sys_read_error(p, payload.len() as int, 6) is None,
        file_ready_at(addr_at(p.info_obj_addr_size, payload, 0), payload, p.info_obj_addr_size as int) == info,
{
    let w = p.info_obj_addr_size as int;
    let rest = file_ready_octets(info);
    element_set_after_addr(p, info.ioa, rest, payload);
    crate::asdu::csys::sys_read_back(p, info.ioa, payload, 6);
    crate::asdu::codec::u32_round_trip(info.length_of_file);
    assert(u24_at(payload, w + 2) == u24_at(u24_octets(info.length_of_file), 0)) by {
        assert(payload[w + 2] == rest[2]);
        assert(payload[w + 3] == rest[3]);
        assert(payload[w + 4] == rest[4]);
    }
    assert(payload[w + 5] == rest[5]);
    flag_octet_round_trip(info.frq.qual, info.frq.is_negative, 0);
}

/// A section ready object reads back as it was built, when its length fits
/// LOF and its qualifier fits seven bits.
pub proof fn section_ready_round_trip(p: Params, info: SectionReadyInfo, payload: Seq<u8>)
    requires
        p.spec_valid(),
        addr_fits(p.info_obj_addr_size, info.ioa),
        info.length_of_section <= LENGTH_OF_FILE_MAX,
        info.srq.qual < 128,
        payload == addr_octets(p.info_obj_addr_size, info.ioa) + section_ready_octets(info),
    ensures
        sys_read_error(p, payload.len() as int, 7) is None,
        section_ready_at(addr_at(p.info_obj_addr_size, payload, 0), payload, p.info_obj_addr_size as int) == info,
{
    let w = p.info_obj_addr_size as int;
    let rest = section_ready_octets(info);
    element_set_after_addr(p, info.ioa, rest, payload);
    crate::asdu::csys::sys_read_back(p, info.ioa, payload, 7);
    crate::asdu::codec::u32_round_trip(info.length_of_section);
    assert(payload[w + 2] == rest[2]);
    assert(u24_at(payload, w + 3) == u24_at(u24_octets(info.length_of_section), 0)) by {
        assert(payload[w + 3] == rest[3]);
        assert(payload[w + 4] == rest[4]);
        assert(payload[w + 5] == rest[5]);
    }
    assert(payload[w + 6] == rest[6]);
    flag_octet_round_trip(info.srq.qual, info.srq.is_not_ready, 0);
}

/// A call or select object reads back as it was built, when the action and
/// the error of its qualifier fit their nibbles.
pub proof fn call_or_select_round_trip(p: Params, info: CallOrSelectFileInfo, payload: Seq<u8>)
    requires
        p.spec_valid(),
        addr_fits(p.info_obj_addr_size, info.ioa),
        info.scq.action.0 < 16,
        info.scq.error.0 < 16,
        payload == addr_octets(p.info_obj_addr_size, info.ioa) + call_or_select_octets(info),
    ensures
        sys_read_error(p, payload.len() as int, 4) is None,
        call_or_select_at(addr_at(p.info_obj_addr_size, payload, 0), payload, p.info_obj_addr_size as int) == info,
{
    let w = p.info_obj_addr_size as int;
    let rest = call_or_select_octets(info);
    element_set_after_addr(p, info.ioa, rest, payload);
    crate::asdu::csys::sys_read_back(p, info.ioa, payload, 4);
    assert(payload[w + 2] == rest[2]);
    assert(payload[w + 3] == rest[3]);
    nibble_octet_round_trip(info.scq.action.0, info.scq.error.0, 0);
}

/// A last section or segment object reads back exactly as it was built.
pub proof fn last_section_round_trip(p: Params, info: LastSectionOrSegmentInfo, payload: Seq<u8>)
    requires
        p.spec_valid(),
        addr_fits(p.info_obj_addr_size, info.ioa),
        payload == addr_octets(p.info_obj_addr_size, info.ioa) + last_section_octets(info),
    ensures
        sys_read_error(p, payload.len() as int, 5) is None,
        last_section_at(addr_at(p.info_obj_addr_size, payload, 0), payload, p.info_obj_addr_size as int) == info,
{
    let w = p.info_obj_addr_size as int;
    let rest = last_section_octets(info);
    element_set_after_addr(p, info.ioa, rest, payload);
    crate::asdu::csys::sys_read_back(p, info.ioa, payload, 5);
    assert(payload[w + 2] == rest[2]);
    assert(payload[w + 3] == rest[3]);
    assert(payload[w + 4] == rest[4]);
}

/// An acknowledge object reads back as it was built, when the action and
/// the error of its qualifier fit their nibbles.
pub proof fn ack_round_trip(p: Params, info: AckFileOrSectionInfo, payload: Seq<u8>)
    requires
        p.spec_valid(),
        addr_fits(p.info_obj_addr_size, info.ioa),
        info.afq.action.0 < 16,
        info.afq.error.0 < 16,
        payload == addr_octets(p.info_obj_addr_size, info.ioa) + ack_octets(info),
    ensures
        sys_read_error(p, payload.len() as int, 4) is None,
        ack_at(addr_at(p.info_obj_addr_size, payload, 0), payload, p.info_obj_addr_size as int) == info,
{
    let w = p.info_obj_addr_size as int;
    let rest = ack_octets(info);
    element_set_after_addr(p, info.ioa, rest, payload);
    crate::asdu::csys::sys_read_back(p, info.ioa, payload, 4);
    assert(payload[w + 2] == rest[2]);
    assert(payload[w + 3] == rest[3]);
    nibble_octet_round_trip(info.afq.action.0, info.afq.error.0, 0);
}

/// A segment of at most 255 octets reads back whole: its address, names and
/// every octet of it, sized by its own LOS octet.
pub proof fn segment_round_trip(p: Params, ioa: u32, nof: NameOfFile, nos: u8, segment: Seq<u8>, payload: Seq<u8>)
    requires
        p.spec_valid(),
        addr_fits(p.info_obj_addr_size, ioa),
        segment.len() <= 255,
        payload == addr_octets(p.info_obj_addr_size, ioa) + segment_octets(nof, nos, segment),
    ensures
        sys_read_error(p, payload.len() as int, 4) is None,
        addr_at(p.info_obj_addr_size, payload, 0) == ioa,
        u16_at(payload, p.info_obj_addr_size as int) == nof.0,
        payload[p.info_obj_addr_size + 2] == nos,
        payload[p.info_obj_addr_size + 3] == segment.len(),
        payload.len() == p.info_obj_addr_size + 4 + segment.len(),
        payload.subrange(p.info_obj_addr_size + 4, p.info_obj_addr_size + 4 + segment.len()) == segment,
{
    let w = p.info_obj_addr_size as int;
    let rest = segment_octets(nof, nos, segment);
    element_set_after_addr(p, ioa, rest, payload);
    crate::asdu::csys::sys_read_back(p, ioa, payload, 4);
    assert(payload[w + 2] == rest[2]);
    assert(payload[w + 3] == rest[3]);
    assert forall|j: int| 0 <= j < segment.len() implies payload[w + 4 + j] == segment[j] by {
        assert(payload[w + (4 + j)] == rest[4 + j]);
    }
    assert(payload.subrange(w + 4, w + 4 + segment.len()) =~= segment);
}

/// A directory none of whose entries is refused has no refused entry.
proof fn directory_entries_accepted(s: Seq<DirectoryInfo>, w: u8)
    requires
        directory_entries_error(s, w) is None,
    ensures
        forall|i: int| 0 <= i < s.len() ==> directory_entry_error(#[trigger] s[i], w) is None,
    decreases s.len(),
{
    if s.len() > 0 {
        directory_entries_accepted(s.drop_last(), w);
        assert forall|i: int| 0 <= i < s.len() implies directory_entry_error(#[trigger] s[i], w) is None by {
            if i < s.len() - 1 {
                assert(s.drop_last()[i] == s[i]);
            }
        }
    }
}

/// A directory reads back entry by entry as it was built: address, name,
/// length and status of every file, and — for a creation time whose reading
/// in UTC or at a fixed offset falls in 2000..=2099 — the time and its flags.
pub proof fn directory_round_trip(p: Params, infos: Seq<DirectoryInfo>, payload: Seq<u8>, out: Seq<DirectoryInfo>)
    requires
        p.spec_valid(),
        0 < infos.len() < 128,
        directory_entries_error(infos, p.info_obj_addr_size) is None,
        forall|i: int| 0 <= i < infos.len() ==> (#[trigger] infos[i]).sof.status < 32,
        directory_built(p, infos, payload),
        directory_read(p, infos.len() as int, payload, out),
    ensures
        read_error(
            p,
            VariableStruct { number: infos.len() as u8, is_sequence: false },
            payload.len() as int,
            true,
            0,
            13,
        ) is None,
        out.len() == infos.len(),
        forall|i: int|
            0 <= i < infos.len() ==> {
                &&& (#[trigger] out[i]).ioa == infos[i].ioa
                &&& out[i].nof == infos[i].nof
                &&& out[i].length_of_file == infos[i].length_of_file
                &&& out[i].sof == infos[i].sof
                &&& (infos[i].time matches Some(ts) && zone_offset(p.info_obj_time_zone) matches Some(off) && 2000
                    <= reading_at(ts, off).year <= 2099) ==> out[i].time == infos[i].time && out[i].time_flags
                    == infos[i].time_flags
            },
{
    let w = p.info_obj_addr_size;
    let n = infos.len() as int;
    let ioa = directory_ioas(infos);
    let ok = directory_elems(infos, p.info_obj_time_zone);
    directory_entries_accepted(infos, w);
    assert forall|i: int| 0 <= i < n && #[trigger] spec_writes_addr(false, i) implies addr_fits(w, ioa(i)) by {
        assert(directory_entry_error(infos[i], w) is None);
    }
    objects_read_back(payload, w, 13, false, n, ioa, ok);
    assert forall|i: int|
        0 <= i < n implies {
        &&& (#[trigger] out[i]).ioa == infos[i].ioa
        &&& out[i].nof == infos[i].nof
        &&& out[i].length_of_file == infos[i].length_of_file
        &&& out[i].sof == infos[i].sof
        &&& (infos[i].time matches Some(ts) && zone_offset(p.info_obj_time_zone) matches Some(off) && 2000
            <= reading_at(ts, off).year <= 2099) ==> out[i].time == infos[i].time && out[i].time_flags
            == infos[i].time_flags
    } by {
        let v = infos[i];
        let e = elem_of(w as int, 13, false, payload, i);
        assert(ok(i, e));
        assert(directory_elem_ok(e, v, p.info_obj_time_zone));
        assert(directory_decoded(e, obj_ioa(w, 13, false, payload, i), out[i], p.info_obj_time_zone));
        let f = e.subrange(0, 6);
        assert(f == directory_fixed_octets(v));
        assert(e[0] == f[0] && e[1] == f[1] && e[2] == f[2] && e[3] == f[3] && e[4] == f[4] && e[5] == f[5]);
        crate::asdu::codec::u32_round_trip(v.length_of_file);
        assert(u24_at(e, 2) == u24_at(u24_octets(v.length_of_file), 0));
        status_octet_round_trip(v.sof, 0);
        assert(directory_entry_error(v, w) is None);
        let tag = e.subrange(6, 13);
        assert(tag[2] == e[8]);
    }
}

} // verus!
