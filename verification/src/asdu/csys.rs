//! System information in the control direction: interrogation, counter
//! interrogation, read, clock synchronization, test, reset process and delay
//! acquisition, plus the end-of-initialization message in the monitor direction.
//!
//! Each of these ASDUs carries one information object: an address (the
//! irrelevant address 0 for the commands that address the whole station)
//! followed by a short element set. The builders state the octets they write
//! and the getters what they read, and each pair reads back what it wrote.

use vstd::prelude::*;

use crate::asdu::codec::{
    addr_at, addr_fits, addr_octets, get_addr, get_u16, put_addr, put_bytes, u16_at, u16_octets, Asdu,
};
use crate::asdu::identifier::{Cause, CauseOfTransmission, CommonAddr, Identifier, TypeId, VariableStruct};
use crate::asdu::info::{
    CauseOfInitial, InfoObjAddr, QualifierCountCall, QualifierOfInterrogation,
    QualifierOfResetProcessCmd, FBP_TEST_WORD, INFO_OBJ_ADDR_IRRELEVANT,
};
use crate::asdu::objects::{built_identifier, read_tag, tag_decoded, tag_ok, tag_read_back, time_read_back};
use crate::asdu::params::Params;
use crate::asdu::time::{cp56time2a, Timestamp};
use crate::error::{Error, Result};

verus! {

/// What a system builder gives: `Param` for invalid parameters,
/// `InfoObjAddrFit` for an address that does not fit, else an ASDU of the one
/// object whose address is `ioa` and whose element set satisfies `rest_ok`.
pub open spec fn sys_outcome(
    r: Result<Asdu>,
    p: Params,
    type_id: TypeId,
    coa: CauseOfTransmission,
    ca: CommonAddr,
    ioa: u32,
    rest_ok: spec_fn(Seq<u8>) -> bool,
) -> bool {
    if !p.spec_valid() {
        r == Err::<Asdu, Error>(Error::Param)
    } else if !addr_fits(p.info_obj_addr_size, ioa) {
        r == Err::<Asdu, Error>(Error::InfoObjAddrFit)
    } else {
        r matches Ok(u) && u.params == p && u.identifier == built_identifier(type_id, false, coa, ca, 1)
            && u.info_obj@.len() >= p.info_obj_addr_size && u.info_obj@.subrange(0, p.info_obj_addr_size as int)
            == addr_octets(p.info_obj_addr_size, ioa) && rest_ok(
            u.info_obj@.subrange(p.info_obj_addr_size as int, u.info_obj@.len() as int),
        )
    }
}

/// Why a system getter that reads an address and `k` more octets refuses a
/// payload; `None` when it reads.
pub open spec fn sys_read_error(p: Params, len: int, k: int) -> Option<Error> {
    if !(1 <= p.info_obj_addr_size <= 3) {
        Some(Error::Param)
    } else if len < p.info_obj_addr_size + k {
        Some(Error::UnexpectedEof)
    } else {
        None
    }
}

/// A cause with the cause itself replaced.
pub open spec fn with_cause(coa: CauseOfTransmission, c: u8) -> CauseOfTransmission {
    CauseOfTransmission { cause: Cause(c), ..coa }
}

/// Build a single-object system ASDU: the address, then `rest`.
pub(crate) fn build_sys(
    params: Params,
    type_id: TypeId,
    coa: CauseOfTransmission,
    ca: CommonAddr,
    ioa: u32,
    rest: &[u8],
) -> (r: Result<Asdu>)
    ensures
        sys_outcome(r, params, type_id, coa, ca, ioa, |b: Seq<u8>| b == rest@),
{
    params.valid()?;
    let mut u = Asdu::new(params, Identifier::new(type_id, VariableStruct::single(), coa, ca));
    let mut buf: Vec<u8> = Vec::new();
    put_addr(&mut buf, params.info_obj_addr_size, ioa)?;
    let ghost a = buf@;
    put_bytes(&mut buf, rest);
    assert(buf@.subrange(0, a.len() as int) =~= a);
    assert(buf@.subrange(a.len() as int, buf@.len() as int) =~= rest@);
    u.info_obj = buf;
    Ok(u)
}

impl Asdu {
    /// The address of the one object and the position of its element set,
    /// when the payload holds `k` octets after the address.
    pub(crate) fn read_sys(&self, k: usize) -> (r: Result<(u32, usize)>)
        requires
            k <= 16,
        ensures
            match sys_read_error(self.params, self.info_obj@.len() as int, k as int) {
                Some(e) => r == Err::<(u32, usize), Error>(e),
                None => r == Ok::<(u32, usize), Error>(
                    (
                        addr_at(self.params.info_obj_addr_size, self.info_obj@, 0),
                        self.params.info_obj_addr_size as usize,
                    ),
                ),
            },
    {
        let w = self.params.info_obj_addr_size;
        if w < 1 || w > 3 {
            return Err(Error::Param);
        }
        if self.info_obj.len() < w as usize + k {
            return Err(Error::UnexpectedEof);
        }
        Ok((get_addr(self.info_obj.as_slice(), 0, w), w as usize))
    }

    /// Build `C_IC_NA_1`: an interrogation command.
    ///
    /// See companion standard 101, subclass 7.3.4.1.
    /// Permitted causes: `Activation`, `Deactivation`.
    pub fn interrogation_cmd(
        params: Params,
        coa: CauseOfTransmission,
        ca: CommonAddr,
        qoi: QualifierOfInterrogation,
    ) -> (r: Result<Asdu>)
        ensures
            !(coa.cause.0 == 6 || coa.cause.0 == 8) ==> r == Err::<Asdu, Error>(Error::CmdCause),
            (coa.cause.0 == 6 || coa.cause.0 == 8) ==> sys_outcome(
                r,
                params,
                TypeId(100),
                coa,
                ca,
                0,
                |b: Seq<u8>| b == seq![qoi.0],
            ),
    {
        if coa.cause.0 != 6 && coa.cause.0 != 8 {
            return Err(Error::CmdCause);
        }
        let rest = [qoi.0];
        assert(rest@ =~= seq![qoi.0]);
        build_sys(params, TypeId(100), coa, ca, INFO_OBJ_ADDR_IRRELEVANT, rest.as_slice())
    }

    /// Decode `C_IC_NA_1` into its information object address and qualifier.
    pub fn get_interrogation_cmd(&self) -> (r: Result<(InfoObjAddr, QualifierOfInterrogation)>)
        ensures
            match sys_read_error(self.params, self.info_obj@.len() as int, 1) {
                Some(e) => r == Err::<(InfoObjAddr, QualifierOfInterrogation), Error>(e),
                None => r == Ok::<(InfoObjAddr, QualifierOfInterrogation), Error>(
                    (
                        addr_at(self.params.info_obj_addr_size, self.info_obj@, 0),
                        QualifierOfInterrogation(self.info_obj@[self.params.info_obj_addr_size as int]),
                    ),
                ),
            },
    {
        let (ioa, at) = self.read_sys(1)?;
        Ok((ioa, QualifierOfInterrogation(self.info_obj[at])))
    }

    /// Build `C_CI_NA_1`: a counter interrogation command.
    ///
    /// See companion standard 101, subclass 7.3.4.2. The cause is forced to
    /// `Activation`, which is the only one the standard permits.
    pub fn counter_interrogation_cmd(
        params: Params,
        coa: CauseOfTransmission,
        ca: CommonAddr,
        qcc: QualifierCountCall,
    ) -> (r: Result<Asdu>)
        ensures
            sys_outcome(r, params, TypeId(101), with_cause(coa, 6), ca, 0, |b: Seq<u8>| b == seq![qcc.spec_value()]),
    {
        let mut coa = coa;
        coa.cause = Cause(6);
        let rest = [qcc.value()];
        assert(rest@ =~= seq![qcc.spec_value()]);
        build_sys(params, TypeId(101), coa, ca, INFO_OBJ_ADDR_IRRELEVANT, rest.as_slice())
    }

    /// Decode `C_CI_NA_1`.
    pub fn get_counter_interrogation_cmd(&self) -> (r: Result<(InfoObjAddr, QualifierCountCall)>)
        ensures
            match sys_read_error(self.params, self.info_obj@.len() as int, 1) {
                Some(e) => r == Err::<(InfoObjAddr, QualifierCountCall), Error>(e),
                None => r == Ok::<(InfoObjAddr, QualifierCountCall), Error>(
                    (
                        addr_at(self.params.info_obj_addr_size, self.info_obj@, 0),
                        QualifierCountCall::spec_parse(self.info_obj@[self.params.info_obj_addr_size as int]),
                    ),
                ),
            },
    {
        let (ioa, at) = self.read_sys(1)?;
        Ok((ioa, QualifierCountCall::parse(self.info_obj[at])))
    }

    /// Build `C_RD_NA_1`: a read command for one information object.
    ///
    /// See companion standard 101, subclass 7.3.4.3. The cause is forced to
    /// `Request`.
    pub fn read_cmd(params: Params, coa: CauseOfTransmission, ca: CommonAddr, ioa: InfoObjAddr) -> (r: Result<Asdu>)
        ensures
            sys_outcome(r, params, TypeId(102), with_cause(coa, 5), ca, ioa, |b: Seq<u8>| b.len() == 0),
    {
        let mut coa = coa;
        coa.cause = Cause(5);
        let rest: [u8; 0] = [];
        build_sys(params, TypeId(102), coa, ca, ioa, rest.as_slice())
    }

    /// Decode `C_RD_NA_1`.
    pub fn get_read_cmd(&self) -> (r: Result<InfoObjAddr>)
        ensures
            match sys_read_error(self.params, self.info_obj@.len() as int, 0) {
                Some(e) => r == Err::<InfoObjAddr, Error>(e),
                None => r == Ok::<InfoObjAddr, Error>(addr_at(self.params.info_obj_addr_size, self.info_obj@, 0)),
            },
    {
        let (ioa, _) = self.read_sys(0)?;
        Ok(ioa)
    }

    /// Build `C_CS_NA_1`: a clock synchronization command.
    ///
    /// See companion standard 101, subclass 7.3.4.4. The cause is forced to
    /// `Activation`.
    pub fn clock_synchronization_cmd(params: Params, coa: CauseOfTransmission, ca: CommonAddr, t: Timestamp) -> (r: Result<Asdu>)
        ensures
            sys_outcome(
                r,
                params,
                TypeId(103),
                with_cause(coa, 6),
                ca,
                0,
                |b: Seq<u8>| tag_ok(b, Some(t), 7, params.info_obj_time_zone),
            ),
    {
        let mut coa = coa;
        coa.cause = Cause(6);
        let rest = cp56time2a(Some(t), params.info_obj_time_zone);
        build_sys(params, TypeId(103), coa, ca, INFO_OBJ_ADDR_IRRELEVANT, rest.as_slice())
    }

    /// Decode `C_CS_NA_1`.
    pub fn get_clock_synchronization_cmd(&self) -> (r: Result<(InfoObjAddr, Option<Timestamp>)>)
        ensures
            match sys_read_error(self.params, self.info_obj@.len() as int, 7) {
                Some(e) => r == Err::<(InfoObjAddr, Option<Timestamp>), Error>(e),
                None => r matches Ok((ioa, t)) && ioa == addr_at(self.params.info_obj_addr_size, self.info_obj@, 0)
                    && tag_decoded(
                    self.info_obj@.subrange(
                        self.params.info_obj_addr_size as int,
                        self.params.info_obj_addr_size + 7,
                    ),
                    t,
                    7,
                    self.params.info_obj_time_zone,
                ),
            },
    {
        let (ioa, at) = self.read_sys(7)?;
        Ok((ioa, read_tag(self.info_obj.as_slice(), at, 7, self.params.info_obj_time_zone)))
    }

    /// Build `C_TS_NA_1`: a test command carrying the fixed test bit pattern.
    ///
    /// See companion standard 101, subclass 7.3.4.5. The cause is forced to
    /// `Activation`.
    pub fn test_command(params: Params, coa: CauseOfTransmission, ca: CommonAddr) -> (r: Result<Asdu>)
        ensures
            sys_outcome(r, params, TypeId(104), with_cause(coa, 6), ca, 0, |b: Seq<u8>| b == u16_octets(FBP_TEST_WORD)),
    {
        let mut coa = coa;
        coa.cause = Cause(6);
        let rest = [0xaau8, 0x55];
        assert(rest@ =~= u16_octets(FBP_TEST_WORD));
        build_sys(params, TypeId(104), coa, ca, INFO_OBJ_ADDR_IRRELEVANT, rest.as_slice())
    }

    /// Decode `C_TS_NA_1`; the flag reports whether the test pattern matched.
    pub fn get_test_command(&self) -> (r: Result<(InfoObjAddr, bool)>)
        ensures
            match sys_read_error(self.params, self.info_obj@.len() as int, 2) {
                Some(e) => r == Err::<(InfoObjAddr, bool), Error>(e),
                None => r == Ok::<(InfoObjAddr, bool), Error>(
                    (
                        addr_at(self.params.info_obj_addr_size, self.info_obj@, 0),
                        u16_at(self.info_obj@, self.params.info_obj_addr_size as int) == FBP_TEST_WORD,
                    ),
                ),
            },
    {
        let (ioa, at) = self.read_sys(2)?;
        Ok((ioa, get_u16(self.info_obj.as_slice(), at) == FBP_TEST_WORD))
    }

    /// Build `C_TS_TA_1`: a test command with a CP56Time2a time tag.
    pub fn test_command_cp56time2a(params: Params, coa: CauseOfTransmission, ca: CommonAddr, t: Timestamp) -> (r: Result<Asdu>)
        ensures
            sys_outcome(
                r,
                params,
                TypeId(107),
                coa,
                ca,
                0,
                |b: Seq<u8>| b.len() == 9 && b.subrange(0, 2) == u16_octets(FBP_TEST_WORD) && tag_ok(
                    b.subrange(2, 9),
                    Some(t),
                    7,
                    params.info_obj_time_zone,
                ),
            ),
    {
        let tag = cp56time2a(Some(t), params.info_obj_time_zone);
        let mut rest: Vec<u8> = Vec::new();
        rest.push(0xaa);
        rest.push(0x55);
        put_bytes(&mut rest, tag.as_slice());
        assert(rest@.subrange(0, 2) =~= u16_octets(FBP_TEST_WORD));
        assert(rest@.subrange(2, 9) =~= tag@);
        build_sys(params, TypeId(107), coa, ca, INFO_OBJ_ADDR_IRRELEVANT, rest.as_slice())
    }

    /// Decode `C_TS_TA_1`.
    pub fn get_test_command_cp56time2a(&self) -> (r: Result<(InfoObjAddr, bool, Option<Timestamp>)>)
        ensures
            match sys_read_error(self.params, self.info_obj@.len() as int, 9) {
                Some(e) => r == Err::<(InfoObjAddr, bool, Option<Timestamp>), Error>(e),
                None => r matches Ok((ioa, ok, t)) && ioa == addr_at(self.params.info_obj_addr_size, self.info_obj@, 0)
                    && ok == (u16_at(self.info_obj@, self.params.info_obj_addr_size as int) == FBP_TEST_WORD)
                    && tag_decoded(
                    self.info_obj@.subrange(
                        self.params.info_obj_addr_size + 2,
                        self.params.info_obj_addr_size + 9,
                    ),
                    t,
                    7,
                    self.params.info_obj_time_zone,
                ),
            },
    {
        let (ioa, at) = self.read_sys(9)?;
        let ok = get_u16(self.info_obj.as_slice(), at) == FBP_TEST_WORD;
        Ok((ioa, ok, read_tag(self.info_obj.as_slice(), at + 2, 7, self.params.info_obj_time_zone)))
    }

    /// Build `C_RP_NA_1`: a reset process command.
    ///
    /// See companion standard 101, subclass 7.3.4.6. The cause is forced to
    /// `Activation`.
    pub fn reset_process_cmd(
        params: Params,
        coa: CauseOfTransmission,
        ca: CommonAddr,
        qrp: QualifierOfResetProcessCmd,
    ) -> (r: Result<Asdu>)
        ensures
            sys_outcome(r, params, TypeId(105), with_cause(coa, 6), ca, 0, |b: Seq<u8>| b == seq![qrp.0]),
    {
        let mut coa = coa;
        coa.cause = Cause(6);
        let rest = [qrp.0];
        assert(rest@ =~= seq![qrp.0]);
        build_sys(params, TypeId(105), coa, ca, INFO_OBJ_ADDR_IRRELEVANT, rest.as_slice())
    }

    /// Decode `C_RP_NA_1`.
    pub fn get_reset_process_cmd(&self) -> (r: Result<(InfoObjAddr, QualifierOfResetProcessCmd)>)
        ensures
            match sys_read_error(self.params, self.info_obj@.len() as int, 1) {
                Some(e) => r == Err::<(InfoObjAddr, QualifierOfResetProcessCmd), Error>(e),
                None => r == Ok::<(InfoObjAddr, QualifierOfResetProcessCmd), Error>(
                    (
                        addr_at(self.params.info_obj_addr_size, self.info_obj@, 0),
                        QualifierOfResetProcessCmd(self.info_obj@[self.params.info_obj_addr_size as int]),
                    ),
                ),
            },
    {
        let (ioa, at) = self.read_sys(1)?;
        Ok((ioa, QualifierOfResetProcessCmd(self.info_obj[at])))
    }

    /// Build `C_CD_NA_1`: a delay acquisition command (IEC 60870-5-101 only).
    ///
    /// See companion standard 101, subclass 7.3.4.7.
    /// Permitted causes: `Spontaneous`, `Activation`.
    pub fn delay_acquire_command(params: Params, coa: CauseOfTransmission, ca: CommonAddr, msec: u16) -> (r: Result<Asdu>)
        ensures
            !(coa.cause.0 == 3 || coa.cause.0 == 6) ==> r == Err::<Asdu, Error>(Error::CmdCause),
            (coa.cause.0 == 3 || coa.cause.0 == 6) ==> sys_outcome(
                r,
                params,
                TypeId(106),
                coa,
                ca,
                0,
                |b: Seq<u8>| b == u16_octets(msec),
            ),
    {
        if coa.cause.0 != 3 && coa.cause.0 != 6 {
            return Err(Error::CmdCause);
        }
        let rest = crate::asdu::time::cp16time2a(msec);
        build_sys(params, TypeId(106), coa, ca, INFO_OBJ_ADDR_IRRELEVANT, rest.as_slice())
    }

    /// Decode `C_CD_NA_1`.
    pub fn get_delay_acquire_command(&self) -> (r: Result<(InfoObjAddr, u16)>)
        ensures
            match sys_read_error(self.params, self.info_obj@.len() as int, 2) {
                Some(e) => r == Err::<(InfoObjAddr, u16), Error>(e),
                None => r == Ok::<(InfoObjAddr, u16), Error>(
                    (
                        addr_at(self.params.info_obj_addr_size, self.info_obj@, 0),
                        u16_at(self.info_obj@, self.params.info_obj_addr_size as int),
                    ),
                ),
            },
    {
        let (ioa, at) = self.read_sys(2)?;
        Ok((ioa, get_u16(self.info_obj.as_slice(), at)))
    }

    /// Build `M_EI_NA_1`: end of initialization, in the monitor direction.
    ///
    /// See companion standard 101, subclass 7.3.3.1. The cause is forced to
    /// `Initialized`.
    pub fn end_of_initialization(
        params: Params,
        coa: CauseOfTransmission,
        ca: CommonAddr,
        ioa: InfoObjAddr,
        coi: CauseOfInitial,
    ) -> (r: Result<Asdu>)
        ensures
            sys_outcome(r, params, TypeId(70), with_cause(coa, 4), ca, ioa, |b: Seq<u8>| b == seq![coi.spec_value()]),
    {
        let mut coa = coa;
        coa.cause = Cause(4);
        let rest = [coi.value()];
        assert(rest@ =~= seq![coi.spec_value()]);
        build_sys(params, TypeId(70), coa, ca, ioa, rest.as_slice())
    }

    /// Decode `M_EI_NA_1`.
    pub fn get_end_of_initialization(&self) -> (r: Result<(InfoObjAddr, CauseOfInitial)>)
        ensures
            match sys_read_error(self.params, self.info_obj@.len() as int, 1) {
                Some(e) => r == Err::<(InfoObjAddr, CauseOfInitial), Error>(e),
                None => r == Ok::<(InfoObjAddr, CauseOfInitial), Error>(
                    (
                        addr_at(self.params.info_obj_addr_size, self.info_obj@, 0),
                        CauseOfInitial::spec_parse(self.info_obj@[self.params.info_obj_addr_size as int]),
                    ),
                ),
            },
    {
        let (ioa, at) = self.read_sys(1)?;
        Ok((ioa, CauseOfInitial::parse(self.info_obj[at])))
    }
}

/// The payload of a system ASDU whose address fits reads back that address,
/// and its element set, from right after it.
pub proof fn sys_read_back(p: Params, ioa: u32, payload: Seq<u8>, k: int)
    requires
        p.spec_valid(),
        addr_fits(p.info_obj_addr_size, ioa),
        k >= 0,
        payload.len() >= p.info_obj_addr_size + k,
        payload.subrange(0, p.info_obj_addr_size as int) == addr_octets(p.info_obj_addr_size, ioa),
    ensures
        sys_read_error(p, payload.len() as int, k) is None,
        addr_at(p.info_obj_addr_size, payload, 0) == ioa,
{
    let w = p.info_obj_addr_size;
    crate::asdu::codec::addr_round_trip(w, ioa);
    let a = payload.subrange(0, w as int);
    assert(forall|j: int| 0 <= j < w ==> #[trigger] a[j] == payload[j]);
    assert(addr_at(w, payload, 0) == addr_at(w, a, 0));
}

/// A clock synchronization command reads back its instant at the irrelevant
/// address, in UTC or at a fixed offset when its reading falls in 2000..=2099.
pub proof fn clock_synchronization_round_trip(p: Params, t: Timestamp, payload: Seq<u8>, out: Option<Timestamp>)
    requires
        p.spec_valid(),
        payload.len() >= p.info_obj_addr_size,
        payload.subrange(0, p.info_obj_addr_size as int) == addr_octets(p.info_obj_addr_size, 0),
        tag_ok(payload.subrange(p.info_obj_addr_size as int, payload.len() as int), Some(t), 7, p.info_obj_time_zone),
        tag_decoded(
            payload.subrange(p.info_obj_addr_size as int, p.info_obj_addr_size + 7),
            out,
            7,
            p.info_obj_time_zone,
        ),
    ensures
        sys_read_error(p, payload.len() as int, 7) is None,
        addr_at(p.info_obj_addr_size, payload, 0) == 0,
        time_read_back(Some(t), out, 7, p.info_obj_time_zone),
{
    let w = p.info_obj_addr_size;
    sys_read_back(p, 0, payload, 7);
    assert(payload.subrange(w as int, payload.len() as int) =~= payload.subrange(w as int, w + 7));
    tag_read_back(payload.subrange(w as int, w + 7), Some(t), out, 7, p.info_obj_time_zone);
}

/// The one-octet system commands read back their qualifier at the address
/// they were built with: interrogation, reset process, and — for qualifiers
/// that fit their bits — counter interrogation and end of initialization.
pub proof fn qualifier_command_round_trip(
    p: Params,
    ioa: u32,
    q: u8,
    qcc: QualifierCountCall,
    coi: CauseOfInitial,
    payload: Seq<u8>,
)
    requires
        p.spec_valid(),
        addr_fits(p.info_obj_addr_size, ioa),
        qcc.request.0 < 64,
        qcc.freeze.0 % 64 == 0,
        coi.cause.0 < 128,
        payload == addr_octets(p.info_obj_addr_size, ioa) + seq![q],
    ensures
        sys_read_error(p, payload.len() as int, 1) is None,
        addr_at(p.info_obj_addr_size, payload, 0) == ioa,
        payload[p.info_obj_addr_size as int] == q,
        q == qcc.spec_value() ==> QualifierCountCall::spec_parse(payload[p.info_obj_addr_size as int]) == qcc,
        q == coi.spec_value() ==> CauseOfInitial::spec_parse(payload[p.info_obj_addr_size as int]) == coi,
{
    let w = p.info_obj_addr_size;
    assert(payload.subrange(0, w as int) =~= addr_octets(w, ioa));
    sys_read_back(p, ioa, payload, 1);
    crate::asdu::info::qualifiers_round_trip(
        coi,
        qcc,
        crate::asdu::info::QualifierOfParameterMv {
            category: crate::asdu::info::QpmCategory(0),
            is_change: false,
            is_in_operation: false,
        },
        crate::asdu::info::QualifierOfCommand { qual: crate::asdu::info::QocQual(0), in_select: false },
        crate::asdu::info::QualifierOfSetpointCmd { qual: crate::asdu::info::QosQual(0), in_select: false },
        q,
    );
}

} // verus!
