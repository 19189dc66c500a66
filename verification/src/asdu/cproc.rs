//! Process information in the control direction: the `C_*` command types sent
//! from the master to the controlled station.
//!
//! Every command ASDU carries exactly one information object (SQ = 0). Pass the
//! `_TA_1` type identification to a builder to get the CP56Time2a variant, in
//! which case the info struct's `time` field is encoded.
//!
//! Select-before-execute is left to the application: check `qoc.in_select` (or
//! `qos.in_select`) and confirm without operating when the command is a select.

use vstd::prelude::*;

use crate::asdu::codec::{
    addr_fits, addr_octets, get_u16, get_u32, put_u16, put_u32, put_u8, u16_at, u16_octets, u32_at,
    u32_octets, Asdu,
};
use crate::asdu::identifier::{CauseOfTransmission, CommonAddr, Identifier, TypeId, VariableStruct};
use crate::asdu::info::{
    DoubleCommand, InfoObjAddr, Normalize, QualifierOfCommand, QualifierOfSetpointCmd, StepCommand,
};
use crate::asdu::objects::{
    command_outcome, elem_of, obj_ioa, object_positions, objects_empty, objects_extend, objects_ok,
    objects_read_back, put_object_addr, put_tag, read_error, read_tag, spec_writes_addr, start_cmd,
    tag_decoded, tag_ok, tag_read_back, time_read_back,
};
use crate::asdu::params::{Params, TimeZone};
use crate::asdu::time::Timestamp;
use crate::error::{Error, Result};

verus! {

/// A single command.
#[derive(Debug, Clone, Copy, PartialEq, Eq, Default)]
pub struct SingleCommandInfo {
    /// Information object address of the controlled point.
    pub ioa: InfoObjAddr,
    /// The commanded state.
    pub value: bool,
    /// Qualifier: pulse behaviour and the select/execute bit.
    pub qoc: QualifierOfCommand,
    /// Time tag; encoded only by `C_SC_TA_1`.
    pub time: Option<Timestamp>,
}

/// A double command.
#[derive(Debug, Clone, Copy, PartialEq, Eq, Default)]
pub struct DoubleCommandInfo {
    /// Information object address of the controlled point.
    pub ioa: InfoObjAddr,
    /// The commanded state.
    pub value: DoubleCommand,
    /// Qualifier: pulse behaviour and the select/execute bit.
    pub qoc: QualifierOfCommand,
    /// Time tag; encoded only by `C_DC_TA_1`.
    pub time: Option<Timestamp>,
}

/// A regulating step command.
#[derive(Debug, Clone, Copy, PartialEq, Eq, Default)]
pub struct StepCommandInfo {
    /// Information object address of the controlled point.
    pub ioa: InfoObjAddr,
    /// Step up or step down.
    pub value: StepCommand,
    /// Qualifier: pulse behaviour and the select/execute bit.
    pub qoc: QualifierOfCommand,
    /// Time tag; encoded only by `C_RC_TA_1`.
    pub time: Option<Timestamp>,
}

/// A set-point command with a normalized value.
#[derive(Debug, Clone, Copy, PartialEq, Eq, Default)]
pub struct SetpointCommandNormalInfo {
    /// Information object address of the controlled point.
    pub ioa: InfoObjAddr,
    /// The set-point in `[-1, 1 - 2^-15]`.
    pub value: Normalize,
    /// Qualifier: implementation-defined value plus the select/execute bit.
    pub qos: QualifierOfSetpointCmd,
    /// Time tag; encoded only by `C_SE_TA_1`.
    pub time: Option<Timestamp>,
}

/// A set-point command with a scaled value.
#[derive(Debug, Clone, Copy, PartialEq, Eq, Default)]
pub struct SetpointCommandScaledInfo {
    /// Information object address of the controlled point.
    pub ioa: InfoObjAddr,
    /// The set-point.
    pub value: i16,
    /// Qualifier: implementation-defined value plus the select/execute bit.
    pub qos: QualifierOfSetpointCmd,
    /// Time tag; encoded only by `C_SE_TB_1`.
    pub time: Option<Timestamp>,
}

/// A set-point command with a short floating point value, carried as the
/// bits of its IEEE 754 single-precision representation.
#[derive(Debug, Clone, Copy, PartialEq, Eq, Default)]
pub struct SetpointCommandFloatInfo {
    /// Information object address of the controlled point.
    pub ioa: InfoObjAddr,
    /// The bits of the set-point (R32-IEEE STD 754).
    pub value: u32,
    /// Qualifier: implementation-defined value plus the select/execute bit.
    pub qos: QualifierOfSetpointCmd,
    /// Time tag; encoded only by `C_SE_TC_1`.
    pub time: Option<Timestamp>,
}

/// A 32 bit string command.
#[derive(Debug, Clone, Copy, PartialEq, Eq, Default)]
pub struct BitsString32CommandInfo {
    /// Information object address of the controlled point.
    pub ioa: InfoObjAddr,
    /// The 32 commanded bits.
    pub value: u32,
    /// Time tag; encoded only by `C_BO_TA_1`.
    pub time: Option<Timestamp>,
}

/// Commands may only be sent with `Activation` or `Deactivation`.
pub open spec fn command_cause_ok(c: u8) -> bool {
    c == 6 || c == 8
}

/// Commands may only be sent with `Activation` or `Deactivation`.
pub fn check_command_cause(coa: CauseOfTransmission) -> (r: Result<()>)
    ensures
        command_cause_ok(coa.cause.0) ==> r is Ok,
        !command_cause_ok(coa.cause.0) ==> r == Err::<(), Error>(Error::CmdCause),
{
    if coa.cause.0 == 6 || coa.cause.0 == 8 {
        Ok(())
    } else {
        Err(Error::CmdCause)
    }
}

/// A command octet — a qualifier that fits its bits plus a state in the low
/// two bits — gives back both.
pub proof fn command_octet_round_trip(q: QualifierOfCommand, v: u8)
    requires
        q.qual.0 < 32,
        v < 4,
    ensures
        ((q.spec_value() + v) as u8) % 4 == v,
        ((q.spec_value() + v) as u8) % 2 == v % 2,
        QualifierOfCommand::spec_parse((q.spec_value() + v) as u8) == q,
{
}

/// The command octets of IEC 60870-5-101, subclasses 7.2.6.15 to 7.2.6.17:
/// SCO holds the state in bit 0 (bit 1 clear), DCO and RCO in bits 0 and 1,
/// and the qualifier of command stands above the state in bits 2 to 7.
pub proof fn command_octet_bits(sc: SingleCommandInfo, dc: DoubleCommandInfo, rc: StepCommandInfo, t: u8)
    ensures
        single_cmd_fixed_octets(sc, t)[0] & 0x03 == (if sc.value { 1u8 } else { 0u8 }),
        single_cmd_fixed_octets(sc, t)[0] & 0xfc == sc.qoc.spec_value(),
        double_cmd_fixed_octets(dc, t)[0] & 0x03 == dc.value.spec_value(),
        double_cmd_fixed_octets(dc, t)[0] & 0xfc == dc.qoc.spec_value(),
        step_cmd_fixed_octets(rc, t)[0] & 0x03 == rc.value.spec_value(),
        step_cmd_fixed_octets(rc, t)[0] & 0xfc == rc.qoc.spec_value(),
{
    let a: u8 = if sc.value { 1 } else { 0 };
    let k1 = sc.qoc.qual.0;
    let s1 = sc.qoc.in_select;
    let q1 = sc.qoc.spec_value();
    let o1 = single_cmd_fixed_octets(sc, t)[0];
    let v2 = dc.value.spec_value();
    let k2 = dc.qoc.qual.0;
    let s2 = dc.qoc.in_select;
    let q2 = dc.qoc.spec_value();
    let o2 = double_cmd_fixed_octets(dc, t)[0];
    let v3 = rc.value.spec_value();
    let k3 = rc.qoc.qual.0;
    let s3 = rc.qoc.in_select;
    let q3 = rc.qoc.spec_value();
    let o3 = step_cmd_fixed_octets(rc, t)[0];
    assert({
        &&& o1 & 0x03 == a
        &&& o1 & 0xfc == q1
        &&& o2 & 0x03 == v2
        &&& o2 & 0xfc == q2
        &&& o3 & 0x03 == v3
        &&& o3 & 0xfc == q3
    }) by (bit_vector)
        requires
            a < 2,
            q1 == (k1 % 32 * 4 + (if s1 { 128u8 } else { 0u8 })) as u8,
            o1 == (q1 + a) as u8,
            v2 < 4,
            q2 == (k2 % 32 * 4 + (if s2 { 128u8 } else { 0u8 })) as u8,
            o2 == (q2 + v2) as u8,
            v3 < 4,
            q3 == (k3 % 32 * 4 + (if s3 { 128u8 } else { 0u8 })) as u8,
            o3 == (q3 + v3) as u8,
    ;
}

/// A set-point qualifier that fits its bits decodes from its octet.
pub proof fn setpoint_octet_round_trip(q: QualifierOfSetpointCmd)
    requires
        q.qual.0 < 128,
    ensures
        QualifierOfSetpointCmd::spec_parse(q.spec_value()) == q,
{
}

/// The time tag length of a single command type, or -1 for another type.
pub open spec fn single_cmd_tag_len(t: u8) -> int {
    if t == 45 {
        0
    } else if t == 58 {
        7
    } else {
        -1
    }
}

/// The octets of a single command element set before its time tag.
pub open spec fn single_cmd_fixed_len(t: u8) -> int {
    1
}

/// The element set size of a single command type.
pub open spec fn single_cmd_size(t: u8) -> int {
    if single_cmd_tag_len(t) >= 0 {
        single_cmd_fixed_len(t) + single_cmd_tag_len(t)
    } else {
        1
    }
}

/// The time tag length of a single command type, 8 for another type.
fn single_cmd_tag(t: u8) -> (n: usize)
    ensures
        single_cmd_tag_len(t) >= 0 ==> n == single_cmd_tag_len(t),
        single_cmd_tag_len(t) < 0 ==> n == 8,
{
    if t == 45 {
        0
    } else if t == 58 {
        7
    } else {
        8
    }
}

/// The octets of a single command element set before its time tag.
fn single_cmd_fixed(t: u8) -> (n: usize)
    ensures
        n == single_cmd_fixed_len(t),
{
    1
}

/// The octets of a single command element set before its time tag, as written.
pub open spec fn single_cmd_fixed_octets(info: SingleCommandInfo, t: u8) -> Seq<u8> {
    seq![(info.qoc.spec_value() + (if info.value { 1int } else { 0 })) as u8]
}

/// Write the octets of a single command element set before its time tag.
fn put_single_cmd_fixed(buf: &mut Vec<u8>, v: SingleCommandInfo, t: u8)
    ensures
        final(buf)@ == old(buf)@ + single_cmd_fixed_octets(v, t),
{
    let value: u8 = if v.value {
        1
    } else {
        0
    };
    put_u8(buf, v.qoc.value() + value);
}

/// The element set of a single command object as a builder writes it.
pub open spec fn single_cmd_elem_ok(e: Seq<u8>, info: SingleCommandInfo, t: u8, zone: TimeZone) -> bool {
    e.len() == single_cmd_size(t) && e.subrange(0, single_cmd_fixed_len(t)) == single_cmd_fixed_octets(info, t) && tag_ok(e.subrange(single_cmd_fixed_len(t), e.len() as int), info.time, single_cmd_tag_len(t), zone)
}

/// A single command object as a getter reads it from its element set.
pub open spec fn single_cmd_decoded(e: Seq<u8>, ioa: u32, info: SingleCommandInfo, t: u8, zone: TimeZone) -> bool {
    &&& info.ioa == ioa
    &&& info.value == (e[0] % 2 == 1) && info.qoc == QualifierOfCommand::spec_parse(e[0])
    &&& tag_decoded(e.subrange(single_cmd_fixed_len(t), single_cmd_size(t)), info.time, single_cmd_tag_len(t), zone)
}

/// Read the single command object at `at`.
fn read_single_cmd(b: &[u8], at: usize, ioa: u32, t: u8, tag: usize, zone: TimeZone) -> (info: SingleCommandInfo)
    requires
        single_cmd_tag_len(t) >= 0,
        tag == single_cmd_tag_len(t),
        at + single_cmd_size(t) <= b.len(),
    ensures
        single_cmd_decoded(b@.subrange(at as int, at + single_cmd_size(t)), ioa, info, t, zone),
{
    let fixed = single_cmd_fixed(t);
    let ghost e = b@.subrange(at as int, at + single_cmd_size(t));
    let x = b[at];
    proof {
        assert(e[0] == x);
    }
    let time = read_tag(b, at + fixed, tag, zone);
    proof {
        assert(e.subrange(single_cmd_fixed_len(t), single_cmd_size(t)) =~= b@.subrange(at + fixed, at + fixed + tag));
    }
    SingleCommandInfo { ioa, value: x % 2 == 1, qoc: QualifierOfCommand::parse(x), time }
}

/// The addresses of single command objects.
pub open spec fn single_cmd_ioas(infos: Seq<SingleCommandInfo>) -> spec_fn(int) -> u32 {
    |i: int| infos[i].ioa
}

/// The element sets of single command objects of type `t`.
pub open spec fn single_cmd_elems(infos: Seq<SingleCommandInfo>, t: u8, zone: TimeZone) -> spec_fn(int, Seq<u8>) -> bool {
    |i: int, e: Seq<u8>| single_cmd_elem_ok(e, infos[i], t, zone)
}

/// The payload a single command builder writes for `infos`.
pub open spec fn single_cmd_built(p: Params, t: u8, seq: bool, infos: Seq<SingleCommandInfo>, payload: Seq<u8>) -> bool {
    objects_ok(
        payload,
        p.info_obj_addr_size,
        single_cmd_size(t),
        seq,
        infos.len() as int,
        single_cmd_ioas(infos),
        single_cmd_elems(infos, t, p.info_obj_time_zone),
    )
}

/// What a single command getter reads from a payload.
pub open spec fn single_cmd_read(p: Params, id: Identifier, payload: Seq<u8>, out: Seq<SingleCommandInfo>) -> bool {
    let t = id.type_id.0;
    let w = p.info_obj_addr_size;
    let seq = id.variable.is_sequence;
    &&& out.len() == id.variable.number
    &&& forall|i: int|
        0 <= i < out.len() ==> single_cmd_decoded(
            elem_of(w as int, single_cmd_size(t), seq, payload, i),
            obj_ioa(w, single_cmd_size(t), seq, payload, i),
            #[trigger] out[i],
            t,
            p.info_obj_time_zone,
        )
}

impl Asdu {
    /// Build `C_SC_NA_1` or `C_SC_TA_1`: a single command.
    ///
    /// See companion standard 101, subclass 7.3.2.1.
    /// Permitted causes in the control direction: `Activation`, `Deactivation`.
    pub fn single_cmd(
        params: Params,
        type_id: TypeId,
        coa: CauseOfTransmission,
        ca: CommonAddr,
        cmd: SingleCommandInfo,
    ) -> (r: Result<Asdu>)
        ensures
            !command_cause_ok(coa.cause.0) ==> r == Err::<Asdu, Error>(Error::CmdCause),
            command_cause_ok(coa.cause.0) ==> command_outcome(
                r,
                params,
                type_id,
                coa,
                ca,
                cmd.ioa,
                single_cmd_tag_len(type_id.0) >= 0,
                |b: Seq<u8>| single_cmd_built(params, type_id.0, false, seq![cmd], b),
            ),
    {
        check_command_cause(coa)?;
        let mut u = start_cmd(params, type_id, coa, ca)?;
        let w = params.info_obj_addr_size;
        let zone = params.info_obj_time_zone;
        let t = type_id.0;
        let tag = single_cmd_tag(t);
        let ghost infos = seq![cmd];
        let ghost size = single_cmd_size(t);
        let ghost ioa = single_cmd_ioas(infos);
        let ghost ok = single_cmd_elems(infos, t, zone);
        let mut buf: Vec<u8> = Vec::new();
        proof {
            objects_empty(w, size, false, ioa, ok);
        }
        match put_object_addr(&mut buf, w, false, 0, cmd.ioa) {
            Ok(()) => {},
            Err(e) => {
                return Err(e);
            },
        }
        let ghost b1 = buf@;
        put_single_cmd_fixed(&mut buf, cmd, t);
        let ghost b15 = buf@;
        if tag == 8 {
            return Err(Error::TypeIdNotMatch);
        }
        put_tag(&mut buf, cmd.time, tag, zone);
        proof {
            assert(addr_octets(w, ioa(0)).len() == w);
            assert(buf@.subrange(0, b15.len() as int) == b15);
            assert forall|j: int| 0 <= j < b1.len() implies buf@[j] == b1[j] by {
                assert(buf@.subrange(0, b15.len() as int)[j] == buf@[j]);
            }
            assert(buf@.subrange(0, b1.len() as int) =~= b1);
            let e = buf@.subrange(b1.len() as int, buf@.len() as int);
            assert forall|j: int| 0 <= j < single_cmd_fixed_len(t) implies e[j] == #[trigger] b15[b1.len() + j] by {
                assert(buf@.subrange(0, b15.len() as int)[b1.len() + j] == buf@[b1.len() + j]);
            }
            assert(b15.subrange(b1.len() as int, b15.len() as int) =~= single_cmd_fixed_octets(cmd, t));
            assert(e.subrange(single_cmd_fixed_len(t), e.len() as int) =~= buf@.subrange(b15.len() as int, buf@.len() as int));
            assert(e.subrange(0, single_cmd_fixed_len(t)) =~= single_cmd_fixed_octets(cmd, t));
            assert(single_cmd_elem_ok(e, infos[0], t, zone));
            objects_extend(Seq::<u8>::empty(), b1, buf@, w, size, false, 0, ioa, ok);
        }
        u.info_obj = buf;
        Ok(u)
    }

    /// Decode `C_SC_NA_1` or `C_SC_TA_1`.
    pub fn get_single_cmd(&self) -> (r: Result<SingleCommandInfo>)
        ensures
            match read_error(
                self.params,
                VariableStruct { number: 1, is_sequence: false },
                self.info_obj@.len() as int,
                single_cmd_tag_len(self.identifier.type_id.0) >= 0,
                1,
                single_cmd_size(self.identifier.type_id.0),
            ) {
                Some(e) => r == Err::<SingleCommandInfo, Error>(e),
                None => r matches Ok(info) && single_cmd_read(
                    self.params,
                    Identifier { variable: VariableStruct { number: 1, is_sequence: false }, ..self.identifier },
                    self.info_obj@,
                    seq![info],
                ),
            },
    {
        let t = self.identifier.type_id.0;
        let tag = single_cmd_tag(t);
        let size: usize = if tag != 8 {
            single_cmd_fixed(t) + tag
        } else {
            1
        };
        let b = self.info_obj.as_slice();
        let one = VariableStruct { number: 1, is_sequence: false };
        let pos = object_positions(&self.params, one, b, tag != 8, 1, size)?;
        let (ioa, at) = pos[0];
        let info = read_single_cmd(b, at, ioa, t, tag, self.params.info_obj_time_zone);
        assert(seq![info][0] == info);
        Ok(info)
    }
}

/// A single command reads back as it was built: its address, its state, a qualifier that fits its bits, and its time as
/// [`time_read_back`] says.
pub proof fn single_cmd_round_trip(p: Params, id: Identifier, cmd: SingleCommandInfo, payload: Seq<u8>, out: SingleCommandInfo)
    requires
        p.spec_valid(),
        single_cmd_tag_len(id.type_id.0) >= 0,
        id.variable == (VariableStruct { number: 1, is_sequence: false }),
        addr_fits(p.info_obj_addr_size, cmd.ioa),
        cmd.qoc.qual.0 < 32,
        single_cmd_built(p, id.type_id.0, false, seq![cmd], payload),
        single_cmd_read(p, id, payload, seq![out]),
    ensures
        read_error(p, id.variable, payload.len() as int, true, 1, single_cmd_size(id.type_id.0)) is None,
        out.ioa == cmd.ioa && out.value == cmd.value && out.qoc == cmd.qoc && time_read_back(
            cmd.time,
            out.time,
            single_cmd_tag_len(id.type_id.0),
            p.info_obj_time_zone,
        ),
{
    let t = id.type_id.0;
    let w = p.info_obj_addr_size;
    let size = single_cmd_size(t);
    let zone = p.info_obj_time_zone;
    let infos = seq![cmd];
    assert(forall|i: int| 0 <= i < 1 && #[trigger] spec_writes_addr(false, i) ==> addr_fits(w, infos[i].ioa));
    objects_read_back(payload, w, size, false, 1, single_cmd_ioas(infos), single_cmd_elems(infos, t, zone));
    let e = elem_of(w as int, size, false, payload, 0);
    assert(single_cmd_elems(infos, t, zone)(0, e));
    assert(seq![out][0] == out);
    assert(obj_ioa(w, size, false, payload, 0) == single_cmd_ioas(infos)(0));
    let fx = e.subrange(0, single_cmd_fixed_len(t));
    assert(fx == single_cmd_fixed_octets(cmd, t));
    assert(forall|j: int| 0 <= j < single_cmd_fixed_len(t) ==> #[trigger] e[j] == fx[j]);
    command_octet_round_trip(cmd.qoc, if cmd.value { 1 } else { 0 });
    tag_read_back(e.subrange(single_cmd_fixed_len(t), single_cmd_size(t)), cmd.time, out.time, single_cmd_tag_len(t), zone);
}


/// The time tag length of a double command type, or -1 for another type.
pub open spec fn double_cmd_tag_len(t: u8) -> int {
    if t == 46 {
        0
    } else if t == 59 {
        7
    } else {
        -1
    }
}

/// The octets of a double command element set before its time tag.
pub open spec fn double_cmd_fixed_len(t: u8) -> int {
    1
}

/// The element set size of a double command type.
pub open spec fn double_cmd_size(t: u8) -> int {
    if double_cmd_tag_len(t) >= 0 {
        double_cmd_fixed_len(t) + double_cmd_tag_len(t)
    } else {
        1
    }
}

/// The time tag length of a double command type, 8 for another type.
fn double_cmd_tag(t: u8) -> (n: usize)
    ensures
        double_cmd_tag_len(t) >= 0 ==> n == double_cmd_tag_len(t),
        double_cmd_tag_len(t) < 0 ==> n == 8,
{
    if t == 46 {
        0
    } else if t == 59 {
        7
    } else {
        8
    }
}

/// The octets of a double command element set before its time tag.
fn double_cmd_fixed(t: u8) -> (n: usize)
    ensures
        n == double_cmd_fixed_len(t),
{
    1
}

/// The octets of a double command element set before its time tag, as written.
pub open spec fn double_cmd_fixed_octets(info: DoubleCommandInfo, t: u8) -> Seq<u8> {
    seq![(info.qoc.spec_value() + info.value.spec_value()) as u8]
}

/// Write the octets of a double command element set before its time tag.
fn put_double_cmd_fixed(buf: &mut Vec<u8>, v: DoubleCommandInfo, t: u8)
    ensures
        final(buf)@ == old(buf)@ + double_cmd_fixed_octets(v, t),
{
    put_u8(buf, v.qoc.value() + v.value.value());
}

/// The element set of a double command object as a builder writes it.
pub open spec fn double_cmd_elem_ok(e: Seq<u8>, info: DoubleCommandInfo, t: u8, zone: TimeZone) -> bool {
    e.len() == double_cmd_size(t) && e.subrange(0, double_cmd_fixed_len(t)) == double_cmd_fixed_octets(info, t) && tag_ok(e.subrange(double_cmd_fixed_len(t), e.len() as int), info.time, double_cmd_tag_len(t), zone)
}

/// A double command object as a getter reads it from its element set.
pub open spec fn double_cmd_decoded(e: Seq<u8>, ioa: u32, info: DoubleCommandInfo, t: u8, zone: TimeZone) -> bool {
    &&& info.ioa == ioa
    &&& info.value == DoubleCommand::spec_parse(e[0]) && info.qoc == QualifierOfCommand::spec_parse(e[0])
    &&& tag_decoded(e.subrange(double_cmd_fixed_len(t), double_cmd_size(t)), info.time, double_cmd_tag_len(t), zone)
}

/// Read the double command object at `at`.
fn read_double_cmd(b: &[u8], at: usize, ioa: u32, t: u8, tag: usize, zone: TimeZone) -> (info: DoubleCommandInfo)
    requires
        double_cmd_tag_len(t) >= 0,
        tag == double_cmd_tag_len(t),
        at + double_cmd_size(t) <= b.len(),
    ensures
        double_cmd_decoded(b@.subrange(at as int, at + double_cmd_size(t)), ioa, info, t, zone),
{
    let fixed = double_cmd_fixed(t);
    let ghost e = b@.subrange(at as int, at + double_cmd_size(t));
    let x = b[at];
    proof {
        assert(e[0] == x);
    }
    let time = read_tag(b, at + fixed, tag, zone);
    proof {
        assert(e.subrange(double_cmd_fixed_len(t), double_cmd_size(t)) =~= b@.subrange(at + fixed, at + fixed + tag));
    }
    DoubleCommandInfo { ioa, value: DoubleCommand::parse(x), qoc: QualifierOfCommand::parse(x), time }
}

/// The addresses of double command objects.
pub open spec fn double_cmd_ioas(infos: Seq<DoubleCommandInfo>) -> spec_fn(int) -> u32 {
    |i: int| infos[i].ioa
}

/// The element sets of double command objects of type `t`.
pub open spec fn double_cmd_elems(infos: Seq<DoubleCommandInfo>, t: u8, zone: TimeZone) -> spec_fn(int, Seq<u8>) -> bool {
    |i: int, e: Seq<u8>| double_cmd_elem_ok(e, infos[i], t, zone)
}

/// The payload a double command builder writes for `infos`.
pub open spec fn double_cmd_built(p: Params, t: u8, seq: bool, infos: Seq<DoubleCommandInfo>, payload: Seq<u8>) -> bool {
    objects_ok(
        payload,
        p.info_obj_addr_size,
        double_cmd_size(t),
        seq,
        infos.len() as int,
        double_cmd_ioas(infos),
        double_cmd_elems(infos, t, p.info_obj_time_zone),
    )
}

/// What a double command getter reads from a payload.
pub open spec fn double_cmd_read(p: Params, id: Identifier, payload: Seq<u8>, out: Seq<DoubleCommandInfo>) -> bool {
    let t = id.type_id.0;
    let w = p.info_obj_addr_size;
    let seq = id.variable.is_sequence;
    &&& out.len() == id.variable.number
    &&& forall|i: int|
        0 <= i < out.len() ==> double_cmd_decoded(
            elem_of(w as int, double_cmd_size(t), seq, payload, i),
            obj_ioa(w, double_cmd_size(t), seq, payload, i),
            #[trigger] out[i],
            t,
            p.info_obj_time_zone,
        )
}

impl Asdu {
    /// Build `C_DC_NA_1` or `C_DC_TA_1`: a double command.
    ///
    /// See companion standard 101, subclass 7.3.2.2.
    pub fn double_cmd(
        params: Params,
        type_id: TypeId,
        coa: CauseOfTransmission,
        ca: CommonAddr,
        cmd: DoubleCommandInfo,
    ) -> (r: Result<Asdu>)
        ensures
            !command_cause_ok(coa.cause.0) ==> r == Err::<Asdu, Error>(Error::CmdCause),
            command_cause_ok(coa.cause.0) ==> command_outcome(
                r,
                params,
                type_id,
                coa,
                ca,
                cmd.ioa,
                double_cmd_tag_len(type_id.0) >= 0,
                |b: Seq<u8>| double_cmd_built(params, type_id.0, false, seq![cmd], b),
            ),
    {
        check_command_cause(coa)?;
        let mut u = start_cmd(params, type_id, coa, ca)?;
        let w = params.info_obj_addr_size;
        let zone = params.info_obj_time_zone;
        let t = type_id.0;
        let tag = double_cmd_tag(t);
        let ghost infos = seq![cmd];
        let ghost size = double_cmd_size(t);
        let ghost ioa = double_cmd_ioas(infos);
        let ghost ok = double_cmd_elems(infos, t, zone);
        let mut buf: Vec<u8> = Vec::new();
        proof {
            objects_empty(w, size, false, ioa, ok);
        }
        match put_object_addr(&mut buf, w, false, 0, cmd.ioa) {
            Ok(()) => {},
            Err(e) => {
                return Err(e);
            },
        }
        let ghost b1 = buf@;
        put_double_cmd_fixed(&mut buf, cmd, t);
        let ghost b15 = buf@;
        if tag == 8 {
            return Err(Error::TypeIdNotMatch);
        }
        put_tag(&mut buf, cmd.time, tag, zone);
        proof {
            assert(addr_octets(w, ioa(0)).len() == w);
            assert(buf@.subrange(0, b15.len() as int) == b15);
            assert forall|j: int| 0 <= j < b1.len() implies buf@[j] == b1[j] by {
                assert(buf@.subrange(0, b15.len() as int)[j] == buf@[j]);
            }
            assert(buf@.subrange(0, b1.len() as int) =~= b1);
            let e = buf@.subrange(b1.len() as int, buf@.len() as int);
            assert forall|j: int| 0 <= j < double_cmd_fixed_len(t) implies e[j] == #[trigger] b15[b1.len() + j] by {
                assert(buf@.subrange(0, b15.len() as int)[b1.len() + j] == buf@[b1.len() + j]);
            }
            assert(b15.subrange(b1.len() as int, b15.len() as int) =~= double_cmd_fixed_octets(cmd, t));
            assert(e.subrange(double_cmd_fixed_len(t), e.len() as int) =~= buf@.subrange(b15.len() as int, buf@.len() as int));
            assert(e.subrange(0, double_cmd_fixed_len(t)) =~= double_cmd_fixed_octets(cmd, t));
            assert(double_cmd_elem_ok(e, infos[0], t, zone));
            objects_extend(Seq::<u8>::empty(), b1, buf@, w, size, false, 0, ioa, ok);
        }
        u.info_obj = buf;
        Ok(u)
    }

    /// Decode `C_DC_NA_1` or `C_DC_TA_1`.
    pub fn get_double_cmd(&self) -> (r: Result<DoubleCommandInfo>)
        ensures
            match read_error(
                self.params,
                VariableStruct { number: 1, is_sequence: false },
                self.info_obj@.len() as int,
                double_cmd_tag_len(self.identifier.type_id.0) >= 0,
                1,
                double_cmd_size(self.identifier.type_id.0),
            ) {
                Some(e) => r == Err::<DoubleCommandInfo, Error>(e),
                None => r matches Ok(info) && double_cmd_read(
                    self.params,
                    Identifier { variable: VariableStruct { number: 1, is_sequence: false }, ..self.identifier },
                    self.info_obj@,
                    seq![info],
                ),
            },
    {
        let t = self.identifier.type_id.0;
        let tag = double_cmd_tag(t);
        let size: usize = if tag != 8 {
            double_cmd_fixed(t) + tag
        } else {
            1
        };
        let b = self.info_obj.as_slice();
        let one = VariableStruct { number: 1, is_sequence: false };
        let pos = object_positions(&self.params, one, b, tag != 8, 1, size)?;
        let (ioa, at) = pos[0];
        let info = read_double_cmd(b, at, ioa, t, tag, self.params.info_obj_time_zone);
        assert(seq![info][0] == info);
        Ok(info)
    }
}

/// A double command reads back as it was built: its address, its state, a qualifier that fits its bits, and its time as
/// [`time_read_back`] says.
pub proof fn double_cmd_round_trip(p: Params, id: Identifier, cmd: DoubleCommandInfo, payload: Seq<u8>, out: DoubleCommandInfo)
    requires
        p.spec_valid(),
        double_cmd_tag_len(id.type_id.0) >= 0,
        id.variable == (VariableStruct { number: 1, is_sequence: false }),
        addr_fits(p.info_obj_addr_size, cmd.ioa),
        cmd.qoc.qual.0 < 32,
        double_cmd_built(p, id.type_id.0, false, seq![cmd], payload),
        double_cmd_read(p, id, payload, seq![out]),
    ensures
        read_error(p, id.variable, payload.len() as int, true, 1, double_cmd_size(id.type_id.0)) is None,
        out.ioa == cmd.ioa && out.value == cmd.value && out.qoc == cmd.qoc && time_read_back(
            cmd.time,
            out.time,
            double_cmd_tag_len(id.type_id.0),
            p.info_obj_time_zone,
        ),
{
    let t = id.type_id.0;
    let w = p.info_obj_addr_size;
    let size = double_cmd_size(t);
    let zone = p.info_obj_time_zone;
    let infos = seq![cmd];
    assert(forall|i: int| 0 <= i < 1 && #[trigger] spec_writes_addr(false, i) ==> addr_fits(w, infos[i].ioa));
    objects_read_back(payload, w, size, false, 1, double_cmd_ioas(infos), double_cmd_elems(infos, t, zone));
    let e = elem_of(w as int, size, false, payload, 0);
    assert(double_cmd_elems(infos, t, zone)(0, e));
    assert(seq![out][0] == out);
    assert(obj_ioa(w, size, false, payload, 0) == double_cmd_ioas(infos)(0));
    let fx = e.subrange(0, double_cmd_fixed_len(t));
    assert(fx == double_cmd_fixed_octets(cmd, t));
    assert(forall|j: int| 0 <= j < double_cmd_fixed_len(t) ==> #[trigger] e[j] == fx[j]);
    command_octet_round_trip(cmd.qoc, cmd.value.spec_value());
    assert(DoubleCommand::spec_parse(cmd.value.spec_value()) == cmd.value);
    tag_read_back(e.subrange(double_cmd_fixed_len(t), double_cmd_size(t)), cmd.time, out.time, double_cmd_tag_len(t), zone);
}


/// The time tag length of a regulating step command type, or -1 for another type.
pub open spec fn step_cmd_tag_len(t: u8) -> int {
    if t == 47 {
        0
    } else if t == 60 {
        7
    } else {
        -1
    }
}

/// The octets of a regulating step command element set before its time tag.
pub open spec fn step_cmd_fixed_len(t: u8) -> int {
    1
}

/// The element set size of a regulating step command type.
pub open spec fn step_cmd_size(t: u8) -> int {
    if step_cmd_tag_len(t) >= 0 {
        step_cmd_fixed_len(t) + step_cmd_tag_len(t)
    } else {
        1
    }
}

/// The time tag length of a regulating step command type, 8 for another type.
fn step_cmd_tag(t: u8) -> (n: usize)
    ensures
        step_cmd_tag_len(t) >= 0 ==> n == step_cmd_tag_len(t),
        step_cmd_tag_len(t) < 0 ==> n == 8,
{
    if t == 47 {
        0
    } else if t == 60 {
        7
    } else {
        8
    }
}

/// The octets of a regulating step command element set before its time tag.
fn step_cmd_fixed(t: u8) -> (n: usize)
    ensures
        n == step_cmd_fixed_len(t),
{
    1
}

/// The octets of a regulating step command element set before its time tag, as written.
pub open spec fn step_cmd_fixed_octets(info: StepCommandInfo, t: u8) -> Seq<u8> {
    seq![(info.qoc.spec_value() + info.value.spec_value()) as u8]
}

/// Write the octets of a regulating step command element set before its time tag.
fn put_step_cmd_fixed(buf: &mut Vec<u8>, v: StepCommandInfo, t: u8)
    ensures
        final(buf)@ == old(buf)@ + step_cmd_fixed_octets(v, t),
{
    put_u8(buf, v.qoc.value() + v.value.value());
}

/// The element set of a regulating step command object as a builder writes it.
pub open spec fn step_cmd_elem_ok(e: Seq<u8>, info: StepCommandInfo, t: u8, zone: TimeZone) -> bool {
    e.len() == step_cmd_size(t) && e.subrange(0, step_cmd_fixed_len(t)) == step_cmd_fixed_octets(info, t) && tag_ok(e.subrange(step_cmd_fixed_len(t), e.len() as int), info.time, step_cmd_tag_len(t), zone)
}

/// A regulating step command object as a getter reads it from its element set.
pub open spec fn step_cmd_decoded(e: Seq<u8>, ioa: u32, info: StepCommandInfo, t: u8, zone: TimeZone) -> bool {
    &&& info.ioa == ioa
    &&& info.value == StepCommand::spec_parse(e[0]) && info.qoc == QualifierOfCommand::spec_parse(e[0])
    &&& tag_decoded(e.subrange(step_cmd_fixed_len(t), step_cmd_size(t)), info.time, step_cmd_tag_len(t), zone)
}

/// Read the regulating step command object at `at`.
fn read_step_cmd(b: &[u8], at: usize, ioa: u32, t: u8, tag: usize, zone: TimeZone) -> (info: StepCommandInfo)
    requires
        step_cmd_tag_len(t) >= 0,
        tag == step_cmd_tag_len(t),
        at + step_cmd_size(t) <= b.len(),
    ensures
        step_cmd_decoded(b@.subrange(at as int, at + step_cmd_size(t)), ioa, info, t, zone),
{
    let fixed = step_cmd_fixed(t);
    let ghost e = b@.subrange(at as int, at + step_cmd_size(t));
    let x = b[at];
    proof {
        assert(e[0] == x);
    }
    let time = read_tag(b, at + fixed, tag, zone);
    proof {
        assert(e.subrange(step_cmd_fixed_len(t), step_cmd_size(t)) =~= b@.subrange(at + fixed, at + fixed + tag));
    }
    StepCommandInfo { ioa, value: StepCommand::parse(x), qoc: QualifierOfCommand::parse(x), time }
}

/// The addresses of regulating step command objects.
pub open spec fn step_cmd_ioas(infos: Seq<StepCommandInfo>) -> spec_fn(int) -> u32 {
    |i: int| infos[i].ioa
}

/// The element sets of regulating step command objects of type `t`.
pub open spec fn step_cmd_elems(infos: Seq<StepCommandInfo>, t: u8, zone: TimeZone) -> spec_fn(int, Seq<u8>) -> bool {
    |i: int, e: Seq<u8>| step_cmd_elem_ok(e, infos[i], t, zone)
}

/// The payload a regulating step command builder writes for `infos`.
pub open spec fn step_cmd_built(p: Params, t: u8, seq: bool, infos: Seq<StepCommandInfo>, payload: Seq<u8>) -> bool {
    objects_ok(
        payload,
        p.info_obj_addr_size,
        step_cmd_size(t),
        seq,
        infos.len() as int,
        step_cmd_ioas(infos),
        step_cmd_elems(infos, t, p.info_obj_time_zone),
    )
}

/// What a regulating step command getter reads from a payload.
pub open spec fn step_cmd_read(p: Params, id: Identifier, payload: Seq<u8>, out: Seq<StepCommandInfo>) -> bool {
    let t = id.type_id.0;
    let w = p.info_obj_addr_size;
    let seq = id.variable.is_sequence;
    &&& out.len() == id.variable.number
    &&& forall|i: int|
        0 <= i < out.len() ==> step_cmd_decoded(
            elem_of(w as int, step_cmd_size(t), seq, payload, i),
            obj_ioa(w, step_cmd_size(t), seq, payload, i),
            #[trigger] out[i],
            t,
            p.info_obj_time_zone,
        )
}

impl Asdu {
    /// Build `C_RC_NA_1` or `C_RC_TA_1`: a regulating step command.
    ///
    /// See companion standard 101, subclass 7.3.2.3.
    pub fn step_cmd(
        params: Params,
        type_id: TypeId,
        coa: CauseOfTransmission,
        ca: CommonAddr,
        cmd: StepCommandInfo,
    ) -> (r: Result<Asdu>)
        ensures
            !command_cause_ok(coa.cause.0) ==> r == Err::<Asdu, Error>(Error::CmdCause),
            command_cause_ok(coa.cause.0) ==> command_outcome(
                r,
                params,
                type_id,
                coa,
                ca,
                cmd.ioa,
                step_cmd_tag_len(type_id.0) >= 0,
                |b: Seq<u8>| step_cmd_built(params, type_id.0, false, seq![cmd], b),
            ),
    {
        check_command_cause(coa)?;
        let mut u = start_cmd(params, type_id, coa, ca)?;
        let w = params.info_obj_addr_size;
        let zone = params.info_obj_time_zone;
        let t = type_id.0;
        let tag = step_cmd_tag(t);
        let ghost infos = seq![cmd];
        let ghost size = step_cmd_size(t);
        let ghost ioa = step_cmd_ioas(infos);
        let ghost ok = step_cmd_elems(infos, t, zone);
        let mut buf: Vec<u8> = Vec::new();
        proof {
            objects_empty(w, size, false, ioa, ok);
        }
        match put_object_addr(&mut buf, w, false, 0, cmd.ioa) {
            Ok(()) => {},
            Err(e) => {
                return Err(e);
            },
        }
        let ghost b1 = buf@;
        put_step_cmd_fixed(&mut buf, cmd, t);
        let ghost b15 = buf@;
        if tag == 8 {
            return Err(Error::TypeIdNotMatch);
        }
        put_tag(&mut buf, cmd.time, tag, zone);
        proof {
            assert(addr_octets(w, ioa(0)).len() == w);
            assert(buf@.subrange(0, b15.len() as int) == b15);
            assert forall|j: int| 0 <= j < b1.len() implies buf@[j] == b1[j] by {
                assert(buf@.subrange(0, b15.len() as int)[j] == buf@[j]);
            }
            assert(buf@.subrange(0, b1.len() as int) =~= b1);
            let e = buf@.subrange(b1.len() as int, buf@.len() as int);
            assert forall|j: int| 0 <= j < step_cmd_fixed_len(t) implies e[j] == #[trigger] b15[b1.len() + j] by {
                assert(buf@.subrange(0, b15.len() as int)[b1.len() + j] == buf@[b1.len() + j]);
            }
            assert(b15.subrange(b1.len() as int, b15.len() as int) =~= step_cmd_fixed_octets(cmd, t));
            assert(e.subrange(step_cmd_fixed_len(t), e.len() as int) =~= buf@.subrange(b15.len() as int, buf@.len() as int));
            assert(e.subrange(0, step_cmd_fixed_len(t)) =~= step_cmd_fixed_octets(cmd, t));
            assert(step_cmd_elem_ok(e, infos[0], t, zone));
            objects_extend(Seq::<u8>::empty(), b1, buf@, w, size, false, 0, ioa, ok);
        }
        u.info_obj = buf;
        Ok(u)
    }

    /// Decode `C_RC_NA_1` or `C_RC_TA_1`.
    pub fn get_step_cmd(&self) -> (r: Result<StepCommandInfo>)
        ensures
            match read_error(
                self.params,
                VariableStruct { number: 1, is_sequence: false },
                self.info_obj@.len() as int,
                step_cmd_tag_len(self.identifier.type_id.0) >= 0,
                1,
                step_cmd_size(self.identifier.type_id.0),
            ) {
                Some(e) => r == Err::<StepCommandInfo, Error>(e),
                None => r matches Ok(info) && step_cmd_read(
                    self.params,
                    Identifier { variable: VariableStruct { number: 1, is_sequence: false }, ..self.identifier },
                    self.info_obj@,
                    seq![info],
                ),
            },
    {
        let t = self.identifier.type_id.0;
        let tag = step_cmd_tag(t);
        let size: usize = if tag != 8 {
            step_cmd_fixed(t) + tag
        } else {
            1
        };
        let b = self.info_obj.as_slice();
        let one = VariableStruct { number: 1, is_sequence: false };
        let pos = object_positions(&self.params, one, b, tag != 8, 1, size)?;
        let (ioa, at) = pos[0];
        let info = read_step_cmd(b, at, ioa, t, tag, self.params.info_obj_time_zone);
        assert(seq![info][0] == info);
        Ok(info)
    }
}

/// A regulating step command reads back as it was built: its address, its step, a qualifier that fits its bits, and its time as
/// [`time_read_back`] says.
pub proof fn step_cmd_round_trip(p: Params, id: Identifier, cmd: StepCommandInfo, payload: Seq<u8>, out: StepCommandInfo)
    requires
        p.spec_valid(),
        step_cmd_tag_len(id.type_id.0) >= 0,
        id.variable == (VariableStruct { number: 1, is_sequence: false }),
        addr_fits(p.info_obj_addr_size, cmd.ioa),
        cmd.qoc.qual.0 < 32,
        step_cmd_built(p, id.type_id.0, false, seq![cmd], payload),
        step_cmd_read(p, id, payload, seq![out]),
    ensures
        read_error(p, id.variable, payload.len() as int, true, 1, step_cmd_size(id.type_id.0)) is None,
        out.ioa == cmd.ioa && out.value == cmd.value && out.qoc == cmd.qoc && time_read_back(
            cmd.time,
            out.time,
            step_cmd_tag_len(id.type_id.0),
            p.info_obj_time_zone,
        ),
{
    let t = id.type_id.0;
    let w = p.info_obj_addr_size;
    let size = step_cmd_size(t);
    let zone = p.info_obj_time_zone;
    let infos = seq![cmd];
    assert(forall|i: int| 0 <= i < 1 && #[trigger] spec_writes_addr(false, i) ==> addr_fits(w, infos[i].ioa));
    objects_read_back(payload, w, size, false, 1, step_cmd_ioas(infos), step_cmd_elems(infos, t, zone));
    let e = elem_of(w as int, size, false, payload, 0);
    assert(step_cmd_elems(infos, t, zone)(0, e));
    assert(seq![out][0] == out);
    assert(obj_ioa(w, size, false, payload, 0) == step_cmd_ioas(infos)(0));
    let fx = e.subrange(0, step_cmd_fixed_len(t));
    assert(fx == step_cmd_fixed_octets(cmd, t));
    assert(forall|j: int| 0 <= j < step_cmd_fixed_len(t) ==> #[trigger] e[j] == fx[j]);
    command_octet_round_trip(cmd.qoc, cmd.value.spec_value());
    assert(StepCommand::spec_parse(cmd.value.spec_value()) == cmd.value);
    tag_read_back(e.subrange(step_cmd_fixed_len(t), step_cmd_size(t)), cmd.time, out.time, step_cmd_tag_len(t), zone);
}


/// The time tag length of a normalized set-point command type, or -1 for another type.
pub open spec fn setpoint_normal_tag_len(t: u8) -> int {
    if t == 48 {
        0
    } else if t == 61 {
        7
    } else {
        -1
    }
}

/// The octets of a normalized set-point command element set before its time tag.
pub open spec fn setpoint_normal_fixed_len(t: u8) -> int {
    3
}

/// The element set size of a normalized set-point command type.
pub open spec fn setpoint_normal_size(t: u8) -> int {
    if setpoint_normal_tag_len(t) >= 0 {
        setpoint_normal_fixed_len(t) + setpoint_normal_tag_len(t)
    } else {
        3
    }
}

/// The time tag length of a normalized set-point command type, 8 for another type.
fn setpoint_normal_tag(t: u8) -> (n: usize)
    ensures
        setpoint_normal_tag_len(t) >= 0 ==> n == setpoint_normal_tag_len(t),
        setpoint_normal_tag_len(t) < 0 ==> n == 8,
{
    if t == 48 {
        0
    } else if t == 61 {
        7
    } else {
        8
    }
}

/// The octets of a normalized set-point command element set before its time tag.
fn setpoint_normal_fixed(t: u8) -> (n: usize)
    ensures
        n == setpoint_normal_fixed_len(t),
{
    3
}

/// The octets of a normalized set-point command element set before its time tag, as written.
pub open spec fn setpoint_normal_fixed_octets(info: SetpointCommandNormalInfo, t: u8) -> Seq<u8> {
    u16_octets(info.value.0 as u16) + seq![info.qos.spec_value()]
}

/// Write the octets of a normalized set-point command element set before its time tag.
fn put_setpoint_normal_fixed(buf: &mut Vec<u8>, v: SetpointCommandNormalInfo, t: u8)
    ensures
        final(buf)@ == old(buf)@ + setpoint_normal_fixed_octets(v, t),
{
    put_u16(buf, v.value.0 as u16);
    put_u8(buf, v.qos.value());
    assert(buf@ =~= old(buf)@ + setpoint_normal_fixed_octets(v, t));
}

/// The element set of a normalized set-point command object as a builder writes it.
pub open spec fn setpoint_normal_elem_ok(e: Seq<u8>, info: SetpointCommandNormalInfo, t: u8, zone: TimeZone) -> bool {
    e.len() == setpoint_normal_size(t) && e.subrange(0, setpoint_normal_fixed_len(t)) == setpoint_normal_fixed_octets(info, t) && tag_ok(e.subrange(setpoint_normal_fixed_len(t), e.len() as int), info.time, setpoint_normal_tag_len(t), zone)
}

/// A normalized set-point command object as a getter reads it from its element set.
pub open spec fn setpoint_normal_decoded(e: Seq<u8>, ioa: u32, info: SetpointCommandNormalInfo, t: u8, zone: TimeZone) -> bool {
    &&& info.ioa == ioa
    &&& info.value == Normalize(u16_at(e, 0) as i16) && info.qos == QualifierOfSetpointCmd::spec_parse(e[2])
    &&& tag_decoded(e.subrange(setpoint_normal_fixed_len(t), setpoint_normal_size(t)), info.time, setpoint_normal_tag_len(t), zone)
}

/// Read the normalized set-point command object at `at`.
fn read_setpoint_normal(b: &[u8], at: usize, ioa: u32, t: u8, tag: usize, zone: TimeZone) -> (info: SetpointCommandNormalInfo)
    requires
        setpoint_normal_tag_len(t) >= 0,
        tag == setpoint_normal_tag_len(t),
        at + setpoint_normal_size(t) <= b.len(),
    ensures
        setpoint_normal_decoded(b@.subrange(at as int, at + setpoint_normal_size(t)), ioa, info, t, zone),
{
    let fixed = setpoint_normal_fixed(t);
    let ghost e = b@.subrange(at as int, at + setpoint_normal_size(t));
    let x = get_u16(b, at);
    let q = b[at + 2];
    proof {
        assert(e[0] == b@[at as int] && e[1] == b@[at + 1] && e[2] == q);
    }
    let time = read_tag(b, at + fixed, tag, zone);
    proof {
        assert(e.subrange(setpoint_normal_fixed_len(t), setpoint_normal_size(t)) =~= b@.subrange(at + fixed, at + fixed + tag));
    }
    SetpointCommandNormalInfo { ioa, value: Normalize(x as i16), qos: QualifierOfSetpointCmd::parse(q), time }
}

/// The addresses of normalized set-point command objects.
pub open spec fn setpoint_normal_ioas(infos: Seq<SetpointCommandNormalInfo>) -> spec_fn(int) -> u32 {
    |i: int| infos[i].ioa
}

/// The element sets of normalized set-point command objects of type `t`.
pub open spec fn setpoint_normal_elems(infos: Seq<SetpointCommandNormalInfo>, t: u8, zone: TimeZone) -> spec_fn(int, Seq<u8>) -> bool {
    |i: int, e: Seq<u8>| setpoint_normal_elem_ok(e, infos[i], t, zone)
}

/// The payload a normalized set-point command builder writes for `infos`.
pub open spec fn setpoint_normal_built(p: Params, t: u8, seq: bool, infos: Seq<SetpointCommandNormalInfo>, payload: Seq<u8>) -> bool {
    objects_ok(
        payload,
        p.info_obj_addr_size,
        setpoint_normal_size(t),
        seq,
        infos.len() as int,
        setpoint_normal_ioas(infos),
        setpoint_normal_elems(infos, t, p.info_obj_time_zone),
    )
}

/// What a normalized set-point command getter reads from a payload.
pub open spec fn setpoint_normal_read(p: Params, id: Identifier, payload: Seq<u8>, out: Seq<SetpointCommandNormalInfo>) -> bool {
    let t = id.type_id.0;
    let w = p.info_obj_addr_size;
    let seq = id.variable.is_sequence;
    &&& out.len() == id.variable.number
    &&& forall|i: int|
        0 <= i < out.len() ==> setpoint_normal_decoded(
            elem_of(w as int, setpoint_normal_size(t), seq, payload, i),
            obj_ioa(w, setpoint_normal_size(t), seq, payload, i),
            #[trigger] out[i],
            t,
            p.info_obj_time_zone,
        )
}

impl Asdu {
    /// Build `C_SE_NA_1` or `C_SE_TA_1`: a normalized set-point command.
    ///
    /// See companion standard 101, subclass 7.3.2.4.
    pub fn setpoint_cmd_normal(
        params: Params,
        type_id: TypeId,
        coa: CauseOfTransmission,
        ca: CommonAddr,
        cmd: SetpointCommandNormalInfo,
    ) -> (r: Result<Asdu>)
        ensures
            !command_cause_ok(coa.cause.0) ==> r == Err::<Asdu, Error>(Error::CmdCause),
            command_cause_ok(coa.cause.0) ==> command_outcome(
                r,
                params,
                type_id,
                coa,
                ca,
                cmd.ioa,
                setpoint_normal_tag_len(type_id.0) >= 0,
                |b: Seq<u8>| setpoint_normal_built(params, type_id.0, false, seq![cmd], b),
            ),
    {
        check_command_cause(coa)?;
        let mut u = start_cmd(params, type_id, coa, ca)?;
        let w = params.info_obj_addr_size;
        let zone = params.info_obj_time_zone;
        let t = type_id.0;
        let tag = setpoint_normal_tag(t);
        let ghost infos = seq![cmd];
        let ghost size = setpoint_normal_size(t);
        let ghost ioa = setpoint_normal_ioas(infos);
        let ghost ok = setpoint_normal_elems(infos, t, zone);
        let mut buf: Vec<u8> = Vec::new();
        proof {
            objects_empty(w, size, false, ioa, ok);
        }
        match put_object_addr(&mut buf, w, false, 0, cmd.ioa) {
            Ok(()) => {},
            Err(e) => {
                return Err(e);
            },
        }
        let ghost b1 = buf@;
        put_setpoint_normal_fixed(&mut buf, cmd, t);
        let ghost b15 = buf@;
        if tag == 8 {
            return Err(Error::TypeIdNotMatch);
        }
        put_tag(&mut buf, cmd.time, tag, zone);
        proof {
            assert(addr_octets(w, ioa(0)).len() == w);
            assert(buf@.subrange(0, b15.len() as int) == b15);
            assert forall|j: int| 0 <= j < b1.len() implies buf@[j] == b1[j] by {
                assert(buf@.subrange(0, b15.len() as int)[j] == buf@[j]);
            }
            assert(buf@.subrange(0, b1.len() as int) =~= b1);
            let e = buf@.subrange(b1.len() as int, buf@.len() as int);
            assert forall|j: int| 0 <= j < setpoint_normal_fixed_len(t) implies e[j] == #[trigger] b15[b1.len() + j] by {
                assert(buf@.subrange(0, b15.len() as int)[b1.len() + j] == buf@[b1.len() + j]);
            }
            assert(b15.subrange(b1.len() as int, b15.len() as int) =~= setpoint_normal_fixed_octets(cmd, t));
            assert(e.subrange(setpoint_normal_fixed_len(t), e.len() as int) =~= buf@.subrange(b15.len() as int, buf@.len() as int));
            assert(e.subrange(0, setpoint_normal_fixed_len(t)) =~= setpoint_normal_fixed_octets(cmd, t));
            assert(setpoint_normal_elem_ok(e, infos[0], t, zone));
            objects_extend(Seq::<u8>::empty(), b1, buf@, w, size, false, 0, ioa, ok);
        }
        u.info_obj = buf;
        Ok(u)
    }

    /// Decode `C_SE_NA_1` or `C_SE_TA_1`.
    pub fn get_setpoint_normal_cmd(&self) -> (r: Result<SetpointCommandNormalInfo>)
        ensures
            match read_error(
                self.params,
                VariableStruct { number: 1, is_sequence: false },
                self.info_obj@.len() as int,
                setpoint_normal_tag_len(self.identifier.type_id.0) >= 0,
                3,
                setpoint_normal_size(self.identifier.type_id.0),
            ) {
                Some(e) => r == Err::<SetpointCommandNormalInfo, Error>(e),
                None => r matches Ok(info) && setpoint_normal_read(
                    self.params,
                    Identifier { variable: VariableStruct { number: 1, is_sequence: false }, ..self.identifier },
                    self.info_obj@,
                    seq![info],
                ),
            },
    {
        let t = self.identifier.type_id.0;
        let tag = setpoint_normal_tag(t);
        let size: usize = if tag != 8 {
            setpoint_normal_fixed(t) + tag
        } else {
            3
        };
        let b = self.info_obj.as_slice();
        let one = VariableStruct { number: 1, is_sequence: false };
        let pos = object_positions(&self.params, one, b, tag != 8, 3, size)?;
        let (ioa, at) = pos[0];
        let info = read_setpoint_normal(b, at, ioa, t, tag, self.params.info_obj_time_zone);
        assert(seq![info][0] == info);
        Ok(info)
    }
}

/// A normalized set-point command reads back as it was built: its address, its set-point, a qualifier that fits its bits, and its time as
/// [`time_read_back`] says.
pub proof fn setpoint_normal_round_trip(p: Params, id: Identifier, cmd: SetpointCommandNormalInfo, payload: Seq<u8>, out: SetpointCommandNormalInfo)
    requires
        p.spec_valid(),
        setpoint_normal_tag_len(id.type_id.0) >= 0,
        id.variable == (VariableStruct { number: 1, is_sequence: false }),
        addr_fits(p.info_obj_addr_size, cmd.ioa),
        cmd.qos.qual.0 < 128,
        setpoint_normal_built(p, id.type_id.0, false, seq![cmd], payload),
        setpoint_normal_read(p, id, payload, seq![out]),
    ensures
        read_error(p, id.variable, payload.len() as int, true, 3, setpoint_normal_size(id.type_id.0)) is None,
        out.ioa == cmd.ioa && out.value == cmd.value && out.qos == cmd.qos && time_read_back(
            cmd.time,
            out.time,
            setpoint_normal_tag_len(id.type_id.0),
            p.info_obj_time_zone,
        ),
{
    let t = id.type_id.0;
    let w = p.info_obj_addr_size;
    let size = setpoint_normal_size(t);
    let zone = p.info_obj_time_zone;
    let infos = seq![cmd];
    assert(forall|i: int| 0 <= i < 1 && #[trigger] spec_writes_addr(false, i) ==> addr_fits(w, infos[i].ioa));
    objects_read_back(payload, w, size, false, 1, setpoint_normal_ioas(infos), setpoint_normal_elems(infos, t, zone));
    let e = elem_of(w as int, size, false, payload, 0);
    assert(setpoint_normal_elems(infos, t, zone)(0, e));
    assert(seq![out][0] == out);
    assert(obj_ioa(w, size, false, payload, 0) == setpoint_normal_ioas(infos)(0));
    let fx = e.subrange(0, setpoint_normal_fixed_len(t));
    assert(fx == setpoint_normal_fixed_octets(cmd, t));
    assert(forall|j: int| 0 <= j < setpoint_normal_fixed_len(t) ==> #[trigger] e[j] == fx[j]);
    let x = cmd.value.0;
    assert(((x as u16) as i16) == x) by (bit_vector);
    setpoint_octet_round_trip(cmd.qos);
    tag_read_back(e.subrange(setpoint_normal_fixed_len(t), setpoint_normal_size(t)), cmd.time, out.time, setpoint_normal_tag_len(t), zone);
}


/// The time tag length of a scaled set-point command type, or -1 for another type.
pub open spec fn setpoint_scaled_tag_len(t: u8) -> int {
    if t == 49 {
        0
    } else if t == 62 {
        7
    } else {
        -1
    }
}

/// The octets of a scaled set-point command element set before its time tag.
pub open spec fn setpoint_scaled_fixed_len(t: u8) -> int {
    3
}

/// The element set size of a scaled set-point command type.
pub open spec fn setpoint_scaled_size(t: u8) -> int {
    if setpoint_scaled_tag_len(t) >= 0 {
        setpoint_scaled_fixed_len(t) + setpoint_scaled_tag_len(t)
    } else {
        3
    }
}

/// The time tag length of a scaled set-point command type, 8 for another type.
fn setpoint_scaled_tag(t: u8) -> (n: usize)
    ensures
        setpoint_scaled_tag_len(t) >= 0 ==> n == setpoint_scaled_tag_len(t),
        setpoint_scaled_tag_len(t) < 0 ==> n == 8,
{
    if t == 49 {
        0
    } else if t == 62 {
        7
    } else {
        8
    }
}

/// The octets of a scaled set-point command element set before its time tag.
fn setpoint_scaled_fixed(t: u8) -> (n: usize)
    ensures
        n == setpoint_scaled_fixed_len(t),
{
    3
}

/// The octets of a scaled set-point command element set before its time tag, as written.
pub open spec fn setpoint_scaled_fixed_octets(info: SetpointCommandScaledInfo, t: u8) -> Seq<u8> {
    u16_octets(info.value as u16) + seq![info.qos.spec_value()]
}

/// Write the octets of a scaled set-point command element set before its time tag.
fn put_setpoint_scaled_fixed(buf: &mut Vec<u8>, v: SetpointCommandScaledInfo, t: u8)
    ensures
        final(buf)@ == old(buf)@ + setpoint_scaled_fixed_octets(v, t),
{
    put_u16(buf, v.value as u16);
    put_u8(buf, v.qos.value());
    assert(buf@ =~= old(buf)@ + setpoint_scaled_fixed_octets(v, t));
}

/// The element set of a scaled set-point command object as a builder writes it.
pub open spec fn setpoint_scaled_elem_ok(e: Seq<u8>, info: SetpointCommandScaledInfo, t: u8, zone: TimeZone) -> bool {
    e.len() == setpoint_scaled_size(t) && e.subrange(0, setpoint_scaled_fixed_len(t)) == setpoint_scaled_fixed_octets(info, t) && tag_ok(e.subrange(setpoint_scaled_fixed_len(t), e.len() as int), info.time, setpoint_scaled_tag_len(t), zone)
}

/// A scaled set-point command object as a getter reads it from its element set.
pub open spec fn setpoint_scaled_decoded(e: Seq<u8>, ioa: u32, info: SetpointCommandScaledInfo, t: u8, zone: TimeZone) -> bool {
    &&& info.ioa == ioa
    &&& info.value == u16_at(e, 0) as i16 && info.qos == QualifierOfSetpointCmd::spec_parse(e[2])
    &&& tag_decoded(e.subrange(setpoint_scaled_fixed_len(t), setpoint_scaled_size(t)), info.time, setpoint_scaled_tag_len(t), zone)
}

/// Read the scaled set-point command object at `at`.
fn read_setpoint_scaled(b: &[u8], at: usize, ioa: u32, t: u8, tag: usize, zone: TimeZone) -> (info: SetpointCommandScaledInfo)
    requires
        setpoint_scaled_tag_len(t) >= 0,
        tag == setpoint_scaled_tag_len(t),
        at + setpoint_scaled_size(t) <= b.len(),
    ensures
        setpoint_scaled_decoded(b@.subrange(at as int, at + setpoint_scaled_size(t)), ioa, info, t, zone),
{
    let fixed = setpoint_scaled_fixed(t);
    let ghost e = b@.subrange(at as int, at + setpoint_scaled_size(t));
    let x = get_u16(b, at);
    let q = b[at + 2];
    proof {
        assert(e[0] == b@[at as int] && e[1] == b@[at + 1] && e[2] == q);
    }
    let time = read_tag(b, at + fixed, tag, zone);
    proof {
        assert(e.subrange(setpoint_scaled_fixed_len(t), setpoint_scaled_size(t)) =~= b@.subrange(at + fixed, at + fixed + tag));
    }
    SetpointCommandScaledInfo { ioa, value: x as i16, qos: QualifierOfSetpointCmd::parse(q), time }
}

/// The addresses of scaled set-point command objects.
pub open spec fn setpoint_scaled_ioas(infos: Seq<SetpointCommandScaledInfo>) -> spec_fn(int) -> u32 {
    |i: int| infos[i].ioa
}

/// The element sets of scaled set-point command objects of type `t`.
pub open spec fn setpoint_scaled_elems(infos: Seq<SetpointCommandScaledInfo>, t: u8, zone: TimeZone) -> spec_fn(int, Seq<u8>) -> bool {
    |i: int, e: Seq<u8>| setpoint_scaled_elem_ok(e, infos[i], t, zone)
}

/// The payload a scaled set-point command builder writes for `infos`.
pub open spec fn setpoint_scaled_built(p: Params, t: u8, seq: bool, infos: Seq<SetpointCommandScaledInfo>, payload: Seq<u8>) -> bool {
    objects_ok(
        payload,
        p.info_obj_addr_size,
        setpoint_scaled_size(t),
        seq,
        infos.len() as int,
        setpoint_scaled_ioas(infos),
        setpoint_scaled_elems(infos, t, p.info_obj_time_zone),
    )
}

/// What a scaled set-point command getter reads from a payload.
pub open spec fn setpoint_scaled_read(p: Params, id: Identifier, payload: Seq<u8>, out: Seq<SetpointCommandScaledInfo>) -> bool {
    let t = id.type_id.0;
    let w = p.info_obj_addr_size;
    let seq = id.variable.is_sequence;
    &&& out.len() == id.variable.number
    &&& forall|i: int|
        0 <= i < out.len() ==> setpoint_scaled_decoded(
            elem_of(w as int, setpoint_scaled_size(t), seq, payload, i),
            obj_ioa(w, setpoint_scaled_size(t), seq, payload, i),
            #[trigger] out[i],
            t,
            p.info_obj_time_zone,
        )
}

impl Asdu {
    /// Build `C_SE_NB_1` or `C_SE_TB_1`: a scaled set-point command.
    ///
    /// See companion standard 101, subclass 7.3.2.5.
    pub fn setpoint_cmd_scaled(
        params: Params,
        type_id: TypeId,
        coa: CauseOfTransmission,
        ca: CommonAddr,
        cmd: SetpointCommandScaledInfo,
    ) -> (r: Result<Asdu>)
        ensures
            !command_cause_ok(coa.cause.0) ==> r == Err::<Asdu, Error>(Error::CmdCause),
            command_cause_ok(coa.cause.0) ==> command_outcome(
                r,
                params,
                type_id,
                coa,
                ca,
                cmd.ioa,
                setpoint_scaled_tag_len(type_id.0) >= 0,
                |b: Seq<u8>| setpoint_scaled_built(params, type_id.0, false, seq![cmd], b),
            ),
    {
        check_command_cause(coa)?;
        let mut u = start_cmd(params, type_id, coa, ca)?;
        let w = params.info_obj_addr_size;
        let zone = params.info_obj_time_zone;
        let t = type_id.0;
        let tag = setpoint_scaled_tag(t);
        let ghost infos = seq![cmd];
        let ghost size = setpoint_scaled_size(t);
        let ghost ioa = setpoint_scaled_ioas(infos);
        let ghost ok = setpoint_scaled_elems(infos, t, zone);
        let mut buf: Vec<u8> = Vec::new();
        proof {
            objects_empty(w, size, false, ioa, ok);
        }
        match put_object_addr(&mut buf, w, false, 0, cmd.ioa) {
            Ok(()) => {},
            Err(e) => {
                return Err(e);
            },
        }
        let ghost b1 = buf@;
        put_setpoint_scaled_fixed(&mut buf, cmd, t);
        let ghost b15 = buf@;
        if tag == 8 {
            return Err(Error::TypeIdNotMatch);
        }
        put_tag(&mut buf, cmd.time, tag, zone);
        proof {
            assert(addr_octets(w, ioa(0)).len() == w);
            assert(buf@.subrange(0, b15.len() as int) == b15);
            assert forall|j: int| 0 <= j < b1.len() implies buf@[j] == b1[j] by {
                assert(buf@.subrange(0, b15.len() as int)[j] == buf@[j]);
            }
            assert(buf@.subrange(0, b1.len() as int) =~= b1);
            let e = buf@.subrange(b1.len() as int, buf@.len() as int);
            assert forall|j: int| 0 <= j < setpoint_scaled_fixed_len(t) implies e[j] == #[trigger] b15[b1.len() + j] by {
                assert(buf@.subrange(0, b15.len() as int)[b1.len() + j] == buf@[b1.len() + j]);
            }
            assert(b15.subrange(b1.len() as int, b15.len() as int) =~= setpoint_scaled_fixed_octets(cmd, t));
            assert(e.subrange(setpoint_scaled_fixed_len(t), e.len() as int) =~= buf@.subrange(b15.len() as int, buf@.len() as int));
            assert(e.subrange(0, setpoint_scaled_fixed_len(t)) =~= setpoint_scaled_fixed_octets(cmd, t));
            assert(setpoint_scaled_elem_ok(e, infos[0], t, zone));
            objects_extend(Seq::<u8>::empty(), b1, buf@, w, size, false, 0, ioa, ok);
        }
        u.info_obj = buf;
        Ok(u)
    }

    /// Decode `C_SE_NB_1` or `C_SE_TB_1`.
    pub fn get_setpoint_scaled_cmd(&self) -> (r: Result<SetpointCommandScaledInfo>)
        ensures
            match read_error(
                self.params,
                VariableStruct { number: 1, is_sequence: false },
                self.info_obj@.len() as int,
                setpoint_scaled_tag_len(self.identifier.type_id.0) >= 0,
                3,
                setpoint_scaled_size(self.identifier.type_id.0),
            ) {
                Some(e) => r == Err::<SetpointCommandScaledInfo, Error>(e),
                None => r matches Ok(info) && setpoint_scaled_read(
                    self.params,
                    Identifier { variable: VariableStruct { number: 1, is_sequence: false }, ..self.identifier },
                    self.info_obj@,
                    seq![info],
                ),
            },
    {
        let t = self.identifier.type_id.0;
        let tag = setpoint_scaled_tag(t);
        let size: usize = if tag != 8 {
            setpoint_scaled_fixed(t) + tag
        } else {
            3
        };
        let b = self.info_obj.as_slice();
        let one = VariableStruct { number: 1, is_sequence: false };
        let pos = object_positions(&self.params, one, b, tag != 8, 3, size)?;
        let (ioa, at) = pos[0];
        let info = read_setpoint_scaled(b, at, ioa, t, tag, self.params.info_obj_time_zone);
        assert(seq![info][0] == info);
        Ok(info)
    }
}

/// A scaled set-point command reads back as it was built: its address, its set-point, a qualifier that fits its bits, and its time as
/// [`time_read_back`] says.
pub proof fn setpoint_scaled_round_trip(p: Params, id: Identifier, cmd: SetpointCommandScaledInfo, payload: Seq<u8>, out: SetpointCommandScaledInfo)
    requires
        p.spec_valid(),
        setpoint_scaled_tag_len(id.type_id.0) >= 0,
        id.variable == (VariableStruct { number: 1, is_sequence: false }),
        addr_fits(p.info_obj_addr_size, cmd.ioa),
        cmd.qos.qual.0 < 128,
        setpoint_scaled_built(p, id.type_id.0, false, seq![cmd], payload),
        setpoint_scaled_read(p, id, payload, seq![out]),
    ensures
        read_error(p, id.variable, payload.len() as int, true, 3, setpoint_scaled_size(id.type_id.0)) is None,
        out.ioa == cmd.ioa && out.value == cmd.value && out.qos == cmd.qos && time_read_back(
            cmd.time,
            out.time,
            setpoint_scaled_tag_len(id.type_id.0),
            p.info_obj_time_zone,
        ),
{
    let t = id.type_id.0;
    let w = p.info_obj_addr_size;
    let size = setpoint_scaled_size(t);
    let zone = p.info_obj_time_zone;
    let infos = seq![cmd];
    assert(forall|i: int| 0 <= i < 1 && #[trigger] spec_writes_addr(false, i) ==> addr_fits(w, infos[i].ioa));
    objects_read_back(payload, w, size, false, 1, setpoint_scaled_ioas(infos), setpoint_scaled_elems(infos, t, zone));
    let e = elem_of(w as int, size, false, payload, 0);
    assert(setpoint_scaled_elems(infos, t, zone)(0, e));
    assert(seq![out][0] == out);
    assert(obj_ioa(w, size, false, payload, 0) == setpoint_scaled_ioas(infos)(0));
    let fx = e.subrange(0, setpoint_scaled_fixed_len(t));
    assert(fx == setpoint_scaled_fixed_octets(cmd, t));
    assert(forall|j: int| 0 <= j < setpoint_scaled_fixed_len(t) ==> #[trigger] e[j] == fx[j]);
    let x = cmd.value;
    assert(((x as u16) as i16) == x) by (bit_vector);
    setpoint_octet_round_trip(cmd.qos);
    tag_read_back(e.subrange(setpoint_scaled_fixed_len(t), setpoint_scaled_size(t)), cmd.time, out.time, setpoint_scaled_tag_len(t), zone);
}


/// The time tag length of a short float set-point command type, or -1 for another type.
pub open spec fn setpoint_float_tag_len(t: u8) -> int {
    if t == 50 {
        0
    } else if t == 63 {
        7
    } else {
        -1
    }
}

/// The octets of a short float set-point command element set before its time tag.
pub open spec fn setpoint_float_fixed_len(t: u8) -> int {
    5
}

/// The element set size of a short float set-point command type.
pub open spec fn setpoint_float_size(t: u8) -> int {
    if setpoint_float_tag_len(t) >= 0 {
        setpoint_float_fixed_len(t) + setpoint_float_tag_len(t)
    } else {
        5
    }
}

/// The time tag length of a short float set-point command type, 8 for another type.
fn setpoint_float_tag(t: u8) -> (n: usize)
    ensures
        setpoint_float_tag_len(t) >= 0 ==> n == setpoint_float_tag_len(t),
        setpoint_float_tag_len(t) < 0 ==> n == 8,
{
    if t == 50 {
        0
    } else if t == 63 {
        7
    } else {
        8
    }
}

/// The octets of a short float set-point command element set before its time tag.
fn setpoint_float_fixed(t: u8) -> (n: usize)
    ensures
        n == setpoint_float_fixed_len(t),
{
    5
}

/// The octets of a short float set-point command element set before its time tag, as written.
pub open spec fn setpoint_float_fixed_octets(info: SetpointCommandFloatInfo, t: u8) -> Seq<u8> {
    u32_octets(info.value) + seq![info.qos.spec_value()]
}

/// Write the octets of a short float set-point command element set before its time tag.
fn put_setpoint_float_fixed(buf: &mut Vec<u8>, v: SetpointCommandFloatInfo, t: u8)
    ensures
        final(buf)@ == old(buf)@ + setpoint_float_fixed_octets(v, t),
{
    put_u32(buf, v.value);
    put_u8(buf, v.qos.value());
    assert(buf@ =~= old(buf)@ + setpoint_float_fixed_octets(v, t));
}

/// The element set of a short float set-point command object as a builder writes it.
pub open spec fn setpoint_float_elem_ok(e: Seq<u8>, info: SetpointCommandFloatInfo, t: u8, zone: TimeZone) -> bool {
    e.len() == setpoint_float_size(t) && e.subrange(0, setpoint_float_fixed_len(t)) == setpoint_float_fixed_octets(info, t) && tag_ok(e.subrange(setpoint_float_fixed_len(t), e.len() as int), info.time, setpoint_float_tag_len(t), zone)
}

/// A short float set-point command object as a getter reads it from its element set.
pub open spec fn setpoint_float_decoded(e: Seq<u8>, ioa: u32, info: SetpointCommandFloatInfo, t: u8, zone: TimeZone) -> bool {
    &&& info.ioa == ioa
    &&& info.value == u32_at(e, 0) && info.qos == QualifierOfSetpointCmd::spec_parse(e[4])
    &&& tag_decoded(e.subrange(setpoint_float_fixed_len(t), setpoint_float_size(t)), info.time, setpoint_float_tag_len(t), zone)
}

/// Read the short float set-point command object at `at`.
fn read_setpoint_float(b: &[u8], at: usize, ioa: u32, t: u8, tag: usize, zone: TimeZone) -> (info: SetpointCommandFloatInfo)
    requires
        setpoint_float_tag_len(t) >= 0,
        tag == setpoint_float_tag_len(t),
        at + setpoint_float_size(t) <= b.len(),
    ensures
        setpoint_float_decoded(b@.subrange(at as int, at + setpoint_float_size(t)), ioa, info, t, zone),
{
    let fixed = setpoint_float_fixed(t);
    let ghost e = b@.subrange(at as int, at + setpoint_float_size(t));
    let x = get_u32(b, at);
    let q = b[at + 4];
    proof {
        assert(e[0] == b@[at as int] && e[1] == b@[at + 1] && e[2] == b@[at + 2] && e[3] == b@[at + 3] && e[4] == q);
    }
    let time = read_tag(b, at + fixed, tag, zone);
    proof {
        assert(e.subrange(setpoint_float_fixed_len(t), setpoint_float_size(t)) =~= b@.subrange(at + fixed, at + fixed + tag));
    }
    SetpointCommandFloatInfo { ioa, value: x, qos: QualifierOfSetpointCmd::parse(q), time }
}

/// The addresses of short float set-point command objects.
pub open spec fn setpoint_float_ioas(infos: Seq<SetpointCommandFloatInfo>) -> spec_fn(int) -> u32 {
    |i: int| infos[i].ioa
}

/// The element sets of short float set-point command objects of type `t`.
pub open spec fn setpoint_float_elems(infos: Seq<SetpointCommandFloatInfo>, t: u8, zone: TimeZone) -> spec_fn(int, Seq<u8>) -> bool {
    |i: int, e: Seq<u8>| setpoint_float_elem_ok(e, infos[i], t, zone)
}

/// The payload a short float set-point command builder writes for `infos`.
pub open spec fn setpoint_float_built(p: Params, t: u8, seq: bool, infos: Seq<SetpointCommandFloatInfo>, payload: Seq<u8>) -> bool {
    objects_ok(
        payload,
        p.info_obj_addr_size,
        setpoint_float_size(t),
        seq,
        infos.len() as int,
        setpoint_float_ioas(infos),
        setpoint_float_elems(infos, t, p.info_obj_time_zone),
    )
}

/// What a short float set-point command getter reads from a payload.
pub open spec fn setpoint_float_read(p: Params, id: Identifier, payload: Seq<u8>, out: Seq<SetpointCommandFloatInfo>) -> bool {
    let t = id.type_id.0;
    let w = p.info_obj_addr_size;
    let seq = id.variable.is_sequence;
    &&& out.len() == id.variable.number
    &&& forall|i: int|
        0 <= i < out.len() ==> setpoint_float_decoded(
            elem_of(w as int, setpoint_float_size(t), seq, payload, i),
            obj_ioa(w, setpoint_float_size(t), seq, payload, i),
            #[trigger] out[i],
            t,
            p.info_obj_time_zone,
        )
}

impl Asdu {
    /// Build `C_SE_NC_1` or `C_SE_TC_1`: a short float set-point command.
    ///
    /// See companion standard 101, subclass 7.3.2.6.
    pub fn setpoint_cmd_float(
        params: Params,
        type_id: TypeId,
        coa: CauseOfTransmission,
        ca: CommonAddr,
        cmd: SetpointCommandFloatInfo,
    ) -> (r: Result<Asdu>)
        ensures
            !command_cause_ok(coa.cause.0) ==> r == Err::<Asdu, Error>(Error::CmdCause),
            command_cause_ok(coa.cause.0) ==> command_outcome(
                r,
                params,
                type_id,
                coa,
                ca,
                cmd.ioa,
                setpoint_float_tag_len(type_id.0) >= 0,
                |b: Seq<u8>| setpoint_float_built(params, type_id.0, false, seq![cmd], b),
            ),
    {
        check_command_cause(coa)?;
        let mut u = start_cmd(params, type_id, coa, ca)?;
        let w = params.info_obj_addr_size;
        let zone = params.info_obj_time_zone;
        let t = type_id.0;
        let tag = setpoint_float_tag(t);
        let ghost infos = seq![cmd];
        let ghost size = setpoint_float_size(t);
        let ghost ioa = setpoint_float_ioas(infos);
        let ghost ok = setpoint_float_elems(infos, t, zone);
        let mut buf: Vec<u8> = Vec::new();
        proof {
            objects_empty(w, size, false, ioa, ok);
        }
        match put_object_addr(&mut buf, w, false, 0, cmd.ioa) {
            Ok(()) => {},
            Err(e) => {
                return Err(e);
            },
        }
        let ghost b1 = buf@;
        put_setpoint_float_fixed(&mut buf, cmd, t);
        let ghost b15 = buf@;
        if tag == 8 {
            return Err(Error::TypeIdNotMatch);
        }
        put_tag(&mut buf, cmd.time, tag, zone);
        proof {
            assert(addr_octets(w, ioa(0)).len() == w);
            assert(buf@.subrange(0, b15.len() as int) == b15);
            assert forall|j: int| 0 <= j < b1.len() implies buf@[j] == b1[j] by {
                assert(buf@.subrange(0, b15.len() as int)[j] == buf@[j]);
            }
            assert(buf@.subrange(0, b1.len() as int) =~= b1);
            let e = buf@.subrange(b1.len() as int, buf@.len() as int);
            assert forall|j: int| 0 <= j < setpoint_float_fixed_len(t) implies e[j] == #[trigger] b15[b1.len() + j] by {
                assert(buf@.subrange(0, b15.len() as int)[b1.len() + j] == buf@[b1.len() + j]);
            }
            assert(b15.subrange(b1.len() as int, b15.len() as int) =~= setpoint_float_fixed_octets(cmd, t));
            assert(e.subrange(setpoint_float_fixed_len(t), e.len() as int) =~= buf@.subrange(b15.len() as int, buf@.len() as int));
            assert(e.subrange(0, setpoint_float_fixed_len(t)) =~= setpoint_float_fixed_octets(cmd, t));
            assert(setpoint_float_elem_ok(e, infos[0], t, zone));
            objects_extend(Seq::<u8>::empty(), b1, buf@, w, size, false, 0, ioa, ok);
        }
        u.info_obj = buf;
        Ok(u)
    }

    /// Decode `C_SE_NC_1` or `C_SE_TC_1`.
    pub fn get_setpoint_float_cmd(&self) -> (r: Result<SetpointCommandFloatInfo>)
        ensures
            match read_error(
                self.params,
                VariableStruct { number: 1, is_sequence: false },
                self.info_obj@.len() as int,
                setpoint_float_tag_len(self.identifier.type_id.0) >= 0,
                5,
                setpoint_float_size(self.identifier.type_id.0),
            ) {
                Some(e) => r == Err::<SetpointCommandFloatInfo, Error>(e),
                None => r matches Ok(info) && setpoint_float_read(
                    self.params,
                    Identifier { variable: VariableStruct { number: 1, is_sequence: false }, ..self.identifier },
                    self.info_obj@,
                    seq![info],
                ),
            },
    {
        let t = self.identifier.type_id.0;
        let tag = setpoint_float_tag(t);
        let size: usize = if tag != 8 {
            setpoint_float_fixed(t) + tag
        } else {
            5
        };
        let b = self.info_obj.as_slice();
        let one = VariableStruct { number: 1, is_sequence: false };
        let pos = object_positions(&self.params, one, b, tag != 8, 5, size)?;
        let (ioa, at) = pos[0];
        let info = read_setpoint_float(b, at, ioa, t, tag, self.params.info_obj_time_zone);
        assert(seq![info][0] == info);
        Ok(info)
    }
}

/// A short float set-point command reads back as it was built: its address, the bits of its set-point, a qualifier that fits its bits, and its
/// time as [`time_read_back`] says.
pub proof fn setpoint_float_round_trip(p: Params, id: Identifier, cmd: SetpointCommandFloatInfo, payload: Seq<u8>, out: SetpointCommandFloatInfo)
    requires
        p.spec_valid(),
        setpoint_float_tag_len(id.type_id.0) >= 0,
        id.variable == (VariableStruct { number: 1, is_sequence: false }),
        addr_fits(p.info_obj_addr_size, cmd.ioa),
        cmd.qos.qual.0 < 128,
        setpoint_float_built(p, id.type_id.0, false, seq![cmd], payload),
        setpoint_float_read(p, id, payload, seq![out]),
    ensures
        read_error(p, id.variable, payload.len() as int, true, 5, setpoint_float_size(id.type_id.0)) is None,
        out.ioa == cmd.ioa && out.value == cmd.value && out.qos == cmd.qos && time_read_back(
            cmd.time,
            out.time,
            setpoint_float_tag_len(id.type_id.0),
            p.info_obj_time_zone,
        ),
{
    let t = id.type_id.0;
    let w = p.info_obj_addr_size;
    let size = setpoint_float_size(t);
    let zone = p.info_obj_time_zone;
    let infos = seq![cmd];
    assert(forall|i: int| 0 <= i < 1 && #[trigger] spec_writes_addr(false, i) ==> addr_fits(w, infos[i].ioa));
    objects_read_back(payload, w, size, false, 1, setpoint_float_ioas(infos), setpoint_float_elems(infos, t, zone));
    let e = elem_of(w as int, size, false, payload, 0);
    assert(setpoint_float_elems(infos, t, zone)(0, e));
    assert(seq![out][0] == out);
    assert(obj_ioa(w, size, false, payload, 0) == setpoint_float_ioas(infos)(0));
    let fx = e.subrange(0, setpoint_float_fixed_len(t));
    assert(fx == setpoint_float_fixed_octets(cmd, t));
    assert(forall|j: int| 0 <= j < setpoint_float_fixed_len(t) ==> #[trigger] e[j] == fx[j]);
    crate::asdu::codec::u32_round_trip(cmd.value);
    setpoint_octet_round_trip(cmd.qos);
    tag_read_back(e.subrange(setpoint_float_fixed_len(t), setpoint_float_size(t)), cmd.time, out.time, setpoint_float_tag_len(t), zone);
}


/// The time tag length of a 32 bit string command type, or -1 for another type.
pub open spec fn bits_cmd_tag_len(t: u8) -> int {
    if t == 51 {
        0
    } else if t == 64 {
        7
    } else {
        -1
    }
}

/// The octets of a 32 bit string command element set before its time tag.
pub open spec fn bits_cmd_fixed_len(t: u8) -> int {
    4
}

/// The element set size of a 32 bit string command type.
pub open spec fn bits_cmd_size(t: u8) -> int {
    if bits_cmd_tag_len(t) >= 0 {
        bits_cmd_fixed_len(t) + bits_cmd_tag_len(t)
    } else {
        4
    }
}

/// The time tag length of a 32 bit string command type, 8 for another type.
fn bits_cmd_tag(t: u8) -> (n: usize)
    ensures
        bits_cmd_tag_len(t) >= 0 ==> n == bits_cmd_tag_len(t),
        bits_cmd_tag_len(t) < 0 ==> n == 8,
{
    if t == 51 {
        0
    } else if t == 64 {
        7
    } else {
        8
    }
}

/// The octets of a 32 bit string command element set before its time tag.
fn bits_cmd_fixed(t: u8) -> (n: usize)
    ensures
        n == bits_cmd_fixed_len(t),
{
    4
}

/// The octets of a 32 bit string command element set before its time tag, as written.
pub open spec fn bits_cmd_fixed_octets(info: BitsString32CommandInfo, t: u8) -> Seq<u8> {
    u32_octets(info.value)
}

/// Write the octets of a 32 bit string command element set before its time tag.
fn put_bits_cmd_fixed(buf: &mut Vec<u8>, v: BitsString32CommandInfo, t: u8)
    ensures
        final(buf)@ == old(buf)@ + bits_cmd_fixed_octets(v, t),
{
    put_u32(buf, v.value);
}

/// The element set of a 32 bit string command object as a builder writes it.
pub open spec fn bits_cmd_elem_ok(e: Seq<u8>, info: BitsString32CommandInfo, t: u8, zone: TimeZone) -> bool {
    e.len() == bits_cmd_size(t) && e.subrange(0, bits_cmd_fixed_len(t)) == bits_cmd_fixed_octets(info, t) && tag_ok(e.subrange(bits_cmd_fixed_len(t), e.len() as int), info.time, bits_cmd_tag_len(t), zone)
}

/// A 32 bit string command object as a getter reads it from its element set.
pub open spec fn bits_cmd_decoded(e: Seq<u8>, ioa: u32, info: BitsString32CommandInfo, t: u8, zone: TimeZone) -> bool {
    &&& info.ioa == ioa
    &&& info.value == u32_at(e, 0)
    &&& tag_decoded(e.subrange(bits_cmd_fixed_len(t), bits_cmd_size(t)), info.time, bits_cmd_tag_len(t), zone)
}

/// Read the 32 bit string command object at `at`.
fn read_bits_cmd(b: &[u8], at: usize, ioa: u32, t: u8, tag: usize, zone: TimeZone) -> (info: BitsString32CommandInfo)
    requires
        bits_cmd_tag_len(t) >= 0,
        tag == bits_cmd_tag_len(t),
        at + bits_cmd_size(t) <= b.len(),
    ensures
        bits_cmd_decoded(b@.subrange(at as int, at + bits_cmd_size(t)), ioa, info, t, zone),
{
    let fixed = bits_cmd_fixed(t);
    let ghost e = b@.subrange(at as int, at + bits_cmd_size(t));
    let x = get_u32(b, at);
    proof {
        assert(e[0] == b@[at as int] && e[1] == b@[at + 1] && e[2] == b@[at + 2] && e[3] == b@[at + 3]);
    }
    let time = read_tag(b, at + fixed, tag, zone);
    proof {
        assert(e.subrange(bits_cmd_fixed_len(t), bits_cmd_size(t)) =~= b@.subrange(at + fixed, at + fixed + tag));
    }
    BitsString32CommandInfo { ioa, value: x, time }
}

/// The addresses of 32 bit string command objects.
pub open spec fn bits_cmd_ioas(infos: Seq<BitsString32CommandInfo>) -> spec_fn(int) -> u32 {
    |i: int| infos[i].ioa
}

/// The element sets of 32 bit string command objects of type `t`.
pub open spec fn bits_cmd_elems(infos: Seq<BitsString32CommandInfo>, t: u8, zone: TimeZone) -> spec_fn(int, Seq<u8>) -> bool {
    |i: int, e: Seq<u8>| bits_cmd_elem_ok(e, infos[i], t, zone)
}

/// The payload a 32 bit string command builder writes for `infos`.
pub open spec fn bits_cmd_built(p: Params, t: u8, seq: bool, infos: Seq<BitsString32CommandInfo>, payload: Seq<u8>) -> bool {
    objects_ok(
        payload,
        p.info_obj_addr_size,
        bits_cmd_size(t),
        seq,
        infos.len() as int,
        bits_cmd_ioas(infos),
        bits_cmd_elems(infos, t, p.info_obj_time_zone),
    )
}

/// What a 32 bit string command getter reads from a payload.
pub open spec fn bits_cmd_read(p: Params, id: Identifier, payload: Seq<u8>, out: Seq<BitsString32CommandInfo>) -> bool {
    let t = id.type_id.0;
    let w = p.info_obj_addr_size;
    let seq = id.variable.is_sequence;
    &&& out.len() == id.variable.number
    &&& forall|i: int|
        0 <= i < out.len() ==> bits_cmd_decoded(
            elem_of(w as int, bits_cmd_size(t), seq, payload, i),
            obj_ioa(w, bits_cmd_size(t), seq, payload, i),
            #[trigger] out[i],
            t,
            p.info_obj_time_zone,
        )
}

impl Asdu {
    /// Build `C_BO_NA_1` or `C_BO_TA_1`: a 32 bit string command.
    ///
    /// See companion standard 101, subclass 7.3.2.7.
    pub fn bits_string32_cmd(
        params: Params,
        type_id: TypeId,
        coa: CauseOfTransmission,
        ca: CommonAddr,
        cmd: BitsString32CommandInfo,
    ) -> (r: Result<Asdu>)
        ensures
            !command_cause_ok(coa.cause.0) ==> r == Err::<Asdu, Error>(Error::CmdCause),
            command_cause_ok(coa.cause.0) ==> command_outcome(
                r,
                params,
                type_id,
                coa,
                ca,
                cmd.ioa,
                bits_cmd_tag_len(type_id.0) >= 0,
                |b: Seq<u8>| bits_cmd_built(params, type_id.0, false, seq![cmd], b),
            ),
    {
        check_command_cause(coa)?;
        let mut u = start_cmd(params, type_id, coa, ca)?;
        let w = params.info_obj_addr_size;
        let zone = params.info_obj_time_zone;
        let t = type_id.0;
        let tag = bits_cmd_tag(t);
        let ghost infos = seq![cmd];
        let ghost size = bits_cmd_size(t);
        let ghost ioa = bits_cmd_ioas(infos);
        let ghost ok = bits_cmd_elems(infos, t, zone);
        let mut buf: Vec<u8> = Vec::new();
        proof {
            objects_empty(w, size, false, ioa, ok);
        }
        match put_object_addr(&mut buf, w, false, 0, cmd.ioa) {
            Ok(()) => {},
            Err(e) => {
                return Err(e);
            },
        }
        let ghost b1 = buf@;
        put_bits_cmd_fixed(&mut buf, cmd, t);
        let ghost b15 = buf@;
        if tag == 8 {
            return Err(Error::TypeIdNotMatch);
        }
        put_tag(&mut buf, cmd.time, tag, zone);
        proof {
            assert(addr_octets(w, ioa(0)).len() == w);
            assert(buf@.subrange(0, b15.len() as int) == b15);
            assert forall|j: int| 0 <= j < b1.len() implies buf@[j] == b1[j] by {
                assert(buf@.subrange(0, b15.len() as int)[j] == buf@[j]);
            }
            assert(buf@.subrange(0, b1.len() as int) =~= b1);
            let e = buf@.subrange(b1.len() as int, buf@.len() as int);
            assert forall|j: int| 0 <= j < bits_cmd_fixed_len(t) implies e[j] == #[trigger] b15[b1.len() + j] by {
                assert(buf@.subrange(0, b15.len() as int)[b1.len() + j] == buf@[b1.len() + j]);
            }
            assert(b15.subrange(b1.len() as int, b15.len() as int) =~= bits_cmd_fixed_octets(cmd, t));
            assert(e.subrange(bits_cmd_fixed_len(t), e.len() as int) =~= buf@.subrange(b15.len() as int, buf@.len() as int));
            assert(e.subrange(0, bits_cmd_fixed_len(t)) =~= bits_cmd_fixed_octets(cmd, t));
            assert(bits_cmd_elem_ok(e, infos[0], t, zone));
            objects_extend(Seq::<u8>::empty(), b1, buf@, w, size, false, 0, ioa, ok);
        }
        u.info_obj = buf;
        Ok(u)
    }

    /// Decode `C_BO_NA_1` or `C_BO_TA_1`.
    pub fn get_bits_string32_cmd(&self) -> (r: Result<BitsString32CommandInfo>)
        ensures
            match read_error(
                self.params,
                VariableStruct { number: 1, is_sequence: false },
                self.info_obj@.len() as int,
                bits_cmd_tag_len(self.identifier.type_id.0) >= 0,
                4,
                bits_cmd_size(self.identifier.type_id.0),
            ) {
                Some(e) => r == Err::<BitsString32CommandInfo, Error>(e),
                None => r matches Ok(info) && bits_cmd_read(
                    self.params,
                    Identifier { variable: VariableStruct { number: 1, is_sequence: false }, ..self.identifier },
                    self.info_obj@,
                    seq![info],
                ),
            },
    {
        let t = self.identifier.type_id.0;
        let tag = bits_cmd_tag(t);
        let size: usize = if tag != 8 {
            bits_cmd_fixed(t) + tag
        } else {
            4
        };
        let b = self.info_obj.as_slice();
        let one = VariableStruct { number: 1, is_sequence: false };
        let pos = object_positions(&self.params, one, b, tag != 8, 4, size)?;
        let (ioa, at) = pos[0];
        let info = read_bits_cmd(b, at, ioa, t, tag, self.params.info_obj_time_zone);
        assert(seq![info][0] == info);
        Ok(info)
    }
}

/// A 32 bit string command reads back as it was built: its address, its bits, and its time as [`time_read_back`] says.
pub proof fn bits_cmd_round_trip(p: Params, id: Identifier, cmd: BitsString32CommandInfo, payload: Seq<u8>, out: BitsString32CommandInfo)
    requires
        p.spec_valid(),
        bits_cmd_tag_len(id.type_id.0) >= 0,
        id.variable == (VariableStruct { number: 1, is_sequence: false }),
        addr_fits(p.info_obj_addr_size, cmd.ioa),
        bits_cmd_built(p, id.type_id.0, false, seq![cmd], payload),
        bits_cmd_read(p, id, payload, seq![out]),
    ensures
        read_error(p, id.variable, payload.len() as int, true, 4, bits_cmd_size(id.type_id.0)) is None,
        out.ioa == cmd.ioa && out.value == cmd.value && time_read_back(
            cmd.time,
            out.time,
            bits_cmd_tag_len(id.type_id.0),
            p.info_obj_time_zone,
        ),
{
    let t = id.type_id.0;
    let w = p.info_obj_addr_size;
    let size = bits_cmd_size(t);
    let zone = p.info_obj_time_zone;
    let infos = seq![cmd];
    assert(forall|i: int| 0 <= i < 1 && #[trigger] spec_writes_addr(false, i) ==> addr_fits(w, infos[i].ioa));
    objects_read_back(payload, w, size, false, 1, bits_cmd_ioas(infos), bits_cmd_elems(infos, t, zone));
    let e = elem_of(w as int, size, false, payload, 0);
    assert(bits_cmd_elems(infos, t, zone)(0, e));
    assert(seq![out][0] == out);
    assert(obj_ioa(w, size, false, payload, 0) == bits_cmd_ioas(infos)(0));
    let fx = e.subrange(0, bits_cmd_fixed_len(t));
    assert(fx == bits_cmd_fixed_octets(cmd, t));
    assert(forall|j: int| 0 <= j < bits_cmd_fixed_len(t) ==> #[trigger] e[j] == fx[j]);
    crate::asdu::codec::u32_round_trip(cmd.value);
    tag_read_back(e.subrange(bits_cmd_fixed_len(t), bits_cmd_size(t)), cmd.time, out.time, bits_cmd_tag_len(t), zone);
}


} // verus!
