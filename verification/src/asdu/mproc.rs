//! Process information in the monitoring direction: the `M_*` types that carry
//! measurements and status from the controlled station to the master.
//!
//! Each family has a builder per time-tag variant (none, CP24Time2a,
//! CP56Time2a) and one getter that decodes all three. The builders state the
//! octets of every object they write and the getters what they read from
//! every object, over the shared layout of [`crate::asdu::objects`]; each
//! family's round trip is a law below its getter.

use vstd::prelude::*;

use crate::asdu::codec::{
    addr_fits, addr_octets, bcr_at, bcr_octets, get_bcr, get_u16, get_u32, put_bcr, put_u16, put_u32,
    put_u8, u16_at, u16_octets, u32_at, u32_octets, Asdu,
};
use crate::asdu::identifier::{CauseOfTransmission, CommonAddr, Identifier, TypeId, VariableStruct};
use crate::asdu::info::{
    BinaryCounterReading, DoublePoint, InfoObjAddr, Normalize, OutputCircuitInfo, QualityDescriptor,
    QualityDescriptorProtection, SingleEvent, StartEvent, StatusAndStatusChangeDetection, StepPosition,
};
use crate::asdu::objects::{
    build_error, built_identifier, built_outcome, read_outcome, consecutive, elem_of, obj_ioa, object_positions, objects_empty,
    objects_extend, objects_ok, objects_read_back, put_object_addr, put_tag, read_error, read_tag,
    spec_writes_addr, start, tag_decoded, tag_ok, tag_read_back, time_read_back,
};
use crate::asdu::params::{Params, TimeZone};
use crate::asdu::time::Timestamp;
use crate::error::{Error, Result};

verus! {

/// A single-point measurement.
#[derive(Debug, Clone, Copy, PartialEq, Eq, Default)]
pub struct SinglePointInfo {
    /// Information object address.
    pub ioa: InfoObjAddr,
    /// The point state.
    pub value: bool,
    /// Quality descriptor; [`QualityDescriptor::GOOD`] means no remarks.
    pub qds: QualityDescriptor,
    /// Time tag; ignored by the untagged type.
    pub time: Option<Timestamp>,
}

impl SinglePointInfo {
    /// A good-quality, untagged point.
    pub fn new(ioa: InfoObjAddr, value: bool) -> (s: Self)
        ensures
            s == (SinglePointInfo { ioa, value, qds: QualityDescriptor(0), time: None }),
    {
        SinglePointInfo { ioa, value, qds: QualityDescriptor(0), time: None }
    }
}

/// A double-point measurement.
#[derive(Debug, Clone, Copy, PartialEq, Eq, Default)]
pub struct DoublePointInfo {
    /// Information object address.
    pub ioa: InfoObjAddr,
    /// The point state.
    pub value: DoublePoint,
    /// Quality descriptor.
    pub qds: QualityDescriptor,
    /// Time tag; ignored by the untagged type.
    pub time: Option<Timestamp>,
}

/// A step (tap changer) position measurement.
#[derive(Debug, Clone, Copy, PartialEq, Eq, Default)]
pub struct StepPositionInfo {
    /// Information object address.
    pub ioa: InfoObjAddr,
    /// Step position and transient indication.
    pub value: StepPosition,
    /// Quality descriptor.
    pub qds: QualityDescriptor,
    /// Time tag; ignored by the untagged type.
    pub time: Option<Timestamp>,
}

/// A 32 bit string measurement.
#[derive(Debug, Clone, Copy, PartialEq, Eq, Default)]
pub struct BitString32Info {
    /// Information object address.
    pub ioa: InfoObjAddr,
    /// The 32 status bits.
    pub value: u32,
    /// Quality descriptor.
    pub qds: QualityDescriptor,
    /// Time tag; ignored by the untagged type.
    pub time: Option<Timestamp>,
}

/// A normalized measured value.
#[derive(Debug, Clone, Copy, PartialEq, Eq, Default)]
pub struct MeasuredValueNormalInfo {
    /// Information object address.
    pub ioa: InfoObjAddr,
    /// The normalized value in `[-1, 1 - 2^-15]`.
    pub value: Normalize,
    /// Quality descriptor; not transmitted by `M_ME_ND_1`.
    pub qds: QualityDescriptor,
    /// Time tag; ignored by the untagged types.
    pub time: Option<Timestamp>,
}

/// A scaled measured value.
#[derive(Debug, Clone, Copy, PartialEq, Eq, Default)]
pub struct MeasuredValueScaledInfo {
    /// Information object address.
    pub ioa: InfoObjAddr,
    /// The scaled value.
    pub value: i16,
    /// Quality descriptor.
    pub qds: QualityDescriptor,
    /// Time tag; ignored by the untagged type.
    pub time: Option<Timestamp>,
}

/// A short floating point measured value.
///
/// The value is carried as the bits of its IEEE 754 single-precision
/// representation, exactly as they travel on the wire.
#[derive(Debug, Clone, Copy, PartialEq, Eq, Default)]
pub struct MeasuredValueFloatInfo {
    /// Information object address.
    pub ioa: InfoObjAddr,
    /// The bits of the measured value (R32-IEEE STD 754).
    pub value: u32,
    /// Quality descriptor.
    pub qds: QualityDescriptor,
    /// Time tag; ignored by the untagged type.
    pub time: Option<Timestamp>,
}

/// An integrated total (counter) reading.
#[derive(Debug, Clone, Copy, PartialEq, Eq, Default)]
pub struct BinaryCounterReadingInfo {
    /// Information object address.
    pub ioa: InfoObjAddr,
    /// The counter reading and its flags.
    pub value: BinaryCounterReading,
    /// Time tag; ignored by the untagged type.
    pub time: Option<Timestamp>,
}

/// An event of protection equipment.
#[derive(Debug, Clone, Copy, PartialEq, Eq, Default)]
pub struct EventOfProtectionEquipmentInfo {
    /// Information object address.
    pub ioa: InfoObjAddr,
    /// The event state.
    pub event: SingleEvent,
    /// Protection quality descriptor.
    pub qdp: QualityDescriptorProtection,
    /// Elapsed time of the protection operation, in milliseconds (CP16Time2a).
    pub msec: u16,
    /// Time tag of the event.
    pub time: Option<Timestamp>,
}

/// Packed start events of protection equipment.
#[derive(Debug, Clone, Copy, PartialEq, Eq, Default)]
pub struct PackedStartEventsOfProtectionEquipmentInfo {
    /// Information object address.
    pub ioa: InfoObjAddr,
    /// Which phases started.
    pub event: StartEvent,
    /// Protection quality descriptor.
    pub qdp: QualityDescriptorProtection,
    /// Relay duration time in milliseconds (CP16Time2a).
    pub msec: u16,
    /// Time tag of the event.
    pub time: Option<Timestamp>,
}

/// Packed output circuit information of protection equipment.
#[derive(Debug, Clone, Copy, PartialEq, Eq, Default)]
pub struct PackedOutputCircuitInfoInfo {
    /// Information object address.
    pub ioa: InfoObjAddr,
    /// Which output circuits were commanded.
    pub oci: OutputCircuitInfo,
    /// Protection quality descriptor.
    pub qdp: QualityDescriptorProtection,
    /// Relay operating time in milliseconds (CP16Time2a).
    pub msec: u16,
    /// Time tag of the event.
    pub time: Option<Timestamp>,
}

/// Packed single-point information with status change detection.
#[derive(Debug, Clone, Copy, PartialEq, Eq, Default)]
pub struct PackedSinglePointWithScdInfo {
    /// Information object address.
    pub ioa: InfoObjAddr,
    /// 16 status bits plus 16 change-detection bits.
    pub scd: StatusAndStatusChangeDetection,
    /// Quality descriptor.
    pub qds: QualityDescriptor,
}

/// Causes permitted for untagged process information in the monitor direction:
/// background, spontaneous, request, the two return-information causes and the
/// interrogation causes.
pub open spec fn untagged_cause_ok(c: u8) -> bool {
    c == 2 || c == 3 || c == 5 || c == 11 || c == 12 || (20 <= c <= 36)
}

/// Causes permitted for time-tagged process information in the monitor
/// direction: spontaneous, request and the two return-information causes.
pub open spec fn tagged_cause_ok(c: u8) -> bool {
    c == 3 || c == 5 || c == 11 || c == 12
}

/// Causes permitted for untagged measured values: periodic, background,
/// spontaneous, request and the interrogation causes.
pub open spec fn measured_cause_ok(c: u8) -> bool {
    c == 1 || c == 2 || c == 3 || c == 5 || (20 <= c <= 36)
}

/// Causes permitted for time-tagged measured values and bit strings.
pub open spec fn spontaneous_or_request(c: u8) -> bool {
    c == 3 || c == 5
}

/// Causes permitted for integrated totals: spontaneous and the counter
/// interrogation causes.
pub open spec fn counter_cause_ok(c: u8) -> bool {
    c == 3 || (37 <= c <= 41)
}

/// Causes permitted for an untagged bit string: background, spontaneous,
/// request and the interrogation causes.
pub open spec fn bitstring_cause_ok(c: u8) -> bool {
    c == 2 || c == 3 || c == 5 || (20 <= c <= 36)
}

/// `Ok` when the cause is permitted, else [`Error::CmdCause`].
pub open spec fn cause_result(ok: bool) -> Result<()> {
    if ok {
        Ok(())
    } else {
        Err(Error::CmdCause)
    }
}

/// Causes permitted for untagged process information in the monitor direction.
pub fn check_untagged_cause(coa: CauseOfTransmission) -> (r: Result<()>)
    ensures
        r == cause_result(untagged_cause_ok(coa.cause.0)),
{
    let c = coa.cause.0;
    if c == 2 || c == 3 || c == 5 || c == 11 || c == 12 || coa.cause.is_interrogation() {
        Ok(())
    } else {
        Err(Error::CmdCause)
    }
}

/// Causes permitted for time-tagged process information in the monitor direction.
pub fn check_tagged_cause(coa: CauseOfTransmission) -> (r: Result<()>)
    ensures
        r == cause_result(tagged_cause_ok(coa.cause.0)),
{
    let c = coa.cause.0;
    if c == 3 || c == 5 || c == 11 || c == 12 {
        Ok(())
    } else {
        Err(Error::CmdCause)
    }
}

/// Causes permitted for untagged measured values (adds `Periodic`, drops return info).
pub fn check_measured_cause(coa: CauseOfTransmission) -> (r: Result<()>)
    ensures
        r == cause_result(measured_cause_ok(coa.cause.0)),
{
    let c = coa.cause.0;
    if c == 1 || c == 2 || c == 3 || c == 5 || coa.cause.is_interrogation() {
        Ok(())
    } else {
        Err(Error::CmdCause)
    }
}

/// Causes permitted for time-tagged measured values and bit strings.
pub fn check_spontaneous_or_request(coa: CauseOfTransmission) -> (r: Result<()>)
    ensures
        r == cause_result(spontaneous_or_request(coa.cause.0)),
{
    if coa.cause.0 == 3 || coa.cause.0 == 5 {
        Ok(())
    } else {
        Err(Error::CmdCause)
    }
}

/// Causes permitted for integrated totals.
pub fn check_counter_cause(coa: CauseOfTransmission) -> (r: Result<()>)
    ensures
        r == cause_result(counter_cause_ok(coa.cause.0)),
{
    if coa.cause.0 == 3 || coa.cause.is_counter_request() {
        Ok(())
    } else {
        Err(Error::CmdCause)
    }
}

/// Causes permitted for an untagged bit string.
pub fn check_bitstring_cause(coa: CauseOfTransmission) -> (r: Result<()>)
    ensures
        r == cause_result(bitstring_cause_ok(coa.cause.0)),
{
    let c = coa.cause.0;
    if c == 2 || c == 3 || c == 5 || coa.cause.is_interrogation() {
        Ok(())
    } else {
        Err(Error::CmdCause)
    }
}

/// The quality bits a short floating point value carries: OV and the high
/// nibble (BL, SB, NT, IV), as `q & 0xf1`.
pub open spec fn float_quality(q: u8) -> u8 {
    (high_nibble(q) + q % 2) as u8
}

/// The quality bits of a protection descriptor, bits 3..=7, as `q & 0xf8`.
pub open spec fn protection_quality(q: u8) -> u8 {
    ((q / 8) * 8) as u8
}

/// The quality bits (the high nibble) of an octet.
pub open spec fn high_nibble(b: u8) -> u8 {
    ((b / 16) * 16) as u8
}

/// A state below `unit` added to the quality bits of `q` (its multiples of
/// `unit`) keeps both: the state in the low bits, the quality above them.
pub proof fn low_bits_under_quality(v: u8, q: u8, unit: u8)
    requires
        v < 4,
        unit == 8 || unit == 16,
    ensures
        unit == 16 ==> ((v + high_nibble(q)) as u8) % 4 == v && high_nibble((v + high_nibble(q)) as u8)
            == high_nibble(q),
        unit == 8 ==> ((v + protection_quality(q)) as u8) % 4 == v && protection_quality(
            (v + protection_quality(q)) as u8,
        ) == protection_quality(q),
{
    let u = unit as int;
    let k = (q / unit) as int;
    assert(0 <= k * u <= q) by (nonlinear_arith)
        requires
            k == q as int / u,
            u > 0,
            q >= 0,
    ;
    let x = v + k * u;
    assert(x % 4 == v && x / u == k) by (nonlinear_arith)
        requires
            x == v + k * u,
            v < 4,
            u == 8 || u == 16,
            k >= 0,
    ;
}

/// The information octets of IEC 60870-5-101, subclasses 7.2.6.1, 7.2.6.2
/// and 7.2.6.10, as the monitoring builders write them: SIQ holds the state
/// in bit 0, DIQ and SEP the state in bits 0 and 1; above the state stand the
/// quality bits of the descriptor (the high nibble, and for protection EI at
/// 0x08 too), and the bits between are clear.
pub proof fn information_octet_bits(
    sp: SinglePointInfo,
    dp: DoublePointInfo,
    ev: EventOfProtectionEquipmentInfo,
    t: u8,
)
    ensures
        siq(sp) & 0x01 == (if sp.value { 1u8 } else { 0u8 }),
        siq(sp) & 0x0e == 0,
        siq(sp) & 0xf0 == sp.qds.0 & 0xf0,
        double_fixed_octets(dp, t)[0] & 0x03 == dp.value.spec_value(),
        double_fixed_octets(dp, t)[0] & 0x0c == 0,
        double_fixed_octets(dp, t)[0] & 0xf0 == dp.qds.0 & 0xf0,
        protection_fixed_octets(ev, t)[0] & 0x03 == ev.event.spec_value(),
        protection_fixed_octets(ev, t)[0] & 0x04 == 0,
        protection_fixed_octets(ev, t)[0] & 0xf8 == ev.qdp.0 & 0xf8,
{
    let a: u8 = if sp.value { 1 } else { 0 };
    let q1 = sp.qds.0;
    let o1 = siq(sp);
    let v2 = dp.value.spec_value();
    let q2 = dp.qds.0;
    let o2 = double_fixed_octets(dp, t)[0];
    let v3 = ev.event.spec_value();
    let q3 = ev.qdp.0;
    let o3 = protection_fixed_octets(ev, t)[0];
    assert(o3 == (v3 + protection_quality(q3)) as u8);
    assert({
        &&& o1 & 0x01 == a
        &&& o1 & 0x0e == 0
        &&& o1 & 0xf0 == q1 & 0xf0
        &&& o2 & 0x03 == v2
        &&& o2 & 0x0c == 0
        &&& o2 & 0xf0 == q2 & 0xf0
        &&& o3 & 0x03 == v3
        &&& o3 & 0x04 == 0
        &&& o3 & 0xf8 == q3 & 0xf8
    }) by (bit_vector)
        requires
            a < 2,
            o1 == (a + ((q1 / 16) * 16) as u8) as u8,
            v2 < 4,
            o2 == (v2 + ((q2 / 16) * 16) as u8) as u8,
            v3 < 4,
            o3 == (v3 + ((q3 / 8) * 8) as u8) as u8,
    ;
}

/// The time tag length of a single-point type: 0, 3 or 7, or -1 when the
/// type is not a single-point type.
pub open spec fn single_tag_len(t: u8) -> int {
    if t == 1 {
        0
    } else if t == 2 {
        3
    } else if t == 30 {
        7
    } else {
        -1
    }
}

/// The element set size of a single-point type.
pub open spec fn single_size(t: u8) -> int {
    if single_tag_len(t) >= 0 {
        1 + single_tag_len(t)
    } else {
        1
    }
}

/// The time tag length of a single-point type, 8 for another type.
fn single_tag(t: u8) -> (n: usize)
    ensures
        single_tag_len(t) >= 0 ==> n == single_tag_len(t),
        single_tag_len(t) < 0 ==> n == 8,
{
    if t == 1 {
        0
    } else if t == 2 {
        3
    } else if t == 30 {
        7
    } else {
        8
    }
}

/// The SIQ octet: the state in bit 0 and the quality bits.
pub open spec fn siq(info: SinglePointInfo) -> u8 {
    ((if info.value { 1int } else { 0 }) + high_nibble(info.qds.0)) as u8
}

/// The element set of a single point as a builder writes it.
pub open spec fn single_elem_ok(e: Seq<u8>, info: SinglePointInfo, tag_len: int, zone: TimeZone) -> bool {
    e.len() == 1 + tag_len && e[0] == siq(info) && tag_ok(e.subrange(1, e.len() as int), info.time, tag_len, zone)
}

/// A single point as a getter reads it from its element set.
pub open spec fn single_decoded(e: Seq<u8>, ioa: u32, info: SinglePointInfo, tag_len: int, zone: TimeZone) -> bool {
    &&& info.ioa == ioa
    &&& info.value == (e[0] % 2 == 1)
    &&& info.qds == QualityDescriptor(high_nibble(e[0]))
    &&& tag_decoded(e.subrange(1, 1 + tag_len), info.time, tag_len, zone)
}

/// The addresses of single points.
pub open spec fn single_ioas(infos: Seq<SinglePointInfo>) -> spec_fn(int) -> u32 {
    |i: int| infos[i].ioa
}

/// The element sets of single points of type `t`.
pub open spec fn single_elems(infos: Seq<SinglePointInfo>, t: u8, zone: TimeZone) -> spec_fn(int, Seq<u8>) -> bool {
    |i: int, e: Seq<u8>| single_elem_ok(e, infos[i], single_tag_len(t), zone)
}

/// The payload a single-point builder writes for `infos`.
pub open spec fn single_built(p: Params, t: u8, seq: bool, infos: Seq<SinglePointInfo>, payload: Seq<u8>) -> bool {
    objects_ok(
        payload,
        p.info_obj_addr_size,
        single_size(t),
        seq,
        infos.len() as int,
        single_ioas(infos),
        single_elems(infos, t, p.info_obj_time_zone),
    )
}

/// What a single-point getter reads from a payload.
pub open spec fn single_read(p: Params, id: Identifier, payload: Seq<u8>, out: Seq<SinglePointInfo>) -> bool {
    let t = id.type_id.0;
    let w = p.info_obj_addr_size;
    let seq = id.variable.is_sequence;
    &&& out.len() == id.variable.number
    &&& forall|i: int|
        0 <= i < out.len() ==> single_decoded(
            elem_of(w as int, single_size(t), seq, payload, i),
            obj_ioa(w, single_size(t), seq, payload, i),
            #[trigger] out[i],
            single_tag_len(t),
            p.info_obj_time_zone,
        )
}

impl Asdu {
    /// Build `M_SP_NA_1`, `M_SP_TA_1` or `M_SP_TB_1`: single-point information.
    ///
    /// See companion standard 101, subclasses 7.3.1.1, 7.3.1.2 and 7.3.1.22.
    pub fn single_with_type(
        params: Params,
        type_id: TypeId,
        is_sequence: bool,
        coa: CauseOfTransmission,
        ca: CommonAddr,
        infos: &[SinglePointInfo],
    ) -> (r: Result<Asdu>)
        ensures
            built_outcome(
                r,
                params,
                type_id,
                is_sequence,
                coa,
                ca,
                infos@.len() as int,
                single_ioas(infos@),
                single_tag_len(type_id.0) >= 0,
                |b: Seq<u8>| single_built(params, type_id.0, is_sequence, infos@, b),
            ),
    {
        let mut u = start(params, type_id, is_sequence, coa, ca, infos.len())?;
        let w = params.info_obj_addr_size;
        let zone = params.info_obj_time_zone;
        let tag = single_tag(type_id.0);
        let ghost size = single_size(type_id.0);
        let ghost ioa = single_ioas(infos@);
        let ghost ok = single_elems(infos@, type_id.0, zone);
        let mut buf: Vec<u8> = Vec::new();
        proof {
            objects_empty(w, size, is_sequence, ioa, ok);
        }
        let mut i: usize = 0;
        while i < infos.len()
            invariant
                1 <= w <= 3,
                w == params.info_obj_addr_size,
                zone == params.info_obj_time_zone,
                0 < infos@.len() < 128,
                i <= infos@.len(),
                tag == 8 ==> i == 0,
                single_tag_len(type_id.0) >= 0 ==> tag == single_tag_len(type_id.0),
                single_tag_len(type_id.0) < 0 ==> tag == 8,
                size == single_size(type_id.0),
                ioa == single_ioas(infos@),
                ok == single_elems(infos@, type_id.0, zone),
                objects_ok(buf@, w, size, is_sequence, i as int, ioa, ok),
                i > 0 ==> addr_fits(w, ioa(0)),
                forall|k: int| 0 <= k < i && #[trigger] spec_writes_addr(is_sequence, k) ==> addr_fits(w, ioa(k)),
                u.params == params,
                u.identifier == built_identifier(type_id, is_sequence, coa, ca, infos@.len() as int),
                crate::asdu::codec::check_valid_error(params, type_id, is_sequence, infos@.len() as int) is None,
                i > 0 ==> tag != 8,
            decreases infos@.len() - i,
        {
            let v = infos[i];
            let ghost b0 = buf@;
            match put_object_addr(&mut buf, w, is_sequence, i, v.ioa) {
                Ok(()) => {},
                Err(e) => {
                    assert(spec_writes_addr(is_sequence, i as int) && !addr_fits(w, ioa(i as int)));
                    return Err(e);
                },
            }
            let ghost b1 = buf@;
            let value: u8 = if v.value {
                1
            } else {
                0
            };
            put_u8(&mut buf, value + (v.qds.0 / 16) * 16);
            let ghost b15 = buf@;
            if tag == 8 {
                assert(spec_writes_addr(is_sequence, 0) && addr_fits(w, ioa(0)));
                return Err(Error::TypeIdNotMatch);
            }
            put_tag(&mut buf, v.time, tag, zone);
            proof {
                assert(addr_octets(w, ioa(i as int)).len() == w);
                assert(buf@.subrange(0, b15.len() as int) == b15);
                assert forall|j: int| 0 <= j < b1.len() implies buf@[j] == b1[j] by {
                    assert(buf@.subrange(0, b15.len() as int)[j] == buf@[j]);
                }
                assert(buf@.subrange(0, b1.len() as int) =~= b1);
                let e = buf@.subrange(b1.len() as int, buf@.len() as int);
                assert(e.subrange(1, e.len() as int) =~= buf@.subrange(b15.len() as int, buf@.len() as int));
                assert(e[0] == b15[b1.len() as int]);
                assert(e[0] == siq(infos@[i as int]));
                assert(single_elem_ok(e, infos@[i as int], single_tag_len(type_id.0), zone));
                assert(buf@.subrange(b1.len() as int, buf@.len() as int).subrange(1, 1 + tag)
                    =~= buf@.subrange((b1.len() + 1) as int, buf@.len() as int));
                objects_extend(b0, b1, buf@, w, size, is_sequence, i as int, ioa, ok);
            }
            i = i + 1;
        }
        u.info_obj = buf;
        Ok(u)
    }

    /// Build `M_SP_NA_1`: single-point information without time tag.
    ///
    /// Permitted causes: `Background`, `Spontaneous`, `Request`,
    /// `ReturnInfoRemote`, `ReturnInfoLocal` and the interrogation causes.
    pub fn single(
        params: Params,
        is_sequence: bool,
        coa: CauseOfTransmission,
        ca: CommonAddr,
        infos: &[SinglePointInfo],
    ) -> (r: Result<Asdu>)
        ensures
            !untagged_cause_ok(coa.cause.0) ==> r == Err::<Asdu, Error>(Error::CmdCause),
            untagged_cause_ok(coa.cause.0) ==> built_outcome(
                r,
                params,
                TypeId(1),
                is_sequence,
                coa,
                ca,
                infos@.len() as int,
                single_ioas(infos@),
                true,
                |b: Seq<u8>| single_built(params, 1, is_sequence, infos@, b),
            ),
    {
        check_untagged_cause(coa)?;
        Self::single_with_type(params, TypeId(1), is_sequence, coa, ca, infos)
    }

    /// Build `M_SP_TA_1`: single-point information with a CP24Time2a time tag.
    ///
    /// Never a sequence. Permitted causes: `Spontaneous`, `Request`,
    /// `ReturnInfoRemote`, `ReturnInfoLocal`.
    pub fn single_cp24time2a(params: Params, coa: CauseOfTransmission, ca: CommonAddr, infos: &[SinglePointInfo]) -> (r: Result<Asdu>)
        ensures
            !tagged_cause_ok(coa.cause.0) ==> r == Err::<Asdu, Error>(Error::CmdCause),
            tagged_cause_ok(coa.cause.0) ==> built_outcome(
                r,
                params,
                TypeId(2),
                false,
                coa,
                ca,
                infos@.len() as int,
                single_ioas(infos@),
                true,
                |b: Seq<u8>| single_built(params, 2, false, infos@, b),
            ),
    {
        check_tagged_cause(coa)?;
        Self::single_with_type(params, TypeId(2), false, coa, ca, infos)
    }

    /// Build `M_SP_TB_1`: single-point information with a CP56Time2a time tag.
    ///
    /// Never a sequence. Permitted causes: `Spontaneous`, `Request`,
    /// `ReturnInfoRemote`, `ReturnInfoLocal`.
    pub fn single_cp56time2a(params: Params, coa: CauseOfTransmission, ca: CommonAddr, infos: &[SinglePointInfo]) -> (r: Result<Asdu>)
        ensures
            !tagged_cause_ok(coa.cause.0) ==> r == Err::<Asdu, Error>(Error::CmdCause),
            tagged_cause_ok(coa.cause.0) ==> built_outcome(
                r,
                params,
                TypeId(30),
                false,
                coa,
                ca,
                infos@.len() as int,
                single_ioas(infos@),
                true,
                |b: Seq<u8>| single_built(params, 30, false, infos@, b),
            ),
    {
        check_tagged_cause(coa)?;
        Self::single_with_type(params, TypeId(30), false, coa, ca, infos)
    }

    /// Decode `M_SP_NA_1`, `M_SP_TA_1` or `M_SP_TB_1`.
    pub fn get_single_point(&self) -> (r: Result<Vec<SinglePointInfo>>)
        ensures
            read_outcome(
                r,
                read_error(
                    self.params,
                    self.identifier.variable,
                    self.info_obj@.len() as int,
                    single_tag_len(self.identifier.type_id.0) >= 0,
                    1,
                    single_size(self.identifier.type_id.0),
                ),
                |out: Seq<SinglePointInfo>| single_read(self.params, self.identifier, self.info_obj@, out),
            ),
    {
        let t = self.identifier.type_id.0;
        let tag = single_tag(t);
        let family = tag != 8;
        let size: usize = if family {
            1 + tag
        } else {
            1
        };
        let b = self.info_obj.as_slice();
        let pos = object_positions(&self.params, self.identifier.variable, b, family, 1, size)?;
        let zone = self.params.info_obj_time_zone;
        let ghost w = self.params.info_obj_addr_size;
        let ghost seq = self.identifier.variable.is_sequence;
        let mut out: Vec<SinglePointInfo> = Vec::new();
        let mut j: usize = 0;
        while j < pos.len()
            invariant
                b@ == self.info_obj@,
                zone == self.params.info_obj_time_zone,
                pos@.len() == self.identifier.variable.number,
                pos@.len() > 0 ==> family,
                family ==> tag == single_tag_len(t) && size == single_size(t),
                t == self.identifier.type_id.0,
                forall|i: int|
                    0 <= i < pos@.len() ==> (#[trigger] pos@[i]).0 == obj_ioa(w, size as int, seq, b@, i)
                        && pos@[i].1 == crate::asdu::objects::elem_pos(w as int, size as int, seq, i) && pos@[i].1
                        + size <= b@.len(),
                w == self.params.info_obj_addr_size,
                seq == self.identifier.variable.is_sequence,
                j <= pos@.len(),
                out@.len() == j,
                forall|k: int|
                    0 <= k < j ==> single_decoded(
                        elem_of(w as int, single_size(t), seq, b@, k),
                        obj_ioa(w, single_size(t), seq, b@, k),
                        #[trigger] out@[k],
                        single_tag_len(t),
                        zone,
                    ),
            decreases pos@.len() - j,
        {
            let (ioa, at) = pos[j];
            let e = b[at];
            let time = read_tag(b, at + 1, tag, zone);
            proof {
                let el = elem_of(w as int, size as int, seq, b@, j as int);
                assert(el.subrange(1, 1 + tag) =~= b@.subrange(at + 1, at + 1 + tag));
                assert(el[0] == e);
            }
            out.push(SinglePointInfo { ioa, value: e % 2 == 1, qds: QualityDescriptor((e / 16) * 16), time });
            j = j + 1;
        }
        Ok(out)
    }
}


/// A single-point payload reads back the objects it was built from: the
/// address of each (consecutive ones in a sequence), its state, the high
/// nibble of its quality descriptor, and its time as [`time_read_back`] says.
pub proof fn single_point_round_trip(
    p: Params,
    id: Identifier,
    infos: Seq<SinglePointInfo>,
    payload: Seq<u8>,
    out: Seq<SinglePointInfo>,
)
    requires
        p.spec_valid(),
        single_tag_len(id.type_id.0) >= 0,
        0 < infos.len() < 128,
        id.variable.number == infos.len(),
        forall|i: int|
            0 <= i < infos.len() && #[trigger] spec_writes_addr(id.variable.is_sequence, i) ==> addr_fits(
                p.info_obj_addr_size,
                infos[i].ioa,
            ),
        id.variable.is_sequence ==> consecutive(single_ioas(infos), infos.len() as int),
        single_built(p, id.type_id.0, id.variable.is_sequence, infos, payload),
        single_read(p, id, payload, out),
    ensures
        read_error(p, id.variable, payload.len() as int, true, 1, single_size(id.type_id.0)) is None,
        forall|i: int|
            0 <= i < infos.len() ==> (#[trigger] out[i]).ioa == infos[i].ioa && out[i].value == infos[i].value
                && out[i].qds == QualityDescriptor(high_nibble(infos[i].qds.0)) && time_read_back(
                infos[i].time,
                out[i].time,
                single_tag_len(id.type_id.0),
                p.info_obj_time_zone,
            ),
{
    let t = id.type_id.0;
    let w = p.info_obj_addr_size;
    let seq = id.variable.is_sequence;
    let n = infos.len() as int;
    let size = single_size(t);
    let tag = single_tag_len(t);
    let zone = p.info_obj_time_zone;
    objects_read_back(payload, w, size, seq, n, single_ioas(infos), single_elems(infos, t, zone));
    assert forall|i: int| 0 <= i < n implies (#[trigger] out[i]).ioa == infos[i].ioa && out[i].value
        == infos[i].value && out[i].qds == QualityDescriptor(high_nibble(infos[i].qds.0)) && time_read_back(
        infos[i].time,
        out[i].time,
        tag,
        zone,
    ) by {
        let e = elem_of(w as int, size, seq, payload, i);
        assert(single_elems(infos, t, zone)(i, e));
        assert(obj_ioa(w, size, seq, payload, i) == single_ioas(infos)(i));
        assert(e.subrange(1, e.len() as int) =~= e.subrange(1, 1 + tag));
        tag_read_back(e.subrange(1, 1 + tag), infos[i].time, out[i].time, tag, zone);
    }
}







/// The time tag length of a double-point type, or -1 for another type.
pub open spec fn double_tag_len(t: u8) -> int {
    if t == 3 {
        0
    } else if t == 4 {
        3
    } else if t == 31 {
        7
    } else {
        -1
    }
}

/// The octets of a double-point element set before its time tag.
pub open spec fn double_fixed_len(t: u8) -> int {
    1
}

/// The element set size of a double-point type.
pub open spec fn double_size(t: u8) -> int {
    if double_tag_len(t) >= 0 {
        double_fixed_len(t) + double_tag_len(t)
    } else {
        1
    }
}

/// The time tag length of a double-point type, 8 for another type.
fn double_tag(t: u8) -> (n: usize)
    ensures
        double_tag_len(t) >= 0 ==> n == double_tag_len(t),
        double_tag_len(t) < 0 ==> n == 8,
{
    if t == 3 {
        0
    } else if t == 4 {
        3
    } else if t == 31 {
        7
    } else {
        8
    }
}

/// The octets of a double-point element set before its time tag.
fn double_fixed(t: u8) -> (n: usize)
    ensures
        n == double_fixed_len(t),
{
    1
}

/// The octets of a double-point element set before its time tag, as written.
pub open spec fn double_fixed_octets(info: DoublePointInfo, t: u8) -> Seq<u8> {
    seq![(info.value.spec_value() + high_nibble(info.qds.0)) as u8]
}

/// Write the octets of a double-point element set before its time tag.
fn put_double_fixed(buf: &mut Vec<u8>, v: DoublePointInfo, t: u8)
    ensures
        final(buf)@ == old(buf)@ + double_fixed_octets(v, t),
{
    put_u8(buf, v.value.value() + (v.qds.0 / 16) * 16);
}

/// The element set of a double-point object as a builder writes it.
pub open spec fn double_elem_ok(e: Seq<u8>, info: DoublePointInfo, t: u8, zone: TimeZone) -> bool {
    e.len() == double_size(t) && e.subrange(0, double_fixed_len(t)) == double_fixed_octets(info, t) && tag_ok(e.subrange(double_fixed_len(t), e.len() as int), info.time, double_tag_len(t), zone)
}

/// A double-point object as a getter reads it from its element set.
pub open spec fn double_decoded(e: Seq<u8>, ioa: u32, info: DoublePointInfo, t: u8, zone: TimeZone) -> bool {
    &&& info.ioa == ioa
    &&& info.value == DoublePoint::spec_parse(e[0]) && info.qds == QualityDescriptor(high_nibble(e[0]))
    &&& tag_decoded(e.subrange(double_fixed_len(t), double_size(t)), info.time, double_tag_len(t), zone)
}

/// Read the double-point object at `at`.
fn read_double(b: &[u8], at: usize, ioa: u32, t: u8, tag: usize, zone: TimeZone) -> (info: DoublePointInfo)
    requires
        double_tag_len(t) >= 0,
        tag == double_tag_len(t),
        at + double_size(t) <= b.len(),
    ensures
        double_decoded(b@.subrange(at as int, at + double_size(t)), ioa, info, t, zone),
{
    let fixed = double_fixed(t);
    let ghost e = b@.subrange(at as int, at + double_size(t));
    let x = b[at];
    proof {
        assert(e[0] == x);
    }
    let time = read_tag(b, at + fixed, tag, zone);
    proof {
        assert(e.subrange(double_fixed_len(t), double_size(t)) =~= b@.subrange(at + fixed, at + fixed + tag));
    }
    DoublePointInfo { ioa, value: DoublePoint::parse(x), qds: QualityDescriptor((x / 16) * 16), time }
}

/// The addresses of double-point objects.
pub open spec fn double_ioas(infos: Seq<DoublePointInfo>) -> spec_fn(int) -> u32 {
    |i: int| infos[i].ioa
}

/// The element sets of double-point objects of type `t`.
pub open spec fn double_elems(infos: Seq<DoublePointInfo>, t: u8, zone: TimeZone) -> spec_fn(int, Seq<u8>) -> bool {
    |i: int, e: Seq<u8>| double_elem_ok(e, infos[i], t, zone)
}

/// The payload a double-point builder writes for `infos`.
pub open spec fn double_built(p: Params, t: u8, seq: bool, infos: Seq<DoublePointInfo>, payload: Seq<u8>) -> bool {
    objects_ok(
        payload,
        p.info_obj_addr_size,
        double_size(t),
        seq,
        infos.len() as int,
        double_ioas(infos),
        double_elems(infos, t, p.info_obj_time_zone),
    )
}

/// What a double-point getter reads from a payload.
pub open spec fn double_read(p: Params, id: Identifier, payload: Seq<u8>, out: Seq<DoublePointInfo>) -> bool {
    let t = id.type_id.0;
    let w = p.info_obj_addr_size;
    let seq = id.variable.is_sequence;
    &&& out.len() == id.variable.number
    &&& forall|i: int|
        0 <= i < out.len() ==> double_decoded(
            elem_of(w as int, double_size(t), seq, payload, i),
            obj_ioa(w, double_size(t), seq, payload, i),
            #[trigger] out[i],
            t,
            p.info_obj_time_zone,
        )
}

impl Asdu {
    /// Build `M_DP_NA_1`, `M_DP_TA_1`, `M_DP_TB_1`: double-point information.
    ///
    /// See companion standard 101, subclasses 7.3.1.3, 7.3.1.4 and 7.3.1.23.
    pub fn double_with_type(
        params: Params,
        type_id: TypeId,
        is_sequence: bool,
        coa: CauseOfTransmission,
        ca: CommonAddr,
        infos: &[DoublePointInfo],
    ) -> (r: Result<Asdu>)
        ensures
            built_outcome(
                r,
                params,
                type_id,
                is_sequence,
                coa,
                ca,
                infos@.len() as int,
                double_ioas(infos@),
                double_tag_len(type_id.0) >= 0,
                |b: Seq<u8>| double_built(params, type_id.0, is_sequence, infos@, b),
            ),
    {
        let mut u = start(params, type_id, is_sequence, coa, ca, infos.len())?;
        let w = params.info_obj_addr_size;
        let zone = params.info_obj_time_zone;
        let t = type_id.0;
        let tag = double_tag(t);
        let ghost size = double_size(t);
        let ghost ioa = double_ioas(infos@);
        let ghost ok = double_elems(infos@, t, zone);
        let mut buf: Vec<u8> = Vec::new();
        proof {
            objects_empty(w, size, is_sequence, ioa, ok);
        }
        let mut i: usize = 0;
        while i < infos.len()
            invariant
                1 <= w <= 3,
                w == params.info_obj_addr_size,
                zone == params.info_obj_time_zone,
                t == type_id.0,
                0 < infos@.len() < 128,
                i <= infos@.len(),
                double_tag_len(t) >= 0 ==> tag == double_tag_len(t),
                double_tag_len(t) < 0 ==> tag == 8,
                size == double_size(t),
                ioa == double_ioas(infos@),
                ok == double_elems(infos@, t, zone),
                objects_ok(buf@, w, size, is_sequence, i as int, ioa, ok),
                forall|k: int| 0 <= k < i && #[trigger] spec_writes_addr(is_sequence, k) ==> addr_fits(w, ioa(k)),
                i > 0 ==> addr_fits(w, ioa(0)),
                u.params == params,
                u.identifier == built_identifier(type_id, is_sequence, coa, ca, infos@.len() as int),
                crate::asdu::codec::check_valid_error(params, type_id, is_sequence, infos@.len() as int) is None,
                i > 0 ==> tag != 8,
            decreases infos@.len() - i,
        {
            let v = infos[i];
            let ghost b0 = buf@;
            match put_object_addr(&mut buf, w, is_sequence, i, v.ioa) {
                Ok(()) => {},
                Err(e) => {
                    assert(spec_writes_addr(is_sequence, i as int) && !addr_fits(w, ioa(i as int)));
                    return Err(e);
                },
            }
            let ghost b1 = buf@;
            if tag == 8 {
                assert(spec_writes_addr(is_sequence, 0) && addr_fits(w, ioa(0)));
                return Err(Error::TypeIdNotMatch);
            }
            put_double_fixed(&mut buf, v, t);
            let ghost b15 = buf@;
            put_tag(&mut buf, v.time, tag, zone);
            proof {
                assert(addr_octets(w, ioa(i as int)).len() == w);
                assert(buf@.subrange(0, b15.len() as int) == b15);
                assert forall|j: int| 0 <= j < b1.len() implies buf@[j] == b1[j] by {
                    assert(buf@.subrange(0, b15.len() as int)[j] == buf@[j]);
                }
                assert(buf@.subrange(0, b1.len() as int) =~= b1);
                let e = buf@.subrange(b1.len() as int, buf@.len() as int);
                assert forall|j: int| 0 <= j < double_fixed_len(t) implies e[j] == #[trigger] b15[b1.len() + j] by {
                    assert(buf@.subrange(0, b15.len() as int)[b1.len() + j] == buf@[b1.len() + j]);
                }
                assert(b15.subrange(b1.len() as int, b15.len() as int) =~= double_fixed_octets(v, t));
                assert(e.subrange(double_fixed_len(t), e.len() as int) =~= buf@.subrange(b15.len() as int, buf@.len() as int));
                assert(e.subrange(0, double_fixed_len(t)) =~= double_fixed_octets(v, t));
                assert(double_elem_ok(e, infos@[i as int], t, zone));
                objects_extend(b0, b1, buf@, w, size, is_sequence, i as int, ioa, ok);
            }
            i = i + 1;
        }
        u.info_obj = buf;
        Ok(u)
    }

    /// Build `M_DP_NA_1`: double-point information without time tag.
    pub fn double(
        params: Params,
        is_sequence: bool,
        coa: CauseOfTransmission,
        ca: CommonAddr,
        infos: &[DoublePointInfo],
    ) -> (r: Result<Asdu>)
        ensures
            !untagged_cause_ok(coa.cause.0) ==> r == Err::<Asdu, Error>(Error::CmdCause),
            untagged_cause_ok(coa.cause.0) ==> built_outcome(
                r,
                params,
                TypeId(3),
                is_sequence,
                coa,
                ca,
                infos@.len() as int,
                double_ioas(infos@),
                true,
                |b: Seq<u8>| double_built(params, 3, is_sequence, infos@, b),
            ),
    {
        check_untagged_cause(coa)?;
        Self::double_with_type(params, TypeId(3), is_sequence, coa, ca, infos)
    }

    /// Build `M_DP_TA_1`: double-point information with a CP24Time2a time tag.
    pub fn double_cp24time2a(
        params: Params,
        coa: CauseOfTransmission,
        ca: CommonAddr,
        infos: &[DoublePointInfo],
    ) -> (r: Result<Asdu>)
        ensures
            !tagged_cause_ok(coa.cause.0) ==> r == Err::<Asdu, Error>(Error::CmdCause),
            tagged_cause_ok(coa.cause.0) ==> built_outcome(
                r,
                params,
                TypeId(4),
                false,
                coa,
                ca,
                infos@.len() as int,
                double_ioas(infos@),
                true,
                |b: Seq<u8>| double_built(params, 4, false, infos@, b),
            ),
    {
        check_tagged_cause(coa)?;
        Self::double_with_type(params, TypeId(4), false, coa, ca, infos)
    }

    /// Build `M_DP_TB_1`: double-point information with a CP56Time2a time tag.
    pub fn double_cp56time2a(
        params: Params,
        coa: CauseOfTransmission,
        ca: CommonAddr,
        infos: &[DoublePointInfo],
    ) -> (r: Result<Asdu>)
        ensures
            !tagged_cause_ok(coa.cause.0) ==> r == Err::<Asdu, Error>(Error::CmdCause),
            tagged_cause_ok(coa.cause.0) ==> built_outcome(
                r,
                params,
                TypeId(31),
                false,
                coa,
                ca,
                infos@.len() as int,
                double_ioas(infos@),
                true,
                |b: Seq<u8>| double_built(params, 31, false, infos@, b),
            ),
    {
        check_tagged_cause(coa)?;
        Self::double_with_type(params, TypeId(31), false, coa, ca, infos)
    }

    /// Decode `M_DP_NA_1`, `M_DP_TA_1`, `M_DP_TB_1`.
    pub fn get_double_point(&self) -> (r: Result<Vec<DoublePointInfo>>)
        ensures
            read_outcome(
                r,
                read_error(
                    self.params,
                    self.identifier.variable,
                    self.info_obj@.len() as int,
                    double_tag_len(self.identifier.type_id.0) >= 0,
                    1,
                    double_size(self.identifier.type_id.0),
                ),
                |out: Seq<DoublePointInfo>| double_read(self.params, self.identifier, self.info_obj@, out),
            ),
    {
        let t = self.identifier.type_id.0;
        let tag = double_tag(t);
        let family = tag != 8;
        let size: usize = if tag != 8 {
            double_fixed(t) + tag
        } else {
            1
        };
        let b = self.info_obj.as_slice();
        let pos = object_positions(&self.params, self.identifier.variable, b, family, 1, size)?;
        let zone = self.params.info_obj_time_zone;
        let ghost w = self.params.info_obj_addr_size;
        let ghost seq = self.identifier.variable.is_sequence;
        let mut out: Vec<DoublePointInfo> = Vec::new();
        let mut j: usize = 0;
        while j < pos.len()
            invariant
                b@ == self.info_obj@,
                zone == self.params.info_obj_time_zone,
                pos@.len() == self.identifier.variable.number,
                pos@.len() > 0 ==> family,
                family ==> double_tag_len(t) >= 0,
                double_tag_len(t) >= 0 ==> tag == double_tag_len(t),
                size == double_size(t),
                t == self.identifier.type_id.0,
                forall|i: int|
                    0 <= i < pos@.len() ==> (#[trigger] pos@[i]).0 == obj_ioa(w, size as int, seq, b@, i)
                        && pos@[i].1 == crate::asdu::objects::elem_pos(w as int, size as int, seq, i) && pos@[i].1
                        + size <= b@.len(),
                w == self.params.info_obj_addr_size,
                seq == self.identifier.variable.is_sequence,
                j <= pos@.len(),
                out@.len() == j,
                forall|k: int|
                    0 <= k < j ==> double_decoded(
                        elem_of(w as int, double_size(t), seq, b@, k),
                        obj_ioa(w, double_size(t), seq, b@, k),
                        #[trigger] out@[k],
                        t,
                        zone,
                    ),
            decreases pos@.len() - j,
        {
            let (ioa, at) = pos[j];
            let info = read_double(b, at, ioa, t, tag, zone);
            out.push(info);
            j = j + 1;
        }
        Ok(out)
    }
}

/// A double-point payload reads back the objects it was built from: the address of
/// each (consecutive ones in a sequence), its state, the high nibble of its quality descriptor, and its time as
/// [`time_read_back`] says.
pub proof fn double_round_trip(p: Params, id: Identifier, infos: Seq<DoublePointInfo>, payload: Seq<u8>, out: Seq<DoublePointInfo>)
    requires
        p.spec_valid(),
        double_tag_len(id.type_id.0) >= 0,
        0 < infos.len() < 128,
        id.variable.number == infos.len(),
        forall|i: int|
            0 <= i < infos.len() && #[trigger] spec_writes_addr(id.variable.is_sequence, i) ==> addr_fits(
                p.info_obj_addr_size,
                infos[i].ioa,
            ),
        id.variable.is_sequence ==> consecutive(double_ioas(infos), infos.len() as int),
        double_built(p, id.type_id.0, id.variable.is_sequence, infos, payload),
        double_read(p, id, payload, out),
    ensures
        read_error(p, id.variable, payload.len() as int, true, 1, double_size(id.type_id.0)) is None,
        forall|i: int|
            0 <= i < infos.len() ==> (#[trigger] out[i]).ioa == infos[i].ioa && out[i].value == infos[i].value && out[i].qds == QualityDescriptor(high_nibble(infos[i].qds.0)) && time_read_back(
                infos[i].time,
                out[i].time,
                double_tag_len(id.type_id.0),
                p.info_obj_time_zone,
            ),
{
    let t = id.type_id.0;
    let w = p.info_obj_addr_size;
    let seq = id.variable.is_sequence;
    let n = infos.len() as int;
    let size = double_size(t);
    let zone = p.info_obj_time_zone;
    objects_read_back(payload, w, size, seq, n, double_ioas(infos), double_elems(infos, t, zone));
    assert forall|i: int| 0 <= i < n implies (#[trigger] out[i]).ioa == infos[i].ioa && out[i].value == infos[i].value && out[i].qds == QualityDescriptor(high_nibble(infos[i].qds.0)) && time_read_back(
                infos[i].time,
                out[i].time,
                double_tag_len(t),
                p.info_obj_time_zone,
            ) by {
        let e = elem_of(w as int, size, seq, payload, i);
        assert(double_elems(infos, t, zone)(i, e));
        assert(obj_ioa(w, size, seq, payload, i) == double_ioas(infos)(i));
        let fx = e.subrange(0, double_fixed_len(t));
        assert(fx == double_fixed_octets(infos[i], t));
        assert(forall|j: int| 0 <= j < double_fixed_len(t) ==> #[trigger] e[j] == fx[j]);
        low_bits_under_quality(infos[i].value.spec_value(), infos[i].qds.0, 16);
        assert(e[0] == fx[0]);
        assert(e[0] % 4 == infos[i].value.spec_value());
        assert(DoublePoint::spec_parse(e[0]) == infos[i].value);
        tag_read_back(e.subrange(double_fixed_len(t), double_size(t)), infos[i].time, out[i].time, double_tag_len(t), zone);
    }
}


/// The time tag length of a step position type, or -1 for another type.
pub open spec fn step_tag_len(t: u8) -> int {
    if t == 5 {
        0
    } else if t == 6 {
        3
    } else if t == 32 {
        7
    } else {
        -1
    }
}

/// The octets of a step position element set before its time tag.
pub open spec fn step_fixed_len(t: u8) -> int {
    2
}

/// The element set size of a step position type.
pub open spec fn step_size(t: u8) -> int {
    if step_tag_len(t) >= 0 {
        step_fixed_len(t) + step_tag_len(t)
    } else {
        2
    }
}

/// The time tag length of a step position type, 8 for another type.
fn step_tag(t: u8) -> (n: usize)
    ensures
        step_tag_len(t) >= 0 ==> n == step_tag_len(t),
        step_tag_len(t) < 0 ==> n == 8,
{
    if t == 5 {
        0
    } else if t == 6 {
        3
    } else if t == 32 {
        7
    } else {
        8
    }
}

/// The octets of a step position element set before its time tag.
fn step_fixed(t: u8) -> (n: usize)
    ensures
        n == step_fixed_len(t),
{
    2
}

/// The octets of a step position element set before its time tag, as written.
pub open spec fn step_fixed_octets(info: StepPositionInfo, t: u8) -> Seq<u8> {
    seq![info.value.spec_value(), info.qds.0]
}

/// Write the octets of a step position element set before its time tag.
fn put_step_fixed(buf: &mut Vec<u8>, v: StepPositionInfo, t: u8)
    ensures
        final(buf)@ == old(buf)@ + step_fixed_octets(v, t),
{
    put_u8(buf, v.value.value());
    put_u8(buf, v.qds.0);
    assert(buf@ =~= old(buf)@ + step_fixed_octets(v, t));
}

/// The element set of a step position object as a builder writes it.
pub open spec fn step_elem_ok(e: Seq<u8>, info: StepPositionInfo, t: u8, zone: TimeZone) -> bool {
    e.len() == step_size(t) && e.subrange(0, step_fixed_len(t)) == step_fixed_octets(info, t) && tag_ok(e.subrange(step_fixed_len(t), e.len() as int), info.time, step_tag_len(t), zone)
}

/// A step position object as a getter reads it from its element set.
pub open spec fn step_decoded(e: Seq<u8>, ioa: u32, info: StepPositionInfo, t: u8, zone: TimeZone) -> bool {
    &&& info.ioa == ioa
    &&& info.value == StepPosition::spec_parse(e[0]) && info.qds == QualityDescriptor(e[1])
    &&& tag_decoded(e.subrange(step_fixed_len(t), step_size(t)), info.time, step_tag_len(t), zone)
}

/// Read the step position object at `at`.
fn read_step(b: &[u8], at: usize, ioa: u32, t: u8, tag: usize, zone: TimeZone) -> (info: StepPositionInfo)
    requires
        step_tag_len(t) >= 0,
        tag == step_tag_len(t),
        at + step_size(t) <= b.len(),
    ensures
        step_decoded(b@.subrange(at as int, at + step_size(t)), ioa, info, t, zone),
{
    let fixed = step_fixed(t);
    let ghost e = b@.subrange(at as int, at + step_size(t));
    let x = b[at];
    let q = b[at + 1];
    proof {
        assert(e[0] == x && e[1] == q);
    }
    let time = read_tag(b, at + fixed, tag, zone);
    proof {
        assert(e.subrange(step_fixed_len(t), step_size(t)) =~= b@.subrange(at + fixed, at + fixed + tag));
    }
    StepPositionInfo { ioa, value: StepPosition::parse(x), qds: QualityDescriptor(q), time }
}

/// The addresses of step position objects.
pub open spec fn step_ioas(infos: Seq<StepPositionInfo>) -> spec_fn(int) -> u32 {
    |i: int| infos[i].ioa
}

/// The element sets of step position objects of type `t`.
pub open spec fn step_elems(infos: Seq<StepPositionInfo>, t: u8, zone: TimeZone) -> spec_fn(int, Seq<u8>) -> bool {
    |i: int, e: Seq<u8>| step_elem_ok(e, infos[i], t, zone)
}

/// The payload a step position builder writes for `infos`.
pub open spec fn step_built(p: Params, t: u8, seq: bool, infos: Seq<StepPositionInfo>, payload: Seq<u8>) -> bool {
    objects_ok(
        payload,
        p.info_obj_addr_size,
        step_size(t),
        seq,
        infos.len() as int,
        step_ioas(infos),
        step_elems(infos, t, p.info_obj_time_zone),
    )
}

/// What a step position getter reads from a payload.
pub open spec fn step_read(p: Params, id: Identifier, payload: Seq<u8>, out: Seq<StepPositionInfo>) -> bool {
    let t = id.type_id.0;
    let w = p.info_obj_addr_size;
    let seq = id.variable.is_sequence;
    &&& out.len() == id.variable.number
    &&& forall|i: int|
        0 <= i < out.len() ==> step_decoded(
            elem_of(w as int, step_size(t), seq, payload, i),
            obj_ioa(w, step_size(t), seq, payload, i),
            #[trigger] out[i],
            t,
            p.info_obj_time_zone,
        )
}

impl Asdu {
    /// Build `M_ST_NA_1`, `M_ST_TA_1`, `M_ST_TB_1`: step position information.
    ///
    /// See companion standard 101, subclasses 7.3.1.5, 7.3.1.6 and 7.3.1.24.
    pub fn step_with_type(
        params: Params,
        type_id: TypeId,
        is_sequence: bool,
        coa: CauseOfTransmission,
        ca: CommonAddr,
        infos: &[StepPositionInfo],
    ) -> (r: Result<Asdu>)
        ensures
            built_outcome(
                r,
                params,
                type_id,
                is_sequence,
                coa,
                ca,
                infos@.len() as int,
                step_ioas(infos@),
                step_tag_len(type_id.0) >= 0,
                |b: Seq<u8>| step_built(params, type_id.0, is_sequence, infos@, b),
            ),
    {
        let mut u = start(params, type_id, is_sequence, coa, ca, infos.len())?;
        let w = params.info_obj_addr_size;
        let zone = params.info_obj_time_zone;
        let t = type_id.0;
        let tag = step_tag(t);
        let ghost size = step_size(t);
        let ghost ioa = step_ioas(infos@);
        let ghost ok = step_elems(infos@, t, zone);
        let mut buf: Vec<u8> = Vec::new();
        proof {
            objects_empty(w, size, is_sequence, ioa, ok);
        }
        let mut i: usize = 0;
        while i < infos.len()
            invariant
                1 <= w <= 3,
                w == params.info_obj_addr_size,
                zone == params.info_obj_time_zone,
                t == type_id.0,
                0 < infos@.len() < 128,
                i <= infos@.len(),
                step_tag_len(t) >= 0 ==> tag == step_tag_len(t),
                step_tag_len(t) < 0 ==> tag == 8,
                size == step_size(t),
                ioa == step_ioas(infos@),
                ok == step_elems(infos@, t, zone),
                objects_ok(buf@, w, size, is_sequence, i as int, ioa, ok),
                forall|k: int| 0 <= k < i && #[trigger] spec_writes_addr(is_sequence, k) ==> addr_fits(w, ioa(k)),
                i > 0 ==> addr_fits(w, ioa(0)),
                u.params == params,
                u.identifier == built_identifier(type_id, is_sequence, coa, ca, infos@.len() as int),
                crate::asdu::codec::check_valid_error(params, type_id, is_sequence, infos@.len() as int) is None,
                i > 0 ==> tag != 8,
            decreases infos@.len() - i,
        {
            let v = infos[i];
            let ghost b0 = buf@;
            match put_object_addr(&mut buf, w, is_sequence, i, v.ioa) {
                Ok(()) => {},
                Err(e) => {
                    assert(spec_writes_addr(is_sequence, i as int) && !addr_fits(w, ioa(i as int)));
                    return Err(e);
                },
            }
            let ghost b1 = buf@;
            if tag == 8 {
                assert(spec_writes_addr(is_sequence, 0) && addr_fits(w, ioa(0)));
                return Err(Error::TypeIdNotMatch);
            }
            put_step_fixed(&mut buf, v, t);
            let ghost b15 = buf@;
            put_tag(&mut buf, v.time, tag, zone);
            proof {
                assert(addr_octets(w, ioa(i as int)).len() == w);
                assert(buf@.subrange(0, b15.len() as int) == b15);
                assert forall|j: int| 0 <= j < b1.len() implies buf@[j] == b1[j] by {
                    assert(buf@.subrange(0, b15.len() as int)[j] == buf@[j]);
                }
                assert(buf@.subrange(0, b1.len() as int) =~= b1);
                let e = buf@.subrange(b1.len() as int, buf@.len() as int);
                assert forall|j: int| 0 <= j < step_fixed_len(t) implies e[j] == #[trigger] b15[b1.len() + j] by {
                    assert(buf@.subrange(0, b15.len() as int)[b1.len() + j] == buf@[b1.len() + j]);
                }
                assert(b15.subrange(b1.len() as int, b15.len() as int) =~= step_fixed_octets(v, t));
                assert(e.subrange(step_fixed_len(t), e.len() as int) =~= buf@.subrange(b15.len() as int, buf@.len() as int));
                assert(e.subrange(0, step_fixed_len(t)) =~= step_fixed_octets(v, t));
                assert(step_elem_ok(e, infos@[i as int], t, zone));
                objects_extend(b0, b1, buf@, w, size, is_sequence, i as int, ioa, ok);
            }
            i = i + 1;
        }
        u.info_obj = buf;
        Ok(u)
    }

    /// Build `M_ST_NA_1`: step position information without time tag.
    pub fn step(
        params: Params,
        is_sequence: bool,
        coa: CauseOfTransmission,
        ca: CommonAddr,
        infos: &[StepPositionInfo],
    ) -> (r: Result<Asdu>)
        ensures
            !untagged_cause_ok(coa.cause.0) ==> r == Err::<Asdu, Error>(Error::CmdCause),
            untagged_cause_ok(coa.cause.0) ==> built_outcome(
                r,
                params,
                TypeId(5),
                is_sequence,
                coa,
                ca,
                infos@.len() as int,
                step_ioas(infos@),
                true,
                |b: Seq<u8>| step_built(params, 5, is_sequence, infos@, b),
            ),
    {
        check_untagged_cause(coa)?;
        Self::step_with_type(params, TypeId(5), is_sequence, coa, ca, infos)
    }

    /// Build `M_ST_TA_1`: step position information with a CP24Time2a time tag.
    pub fn step_cp24time2a(
        params: Params,
        coa: CauseOfTransmission,
        ca: CommonAddr,
        infos: &[StepPositionInfo],
    ) -> (r: Result<Asdu>)
        ensures
            !tagged_cause_ok(coa.cause.0) ==> r == Err::<Asdu, Error>(Error::CmdCause),
            tagged_cause_ok(coa.cause.0) ==> built_outcome(
                r,
                params,
                TypeId(6),
                false,
                coa,
                ca,
                infos@.len() as int,
                step_ioas(infos@),
                true,
                |b: Seq<u8>| step_built(params, 6, false, infos@, b),
            ),
    {
        check_tagged_cause(coa)?;
        Self::step_with_type(params, TypeId(6), false, coa, ca, infos)
    }

    /// Build `M_ST_TB_1`: step position information with a CP56Time2a time tag.
    pub fn step_cp56time2a(
        params: Params,
        coa: CauseOfTransmission,
        ca: CommonAddr,
        infos: &[StepPositionInfo],
    ) -> (r: Result<Asdu>)
        ensures
            !tagged_cause_ok(coa.cause.0) ==> r == Err::<Asdu, Error>(Error::CmdCause),
            tagged_cause_ok(coa.cause.0) ==> built_outcome(
                r,
                params,
                TypeId(32),
                false,
                coa,
                ca,
                infos@.len() as int,
                step_ioas(infos@),
                true,
                |b: Seq<u8>| step_built(params, 32, false, infos@, b),
            ),
    {
        check_tagged_cause(coa)?;
        Self::step_with_type(params, TypeId(32), false, coa, ca, infos)
    }

    /// Decode `M_ST_NA_1`, `M_ST_TA_1`, `M_ST_TB_1`.
    pub fn get_step_position(&self) -> (r: Result<Vec<StepPositionInfo>>)
        ensures
            read_outcome(
                r,
                read_error(
                    self.params,
                    self.identifier.variable,
                    self.info_obj@.len() as int,
                    step_tag_len(self.identifier.type_id.0) >= 0,
                    2,
                    step_size(self.identifier.type_id.0),
                ),
                |out: Seq<StepPositionInfo>| step_read(self.params, self.identifier, self.info_obj@, out),
            ),
    {
        let t = self.identifier.type_id.0;
        let tag = step_tag(t);
        let family = tag != 8;
        let size: usize = if tag != 8 {
            step_fixed(t) + tag
        } else {
            2
        };
        let b = self.info_obj.as_slice();
        let pos = object_positions(&self.params, self.identifier.variable, b, family, 2, size)?;
        let zone = self.params.info_obj_time_zone;
        let ghost w = self.params.info_obj_addr_size;
        let ghost seq = self.identifier.variable.is_sequence;
        let mut out: Vec<StepPositionInfo> = Vec::new();
        let mut j: usize = 0;
        while j < pos.len()
            invariant
                b@ == self.info_obj@,
                zone == self.params.info_obj_time_zone,
                pos@.len() == self.identifier.variable.number,
                pos@.len() > 0 ==> family,
                family ==> step_tag_len(t) >= 0,
                step_tag_len(t) >= 0 ==> tag == step_tag_len(t),
                size == step_size(t),
                t == self.identifier.type_id.0,
                forall|i: int|
                    0 <= i < pos@.len() ==> (#[trigger] pos@[i]).0 == obj_ioa(w, size as int, seq, b@, i)
                        && pos@[i].1 == crate::asdu::objects::elem_pos(w as int, size as int, seq, i) && pos@[i].1
                        + size <= b@.len(),
                w == self.params.info_obj_addr_size,
                seq == self.identifier.variable.is_sequence,
                j <= pos@.len(),
                out@.len() == j,
                forall|k: int|
                    0 <= k < j ==> step_decoded(
                        elem_of(w as int, step_size(t), seq, b@, k),
                        obj_ioa(w, step_size(t), seq, b@, k),
                        #[trigger] out@[k],
                        t,
                        zone,
                    ),
            decreases pos@.len() - j,
        {
            let (ioa, at) = pos[j];
            let info = read_step(b, at, ioa, t, tag, zone);
            out.push(info);
            j = j + 1;
        }
        Ok(out)
    }
}

/// A step position payload reads back the objects it was built from: the address of
/// each (consecutive ones in a sequence), for a position in `-64..=63` its position and transient flag, its
/// quality descriptor, and its time as [`time_read_back`] says.
pub proof fn step_round_trip(p: Params, id: Identifier, infos: Seq<StepPositionInfo>, payload: Seq<u8>, out: Seq<StepPositionInfo>)
    requires
        p.spec_valid(),
        step_tag_len(id.type_id.0) >= 0,
        0 < infos.len() < 128,
        id.variable.number == infos.len(),
        forall|i: int|
            0 <= i < infos.len() && #[trigger] spec_writes_addr(id.variable.is_sequence, i) ==> addr_fits(
                p.info_obj_addr_size,
                infos[i].ioa,
            ),
        id.variable.is_sequence ==> consecutive(step_ioas(infos), infos.len() as int),
        forall|i: int| 0 <= i < infos.len() ==> -64 <= (#[trigger] infos[i]).value.val <= 63,
        step_built(p, id.type_id.0, id.variable.is_sequence, infos, payload),
        step_read(p, id, payload, out),
    ensures
        read_error(p, id.variable, payload.len() as int, true, 2, step_size(id.type_id.0)) is None,
        forall|i: int|
            0 <= i < infos.len() ==> (#[trigger] out[i]).ioa == infos[i].ioa && out[i].value == infos[i].value && out[i].qds == infos[i].qds && time_read_back(
                infos[i].time,
                out[i].time,
                step_tag_len(id.type_id.0),
                p.info_obj_time_zone,
            ),
{
    let t = id.type_id.0;
    let w = p.info_obj_addr_size;
    let seq = id.variable.is_sequence;
    let n = infos.len() as int;
    let size = step_size(t);
    let zone = p.info_obj_time_zone;
    objects_read_back(payload, w, size, seq, n, step_ioas(infos), step_elems(infos, t, zone));
    assert forall|i: int| 0 <= i < n implies (#[trigger] out[i]).ioa == infos[i].ioa && out[i].value == infos[i].value && out[i].qds == infos[i].qds && time_read_back(
                infos[i].time,
                out[i].time,
                step_tag_len(t),
                p.info_obj_time_zone,
            ) by {
        let e = elem_of(w as int, size, seq, payload, i);
        assert(step_elems(infos, t, zone)(i, e));
        assert(obj_ioa(w, size, seq, payload, i) == step_ioas(infos)(i));
        let fx = e.subrange(0, step_fixed_len(t));
        assert(fx == step_fixed_octets(infos[i], t));
        assert(forall|j: int| 0 <= j < step_fixed_len(t) ==> #[trigger] e[j] == fx[j]);
        crate::asdu::info::step_position_round_trip(infos[i].value, 0);
        tag_read_back(e.subrange(step_fixed_len(t), step_size(t)), infos[i].time, out[i].time, step_tag_len(t), zone);
    }
}


/// The time tag length of a 32 bit string type, or -1 for another type.
pub open spec fn bitstring32_tag_len(t: u8) -> int {
    if t == 7 {
        0
    } else if t == 8 {
        3
    } else if t == 33 {
        7
    } else {
        -1
    }
}

/// The octets of a 32 bit string element set before its time tag.
pub open spec fn bitstring32_fixed_len(t: u8) -> int {
    5
}

/// The element set size of a 32 bit string type.
pub open spec fn bitstring32_size(t: u8) -> int {
    if bitstring32_tag_len(t) >= 0 {
        bitstring32_fixed_len(t) + bitstring32_tag_len(t)
    } else {
        5
    }
}

/// The time tag length of a 32 bit string type, 8 for another type.
fn bitstring32_tag(t: u8) -> (n: usize)
    ensures
        bitstring32_tag_len(t) >= 0 ==> n == bitstring32_tag_len(t),
        bitstring32_tag_len(t) < 0 ==> n == 8,
{
    if t == 7 {
        0
    } else if t == 8 {
        3
    } else if t == 33 {
        7
    } else {
        8
    }
}

/// The octets of a 32 bit string element set before its time tag.
fn bitstring32_fixed(t: u8) -> (n: usize)
    ensures
        n == bitstring32_fixed_len(t),
{
    5
}

/// The octets of a 32 bit string element set before its time tag, as written.
pub open spec fn bitstring32_fixed_octets(info: BitString32Info, t: u8) -> Seq<u8> {
    u32_octets(info.value) + seq![info.qds.0]
}

/// Write the octets of a 32 bit string element set before its time tag.
fn put_bitstring32_fixed(buf: &mut Vec<u8>, v: BitString32Info, t: u8)
    ensures
        final(buf)@ == old(buf)@ + bitstring32_fixed_octets(v, t),
{
    put_u32(buf, v.value);
    put_u8(buf, v.qds.0);
    assert(buf@ =~= old(buf)@ + bitstring32_fixed_octets(v, t));
}

/// The element set of a 32 bit string object as a builder writes it.
pub open spec fn bitstring32_elem_ok(e: Seq<u8>, info: BitString32Info, t: u8, zone: TimeZone) -> bool {
    e.len() == bitstring32_size(t) && e.subrange(0, bitstring32_fixed_len(t)) == bitstring32_fixed_octets(info, t) && tag_ok(e.subrange(bitstring32_fixed_len(t), e.len() as int), info.time, bitstring32_tag_len(t), zone)
}

/// A 32 bit string object as a getter reads it from its element set.
pub open spec fn bitstring32_decoded(e: Seq<u8>, ioa: u32, info: BitString32Info, t: u8, zone: TimeZone) -> bool {
    &&& info.ioa == ioa
    &&& info.value == u32_at(e, 0) && info.qds == QualityDescriptor(e[4])
    &&& tag_decoded(e.subrange(bitstring32_fixed_len(t), bitstring32_size(t)), info.time, bitstring32_tag_len(t), zone)
}

/// Read the 32 bit string object at `at`.
fn read_bitstring32(b: &[u8], at: usize, ioa: u32, t: u8, tag: usize, zone: TimeZone) -> (info: BitString32Info)
    requires
        bitstring32_tag_len(t) >= 0,
        tag == bitstring32_tag_len(t),
        at + bitstring32_size(t) <= b.len(),
    ensures
        bitstring32_decoded(b@.subrange(at as int, at + bitstring32_size(t)), ioa, info, t, zone),
{
    let fixed = bitstring32_fixed(t);
    let ghost e = b@.subrange(at as int, at + bitstring32_size(t));
    let x = get_u32(b, at);
    let q = b[at + 4];
    proof {
        assert(e[0] == b@[at as int] && e[1] == b@[at + 1] && e[2] == b@[at + 2] && e[3] == b@[at + 3] && e[4] == q);
    }
    let time = read_tag(b, at + fixed, tag, zone);
    proof {
        assert(e.subrange(bitstring32_fixed_len(t), bitstring32_size(t)) =~= b@.subrange(at + fixed, at + fixed + tag));
    }
    BitString32Info { ioa, value: x, qds: QualityDescriptor(q), time }
}

/// The addresses of 32 bit string objects.
pub open spec fn bitstring32_ioas(infos: Seq<BitString32Info>) -> spec_fn(int) -> u32 {
    |i: int| infos[i].ioa
}

/// The element sets of 32 bit string objects of type `t`.
pub open spec fn bitstring32_elems(infos: Seq<BitString32Info>, t: u8, zone: TimeZone) -> spec_fn(int, Seq<u8>) -> bool {
    |i: int, e: Seq<u8>| bitstring32_elem_ok(e, infos[i], t, zone)
}

/// The payload a 32 bit string builder writes for `infos`.
pub open spec fn bitstring32_built(p: Params, t: u8, seq: bool, infos: Seq<BitString32Info>, payload: Seq<u8>) -> bool {
    objects_ok(
        payload,
        p.info_obj_addr_size,
        bitstring32_size(t),
        seq,
        infos.len() as int,
        bitstring32_ioas(infos),
        bitstring32_elems(infos, t, p.info_obj_time_zone),
    )
}

/// What a 32 bit string getter reads from a payload.
pub open spec fn bitstring32_read(p: Params, id: Identifier, payload: Seq<u8>, out: Seq<BitString32Info>) -> bool {
    let t = id.type_id.0;
    let w = p.info_obj_addr_size;
    let seq = id.variable.is_sequence;
    &&& out.len() == id.variable.number
    &&& forall|i: int|
        0 <= i < out.len() ==> bitstring32_decoded(
            elem_of(w as int, bitstring32_size(t), seq, payload, i),
            obj_ioa(w, bitstring32_size(t), seq, payload, i),
            #[trigger] out[i],
            t,
            p.info_obj_time_zone,
        )
}

impl Asdu {
    /// Build `M_BO_NA_1`, `M_BO_TA_1`, `M_BO_TB_1`: bit string of 32 bits.
    ///
    /// See companion standard 101, subclasses 7.3.1.7, 7.3.1.8 and 7.3.1.25.
    pub fn bitstring32_with_type(
        params: Params,
        type_id: TypeId,
        is_sequence: bool,
        coa: CauseOfTransmission,
        ca: CommonAddr,
        infos: &[BitString32Info],
    ) -> (r: Result<Asdu>)
        ensures
            built_outcome(
                r,
                params,
                type_id,
                is_sequence,
                coa,
                ca,
                infos@.len() as int,
                bitstring32_ioas(infos@),
                bitstring32_tag_len(type_id.0) >= 0,
                |b: Seq<u8>| bitstring32_built(params, type_id.0, is_sequence, infos@, b),
            ),
    {
        let mut u = start(params, type_id, is_sequence, coa, ca, infos.len())?;
        let w = params.info_obj_addr_size;
        let zone = params.info_obj_time_zone;
        let t = type_id.0;
        let tag = bitstring32_tag(t);
        let ghost size = bitstring32_size(t);
        let ghost ioa = bitstring32_ioas(infos@);
        let ghost ok = bitstring32_elems(infos@, t, zone);
        let mut buf: Vec<u8> = Vec::new();
        proof {
            objects_empty(w, size, is_sequence, ioa, ok);
        }
        let mut i: usize = 0;
        while i < infos.len()
            invariant
                1 <= w <= 3,
                w == params.info_obj_addr_size,
                zone == params.info_obj_time_zone,
                t == type_id.0,
                0 < infos@.len() < 128,
                i <= infos@.len(),
                bitstring32_tag_len(t) >= 0 ==> tag == bitstring32_tag_len(t),
                bitstring32_tag_len(t) < 0 ==> tag == 8,
                size == bitstring32_size(t),
                ioa == bitstring32_ioas(infos@),
                ok == bitstring32_elems(infos@, t, zone),
                objects_ok(buf@, w, size, is_sequence, i as int, ioa, ok),
                forall|k: int| 0 <= k < i && #[trigger] spec_writes_addr(is_sequence, k) ==> addr_fits(w, ioa(k)),
                i > 0 ==> addr_fits(w, ioa(0)),
                u.params == params,
                u.identifier == built_identifier(type_id, is_sequence, coa, ca, infos@.len() as int),
                crate::asdu::codec::check_valid_error(params, type_id, is_sequence, infos@.len() as int) is None,
                i > 0 ==> tag != 8,
            decreases infos@.len() - i,
        {
            let v = infos[i];
            let ghost b0 = buf@;
            match put_object_addr(&mut buf, w, is_sequence, i, v.ioa) {
                Ok(()) => {},
                Err(e) => {
                    assert(spec_writes_addr(is_sequence, i as int) && !addr_fits(w, ioa(i as int)));
                    return Err(e);
                },
            }
            let ghost b1 = buf@;
            if tag == 8 {
                assert(spec_writes_addr(is_sequence, 0) && addr_fits(w, ioa(0)));
                return Err(Error::TypeIdNotMatch);
            }
            put_bitstring32_fixed(&mut buf, v, t);
            let ghost b15 = buf@;
            put_tag(&mut buf, v.time, tag, zone);
            proof {
                assert(addr_octets(w, ioa(i as int)).len() == w);
                assert(buf@.subrange(0, b15.len() as int) == b15);
                assert forall|j: int| 0 <= j < b1.len() implies buf@[j] == b1[j] by {
                    assert(buf@.subrange(0, b15.len() as int)[j] == buf@[j]);
                }
                assert(buf@.subrange(0, b1.len() as int) =~= b1);
                let e = buf@.subrange(b1.len() as int, buf@.len() as int);
                assert forall|j: int| 0 <= j < bitstring32_fixed_len(t) implies e[j] == #[trigger] b15[b1.len() + j] by {
                    assert(buf@.subrange(0, b15.len() as int)[b1.len() + j] == buf@[b1.len() + j]);
                }
                assert(b15.subrange(b1.len() as int, b15.len() as int) =~= bitstring32_fixed_octets(v, t));
                assert(e.subrange(bitstring32_fixed_len(t), e.len() as int) =~= buf@.subrange(b15.len() as int, buf@.len() as int));
                assert(e.subrange(0, bitstring32_fixed_len(t)) =~= bitstring32_fixed_octets(v, t));
                assert(bitstring32_elem_ok(e, infos@[i as int], t, zone));
                objects_extend(b0, b1, buf@, w, size, is_sequence, i as int, ioa, ok);
            }
            i = i + 1;
        }
        u.info_obj = buf;
        Ok(u)
    }

    /// Build `M_BO_NA_1`: bit string of 32 bits without time tag.
    ///
    /// Permitted causes: `Background`, `Spontaneous`, `Request` and the
    /// interrogation causes.
    pub fn bitstring32(
        params: Params,
        is_sequence: bool,
        coa: CauseOfTransmission,
        ca: CommonAddr,
        infos: &[BitString32Info],
    ) -> (r: Result<Asdu>)
        ensures
            !bitstring_cause_ok(coa.cause.0) ==> r == Err::<Asdu, Error>(Error::CmdCause),
            bitstring_cause_ok(coa.cause.0) ==> built_outcome(
                r,
                params,
                TypeId(7),
                is_sequence,
                coa,
                ca,
                infos@.len() as int,
                bitstring32_ioas(infos@),
                true,
                |b: Seq<u8>| bitstring32_built(params, 7, is_sequence, infos@, b),
            ),
    {
        check_bitstring_cause(coa)?;
        Self::bitstring32_with_type(params, TypeId(7), is_sequence, coa, ca, infos)
    }

    /// Build `M_BO_TA_1`: bit string of 32 bits with a CP24Time2a time tag.
    pub fn bitstring32_cp24time2a(
        params: Params,
        coa: CauseOfTransmission,
        ca: CommonAddr,
        infos: &[BitString32Info],
    ) -> (r: Result<Asdu>)
        ensures
            !spontaneous_or_request(coa.cause.0) ==> r == Err::<Asdu, Error>(Error::CmdCause),
            spontaneous_or_request(coa.cause.0) ==> built_outcome(
                r,
                params,
                TypeId(8),
                false,
                coa,
                ca,
                infos@.len() as int,
                bitstring32_ioas(infos@),
                true,
                |b: Seq<u8>| bitstring32_built(params, 8, false, infos@, b),
            ),
    {
        check_spontaneous_or_request(coa)?;
        Self::bitstring32_with_type(params, TypeId(8), false, coa, ca, infos)
    }

    /// Build `M_BO_TB_1`: bit string of 32 bits with a CP56Time2a time tag.
    pub fn bitstring32_cp56time2a(
        params: Params,
        coa: CauseOfTransmission,
        ca: CommonAddr,
        infos: &[BitString32Info],
    ) -> (r: Result<Asdu>)
        ensures
            !spontaneous_or_request(coa.cause.0) ==> r == Err::<Asdu, Error>(Error::CmdCause),
            spontaneous_or_request(coa.cause.0) ==> built_outcome(
                r,
                params,
                TypeId(33),
                false,
                coa,
                ca,
                infos@.len() as int,
                bitstring32_ioas(infos@),
                true,
                |b: Seq<u8>| bitstring32_built(params, 33, false, infos@, b),
            ),
    {
        check_spontaneous_or_request(coa)?;
        Self::bitstring32_with_type(params, TypeId(33), false, coa, ca, infos)
    }

    /// Decode `M_BO_NA_1`, `M_BO_TA_1`, `M_BO_TB_1`.
    pub fn get_bitstring32(&self) -> (r: Result<Vec<BitString32Info>>)
        ensures
            read_outcome(
                r,
                read_error(
                    self.params,
                    self.identifier.variable,
                    self.info_obj@.len() as int,
                    bitstring32_tag_len(self.identifier.type_id.0) >= 0,
                    5,
                    bitstring32_size(self.identifier.type_id.0),
                ),
                |out: Seq<BitString32Info>| bitstring32_read(self.params, self.identifier, self.info_obj@, out),
            ),
    {
        let t = self.identifier.type_id.0;
        let tag = bitstring32_tag(t);
        let family = tag != 8;
        let size: usize = if tag != 8 {
            bitstring32_fixed(t) + tag
        } else {
            5
        };
        let b = self.info_obj.as_slice();
        let pos = object_positions(&self.params, self.identifier.variable, b, family, 5, size)?;
        let zone = self.params.info_obj_time_zone;
        let ghost w = self.params.info_obj_addr_size;
        let ghost seq = self.identifier.variable.is_sequence;
        let mut out: Vec<BitString32Info> = Vec::new();
        let mut j: usize = 0;
        while j < pos.len()
            invariant
                b@ == self.info_obj@,
                zone == self.params.info_obj_time_zone,
                pos@.len() == self.identifier.variable.number,
                pos@.len() > 0 ==> family,
                family ==> bitstring32_tag_len(t) >= 0,
                bitstring32_tag_len(t) >= 0 ==> tag == bitstring32_tag_len(t),
                size == bitstring32_size(t),
                t == self.identifier.type_id.0,
                forall|i: int|
                    0 <= i < pos@.len() ==> (#[trigger] pos@[i]).0 == obj_ioa(w, size as int, seq, b@, i)
                        && pos@[i].1 == crate::asdu::objects::elem_pos(w as int, size as int, seq, i) && pos@[i].1
                        + size <= b@.len(),
                w == self.params.info_obj_addr_size,
                seq == self.identifier.variable.is_sequence,
                j <= pos@.len(),
                out@.len() == j,
                forall|k: int|
                    0 <= k < j ==> bitstring32_decoded(
                        elem_of(w as int, bitstring32_size(t), seq, b@, k),
                        obj_ioa(w, bitstring32_size(t), seq, b@, k),
                        #[trigger] out@[k],
                        t,
                        zone,
                    ),
            decreases pos@.len() - j,
        {
            let (ioa, at) = pos[j];
            let info = read_bitstring32(b, at, ioa, t, tag, zone);
            out.push(info);
            j = j + 1;
        }
        Ok(out)
    }
}

/// A 32 bit string payload reads back the objects it was built from: the address of
/// each (consecutive ones in a sequence), its bits, its quality descriptor, and its time as [`time_read_back`]
/// says.
pub proof fn bitstring32_round_trip(p: Params, id: Identifier, infos: Seq<BitString32Info>, payload: Seq<u8>, out: Seq<BitString32Info>)
    requires
        p.spec_valid(),
        bitstring32_tag_len(id.type_id.0) >= 0,
        0 < infos.len() < 128,
        id.variable.number == infos.len(),
        forall|i: int|
            0 <= i < infos.len() && #[trigger] spec_writes_addr(id.variable.is_sequence, i) ==> addr_fits(
                p.info_obj_addr_size,
                infos[i].ioa,
            ),
        id.variable.is_sequence ==> consecutive(bitstring32_ioas(infos), infos.len() as int),
        bitstring32_built(p, id.type_id.0, id.variable.is_sequence, infos, payload),
        bitstring32_read(p, id, payload, out),
    ensures
        read_error(p, id.variable, payload.len() as int, true, 5, bitstring32_size(id.type_id.0)) is None,
        forall|i: int|
            0 <= i < infos.len() ==> (#[trigger] out[i]).ioa == infos[i].ioa && out[i].value == infos[i].value && out[i].qds == infos[i].qds && time_read_back(
                infos[i].time,
                out[i].time,
                bitstring32_tag_len(id.type_id.0),
                p.info_obj_time_zone,
            ),
{
    let t = id.type_id.0;
    let w = p.info_obj_addr_size;
    let seq = id.variable.is_sequence;
    let n = infos.len() as int;
    let size = bitstring32_size(t);
    let zone = p.info_obj_time_zone;
    objects_read_back(payload, w, size, seq, n, bitstring32_ioas(infos), bitstring32_elems(infos, t, zone));
    assert forall|i: int| 0 <= i < n implies (#[trigger] out[i]).ioa == infos[i].ioa && out[i].value == infos[i].value && out[i].qds == infos[i].qds && time_read_back(
                infos[i].time,
                out[i].time,
                bitstring32_tag_len(t),
                p.info_obj_time_zone,
            ) by {
        let e = elem_of(w as int, size, seq, payload, i);
        assert(bitstring32_elems(infos, t, zone)(i, e));
        assert(obj_ioa(w, size, seq, payload, i) == bitstring32_ioas(infos)(i));
        let fx = e.subrange(0, bitstring32_fixed_len(t));
        assert(fx == bitstring32_fixed_octets(infos[i], t));
        assert(forall|j: int| 0 <= j < bitstring32_fixed_len(t) ==> #[trigger] e[j] == fx[j]);
        crate::asdu::codec::u32_round_trip(infos[i].value);
        tag_read_back(e.subrange(bitstring32_fixed_len(t), bitstring32_size(t)), infos[i].time, out[i].time, bitstring32_tag_len(t), zone);
    }
}


/// The time tag length of a normalized measured value type, or -1 for another type.
pub open spec fn normal_tag_len(t: u8) -> int {
    if t == 9 {
        0
    } else if t == 10 {
        3
    } else if t == 34 {
        7
    } else if t == 21 {
        0
    } else {
        -1
    }
}

/// The octets of a normalized measured value element set before its time tag.
pub open spec fn normal_fixed_len(t: u8) -> int {
    if t == 21 {
        2
    } else {
        3
    }
}

/// The element set size of a normalized measured value type.
pub open spec fn normal_size(t: u8) -> int {
    if normal_tag_len(t) >= 0 {
        normal_fixed_len(t) + normal_tag_len(t)
    } else {
        2
    }
}

/// The time tag length of a normalized measured value type, 8 for another type.
fn normal_tag(t: u8) -> (n: usize)
    ensures
        normal_tag_len(t) >= 0 ==> n == normal_tag_len(t),
        normal_tag_len(t) < 0 ==> n == 8,
{
    if t == 9 {
        0
    } else if t == 10 {
        3
    } else if t == 34 {
        7
    } else if t == 21 {
        0
    } else {
        8
    }
}

/// The octets of a normalized measured value element set before its time tag.
fn normal_fixed(t: u8) -> (n: usize)
    ensures
        n == normal_fixed_len(t),
{
    if t == 21 {
        2
    } else {
        3
    }
}

/// The octets of a normalized measured value element set before its time tag, as written.
pub open spec fn normal_fixed_octets(info: MeasuredValueNormalInfo, t: u8) -> Seq<u8> {
    if t == 21 {
        u16_octets(info.value.0 as u16)
    } else {
        u16_octets(info.value.0 as u16) + seq![info.qds.0]
    }
}

/// Write the octets of a normalized measured value element set before its time tag.
fn put_normal_fixed(buf: &mut Vec<u8>, v: MeasuredValueNormalInfo, t: u8)
    ensures
        final(buf)@ == old(buf)@ + normal_fixed_octets(v, t),
{
    put_u16(buf, v.value.0 as u16);
    if t != 21 {
        put_u8(buf, v.qds.0);
    }
    assert(buf@ =~= old(buf)@ + normal_fixed_octets(v, t));
}

/// The element set of a normalized measured value object as a builder writes it.
pub open spec fn normal_elem_ok(e: Seq<u8>, info: MeasuredValueNormalInfo, t: u8, zone: TimeZone) -> bool {
    e.len() == normal_size(t) && e.subrange(0, normal_fixed_len(t)) == normal_fixed_octets(info, t) && tag_ok(e.subrange(normal_fixed_len(t), e.len() as int), info.time, normal_tag_len(t), zone)
}

/// A normalized measured value object as a getter reads it from its element set.
pub open spec fn normal_decoded(e: Seq<u8>, ioa: u32, info: MeasuredValueNormalInfo, t: u8, zone: TimeZone) -> bool {
    &&& info.ioa == ioa
    &&& info.value == Normalize(u16_at(e, 0) as i16) && info.qds == (if t == 21 {
        QualityDescriptor(0)
    } else {
        QualityDescriptor(e[2])
    })
    &&& tag_decoded(e.subrange(normal_fixed_len(t), normal_size(t)), info.time, normal_tag_len(t), zone)
}

/// Read the normalized measured value object at `at`.
fn read_normal(b: &[u8], at: usize, ioa: u32, t: u8, tag: usize, zone: TimeZone) -> (info: MeasuredValueNormalInfo)
    requires
        normal_tag_len(t) >= 0,
        tag == normal_tag_len(t),
        at + normal_size(t) <= b.len(),
    ensures
        normal_decoded(b@.subrange(at as int, at + normal_size(t)), ioa, info, t, zone),
{
    let fixed = normal_fixed(t);
    let ghost e = b@.subrange(at as int, at + normal_size(t));
    let x = get_u16(b, at);
    let q = if t == 21 {
        0
    } else {
        b[at + 2]
    };
    proof {
        assert(e[0] == b@[at as int] && e[1] == b@[at + 1]);
        if t != 21 {
            assert(e[2] == q);
        }
    }
    let time = read_tag(b, at + fixed, tag, zone);
    proof {
        assert(e.subrange(normal_fixed_len(t), normal_size(t)) =~= b@.subrange(at + fixed, at + fixed + tag));
    }
    MeasuredValueNormalInfo { ioa, value: Normalize(x as i16), qds: QualityDescriptor(q), time }
}

/// The addresses of normalized measured value objects.
pub open spec fn normal_ioas(infos: Seq<MeasuredValueNormalInfo>) -> spec_fn(int) -> u32 {
    |i: int| infos[i].ioa
}

/// The element sets of normalized measured value objects of type `t`.
pub open spec fn normal_elems(infos: Seq<MeasuredValueNormalInfo>, t: u8, zone: TimeZone) -> spec_fn(int, Seq<u8>) -> bool {
    |i: int, e: Seq<u8>| normal_elem_ok(e, infos[i], t, zone)
}

/// The payload a normalized measured value builder writes for `infos`.
pub open spec fn normal_built(p: Params, t: u8, seq: bool, infos: Seq<MeasuredValueNormalInfo>, payload: Seq<u8>) -> bool {
    objects_ok(
        payload,
        p.info_obj_addr_size,
        normal_size(t),
        seq,
        infos.len() as int,
        normal_ioas(infos),
        normal_elems(infos, t, p.info_obj_time_zone),
    )
}

/// What a normalized measured value getter reads from a payload.
pub open spec fn normal_read(p: Params, id: Identifier, payload: Seq<u8>, out: Seq<MeasuredValueNormalInfo>) -> bool {
    let t = id.type_id.0;
    let w = p.info_obj_addr_size;
    let seq = id.variable.is_sequence;
    &&& out.len() == id.variable.number
    &&& forall|i: int|
        0 <= i < out.len() ==> normal_decoded(
            elem_of(w as int, normal_size(t), seq, payload, i),
            obj_ioa(w, normal_size(t), seq, payload, i),
            #[trigger] out[i],
            t,
            p.info_obj_time_zone,
        )
}

impl Asdu {
    /// Build `M_ME_NA_1`, `M_ME_TA_1`, `M_ME_TD_1`, `M_ME_ND_1`: a normalized measured value.
    ///
    /// See companion standard 101, subclasses 7.3.1.9, 7.3.1.10, 7.3.1.21 and 7.3.1.26.
    pub fn measured_value_normal_with_type(
        params: Params,
        type_id: TypeId,
        is_sequence: bool,
        coa: CauseOfTransmission,
        ca: CommonAddr,
        infos: &[MeasuredValueNormalInfo],
    ) -> (r: Result<Asdu>)
        ensures
            built_outcome(
                r,
                params,
                type_id,
                is_sequence,
                coa,
                ca,
                infos@.len() as int,
                normal_ioas(infos@),
                normal_tag_len(type_id.0) >= 0,
                |b: Seq<u8>| normal_built(params, type_id.0, is_sequence, infos@, b),
            ),
    {
        let mut u = start(params, type_id, is_sequence, coa, ca, infos.len())?;
        let w = params.info_obj_addr_size;
        let zone = params.info_obj_time_zone;
        let t = type_id.0;
        let tag = normal_tag(t);
        let ghost size = normal_size(t);
        let ghost ioa = normal_ioas(infos@);
        let ghost ok = normal_elems(infos@, t, zone);
        let mut buf: Vec<u8> = Vec::new();
        proof {
            objects_empty(w, size, is_sequence, ioa, ok);
        }
        let mut i: usize = 0;
        while i < infos.len()
            invariant
                1 <= w <= 3,
                w == params.info_obj_addr_size,
                zone == params.info_obj_time_zone,
                t == type_id.0,
                0 < infos@.len() < 128,
                i <= infos@.len(),
                normal_tag_len(t) >= 0 ==> tag == normal_tag_len(t),
                normal_tag_len(t) < 0 ==> tag == 8,
                size == normal_size(t),
                ioa == normal_ioas(infos@),
                ok == normal_elems(infos@, t, zone),
                objects_ok(buf@, w, size, is_sequence, i as int, ioa, ok),
                forall|k: int| 0 <= k < i && #[trigger] spec_writes_addr(is_sequence, k) ==> addr_fits(w, ioa(k)),
                i > 0 ==> addr_fits(w, ioa(0)),
                u.params == params,
                u.identifier == built_identifier(type_id, is_sequence, coa, ca, infos@.len() as int),
                crate::asdu::codec::check_valid_error(params, type_id, is_sequence, infos@.len() as int) is None,
                i > 0 ==> tag != 8,
            decreases infos@.len() - i,
        {
            let v = infos[i];
            let ghost b0 = buf@;
            match put_object_addr(&mut buf, w, is_sequence, i, v.ioa) {
                Ok(()) => {},
                Err(e) => {
                    assert(spec_writes_addr(is_sequence, i as int) && !addr_fits(w, ioa(i as int)));
                    return Err(e);
                },
            }
            let ghost b1 = buf@;
            if tag == 8 {
                assert(spec_writes_addr(is_sequence, 0) && addr_fits(w, ioa(0)));
                return Err(Error::TypeIdNotMatch);
            }
            put_normal_fixed(&mut buf, v, t);
            let ghost b15 = buf@;
            put_tag(&mut buf, v.time, tag, zone);
            proof {
                assert(addr_octets(w, ioa(i as int)).len() == w);
                assert(buf@.subrange(0, b15.len() as int) == b15);
                assert forall|j: int| 0 <= j < b1.len() implies buf@[j] == b1[j] by {
                    assert(buf@.subrange(0, b15.len() as int)[j] == buf@[j]);
                }
                assert(buf@.subrange(0, b1.len() as int) =~= b1);
                let e = buf@.subrange(b1.len() as int, buf@.len() as int);
                assert forall|j: int| 0 <= j < normal_fixed_len(t) implies e[j] == #[trigger] b15[b1.len() + j] by {
                    assert(buf@.subrange(0, b15.len() as int)[b1.len() + j] == buf@[b1.len() + j]);
                }
                assert(b15.subrange(b1.len() as int, b15.len() as int) =~= normal_fixed_octets(v, t));
                assert(e.subrange(normal_fixed_len(t), e.len() as int) =~= buf@.subrange(b15.len() as int, buf@.len() as int));
                assert(e.subrange(0, normal_fixed_len(t)) =~= normal_fixed_octets(v, t));
                assert(normal_elem_ok(e, infos@[i as int], t, zone));
                objects_extend(b0, b1, buf@, w, size, is_sequence, i as int, ioa, ok);
            }
            i = i + 1;
        }
        u.info_obj = buf;
        Ok(u)
    }

    /// Build `M_ME_NA_1`: normalized measured value without time tag.
    pub fn measured_value_normal(
        params: Params,
        is_sequence: bool,
        coa: CauseOfTransmission,
        ca: CommonAddr,
        infos: &[MeasuredValueNormalInfo],
    ) -> (r: Result<Asdu>)
        ensures
            !measured_cause_ok(coa.cause.0) ==> r == Err::<Asdu, Error>(Error::CmdCause),
            measured_cause_ok(coa.cause.0) ==> built_outcome(
                r,
                params,
                TypeId(9),
                is_sequence,
                coa,
                ca,
                infos@.len() as int,
                normal_ioas(infos@),
                true,
                |b: Seq<u8>| normal_built(params, 9, is_sequence, infos@, b),
            ),
    {
        check_measured_cause(coa)?;
        Self::measured_value_normal_with_type(params, TypeId(9), is_sequence, coa, ca, infos)
    }

    /// Build `M_ME_TA_1`: normalized measured value with a CP24Time2a time tag.
    pub fn measured_value_normal_cp24time2a(
        params: Params,
        coa: CauseOfTransmission,
        ca: CommonAddr,
        infos: &[MeasuredValueNormalInfo],
    ) -> (r: Result<Asdu>)
        ensures
            !spontaneous_or_request(coa.cause.0) ==> r == Err::<Asdu, Error>(Error::CmdCause),
            spontaneous_or_request(coa.cause.0) ==> built_outcome(
                r,
                params,
                TypeId(10),
                false,
                coa,
                ca,
                infos@.len() as int,
                normal_ioas(infos@),
                true,
                |b: Seq<u8>| normal_built(params, 10, false, infos@, b),
            ),
    {
        check_spontaneous_or_request(coa)?;
        Self::measured_value_normal_with_type(params, TypeId(10), false, coa, ca, infos)
    }

    /// Build `M_ME_TD_1`: normalized measured value with a CP56Time2a time tag.
    pub fn measured_value_normal_cp56time2a(
        params: Params,
        coa: CauseOfTransmission,
        ca: CommonAddr,
        infos: &[MeasuredValueNormalInfo],
    ) -> (r: Result<Asdu>)
        ensures
            !spontaneous_or_request(coa.cause.0) ==> r == Err::<Asdu, Error>(Error::CmdCause),
            spontaneous_or_request(coa.cause.0) ==> built_outcome(
                r,
                params,
                TypeId(34),
                false,
                coa,
                ca,
                infos@.len() as int,
                normal_ioas(infos@),
                true,
                |b: Seq<u8>| normal_built(params, 34, false, infos@, b),
            ),
    {
        check_spontaneous_or_request(coa)?;
        Self::measured_value_normal_with_type(params, TypeId(34), false, coa, ca, infos)
    }

    /// Build `M_ME_ND_1`: normalized measured value without a quality descriptor.
    pub fn measured_value_normal_no_quality(
        params: Params,
        is_sequence: bool,
        coa: CauseOfTransmission,
        ca: CommonAddr,
        infos: &[MeasuredValueNormalInfo],
    ) -> (r: Result<Asdu>)
        ensures
            !measured_cause_ok(coa.cause.0) ==> r == Err::<Asdu, Error>(Error::CmdCause),
            measured_cause_ok(coa.cause.0) ==> built_outcome(
                r,
                params,
                TypeId(21),
                is_sequence,
                coa,
                ca,
                infos@.len() as int,
                normal_ioas(infos@),
                true,
                |b: Seq<u8>| normal_built(params, 21, is_sequence, infos@, b),
            ),
    {
        check_measured_cause(coa)?;
        Self::measured_value_normal_with_type(params, TypeId(21), is_sequence, coa, ca, infos)
    }

    /// Decode `M_ME_NA_1`, `M_ME_TA_1`, `M_ME_TD_1`, `M_ME_ND_1`.
    pub fn get_measured_value_normal(&self) -> (r: Result<Vec<MeasuredValueNormalInfo>>)
        ensures
            read_outcome(
                r,
                read_error(
                    self.params,
                    self.identifier.variable,
                    self.info_obj@.len() as int,
                    normal_tag_len(self.identifier.type_id.0) >= 0,
                    2,
                    normal_size(self.identifier.type_id.0),
                ),
                |out: Seq<MeasuredValueNormalInfo>| normal_read(self.params, self.identifier, self.info_obj@, out),
            ),
    {
        let t = self.identifier.type_id.0;
        let tag = normal_tag(t);
        let family = tag != 8;
        let size: usize = if tag != 8 {
            normal_fixed(t) + tag
        } else {
            2
        };
        let b = self.info_obj.as_slice();
        let pos = object_positions(&self.params, self.identifier.variable, b, family, 2, size)?;
        let zone = self.params.info_obj_time_zone;
        let ghost w = self.params.info_obj_addr_size;
        let ghost seq = self.identifier.variable.is_sequence;
        let mut out: Vec<MeasuredValueNormalInfo> = Vec::new();
        let mut j: usize = 0;
        while j < pos.len()
            invariant
                b@ == self.info_obj@,
                zone == self.params.info_obj_time_zone,
                pos@.len() == self.identifier.variable.number,
                pos@.len() > 0 ==> family,
                family ==> normal_tag_len(t) >= 0,
                normal_tag_len(t) >= 0 ==> tag == normal_tag_len(t),
                size == normal_size(t),
                t == self.identifier.type_id.0,
                forall|i: int|
                    0 <= i < pos@.len() ==> (#[trigger] pos@[i]).0 == obj_ioa(w, size as int, seq, b@, i)
                        && pos@[i].1 == crate::asdu::objects::elem_pos(w as int, size as int, seq, i) && pos@[i].1
                        + size <= b@.len(),
                w == self.params.info_obj_addr_size,
                seq == self.identifier.variable.is_sequence,
                j <= pos@.len(),
                out@.len() == j,
                forall|k: int|
                    0 <= k < j ==> normal_decoded(
                        elem_of(w as int, normal_size(t), seq, b@, k),
                        obj_ioa(w, normal_size(t), seq, b@, k),
                        #[trigger] out@[k],
                        t,
                        zone,
                    ),
            decreases pos@.len() - j,
        {
            let (ioa, at) = pos[j];
            let info = read_normal(b, at, ioa, t, tag, zone);
            out.push(info);
            j = j + 1;
        }
        Ok(out)
    }
}

/// A normalized measured value payload reads back the objects it was built from: the address of
/// each (consecutive ones in a sequence), its value, its quality descriptor (good for `M_ME_ND_1`, which does not
/// carry one), and its time as [`time_read_back`] says.
pub proof fn normal_round_trip(p: Params, id: Identifier, infos: Seq<MeasuredValueNormalInfo>, payload: Seq<u8>, out: Seq<MeasuredValueNormalInfo>)
    requires
        p.spec_valid(),
        normal_tag_len(id.type_id.0) >= 0,
        0 < infos.len() < 128,
        id.variable.number == infos.len(),
        forall|i: int|
            0 <= i < infos.len() && #[trigger] spec_writes_addr(id.variable.is_sequence, i) ==> addr_fits(
                p.info_obj_addr_size,
                infos[i].ioa,
            ),
        id.variable.is_sequence ==> consecutive(normal_ioas(infos), infos.len() as int),
        normal_built(p, id.type_id.0, id.variable.is_sequence, infos, payload),
        normal_read(p, id, payload, out),
    ensures
        read_error(p, id.variable, payload.len() as int, true, 2, normal_size(id.type_id.0)) is None,
        forall|i: int|
            0 <= i < infos.len() ==> (#[trigger] out[i]).ioa == infos[i].ioa && out[i].value == infos[i].value && out[i].qds == (if id.type_id.0 == 21 { QualityDescriptor(0) } else { infos[i].qds }) && time_read_back(
                infos[i].time,
                out[i].time,
                normal_tag_len(id.type_id.0),
                p.info_obj_time_zone,
            ),
{
    let t = id.type_id.0;
    let w = p.info_obj_addr_size;
    let seq = id.variable.is_sequence;
    let n = infos.len() as int;
    let size = normal_size(t);
    let zone = p.info_obj_time_zone;
    objects_read_back(payload, w, size, seq, n, normal_ioas(infos), normal_elems(infos, t, zone));
    assert forall|i: int| 0 <= i < n implies (#[trigger] out[i]).ioa == infos[i].ioa && out[i].value == infos[i].value && out[i].qds == (if id.type_id.0 == 21 { QualityDescriptor(0) } else { infos[i].qds }) && time_read_back(
                infos[i].time,
                out[i].time,
                normal_tag_len(t),
                p.info_obj_time_zone,
            ) by {
        let e = elem_of(w as int, size, seq, payload, i);
        assert(normal_elems(infos, t, zone)(i, e));
        assert(obj_ioa(w, size, seq, payload, i) == normal_ioas(infos)(i));
        let fx = e.subrange(0, normal_fixed_len(t));
        assert(fx == normal_fixed_octets(infos[i], t));
        assert(forall|j: int| 0 <= j < normal_fixed_len(t) ==> #[trigger] e[j] == fx[j]);
        let x = infos[i].value.0;
        assert(((x as u16) as i16) == x) by (bit_vector);
        tag_read_back(e.subrange(normal_fixed_len(t), normal_size(t)), infos[i].time, out[i].time, normal_tag_len(t), zone);
    }
}


/// The time tag length of a scaled measured value type, or -1 for another type.
pub open spec fn scaled_tag_len(t: u8) -> int {
    if t == 11 {
        0
    } else if t == 12 {
        3
    } else if t == 35 {
        7
    } else {
        -1
    }
}

/// The octets of a scaled measured value element set before its time tag.
pub open spec fn scaled_fixed_len(t: u8) -> int {
    3
}

/// The element set size of a scaled measured value type.
pub open spec fn scaled_size(t: u8) -> int {
    if scaled_tag_len(t) >= 0 {
        scaled_fixed_len(t) + scaled_tag_len(t)
    } else {
        3
    }
}

/// The time tag length of a scaled measured value type, 8 for another type.
fn scaled_tag(t: u8) -> (n: usize)
    ensures
        scaled_tag_len(t) >= 0 ==> n == scaled_tag_len(t),
        scaled_tag_len(t) < 0 ==> n == 8,
{
    if t == 11 {
        0
    } else if t == 12 {
        3
    } else if t == 35 {
        7
    } else {
        8
    }
}

/// The octets of a scaled measured value element set before its time tag.
fn scaled_fixed(t: u8) -> (n: usize)
    ensures
        n == scaled_fixed_len(t),
{
    3
}

/// The octets of a scaled measured value element set before its time tag, as written.
pub open spec fn scaled_fixed_octets(info: MeasuredValueScaledInfo, t: u8) -> Seq<u8> {
    u16_octets(info.value as u16) + seq![info.qds.0]
}

/// Write the octets of a scaled measured value element set before its time tag.
fn put_scaled_fixed(buf: &mut Vec<u8>, v: MeasuredValueScaledInfo, t: u8)
    ensures
        final(buf)@ == old(buf)@ + scaled_fixed_octets(v, t),
{
    put_u16(buf, v.value as u16);
    put_u8(buf, v.qds.0);
    assert(buf@ =~= old(buf)@ + scaled_fixed_octets(v, t));
}

/// The element set of a scaled measured value object as a builder writes it.
pub open spec fn scaled_elem_ok(e: Seq<u8>, info: MeasuredValueScaledInfo, t: u8, zone: TimeZone) -> bool {
    e.len() == scaled_size(t) && e.subrange(0, scaled_fixed_len(t)) == scaled_fixed_octets(info, t) && tag_ok(e.subrange(scaled_fixed_len(t), e.len() as int), info.time, scaled_tag_len(t), zone)
}

/// A scaled measured value object as a getter reads it from its element set.
pub open spec fn scaled_decoded(e: Seq<u8>, ioa: u32, info: MeasuredValueScaledInfo, t: u8, zone: TimeZone) -> bool {
    &&& info.ioa == ioa
    &&& info.value == u16_at(e, 0) as i16 && info.qds == QualityDescriptor(e[2])
    &&& tag_decoded(e.subrange(scaled_fixed_len(t), scaled_size(t)), info.time, scaled_tag_len(t), zone)
}

/// Read the scaled measured value object at `at`.
fn read_scaled(b: &[u8], at: usize, ioa: u32, t: u8, tag: usize, zone: TimeZone) -> (info: MeasuredValueScaledInfo)
    requires
        scaled_tag_len(t) >= 0,
        tag == scaled_tag_len(t),
        at + scaled_size(t) <= b.len(),
    ensures
        scaled_decoded(b@.subrange(at as int, at + scaled_size(t)), ioa, info, t, zone),
{
    let fixed = scaled_fixed(t);
    let ghost e = b@.subrange(at as int, at + scaled_size(t));
    let x = get_u16(b, at);
    let q = b[at + 2];
    proof {
        assert(e[0] == b@[at as int] && e[1] == b@[at + 1] && e[2] == q);
    }
    let time = read_tag(b, at + fixed, tag, zone);
    proof {
        assert(e.subrange(scaled_fixed_len(t), scaled_size(t)) =~= b@.subrange(at + fixed, at + fixed + tag));
    }
    MeasuredValueScaledInfo { ioa, value: x as i16, qds: QualityDescriptor(q), time }
}

/// The addresses of scaled measured value objects.
pub open spec fn scaled_ioas(infos: Seq<MeasuredValueScaledInfo>) -> spec_fn(int) -> u32 {
    |i: int| infos[i].ioa
}

/// The element sets of scaled measured value objects of type `t`.
pub open spec fn scaled_elems(infos: Seq<MeasuredValueScaledInfo>, t: u8, zone: TimeZone) -> spec_fn(int, Seq<u8>) -> bool {
    |i: int, e: Seq<u8>| scaled_elem_ok(e, infos[i], t, zone)
}

/// The payload a scaled measured value builder writes for `infos`.
pub open spec fn scaled_built(p: Params, t: u8, seq: bool, infos: Seq<MeasuredValueScaledInfo>, payload: Seq<u8>) -> bool {
    objects_ok(
        payload,
        p.info_obj_addr_size,
        scaled_size(t),
        seq,
        infos.len() as int,
        scaled_ioas(infos),
        scaled_elems(infos, t, p.info_obj_time_zone),
    )
}

/// What a scaled measured value getter reads from a payload.
pub open spec fn scaled_read(p: Params, id: Identifier, payload: Seq<u8>, out: Seq<MeasuredValueScaledInfo>) -> bool {
    let t = id.type_id.0;
    let w = p.info_obj_addr_size;
    let seq = id.variable.is_sequence;
    &&& out.len() == id.variable.number
    &&& forall|i: int|
        0 <= i < out.len() ==> scaled_decoded(
            elem_of(w as int, scaled_size(t), seq, payload, i),
            obj_ioa(w, scaled_size(t), seq, payload, i),
            #[trigger] out[i],
            t,
            p.info_obj_time_zone,
        )
}

impl Asdu {
    /// Build `M_ME_NB_1`, `M_ME_TB_1`, `M_ME_TE_1`: a scaled measured value.
    ///
    /// See companion standard 101, subclasses 7.3.1.11, 7.3.1.12 and 7.3.1.27.
    pub fn measured_value_scaled_with_type(
        params: Params,
        type_id: TypeId,
        is_sequence: bool,
        coa: CauseOfTransmission,
        ca: CommonAddr,
        infos: &[MeasuredValueScaledInfo],
    ) -> (r: Result<Asdu>)
        ensures
            built_outcome(
                r,
                params,
                type_id,
                is_sequence,
                coa,
                ca,
                infos@.len() as int,
                scaled_ioas(infos@),
                scaled_tag_len(type_id.0) >= 0,
                |b: Seq<u8>| scaled_built(params, type_id.0, is_sequence, infos@, b),
            ),
    {
        let mut u = start(params, type_id, is_sequence, coa, ca, infos.len())?;
        let w = params.info_obj_addr_size;
        let zone = params.info_obj_time_zone;
        let t = type_id.0;
        let tag = scaled_tag(t);
        let ghost size = scaled_size(t);
        let ghost ioa = scaled_ioas(infos@);
        let ghost ok = scaled_elems(infos@, t, zone);
        let mut buf: Vec<u8> = Vec::new();
        proof {
            objects_empty(w, size, is_sequence, ioa, ok);
        }
        let mut i: usize = 0;
        while i < infos.len()
            invariant
                1 <= w <= 3,
                w == params.info_obj_addr_size,
                zone == params.info_obj_time_zone,
                t == type_id.0,
                0 < infos@.len() < 128,
                i <= infos@.len(),
                scaled_tag_len(t) >= 0 ==> tag == scaled_tag_len(t),
                scaled_tag_len(t) < 0 ==> tag == 8,
                size == scaled_size(t),
                ioa == scaled_ioas(infos@),
                ok == scaled_elems(infos@, t, zone),
                objects_ok(buf@, w, size, is_sequence, i as int, ioa, ok),
                forall|k: int| 0 <= k < i && #[trigger] spec_writes_addr(is_sequence, k) ==> addr_fits(w, ioa(k)),
                i > 0 ==> addr_fits(w, ioa(0)),
                u.params == params,
                u.identifier == built_identifier(type_id, is_sequence, coa, ca, infos@.len() as int),
                crate::asdu::codec::check_valid_error(params, type_id, is_sequence, infos@.len() as int) is None,
                i > 0 ==> tag != 8,
            decreases infos@.len() - i,
        {
            let v = infos[i];
            let ghost b0 = buf@;
            match put_object_addr(&mut buf, w, is_sequence, i, v.ioa) {
                Ok(()) => {},
                Err(e) => {
                    assert(spec_writes_addr(is_sequence, i as int) && !addr_fits(w, ioa(i as int)));
                    return Err(e);
                },
            }
            let ghost b1 = buf@;
            if tag == 8 {
                assert(spec_writes_addr(is_sequence, 0) && addr_fits(w, ioa(0)));
                return Err(Error::TypeIdNotMatch);
            }
            put_scaled_fixed(&mut buf, v, t);
            let ghost b15 = buf@;
            put_tag(&mut buf, v.time, tag, zone);
            proof {
                assert(addr_octets(w, ioa(i as int)).len() == w);
                assert(buf@.subrange(0, b15.len() as int) == b15);
                assert forall|j: int| 0 <= j < b1.len() implies buf@[j] == b1[j] by {
                    assert(buf@.subrange(0, b15.len() as int)[j] == buf@[j]);
                }
                assert(buf@.subrange(0, b1.len() as int) =~= b1);
                let e = buf@.subrange(b1.len() as int, buf@.len() as int);
                assert forall|j: int| 0 <= j < scaled_fixed_len(t) implies e[j] == #[trigger] b15[b1.len() + j] by {
                    assert(buf@.subrange(0, b15.len() as int)[b1.len() + j] == buf@[b1.len() + j]);
                }
                assert(b15.subrange(b1.len() as int, b15.len() as int) =~= scaled_fixed_octets(v, t));
                assert(e.subrange(scaled_fixed_len(t), e.len() as int) =~= buf@.subrange(b15.len() as int, buf@.len() as int));
                assert(e.subrange(0, scaled_fixed_len(t)) =~= scaled_fixed_octets(v, t));
                assert(scaled_elem_ok(e, infos@[i as int], t, zone));
                objects_extend(b0, b1, buf@, w, size, is_sequence, i as int, ioa, ok);
            }
            i = i + 1;
        }
        u.info_obj = buf;
        Ok(u)
    }

    /// Build `M_ME_NB_1`: scaled measured value without time tag.
    pub fn measured_value_scaled(
        params: Params,
        is_sequence: bool,
        coa: CauseOfTransmission,
        ca: CommonAddr,
        infos: &[MeasuredValueScaledInfo],
    ) -> (r: Result<Asdu>)
        ensures
            !measured_cause_ok(coa.cause.0) ==> r == Err::<Asdu, Error>(Error::CmdCause),
            measured_cause_ok(coa.cause.0) ==> built_outcome(
                r,
                params,
                TypeId(11),
                is_sequence,
                coa,
                ca,
                infos@.len() as int,
                scaled_ioas(infos@),
                true,
                |b: Seq<u8>| scaled_built(params, 11, is_sequence, infos@, b),
            ),
    {
        check_measured_cause(coa)?;
        Self::measured_value_scaled_with_type(params, TypeId(11), is_sequence, coa, ca, infos)
    }

    /// Build `M_ME_TB_1`: scaled measured value with a CP24Time2a time tag.
    pub fn measured_value_scaled_cp24time2a(
        params: Params,
        coa: CauseOfTransmission,
        ca: CommonAddr,
        infos: &[MeasuredValueScaledInfo],
    ) -> (r: Result<Asdu>)
        ensures
            !spontaneous_or_request(coa.cause.0) ==> r == Err::<Asdu, Error>(Error::CmdCause),
            spontaneous_or_request(coa.cause.0) ==> built_outcome(
                r,
                params,
                TypeId(12),
                false,
                coa,
                ca,
                infos@.len() as int,
                scaled_ioas(infos@),
                true,
                |b: Seq<u8>| scaled_built(params, 12, false, infos@, b),
            ),
    {
        check_spontaneous_or_request(coa)?;
        Self::measured_value_scaled_with_type(params, TypeId(12), false, coa, ca, infos)
    }

    /// Build `M_ME_TE_1`: scaled measured value with a CP56Time2a time tag.
    pub fn measured_value_scaled_cp56time2a(
        params: Params,
        coa: CauseOfTransmission,
        ca: CommonAddr,
        infos: &[MeasuredValueScaledInfo],
    ) -> (r: Result<Asdu>)
        ensures
            !spontaneous_or_request(coa.cause.0) ==> r == Err::<Asdu, Error>(Error::CmdCause),
            spontaneous_or_request(coa.cause.0) ==> built_outcome(
                r,
                params,
                TypeId(35),
                false,
                coa,
                ca,
                infos@.len() as int,
                scaled_ioas(infos@),
                true,
                |b: Seq<u8>| scaled_built(params, 35, false, infos@, b),
            ),
    {
        check_spontaneous_or_request(coa)?;
        Self::measured_value_scaled_with_type(params, TypeId(35), false, coa, ca, infos)
    }

    /// Decode `M_ME_NB_1`, `M_ME_TB_1`, `M_ME_TE_1`.
    pub fn get_measured_value_scaled(&self) -> (r: Result<Vec<MeasuredValueScaledInfo>>)
        ensures
            read_outcome(
                r,
                read_error(
                    self.params,
                    self.identifier.variable,
                    self.info_obj@.len() as int,
                    scaled_tag_len(self.identifier.type_id.0) >= 0,
                    3,
                    scaled_size(self.identifier.type_id.0),
                ),
                |out: Seq<MeasuredValueScaledInfo>| scaled_read(self.params, self.identifier, self.info_obj@, out),
            ),
    {
        let t = self.identifier.type_id.0;
        let tag = scaled_tag(t);
        let family = tag != 8;
        let size: usize = if tag != 8 {
            scaled_fixed(t) + tag
        } else {
            3
        };
        let b = self.info_obj.as_slice();
        let pos = object_positions(&self.params, self.identifier.variable, b, family, 3, size)?;
        let zone = self.params.info_obj_time_zone;
        let ghost w = self.params.info_obj_addr_size;
        let ghost seq = self.identifier.variable.is_sequence;
        let mut out: Vec<MeasuredValueScaledInfo> = Vec::new();
        let mut j: usize = 0;
        while j < pos.len()
            invariant
                b@ == self.info_obj@,
                zone == self.params.info_obj_time_zone,
                pos@.len() == self.identifier.variable.number,
                pos@.len() > 0 ==> family,
                family ==> scaled_tag_len(t) >= 0,
                scaled_tag_len(t) >= 0 ==> tag == scaled_tag_len(t),
                size == scaled_size(t),
                t == self.identifier.type_id.0,
                forall|i: int|
                    0 <= i < pos@.len() ==> (#[trigger] pos@[i]).0 == obj_ioa(w, size as int, seq, b@, i)
                        && pos@[i].1 == crate::asdu::objects::elem_pos(w as int, size as int, seq, i) && pos@[i].1
                        + size <= b@.len(),
                w == self.params.info_obj_addr_size,
                seq == self.identifier.variable.is_sequence,
                j <= pos@.len(),
                out@.len() == j,
                forall|k: int|
                    0 <= k < j ==> scaled_decoded(
                        elem_of(w as int, scaled_size(t), seq, b@, k),
                        obj_ioa(w, scaled_size(t), seq, b@, k),
                        #[trigger] out@[k],
                        t,
                        zone,
                    ),
            decreases pos@.len() - j,
        {
            let (ioa, at) = pos[j];
            let info = read_scaled(b, at, ioa, t, tag, zone);
            out.push(info);
            j = j + 1;
        }
        Ok(out)
    }
}

/// A scaled measured value payload reads back the objects it was built from: the address of
/// each (consecutive ones in a sequence), its value, its quality descriptor, and its time as [`time_read_back`]
/// says.
pub proof fn scaled_round_trip(p: Params, id: Identifier, infos: Seq<MeasuredValueScaledInfo>, payload: Seq<u8>, out: Seq<MeasuredValueScaledInfo>)
    requires
        p.spec_valid(),
        scaled_tag_len(id.type_id.0) >= 0,
        0 < infos.len() < 128,
        id.variable.number == infos.len(),
        forall|i: int|
            0 <= i < infos.len() && #[trigger] spec_writes_addr(id.variable.is_sequence, i) ==> addr_fits(
                p.info_obj_addr_size,
                infos[i].ioa,
            ),
        id.variable.is_sequence ==> consecutive(scaled_ioas(infos), infos.len() as int),
        scaled_built(p, id.type_id.0, id.variable.is_sequence, infos, payload),
        scaled_read(p, id, payload, out),
    ensures
        read_error(p, id.variable, payload.len() as int, true, 3, scaled_size(id.type_id.0)) is None,
        forall|i: int|
            0 <= i < infos.len() ==> (#[trigger] out[i]).ioa == infos[i].ioa && out[i].value == infos[i].value && out[i].qds == infos[i].qds && time_read_back(
                infos[i].time,
                out[i].time,
                scaled_tag_len(id.type_id.0),
                p.info_obj_time_zone,
            ),
{
    let t = id.type_id.0;
    let w = p.info_obj_addr_size;
    let seq = id.variable.is_sequence;
    let n = infos.len() as int;
    let size = scaled_size(t);
    let zone = p.info_obj_time_zone;
    objects_read_back(payload, w, size, seq, n, scaled_ioas(infos), scaled_elems(infos, t, zone));
    assert forall|i: int| 0 <= i < n implies (#[trigger] out[i]).ioa == infos[i].ioa && out[i].value == infos[i].value && out[i].qds == infos[i].qds && time_read_back(
                infos[i].time,
                out[i].time,
                scaled_tag_len(t),
                p.info_obj_time_zone,
            ) by {
        let e = elem_of(w as int, size, seq, payload, i);
        assert(scaled_elems(infos, t, zone)(i, e));
        assert(obj_ioa(w, size, seq, payload, i) == scaled_ioas(infos)(i));
        let fx = e.subrange(0, scaled_fixed_len(t));
        assert(fx == scaled_fixed_octets(infos[i], t));
        assert(forall|j: int| 0 <= j < scaled_fixed_len(t) ==> #[trigger] e[j] == fx[j]);
        let x = infos[i].value;
        assert(((x as u16) as i16) == x) by (bit_vector);
        tag_read_back(e.subrange(scaled_fixed_len(t), scaled_size(t)), infos[i].time, out[i].time, scaled_tag_len(t), zone);
    }
}


/// The time tag length of a short floating point measured value type, or -1 for another type.
pub open spec fn float_tag_len(t: u8) -> int {
    if t == 13 {
        0
    } else if t == 14 {
        3
    } else if t == 36 {
        7
    } else {
        -1
    }
}

/// The octets of a short floating point measured value element set before its time tag.
pub open spec fn float_fixed_len(t: u8) -> int {
    5
}

/// The element set size of a short floating point measured value type.
pub open spec fn float_size(t: u8) -> int {
    if float_tag_len(t) >= 0 {
        float_fixed_len(t) + float_tag_len(t)
    } else {
        5
    }
}

/// The time tag length of a short floating point measured value type, 8 for another type.
fn float_tag(t: u8) -> (n: usize)
    ensures
        float_tag_len(t) >= 0 ==> n == float_tag_len(t),
        float_tag_len(t) < 0 ==> n == 8,
{
    if t == 13 {
        0
    } else if t == 14 {
        3
    } else if t == 36 {
        7
    } else {
        8
    }
}

/// The octets of a short floating point measured value element set before its time tag.
fn float_fixed(t: u8) -> (n: usize)
    ensures
        n == float_fixed_len(t),
{
    5
}

/// The octets of a short floating point measured value element set before its time tag, as written.
pub open spec fn float_fixed_octets(info: MeasuredValueFloatInfo, t: u8) -> Seq<u8> {
    u32_octets(info.value) + seq![float_quality(info.qds.0)]
}

/// Write the octets of a short floating point measured value element set before its time tag.
fn put_float_fixed(buf: &mut Vec<u8>, v: MeasuredValueFloatInfo, t: u8)
    ensures
        final(buf)@ == old(buf)@ + float_fixed_octets(v, t),
{
    put_u32(buf, v.value);
    put_u8(buf, (v.qds.0 / 16) * 16 + v.qds.0 % 2);
    assert(buf@ =~= old(buf)@ + float_fixed_octets(v, t));
}

/// The element set of a short floating point measured value object as a builder writes it.
pub open spec fn float_elem_ok(e: Seq<u8>, info: MeasuredValueFloatInfo, t: u8, zone: TimeZone) -> bool {
    e.len() == float_size(t) && e.subrange(0, float_fixed_len(t)) == float_fixed_octets(info, t) && tag_ok(e.subrange(float_fixed_len(t), e.len() as int), info.time, float_tag_len(t), zone)
}

/// A short floating point measured value object as a getter reads it from its element set.
pub open spec fn float_decoded(e: Seq<u8>, ioa: u32, info: MeasuredValueFloatInfo, t: u8, zone: TimeZone) -> bool {
    &&& info.ioa == ioa
    &&& info.value == u32_at(e, 0) && info.qds == QualityDescriptor(float_quality(e[4]))
    &&& tag_decoded(e.subrange(float_fixed_len(t), float_size(t)), info.time, float_tag_len(t), zone)
}

/// Read the short floating point measured value object at `at`.
fn read_float(b: &[u8], at: usize, ioa: u32, t: u8, tag: usize, zone: TimeZone) -> (info: MeasuredValueFloatInfo)
    requires
        float_tag_len(t) >= 0,
        tag == float_tag_len(t),
        at + float_size(t) <= b.len(),
    ensures
        float_decoded(b@.subrange(at as int, at + float_size(t)), ioa, info, t, zone),
{
    let fixed = float_fixed(t);
    let ghost e = b@.subrange(at as int, at + float_size(t));
    let x = get_u32(b, at);
    let q = b[at + 4];
    proof {
        assert(e[0] == b@[at as int] && e[1] == b@[at + 1] && e[2] == b@[at + 2] && e[3] == b@[at + 3] && e[4] == q);
    }
    let time = read_tag(b, at + fixed, tag, zone);
    proof {
        assert(e.subrange(float_fixed_len(t), float_size(t)) =~= b@.subrange(at + fixed, at + fixed + tag));
    }
    MeasuredValueFloatInfo { ioa, value: x, qds: QualityDescriptor((q / 16) * 16 + q % 2), time }
}

/// The addresses of short floating point measured value objects.
pub open spec fn float_ioas(infos: Seq<MeasuredValueFloatInfo>) -> spec_fn(int) -> u32 {
    |i: int| infos[i].ioa
}

/// The element sets of short floating point measured value objects of type `t`.
pub open spec fn float_elems(infos: Seq<MeasuredValueFloatInfo>, t: u8, zone: TimeZone) -> spec_fn(int, Seq<u8>) -> bool {
    |i: int, e: Seq<u8>| float_elem_ok(e, infos[i], t, zone)
}

/// The payload a short floating point measured value builder writes for `infos`.
pub open spec fn float_built(p: Params, t: u8, seq: bool, infos: Seq<MeasuredValueFloatInfo>, payload: Seq<u8>) -> bool {
    objects_ok(
        payload,
        p.info_obj_addr_size,
        float_size(t),
        seq,
        infos.len() as int,
        float_ioas(infos),
        float_elems(infos, t, p.info_obj_time_zone),
    )
}

/// What a short floating point measured value getter reads from a payload.
pub open spec fn float_read(p: Params, id: Identifier, payload: Seq<u8>, out: Seq<MeasuredValueFloatInfo>) -> bool {
    let t = id.type_id.0;
    let w = p.info_obj_addr_size;
    let seq = id.variable.is_sequence;
    &&& out.len() == id.variable.number
    &&& forall|i: int|
        0 <= i < out.len() ==> float_decoded(
            elem_of(w as int, float_size(t), seq, payload, i),
            obj_ioa(w, float_size(t), seq, payload, i),
            #[trigger] out[i],
            t,
            p.info_obj_time_zone,
        )
}

impl Asdu {
    /// Build `M_ME_NC_1`, `M_ME_TC_1`, `M_ME_TF_1`: a short floating point measured value.
    ///
    /// Only the OV, BL, SB, NT and IV bits of the quality descriptor are
    /// written. See companion standard 101, subclasses 7.3.1.13, 7.3.1.14 and 7.3.1.28.
    pub fn measured_value_float_with_type(
        params: Params,
        type_id: TypeId,
        is_sequence: bool,
        coa: CauseOfTransmission,
        ca: CommonAddr,
        infos: &[MeasuredValueFloatInfo],
    ) -> (r: Result<Asdu>)
        ensures
            built_outcome(
                r,
                params,
                type_id,
                is_sequence,
                coa,
                ca,
                infos@.len() as int,
                float_ioas(infos@),
                float_tag_len(type_id.0) >= 0,
                |b: Seq<u8>| float_built(params, type_id.0, is_sequence, infos@, b),
            ),
    {
        let mut u = start(params, type_id, is_sequence, coa, ca, infos.len())?;
        let w = params.info_obj_addr_size;
        let zone = params.info_obj_time_zone;
        let t = type_id.0;
        let tag = float_tag(t);
        let ghost size = float_size(t);
        let ghost ioa = float_ioas(infos@);
        let ghost ok = float_elems(infos@, t, zone);
        let mut buf: Vec<u8> = Vec::new();
        proof {
            objects_empty(w, size, is_sequence, ioa, ok);
        }
        let mut i: usize = 0;
        while i < infos.len()
            invariant
                1 <= w <= 3,
                w == params.info_obj_addr_size,
                zone == params.info_obj_time_zone,
                t == type_id.0,
                0 < infos@.len() < 128,
                i <= infos@.len(),
                float_tag_len(t) >= 0 ==> tag == float_tag_len(t),
                float_tag_len(t) < 0 ==> tag == 8,
                size == float_size(t),
                ioa == float_ioas(infos@),
                ok == float_elems(infos@, t, zone),
                objects_ok(buf@, w, size, is_sequence, i as int, ioa, ok),
                forall|k: int| 0 <= k < i && #[trigger] spec_writes_addr(is_sequence, k) ==> addr_fits(w, ioa(k)),
                i > 0 ==> addr_fits(w, ioa(0)),
                u.params == params,
                u.identifier == built_identifier(type_id, is_sequence, coa, ca, infos@.len() as int),
                crate::asdu::codec::check_valid_error(params, type_id, is_sequence, infos@.len() as int) is None,
                i > 0 ==> tag != 8,
            decreases infos@.len() - i,
        {
            let v = infos[i];
            let ghost b0 = buf@;
            match put_object_addr(&mut buf, w, is_sequence, i, v.ioa) {
                Ok(()) => {},
                Err(e) => {
                    assert(spec_writes_addr(is_sequence, i as int) && !addr_fits(w, ioa(i as int)));
                    return Err(e);
                },
            }
            let ghost b1 = buf@;
            if tag == 8 {
                assert(spec_writes_addr(is_sequence, 0) && addr_fits(w, ioa(0)));
                return Err(Error::TypeIdNotMatch);
            }
            put_float_fixed(&mut buf, v, t);
            let ghost b15 = buf@;
            put_tag(&mut buf, v.time, tag, zone);
            proof {
                assert(addr_octets(w, ioa(i as int)).len() == w);
                assert(buf@.subrange(0, b15.len() as int) == b15);
                assert forall|j: int| 0 <= j < b1.len() implies buf@[j] == b1[j] by {
                    assert(buf@.subrange(0, b15.len() as int)[j] == buf@[j]);
                }
                assert(buf@.subrange(0, b1.len() as int) =~= b1);
                let e = buf@.subrange(b1.len() as int, buf@.len() as int);
                assert forall|j: int| 0 <= j < float_fixed_len(t) implies e[j] == #[trigger] b15[b1.len() + j] by {
                    assert(buf@.subrange(0, b15.len() as int)[b1.len() + j] == buf@[b1.len() + j]);
                }
                assert(b15.subrange(b1.len() as int, b15.len() as int) =~= float_fixed_octets(v, t));
                assert(e.subrange(float_fixed_len(t), e.len() as int) =~= buf@.subrange(b15.len() as int, buf@.len() as int));
                assert(e.subrange(0, float_fixed_len(t)) =~= float_fixed_octets(v, t));
                assert(float_elem_ok(e, infos@[i as int], t, zone));
                objects_extend(b0, b1, buf@, w, size, is_sequence, i as int, ioa, ok);
            }
            i = i + 1;
        }
        u.info_obj = buf;
        Ok(u)
    }

    /// Build `M_ME_NC_1`: short floating point measured value without time tag.
    pub fn measured_value_float(
        params: Params,
        is_sequence: bool,
        coa: CauseOfTransmission,
        ca: CommonAddr,
        infos: &[MeasuredValueFloatInfo],
    ) -> (r: Result<Asdu>)
        ensures
            !measured_cause_ok(coa.cause.0) ==> r == Err::<Asdu, Error>(Error::CmdCause),
            measured_cause_ok(coa.cause.0) ==> built_outcome(
                r,
                params,
                TypeId(13),
                is_sequence,
                coa,
                ca,
                infos@.len() as int,
                float_ioas(infos@),
                true,
                |b: Seq<u8>| float_built(params, 13, is_sequence, infos@, b),
            ),
    {
        check_measured_cause(coa)?;
        Self::measured_value_float_with_type(params, TypeId(13), is_sequence, coa, ca, infos)
    }

    /// Build `M_ME_TC_1`: short floating point measured value with a CP24Time2a time tag.
    pub fn measured_value_float_cp24time2a(
        params: Params,
        coa: CauseOfTransmission,
        ca: CommonAddr,
        infos: &[MeasuredValueFloatInfo],
    ) -> (r: Result<Asdu>)
        ensures
            !spontaneous_or_request(coa.cause.0) ==> r == Err::<Asdu, Error>(Error::CmdCause),
            spontaneous_or_request(coa.cause.0) ==> built_outcome(
                r,
                params,
                TypeId(14),
                false,
                coa,
                ca,
                infos@.len() as int,
                float_ioas(infos@),
                true,
                |b: Seq<u8>| float_built(params, 14, false, infos@, b),
            ),
    {
        check_spontaneous_or_request(coa)?;
        Self::measured_value_float_with_type(params, TypeId(14), false, coa, ca, infos)
    }

    /// Build `M_ME_TF_1`: short floating point measured value with a CP56Time2a time tag.
    pub fn measured_value_float_cp56time2a(
        params: Params,
        coa: CauseOfTransmission,
        ca: CommonAddr,
        infos: &[MeasuredValueFloatInfo],
    ) -> (r: Result<Asdu>)
        ensures
            !spontaneous_or_request(coa.cause.0) ==> r == Err::<Asdu, Error>(Error::CmdCause),
            spontaneous_or_request(coa.cause.0) ==> built_outcome(
                r,
                params,
                TypeId(36),
                false,
                coa,
                ca,
                infos@.len() as int,
                float_ioas(infos@),
                true,
                |b: Seq<u8>| float_built(params, 36, false, infos@, b),
            ),
    {
        check_spontaneous_or_request(coa)?;
        Self::measured_value_float_with_type(params, TypeId(36), false, coa, ca, infos)
    }

    /// Decode `M_ME_NC_1`, `M_ME_TC_1`, `M_ME_TF_1`.
    pub fn get_measured_value_float(&self) -> (r: Result<Vec<MeasuredValueFloatInfo>>)
        ensures
            read_outcome(
                r,
                read_error(
                    self.params,
                    self.identifier.variable,
                    self.info_obj@.len() as int,
                    float_tag_len(self.identifier.type_id.0) >= 0,
                    5,
                    float_size(self.identifier.type_id.0),
                ),
                |out: Seq<MeasuredValueFloatInfo>| float_read(self.params, self.identifier, self.info_obj@, out),
            ),
    {
        let t = self.identifier.type_id.0;
        let tag = float_tag(t);
        let family = tag != 8;
        let size: usize = if tag != 8 {
            float_fixed(t) + tag
        } else {
            5
        };
        let b = self.info_obj.as_slice();
        let pos = object_positions(&self.params, self.identifier.variable, b, family, 5, size)?;
        let zone = self.params.info_obj_time_zone;
        let ghost w = self.params.info_obj_addr_size;
        let ghost seq = self.identifier.variable.is_sequence;
        let mut out: Vec<MeasuredValueFloatInfo> = Vec::new();
        let mut j: usize = 0;
        while j < pos.len()
            invariant
                b@ == self.info_obj@,
                zone == self.params.info_obj_time_zone,
                pos@.len() == self.identifier.variable.number,
                pos@.len() > 0 ==> family,
                family ==> float_tag_len(t) >= 0,
                float_tag_len(t) >= 0 ==> tag == float_tag_len(t),
                size == float_size(t),
                t == self.identifier.type_id.0,
                forall|i: int|
                    0 <= i < pos@.len() ==> (#[trigger] pos@[i]).0 == obj_ioa(w, size as int, seq, b@, i)
                        && pos@[i].1 == crate::asdu::objects::elem_pos(w as int, size as int, seq, i) && pos@[i].1
                        + size <= b@.len(),
                w == self.params.info_obj_addr_size,
                seq == self.identifier.variable.is_sequence,
                j <= pos@.len(),
                out@.len() == j,
                forall|k: int|
                    0 <= k < j ==> float_decoded(
                        elem_of(w as int, float_size(t), seq, b@, k),
                        obj_ioa(w, float_size(t), seq, b@, k),
                        #[trigger] out@[k],
                        t,
                        zone,
                    ),
            decreases pos@.len() - j,
        {
            let (ioa, at) = pos[j];
            let info = read_float(b, at, ioa, t, tag, zone);
            out.push(info);
            j = j + 1;
        }
        Ok(out)
    }
}

/// A short floating point measured value payload reads back the objects it was built from: the address of
/// each (consecutive ones in a sequence), the bits of its value, the OV, BL, SB, NT and IV bits of its quality
/// descriptor, and its time as [`time_read_back`] says.
pub proof fn float_round_trip(p: Params, id: Identifier, infos: Seq<MeasuredValueFloatInfo>, payload: Seq<u8>, out: Seq<MeasuredValueFloatInfo>)
    requires
        p.spec_valid(),
        float_tag_len(id.type_id.0) >= 0,
        0 < infos.len() < 128,
        id.variable.number == infos.len(),
        forall|i: int|
            0 <= i < infos.len() && #[trigger] spec_writes_addr(id.variable.is_sequence, i) ==> addr_fits(
                p.info_obj_addr_size,
                infos[i].ioa,
            ),
        id.variable.is_sequence ==> consecutive(float_ioas(infos), infos.len() as int),
        float_built(p, id.type_id.0, id.variable.is_sequence, infos, payload),
        float_read(p, id, payload, out),
    ensures
        read_error(p, id.variable, payload.len() as int, true, 5, float_size(id.type_id.0)) is None,
        forall|i: int|
            0 <= i < infos.len() ==> (#[trigger] out[i]).ioa == infos[i].ioa && out[i].value == infos[i].value && out[i].qds == QualityDescriptor(float_quality(infos[i].qds.0)) && time_read_back(
                infos[i].time,
                out[i].time,
                float_tag_len(id.type_id.0),
                p.info_obj_time_zone,
            ),
{
    let t = id.type_id.0;
    let w = p.info_obj_addr_size;
    let seq = id.variable.is_sequence;
    let n = infos.len() as int;
    let size = float_size(t);
    let zone = p.info_obj_time_zone;
    objects_read_back(payload, w, size, seq, n, float_ioas(infos), float_elems(infos, t, zone));
    assert forall|i: int| 0 <= i < n implies (#[trigger] out[i]).ioa == infos[i].ioa && out[i].value == infos[i].value && out[i].qds == QualityDescriptor(float_quality(infos[i].qds.0)) && time_read_back(
                infos[i].time,
                out[i].time,
                float_tag_len(t),
                p.info_obj_time_zone,
            ) by {
        let e = elem_of(w as int, size, seq, payload, i);
        assert(float_elems(infos, t, zone)(i, e));
        assert(obj_ioa(w, size, seq, payload, i) == float_ioas(infos)(i));
        let fx = e.subrange(0, float_fixed_len(t));
        assert(fx == float_fixed_octets(infos[i], t));
        assert(forall|j: int| 0 <= j < float_fixed_len(t) ==> #[trigger] e[j] == fx[j]);
        crate::asdu::codec::u32_round_trip(infos[i].value);
        tag_read_back(e.subrange(float_fixed_len(t), float_size(t)), infos[i].time, out[i].time, float_tag_len(t), zone);
    }
}


/// The time tag length of a integrated totals type, or -1 for another type.
pub open spec fn totals_tag_len(t: u8) -> int {
    if t == 15 {
        0
    } else if t == 16 {
        3
    } else if t == 37 {
        7
    } else {
        -1
    }
}

/// The octets of a integrated totals element set before its time tag.
pub open spec fn totals_fixed_len(t: u8) -> int {
    5
}

/// The element set size of a integrated totals type.
pub open spec fn totals_size(t: u8) -> int {
    if totals_tag_len(t) >= 0 {
        totals_fixed_len(t) + totals_tag_len(t)
    } else {
        5
    }
}

/// The time tag length of a integrated totals type, 8 for another type.
fn totals_tag(t: u8) -> (n: usize)
    ensures
        totals_tag_len(t) >= 0 ==> n == totals_tag_len(t),
        totals_tag_len(t) < 0 ==> n == 8,
{
    if t == 15 {
        0
    } else if t == 16 {
        3
    } else if t == 37 {
        7
    } else {
        8
    }
}

/// The octets of a integrated totals element set before its time tag.
fn totals_fixed(t: u8) -> (n: usize)
    ensures
        n == totals_fixed_len(t),
{
    5
}

/// The octets of a integrated totals element set before its time tag, as written.
pub open spec fn totals_fixed_octets(info: BinaryCounterReadingInfo, t: u8) -> Seq<u8> {
    bcr_octets(info.value)
}

/// Write the octets of a integrated totals element set before its time tag.
fn put_totals_fixed(buf: &mut Vec<u8>, v: BinaryCounterReadingInfo, t: u8)
    ensures
        final(buf)@ == old(buf)@ + totals_fixed_octets(v, t),
{
    put_bcr(buf, v.value);
}

/// The element set of a integrated totals object as a builder writes it.
pub open spec fn totals_elem_ok(e: Seq<u8>, info: BinaryCounterReadingInfo, t: u8, zone: TimeZone) -> bool {
    e.len() == totals_size(t) && e.subrange(0, totals_fixed_len(t)) == totals_fixed_octets(info, t) && tag_ok(e.subrange(totals_fixed_len(t), e.len() as int), info.time, totals_tag_len(t), zone)
}

/// A integrated totals object as a getter reads it from its element set.
pub open spec fn totals_decoded(e: Seq<u8>, ioa: u32, info: BinaryCounterReadingInfo, t: u8, zone: TimeZone) -> bool {
    &&& info.ioa == ioa
    &&& info.value == bcr_at(e, 0)
    &&& tag_decoded(e.subrange(totals_fixed_len(t), totals_size(t)), info.time, totals_tag_len(t), zone)
}

/// Read the integrated totals object at `at`.
fn read_totals(b: &[u8], at: usize, ioa: u32, t: u8, tag: usize, zone: TimeZone) -> (info: BinaryCounterReadingInfo)
    requires
        totals_tag_len(t) >= 0,
        tag == totals_tag_len(t),
        at + totals_size(t) <= b.len(),
    ensures
        totals_decoded(b@.subrange(at as int, at + totals_size(t)), ioa, info, t, zone),
{
    let fixed = totals_fixed(t);
    let ghost e = b@.subrange(at as int, at + totals_size(t));
    let x = get_bcr(b, at);
    proof {
        assert(e[0] == b@[at as int] && e[1] == b@[at + 1] && e[2] == b@[at + 2] && e[3] == b@[at + 3] && e[4] == b@[at + 4]);
    }
    let time = read_tag(b, at + fixed, tag, zone);
    proof {
        assert(e.subrange(totals_fixed_len(t), totals_size(t)) =~= b@.subrange(at + fixed, at + fixed + tag));
    }
    BinaryCounterReadingInfo { ioa, value: x, time }
}

/// The addresses of integrated totals objects.
pub open spec fn totals_ioas(infos: Seq<BinaryCounterReadingInfo>) -> spec_fn(int) -> u32 {
    |i: int| infos[i].ioa
}

/// The element sets of integrated totals objects of type `t`.
pub open spec fn totals_elems(infos: Seq<BinaryCounterReadingInfo>, t: u8, zone: TimeZone) -> spec_fn(int, Seq<u8>) -> bool {
    |i: int, e: Seq<u8>| totals_elem_ok(e, infos[i], t, zone)
}

/// The payload a integrated totals builder writes for `infos`.
pub open spec fn totals_built(p: Params, t: u8, seq: bool, infos: Seq<BinaryCounterReadingInfo>, payload: Seq<u8>) -> bool {
    objects_ok(
        payload,
        p.info_obj_addr_size,
        totals_size(t),
        seq,
        infos.len() as int,
        totals_ioas(infos),
        totals_elems(infos, t, p.info_obj_time_zone),
    )
}

/// What a integrated totals getter reads from a payload.
pub open spec fn totals_read(p: Params, id: Identifier, payload: Seq<u8>, out: Seq<BinaryCounterReadingInfo>) -> bool {
    let t = id.type_id.0;
    let w = p.info_obj_addr_size;
    let seq = id.variable.is_sequence;
    &&& out.len() == id.variable.number
    &&& forall|i: int|
        0 <= i < out.len() ==> totals_decoded(
            elem_of(w as int, totals_size(t), seq, payload, i),
            obj_ioa(w, totals_size(t), seq, payload, i),
            #[trigger] out[i],
            t,
            p.info_obj_time_zone,
        )
}

impl Asdu {
    /// Build `M_IT_NA_1`, `M_IT_TA_1`, `M_IT_TB_1`: integrated totals.
    ///
    /// See companion standard 101, subclasses 7.3.1.15, 7.3.1.16 and 7.3.1.29.
    pub fn integrated_totals_with_type(
        params: Params,
        type_id: TypeId,
        is_sequence: bool,
        coa: CauseOfTransmission,
        ca: CommonAddr,
        infos: &[BinaryCounterReadingInfo],
    ) -> (r: Result<Asdu>)
        ensures
            built_outcome(
                r,
                params,
                type_id,
                is_sequence,
                coa,
                ca,
                infos@.len() as int,
                totals_ioas(infos@),
                totals_tag_len(type_id.0) >= 0,
                |b: Seq<u8>| totals_built(params, type_id.0, is_sequence, infos@, b),
            ),
    {
        let mut u = start(params, type_id, is_sequence, coa, ca, infos.len())?;
        let w = params.info_obj_addr_size;
        let zone = params.info_obj_time_zone;
        let t = type_id.0;
        let tag = totals_tag(t);
        let ghost size = totals_size(t);
        let ghost ioa = totals_ioas(infos@);
        let ghost ok = totals_elems(infos@, t, zone);
        let mut buf: Vec<u8> = Vec::new();
        proof {
            objects_empty(w, size, is_sequence, ioa, ok);
        }
        let mut i: usize = 0;
        while i < infos.len()
            invariant
                1 <= w <= 3,
                w == params.info_obj_addr_size,
                zone == params.info_obj_time_zone,
                t == type_id.0,
                0 < infos@.len() < 128,
                i <= infos@.len(),
                totals_tag_len(t) >= 0 ==> tag == totals_tag_len(t),
                totals_tag_len(t) < 0 ==> tag == 8,
                size == totals_size(t),
                ioa == totals_ioas(infos@),
                ok == totals_elems(infos@, t, zone),
                objects_ok(buf@, w, size, is_sequence, i as int, ioa, ok),
                forall|k: int| 0 <= k < i && #[trigger] spec_writes_addr(is_sequence, k) ==> addr_fits(w, ioa(k)),
                i > 0 ==> addr_fits(w, ioa(0)),
                u.params == params,
                u.identifier == built_identifier(type_id, is_sequence, coa, ca, infos@.len() as int),
                crate::asdu::codec::check_valid_error(params, type_id, is_sequence, infos@.len() as int) is None,
                i > 0 ==> tag != 8,
            decreases infos@.len() - i,
        {
            let v = infos[i];
            let ghost b0 = buf@;
            match put_object_addr(&mut buf, w, is_sequence, i, v.ioa) {
                Ok(()) => {},
                Err(e) => {
                    assert(spec_writes_addr(is_sequence, i as int) && !addr_fits(w, ioa(i as int)));
                    return Err(e);
                },
            }
            let ghost b1 = buf@;
            if tag == 8 {
                assert(spec_writes_addr(is_sequence, 0) && addr_fits(w, ioa(0)));
                return Err(Error::TypeIdNotMatch);
            }
            put_totals_fixed(&mut buf, v, t);
            let ghost b15 = buf@;
            put_tag(&mut buf, v.time, tag, zone);
            proof {
                assert(addr_octets(w, ioa(i as int)).len() == w);
                assert(buf@.subrange(0, b15.len() as int) == b15);
                assert forall|j: int| 0 <= j < b1.len() implies buf@[j] == b1[j] by {
                    assert(buf@.subrange(0, b15.len() as int)[j] == buf@[j]);
                }
                assert(buf@.subrange(0, b1.len() as int) =~= b1);
                let e = buf@.subrange(b1.len() as int, buf@.len() as int);
                assert forall|j: int| 0 <= j < totals_fixed_len(t) implies e[j] == #[trigger] b15[b1.len() + j] by {
                    assert(buf@.subrange(0, b15.len() as int)[b1.len() + j] == buf@[b1.len() + j]);
                }
                assert(b15.subrange(b1.len() as int, b15.len() as int) =~= totals_fixed_octets(v, t));
                assert(e.subrange(totals_fixed_len(t), e.len() as int) =~= buf@.subrange(b15.len() as int, buf@.len() as int));
                assert(e.subrange(0, totals_fixed_len(t)) =~= totals_fixed_octets(v, t));
                assert(totals_elem_ok(e, infos@[i as int], t, zone));
                objects_extend(b0, b1, buf@, w, size, is_sequence, i as int, ioa, ok);
            }
            i = i + 1;
        }
        u.info_obj = buf;
        Ok(u)
    }

    /// Build `M_IT_NA_1`: integrated totals without time tag.
    ///
    /// Permitted causes: `Spontaneous` and the counter request causes.
    pub fn integrated_totals(
        params: Params,
        is_sequence: bool,
        coa: CauseOfTransmission,
        ca: CommonAddr,
        infos: &[BinaryCounterReadingInfo],
    ) -> (r: Result<Asdu>)
        ensures
            !counter_cause_ok(coa.cause.0) ==> r == Err::<Asdu, Error>(Error::CmdCause),
            counter_cause_ok(coa.cause.0) ==> built_outcome(
                r,
                params,
                TypeId(15),
                is_sequence,
                coa,
                ca,
                infos@.len() as int,
                totals_ioas(infos@),
                true,
                |b: Seq<u8>| totals_built(params, 15, is_sequence, infos@, b),
            ),
    {
        check_counter_cause(coa)?;
        Self::integrated_totals_with_type(params, TypeId(15), is_sequence, coa, ca, infos)
    }

    /// Build `M_IT_TA_1`: integrated totals with a CP24Time2a time tag.
    pub fn integrated_totals_cp24time2a(
        params: Params,
        coa: CauseOfTransmission,
        ca: CommonAddr,
        infos: &[BinaryCounterReadingInfo],
    ) -> (r: Result<Asdu>)
        ensures
            !counter_cause_ok(coa.cause.0) ==> r == Err::<Asdu, Error>(Error::CmdCause),
            counter_cause_ok(coa.cause.0) ==> built_outcome(
                r,
                params,
                TypeId(16),
                false,
                coa,
                ca,
                infos@.len() as int,
                totals_ioas(infos@),
                true,
                |b: Seq<u8>| totals_built(params, 16, false, infos@, b),
            ),
    {
        check_counter_cause(coa)?;
        Self::integrated_totals_with_type(params, TypeId(16), false, coa, ca, infos)
    }

    /// Build `M_IT_TB_1`: integrated totals with a CP56Time2a time tag.
    pub fn integrated_totals_cp56time2a(
        params: Params,
        coa: CauseOfTransmission,
        ca: CommonAddr,
        infos: &[BinaryCounterReadingInfo],
    ) -> (r: Result<Asdu>)
        ensures
            !counter_cause_ok(coa.cause.0) ==> r == Err::<Asdu, Error>(Error::CmdCause),
            counter_cause_ok(coa.cause.0) ==> built_outcome(
                r,
                params,
                TypeId(37),
                false,
                coa,
                ca,
                infos@.len() as int,
                totals_ioas(infos@),
                true,
                |b: Seq<u8>| totals_built(params, 37, false, infos@, b),
            ),
    {
        check_counter_cause(coa)?;
        Self::integrated_totals_with_type(params, TypeId(37), false, coa, ca, infos)
    }

    /// Decode `M_IT_NA_1`, `M_IT_TA_1`, `M_IT_TB_1`.
    pub fn get_integrated_totals(&self) -> (r: Result<Vec<BinaryCounterReadingInfo>>)
        ensures
            read_outcome(
                r,
                read_error(
                    self.params,
                    self.identifier.variable,
                    self.info_obj@.len() as int,
                    totals_tag_len(self.identifier.type_id.0) >= 0,
                    5,
                    totals_size(self.identifier.type_id.0),
                ),
                |out: Seq<BinaryCounterReadingInfo>| totals_read(self.params, self.identifier, self.info_obj@, out),
            ),
    {
        let t = self.identifier.type_id.0;
        let tag = totals_tag(t);
        let family = tag != 8;
        let size: usize = if tag != 8 {
            totals_fixed(t) + tag
        } else {
            5
        };
        let b = self.info_obj.as_slice();
        let pos = object_positions(&self.params, self.identifier.variable, b, family, 5, size)?;
        let zone = self.params.info_obj_time_zone;
        let ghost w = self.params.info_obj_addr_size;
        let ghost seq = self.identifier.variable.is_sequence;
        let mut out: Vec<BinaryCounterReadingInfo> = Vec::new();
        let mut j: usize = 0;
        while j < pos.len()
            invariant
                b@ == self.info_obj@,
                zone == self.params.info_obj_time_zone,
                pos@.len() == self.identifier.variable.number,
                pos@.len() > 0 ==> family,
                family ==> totals_tag_len(t) >= 0,
                totals_tag_len(t) >= 0 ==> tag == totals_tag_len(t),
                size == totals_size(t),
                t == self.identifier.type_id.0,
                forall|i: int|
                    0 <= i < pos@.len() ==> (#[trigger] pos@[i]).0 == obj_ioa(w, size as int, seq, b@, i)
                        && pos@[i].1 == crate::asdu::objects::elem_pos(w as int, size as int, seq, i) && pos@[i].1
                        + size <= b@.len(),
                w == self.params.info_obj_addr_size,
                seq == self.identifier.variable.is_sequence,
                j <= pos@.len(),
                out@.len() == j,
                forall|k: int|
                    0 <= k < j ==> totals_decoded(
                        elem_of(w as int, totals_size(t), seq, b@, k),
                        obj_ioa(w, totals_size(t), seq, b@, k),
                        #[trigger] out@[k],
                        t,
                        zone,
                    ),
            decreases pos@.len() - j,
        {
            let (ioa, at) = pos[j];
            let info = read_totals(b, at, ioa, t, tag, zone);
            out.push(info);
            j = j + 1;
        }
        Ok(out)
    }
}

/// A integrated totals payload reads back the objects it was built from: the address of
/// each (consecutive ones in a sequence), a counter reading whose sequence number fits five bits, and its
/// time as [`time_read_back`] says.
pub proof fn totals_round_trip(p: Params, id: Identifier, infos: Seq<BinaryCounterReadingInfo>, payload: Seq<u8>, out: Seq<BinaryCounterReadingInfo>)
    requires
        p.spec_valid(),
        totals_tag_len(id.type_id.0) >= 0,
        0 < infos.len() < 128,
        id.variable.number == infos.len(),
        forall|i: int|
            0 <= i < infos.len() && #[trigger] spec_writes_addr(id.variable.is_sequence, i) ==> addr_fits(
                p.info_obj_addr_size,
                infos[i].ioa,
            ),
        id.variable.is_sequence ==> consecutive(totals_ioas(infos), infos.len() as int),
        forall|i: int| 0 <= i < infos.len() ==> (#[trigger] infos[i]).value.seq_number < 32,
        totals_built(p, id.type_id.0, id.variable.is_sequence, infos, payload),
        totals_read(p, id, payload, out),
    ensures
        read_error(p, id.variable, payload.len() as int, true, 5, totals_size(id.type_id.0)) is None,
        forall|i: int|
            0 <= i < infos.len() ==> (#[trigger] out[i]).ioa == infos[i].ioa && out[i].value == infos[i].value && time_read_back(
                infos[i].time,
                out[i].time,
                totals_tag_len(id.type_id.0),
                p.info_obj_time_zone,
            ),
{
    let t = id.type_id.0;
    let w = p.info_obj_addr_size;
    let seq = id.variable.is_sequence;
    let n = infos.len() as int;
    let size = totals_size(t);
    let zone = p.info_obj_time_zone;
    objects_read_back(payload, w, size, seq, n, totals_ioas(infos), totals_elems(infos, t, zone));
    assert forall|i: int| 0 <= i < n implies (#[trigger] out[i]).ioa == infos[i].ioa && out[i].value == infos[i].value && time_read_back(
                infos[i].time,
                out[i].time,
                totals_tag_len(t),
                p.info_obj_time_zone,
            ) by {
        let e = elem_of(w as int, size, seq, payload, i);
        assert(totals_elems(infos, t, zone)(i, e));
        assert(obj_ioa(w, size, seq, payload, i) == totals_ioas(infos)(i));
        let fx = e.subrange(0, totals_fixed_len(t));
        assert(fx == totals_fixed_octets(infos[i], t));
        assert(forall|j: int| 0 <= j < totals_fixed_len(t) ==> #[trigger] e[j] == fx[j]);
        crate::asdu::codec::bcr_round_trip(infos[i].value);
        assert(bcr_at(e, 0) == bcr_at(fx, 0));
        tag_read_back(e.subrange(totals_fixed_len(t), totals_size(t)), infos[i].time, out[i].time, totals_tag_len(t), zone);
    }
}


/// The time tag length of a protection equipment event type, or -1 for another type.
pub open spec fn protection_tag_len(t: u8) -> int {
    if t == 17 {
        3
    } else if t == 38 {
        7
    } else {
        -1
    }
}

/// The octets of a protection equipment event element set before its time tag.
pub open spec fn protection_fixed_len(t: u8) -> int {
    3
}

/// The element set size of a protection equipment event type.
pub open spec fn protection_size(t: u8) -> int {
    if protection_tag_len(t) >= 0 {
        protection_fixed_len(t) + protection_tag_len(t)
    } else {
        3
    }
}

/// The time tag length of a protection equipment event type, 8 for another type.
fn protection_tag(t: u8) -> (n: usize)
    ensures
        protection_tag_len(t) >= 0 ==> n == protection_tag_len(t),
        protection_tag_len(t) < 0 ==> n == 8,
{
    if t == 17 {
        3
    } else if t == 38 {
        7
    } else {
        8
    }
}

/// The octets of a protection equipment event element set before its time tag.
fn protection_fixed(t: u8) -> (n: usize)
    ensures
        n == protection_fixed_len(t),
{
    3
}

/// The octets of a protection equipment event element set before its time tag, as written.
pub open spec fn protection_fixed_octets(info: EventOfProtectionEquipmentInfo, t: u8) -> Seq<u8> {
    seq![(info.event.spec_value() + protection_quality(info.qdp.0)) as u8] + u16_octets(info.msec)
}

/// Write the octets of a protection equipment event element set before its time tag.
fn put_protection_fixed(buf: &mut Vec<u8>, v: EventOfProtectionEquipmentInfo, t: u8)
    ensures
        final(buf)@ == old(buf)@ + protection_fixed_octets(v, t),
{
    put_u8(buf, v.event.value() + (v.qdp.0 / 8) * 8);
    put_u16(buf, v.msec);
    assert(buf@ =~= old(buf)@ + protection_fixed_octets(v, t));
}

/// The element set of a protection equipment event object as a builder writes it.
pub open spec fn protection_elem_ok(e: Seq<u8>, info: EventOfProtectionEquipmentInfo, t: u8, zone: TimeZone) -> bool {
    e.len() == protection_size(t) && e.subrange(0, protection_fixed_len(t)) == protection_fixed_octets(info, t) && tag_ok(e.subrange(protection_fixed_len(t), e.len() as int), info.time, protection_tag_len(t), zone)
}

/// A protection equipment event object as a getter reads it from its element set.
pub open spec fn protection_decoded(e: Seq<u8>, ioa: u32, info: EventOfProtectionEquipmentInfo, t: u8, zone: TimeZone) -> bool {
    &&& info.ioa == ioa
    &&& info.event == SingleEvent::spec_parse(e[0]) && info.qdp == QualityDescriptorProtection(protection_quality(e[0])) && info.msec == u16_at(e, 1)
    &&& tag_decoded(e.subrange(protection_fixed_len(t), protection_size(t)), info.time, protection_tag_len(t), zone)
}

/// Read the protection equipment event object at `at`.
fn read_protection(b: &[u8], at: usize, ioa: u32, t: u8, tag: usize, zone: TimeZone) -> (info: EventOfProtectionEquipmentInfo)
    requires
        protection_tag_len(t) >= 0,
        tag == protection_tag_len(t),
        at + protection_size(t) <= b.len(),
    ensures
        protection_decoded(b@.subrange(at as int, at + protection_size(t)), ioa, info, t, zone),
{
    let fixed = protection_fixed(t);
    let ghost e = b@.subrange(at as int, at + protection_size(t));
    let x = b[at];
    let msec = get_u16(b, at + 1);
    proof {
        assert(e[0] == x && e[1] == b@[at + 1] && e[2] == b@[at + 2]);
    }
    let time = read_tag(b, at + fixed, tag, zone);
    proof {
        assert(e.subrange(protection_fixed_len(t), protection_size(t)) =~= b@.subrange(at + fixed, at + fixed + tag));
    }
    EventOfProtectionEquipmentInfo { ioa, event: SingleEvent::parse(x), qdp: QualityDescriptorProtection((x / 8) * 8), msec, time }
}

/// The addresses of protection equipment event objects.
pub open spec fn protection_ioas(infos: Seq<EventOfProtectionEquipmentInfo>) -> spec_fn(int) -> u32 {
    |i: int| infos[i].ioa
}

/// The element sets of protection equipment event objects of type `t`.
pub open spec fn protection_elems(infos: Seq<EventOfProtectionEquipmentInfo>, t: u8, zone: TimeZone) -> spec_fn(int, Seq<u8>) -> bool {
    |i: int, e: Seq<u8>| protection_elem_ok(e, infos[i], t, zone)
}

/// The payload a protection equipment event builder writes for `infos`.
pub open spec fn protection_built(p: Params, t: u8, seq: bool, infos: Seq<EventOfProtectionEquipmentInfo>, payload: Seq<u8>) -> bool {
    objects_ok(
        payload,
        p.info_obj_addr_size,
        protection_size(t),
        seq,
        infos.len() as int,
        protection_ioas(infos),
        protection_elems(infos, t, p.info_obj_time_zone),
    )
}

/// What a protection equipment event getter reads from a payload.
pub open spec fn protection_read(p: Params, id: Identifier, payload: Seq<u8>, out: Seq<EventOfProtectionEquipmentInfo>) -> bool {
    let t = id.type_id.0;
    let w = p.info_obj_addr_size;
    let seq = id.variable.is_sequence;
    &&& out.len() == id.variable.number
    &&& forall|i: int|
        0 <= i < out.len() ==> protection_decoded(
            elem_of(w as int, protection_size(t), seq, payload, i),
            obj_ioa(w, protection_size(t), seq, payload, i),
            #[trigger] out[i],
            t,
            p.info_obj_time_zone,
        )
}

impl Asdu {
    /// Build `M_EP_TA_1`, `M_EP_TD_1`: event of protection equipment.
    ///
    /// Only `Spontaneous` is permitted.
    /// See companion standard 101, subclasses 7.3.1.17 and 7.3.1.30.
    pub fn event_of_protection_equipment_with_type(
        params: Params,
        type_id: TypeId,
        coa: CauseOfTransmission,
        ca: CommonAddr,
        infos: &[EventOfProtectionEquipmentInfo],
    ) -> (r: Result<Asdu>)
        ensures
            !(coa.cause.0 == 3) ==> r == Err::<Asdu, Error>(Error::CmdCause),
            (coa.cause.0 == 3) ==> built_outcome(
                r,
                params,
                type_id,
                false,
                coa,
                ca,
                infos@.len() as int,
                protection_ioas(infos@),
                protection_tag_len(type_id.0) >= 0,
                |b: Seq<u8>| protection_built(params, type_id.0, false, infos@, b),
            ),
    {
        if !(coa.cause.0 == 3) {
            return Err(Error::CmdCause);
        }
        let is_sequence = false;
        let mut u = start(params, type_id, is_sequence, coa, ca, infos.len())?;
        let w = params.info_obj_addr_size;
        let zone = params.info_obj_time_zone;
        let t = type_id.0;
        let tag = protection_tag(t);
        let ghost size = protection_size(t);
        let ghost ioa = protection_ioas(infos@);
        let ghost ok = protection_elems(infos@, t, zone);
        let mut buf: Vec<u8> = Vec::new();
        proof {
            objects_empty(w, size, is_sequence, ioa, ok);
        }
        let mut i: usize = 0;
        while i < infos.len()
            invariant
                1 <= w <= 3,
                w == params.info_obj_addr_size,
                zone == params.info_obj_time_zone,
                t == type_id.0,
                0 < infos@.len() < 128,
                i <= infos@.len(),
                protection_tag_len(t) >= 0 ==> tag == protection_tag_len(t),
                protection_tag_len(t) < 0 ==> tag == 8,
                size == protection_size(t),
                ioa == protection_ioas(infos@),
                ok == protection_elems(infos@, t, zone),
                objects_ok(buf@, w, size, is_sequence, i as int, ioa, ok),
                forall|k: int| 0 <= k < i && #[trigger] spec_writes_addr(is_sequence, k) ==> addr_fits(w, ioa(k)),
                i > 0 ==> addr_fits(w, ioa(0)),
                (coa.cause.0 == 3),
                !is_sequence,
                u.params == params,
                u.identifier == built_identifier(type_id, is_sequence, coa, ca, infos@.len() as int),
                crate::asdu::codec::check_valid_error(params, type_id, is_sequence, infos@.len() as int) is None,
                i > 0 ==> tag != 8,
            decreases infos@.len() - i,
        {
            let v = infos[i];
            let ghost b0 = buf@;
            match put_object_addr(&mut buf, w, is_sequence, i, v.ioa) {
                Ok(()) => {},
                Err(e) => {
                    assert(spec_writes_addr(is_sequence, i as int) && !addr_fits(w, ioa(i as int)));
                    return Err(e);
                },
            }
            let ghost b1 = buf@;
            if tag == 8 {
                assert(spec_writes_addr(is_sequence, 0) && addr_fits(w, ioa(0)));
                return Err(Error::TypeIdNotMatch);
            }
            put_protection_fixed(&mut buf, v, t);
            let ghost b15 = buf@;
            put_tag(&mut buf, v.time, tag, zone);
            proof {
                assert(addr_octets(w, ioa(i as int)).len() == w);
                assert(buf@.subrange(0, b15.len() as int) == b15);
                assert forall|j: int| 0 <= j < b1.len() implies buf@[j] == b1[j] by {
                    assert(buf@.subrange(0, b15.len() as int)[j] == buf@[j]);
                }
                assert(buf@.subrange(0, b1.len() as int) =~= b1);
                let e = buf@.subrange(b1.len() as int, buf@.len() as int);
                assert forall|j: int| 0 <= j < protection_fixed_len(t) implies e[j] == #[trigger] b15[b1.len() + j] by {
                    assert(buf@.subrange(0, b15.len() as int)[b1.len() + j] == buf@[b1.len() + j]);
                }
                assert(b15.subrange(b1.len() as int, b15.len() as int) =~= protection_fixed_octets(v, t));
                assert(e.subrange(protection_fixed_len(t), e.len() as int) =~= buf@.subrange(b15.len() as int, buf@.len() as int));
                assert(e.subrange(0, protection_fixed_len(t)) =~= protection_fixed_octets(v, t));
                assert(protection_elem_ok(e, infos@[i as int], t, zone));
                objects_extend(b0, b1, buf@, w, size, is_sequence, i as int, ioa, ok);
            }
            i = i + 1;
        }
        u.info_obj = buf;
        Ok(u)
    }

    /// Build `M_EP_TA_1`: event of protection equipment with a CP24Time2a time tag.
    pub fn event_of_protection_equipment_cp24time2a(
        params: Params,
        coa: CauseOfTransmission,
        ca: CommonAddr,
        infos: &[EventOfProtectionEquipmentInfo],
    ) -> (r: Result<Asdu>)
        ensures
            !(coa.cause.0 == 3) ==> r == Err::<Asdu, Error>(Error::CmdCause),
            (coa.cause.0 == 3) ==> built_outcome(
                r,
                params,
                TypeId(17),
                false,
                coa,
                ca,
                infos@.len() as int,
                protection_ioas(infos@),
                true,
                |b: Seq<u8>| protection_built(params, 17, false, infos@, b),
            ),
    {
        Self::event_of_protection_equipment_with_type(params, TypeId(17), coa, ca, infos)
    }

    /// Build `M_EP_TD_1`: event of protection equipment with a CP56Time2a time tag.
    pub fn event_of_protection_equipment_cp56time2a(
        params: Params,
        coa: CauseOfTransmission,
        ca: CommonAddr,
        infos: &[EventOfProtectionEquipmentInfo],
    ) -> (r: Result<Asdu>)
        ensures
            !(coa.cause.0 == 3) ==> r == Err::<Asdu, Error>(Error::CmdCause),
            (coa.cause.0 == 3) ==> built_outcome(
                r,
                params,
                TypeId(38),
                false,
                coa,
                ca,
                infos@.len() as int,
                protection_ioas(infos@),
                true,
                |b: Seq<u8>| protection_built(params, 38, false, infos@, b),
            ),
    {
        Self::event_of_protection_equipment_with_type(params, TypeId(38), coa, ca, infos)
    }

    /// Decode `M_EP_TA_1`, `M_EP_TD_1`.
    pub fn get_event_of_protection_equipment(&self) -> (r: Result<Vec<EventOfProtectionEquipmentInfo>>)
        ensures
            read_outcome(
                r,
                read_error(
                    self.params,
                    self.identifier.variable,
                    self.info_obj@.len() as int,
                    protection_tag_len(self.identifier.type_id.0) >= 0,
                    3,
                    protection_size(self.identifier.type_id.0),
                ),
                |out: Seq<EventOfProtectionEquipmentInfo>| protection_read(self.params, self.identifier, self.info_obj@, out),
            ),
    {
        let t = self.identifier.type_id.0;
        let tag = protection_tag(t);
        let family = tag != 8;
        let size: usize = if tag != 8 {
            protection_fixed(t) + tag
        } else {
            3
        };
        let b = self.info_obj.as_slice();
        let pos = object_positions(&self.params, self.identifier.variable, b, family, 3, size)?;
        let zone = self.params.info_obj_time_zone;
        let ghost w = self.params.info_obj_addr_size;
        let ghost seq = self.identifier.variable.is_sequence;
        let mut out: Vec<EventOfProtectionEquipmentInfo> = Vec::new();
        let mut j: usize = 0;
        while j < pos.len()
            invariant
                b@ == self.info_obj@,
                zone == self.params.info_obj_time_zone,
                pos@.len() == self.identifier.variable.number,
                pos@.len() > 0 ==> family,
                family ==> protection_tag_len(t) >= 0,
                protection_tag_len(t) >= 0 ==> tag == protection_tag_len(t),
                size == protection_size(t),
                t == self.identifier.type_id.0,
                forall|i: int|
                    0 <= i < pos@.len() ==> (#[trigger] pos@[i]).0 == obj_ioa(w, size as int, seq, b@, i)
                        && pos@[i].1 == crate::asdu::objects::elem_pos(w as int, size as int, seq, i) && pos@[i].1
                        + size <= b@.len(),
                w == self.params.info_obj_addr_size,
                seq == self.identifier.variable.is_sequence,
                j <= pos@.len(),
                out@.len() == j,
                forall|k: int|
                    0 <= k < j ==> protection_decoded(
                        elem_of(w as int, protection_size(t), seq, b@, k),
                        obj_ioa(w, protection_size(t), seq, b@, k),
                        #[trigger] out@[k],
                        t,
                        zone,
                    ),
            decreases pos@.len() - j,
        {
            let (ioa, at) = pos[j];
            let info = read_protection(b, at, ioa, t, tag, zone);
            out.push(info);
            j = j + 1;
        }
        Ok(out)
    }
}

/// A protection equipment event payload reads back the objects it was built from: the address of
/// each (consecutive ones in a sequence), its event state, the quality bits of its descriptor, its elapsed time,
/// and its time as [`time_read_back`] says.
pub proof fn protection_round_trip(p: Params, id: Identifier, infos: Seq<EventOfProtectionEquipmentInfo>, payload: Seq<u8>, out: Seq<EventOfProtectionEquipmentInfo>)
    requires
        p.spec_valid(),
        protection_tag_len(id.type_id.0) >= 0,
        0 < infos.len() < 128,
        id.variable.number == infos.len(),
        forall|i: int|
            0 <= i < infos.len() && #[trigger] spec_writes_addr(id.variable.is_sequence, i) ==> addr_fits(
                p.info_obj_addr_size,
                infos[i].ioa,
            ),
        id.variable.is_sequence ==> consecutive(protection_ioas(infos), infos.len() as int),
        protection_built(p, id.type_id.0, id.variable.is_sequence, infos, payload),
        protection_read(p, id, payload, out),
    ensures
        read_error(p, id.variable, payload.len() as int, true, 3, protection_size(id.type_id.0)) is None,
        forall|i: int|
            0 <= i < infos.len() ==> (#[trigger] out[i]).ioa == infos[i].ioa && out[i].event == infos[i].event && out[i].qdp == QualityDescriptorProtection(protection_quality(infos[i].qdp.0)) && out[i].msec == infos[i].msec && time_read_back(
                infos[i].time,
                out[i].time,
                protection_tag_len(id.type_id.0),
                p.info_obj_time_zone,
            ),
{
    let t = id.type_id.0;
    let w = p.info_obj_addr_size;
    let seq = id.variable.is_sequence;
    let n = infos.len() as int;
    let size = protection_size(t);
    let zone = p.info_obj_time_zone;
    objects_read_back(payload, w, size, seq, n, protection_ioas(infos), protection_elems(infos, t, zone));
    assert forall|i: int| 0 <= i < n implies (#[trigger] out[i]).ioa == infos[i].ioa && out[i].event == infos[i].event && out[i].qdp == QualityDescriptorProtection(protection_quality(infos[i].qdp.0)) && out[i].msec == infos[i].msec && time_read_back(
                infos[i].time,
                out[i].time,
                protection_tag_len(t),
                p.info_obj_time_zone,
            ) by {
        let e = elem_of(w as int, size, seq, payload, i);
        assert(protection_elems(infos, t, zone)(i, e));
        assert(obj_ioa(w, size, seq, payload, i) == protection_ioas(infos)(i));
        let fx = e.subrange(0, protection_fixed_len(t));
        assert(fx == protection_fixed_octets(infos[i], t));
        assert(forall|j: int| 0 <= j < protection_fixed_len(t) ==> #[trigger] e[j] == fx[j]);
        low_bits_under_quality(infos[i].event.spec_value(), infos[i].qdp.0, 8);
        assert(e[0] == fx[0]);
        assert(e[0] % 4 == infos[i].event.spec_value());
        assert(SingleEvent::spec_parse(e[0]) == infos[i].event);
        tag_read_back(e.subrange(protection_fixed_len(t), protection_size(t)), infos[i].time, out[i].time, protection_tag_len(t), zone);
    }
}



/// The time tag length of a packed start events type, or -1 for another type.
pub open spec fn start_events_tag_len(t: u8) -> int {
    if t == 18 {
        3
    } else if t == 39 {
        7
    } else {
        -1
    }
}

/// The octets of a packed start events element set before its time tag.
pub open spec fn start_events_fixed_len(t: u8) -> int {
    4
}

/// The element set size of a packed start events type.
pub open spec fn start_events_size(t: u8) -> int {
    if start_events_tag_len(t) >= 0 {
        start_events_fixed_len(t) + start_events_tag_len(t)
    } else {
        4
    }
}

/// The time tag length of a packed start events type, 8 for another type.
fn start_events_tag(t: u8) -> (n: usize)
    ensures
        start_events_tag_len(t) >= 0 ==> n == start_events_tag_len(t),
        start_events_tag_len(t) < 0 ==> n == 8,
{
    if t == 18 {
        3
    } else if t == 39 {
        7
    } else {
        8
    }
}

/// The octets of a packed start events element set before its time tag.
fn start_events_fixed(t: u8) -> (n: usize)
    ensures
        n == start_events_fixed_len(t),
{
    4
}

/// The octets of a packed start events element set before its time tag, as written.
pub open spec fn start_events_fixed_octets(info: PackedStartEventsOfProtectionEquipmentInfo, t: u8) -> Seq<u8> {
    seq![info.event.0, protection_quality(info.qdp.0)] + u16_octets(info.msec)
}

/// Write the octets of a packed start events element set before its time tag.
fn put_start_events_fixed(buf: &mut Vec<u8>, v: PackedStartEventsOfProtectionEquipmentInfo, t: u8)
    ensures
        final(buf)@ == old(buf)@ + start_events_fixed_octets(v, t),
{
    put_u8(buf, v.event.0);
    put_u8(buf, (v.qdp.0 / 8) * 8);
    put_u16(buf, v.msec);
    assert(buf@ =~= old(buf)@ + start_events_fixed_octets(v, t));
}

/// The element set of a packed start events object as a builder writes it.
pub open spec fn start_events_elem_ok(e: Seq<u8>, info: PackedStartEventsOfProtectionEquipmentInfo, t: u8, zone: TimeZone) -> bool {
    e.len() == start_events_size(t) && e.subrange(0, start_events_fixed_len(t)) == start_events_fixed_octets(info, t) && tag_ok(e.subrange(start_events_fixed_len(t), e.len() as int), info.time, start_events_tag_len(t), zone)
}

/// A packed start events object as a getter reads it from its element set.
pub open spec fn start_events_decoded(e: Seq<u8>, ioa: u32, info: PackedStartEventsOfProtectionEquipmentInfo, t: u8, zone: TimeZone) -> bool {
    &&& info.ioa == ioa
    &&& info.event == StartEvent(e[0]) && info.qdp == QualityDescriptorProtection(protection_quality(e[1])) && info.msec == u16_at(e, 2)
    &&& tag_decoded(e.subrange(start_events_fixed_len(t), start_events_size(t)), info.time, start_events_tag_len(t), zone)
}

/// Read the packed start events object at `at`.
fn read_start_events(b: &[u8], at: usize, ioa: u32, t: u8, tag: usize, zone: TimeZone) -> (info: PackedStartEventsOfProtectionEquipmentInfo)
    requires
        start_events_tag_len(t) >= 0,
        tag == start_events_tag_len(t),
        at + start_events_size(t) <= b.len(),
    ensures
        start_events_decoded(b@.subrange(at as int, at + start_events_size(t)), ioa, info, t, zone),
{
    let fixed = start_events_fixed(t);
    let ghost e = b@.subrange(at as int, at + start_events_size(t));
    let x = b[at];
    let q = b[at + 1];
    let msec = get_u16(b, at + 2);
    proof {
        assert(e[0] == x && e[1] == q && e[2] == b@[at + 2] && e[3] == b@[at + 3]);
    }
    let time = read_tag(b, at + fixed, tag, zone);
    proof {
        assert(e.subrange(start_events_fixed_len(t), start_events_size(t)) =~= b@.subrange(at + fixed, at + fixed + tag));
    }
    PackedStartEventsOfProtectionEquipmentInfo { ioa, event: StartEvent(x), qdp: QualityDescriptorProtection((q / 8) * 8), msec, time }
}

/// The addresses of packed start events objects.
pub open spec fn start_events_ioas(infos: Seq<PackedStartEventsOfProtectionEquipmentInfo>) -> spec_fn(int) -> u32 {
    |i: int| infos[i].ioa
}

/// The element sets of packed start events objects of type `t`.
pub open spec fn start_events_elems(infos: Seq<PackedStartEventsOfProtectionEquipmentInfo>, t: u8, zone: TimeZone) -> spec_fn(int, Seq<u8>) -> bool {
    |i: int, e: Seq<u8>| start_events_elem_ok(e, infos[i], t, zone)
}

/// The payload a packed start events builder writes for `infos`.
pub open spec fn start_events_built(p: Params, t: u8, seq: bool, infos: Seq<PackedStartEventsOfProtectionEquipmentInfo>, payload: Seq<u8>) -> bool {
    objects_ok(
        payload,
        p.info_obj_addr_size,
        start_events_size(t),
        seq,
        infos.len() as int,
        start_events_ioas(infos),
        start_events_elems(infos, t, p.info_obj_time_zone),
    )
}

/// What a packed start events getter reads from a payload.
pub open spec fn start_events_read(p: Params, id: Identifier, payload: Seq<u8>, out: Seq<PackedStartEventsOfProtectionEquipmentInfo>) -> bool {
    let t = id.type_id.0;
    let w = p.info_obj_addr_size;
    let seq = id.variable.is_sequence;
    &&& out.len() == id.variable.number
    &&& forall|i: int|
        0 <= i < out.len() ==> start_events_decoded(
            elem_of(w as int, start_events_size(t), seq, payload, i),
            obj_ioa(w, start_events_size(t), seq, payload, i),
            #[trigger] out[i],
            t,
            p.info_obj_time_zone,
        )
}

/// The one-object sequence of a builder's argument.
pub open spec fn start_events_one(info: PackedStartEventsOfProtectionEquipmentInfo) -> Seq<PackedStartEventsOfProtectionEquipmentInfo> {
    seq![info]
}

impl Asdu {
    /// Build `M_EP_TB_1`, `M_EP_TE_1`: packed start events of protection
    /// equipment. Always exactly one information object; only `Spontaneous`
    /// is permitted.
    ///
    /// See companion standard 101, subclasses 7.3.1.18 and 7.3.1.31.
    pub fn packed_start_events_with_type(
        params: Params,
        type_id: TypeId,
        coa: CauseOfTransmission,
        ca: CommonAddr,
        info: PackedStartEventsOfProtectionEquipmentInfo,
    ) -> (r: Result<Asdu>)
        ensures
            !(coa.cause.0 == 3) ==> r == Err::<Asdu, Error>(Error::CmdCause),
            (coa.cause.0 == 3) ==> built_outcome(
                r,
                params,
                type_id,
                false,
                coa,
                ca,
                1,
                start_events_ioas(start_events_one(info)),
                start_events_tag_len(type_id.0) >= 0,
                |b: Seq<u8>| start_events_built(params, type_id.0, false, start_events_one(info), b),
            ),
    {
        if coa.cause.0 != 3 {
            return Err(Error::CmdCause);
        }
        let mut u = start(params, type_id, false, coa, ca, 1)?;
        let w = params.info_obj_addr_size;
        let zone = params.info_obj_time_zone;
        let t = type_id.0;
        let tag = start_events_tag(t);
        let ghost infos = start_events_one(info);
        let ghost size = start_events_size(t);
        let ghost ioa = start_events_ioas(infos);
        let ghost ok = start_events_elems(infos, t, zone);
        let mut buf: Vec<u8> = Vec::new();
        proof {
            objects_empty(w, size, false, ioa, ok);
        }
        match put_object_addr(&mut buf, w, false, 0, info.ioa) {
            Ok(()) => {},
            Err(e) => {
                assert(spec_writes_addr(false, 0) && !addr_fits(w, ioa(0)));
                return Err(e);
            },
        }
        let ghost b1 = buf@;
        put_start_events_fixed(&mut buf, info, t);
        let ghost b15 = buf@;
        if tag == 8 {
            assert(spec_writes_addr(false, 0) && addr_fits(w, ioa(0)));
            return Err(Error::TypeIdNotMatch);
        }
        put_tag(&mut buf, info.time, tag, zone);
        proof {
            assert(addr_octets(w, ioa(0)).len() == w);
            assert(buf@.subrange(0, b15.len() as int) == b15);
            assert forall|j: int| 0 <= j < b1.len() implies buf@[j] == b1[j] by {
                assert(buf@.subrange(0, b15.len() as int)[j] == buf@[j]);
            }
            assert(buf@.subrange(0, b1.len() as int) =~= b1);
            let e = buf@.subrange(b1.len() as int, buf@.len() as int);
            assert forall|j: int| 0 <= j < start_events_fixed_len(t) implies e[j] == #[trigger] b15[b1.len() + j] by {
                assert(buf@.subrange(0, b15.len() as int)[b1.len() + j] == buf@[b1.len() + j]);
            }
            assert(b15.subrange(b1.len() as int, b15.len() as int) =~= start_events_fixed_octets(info, t));
            assert(e.subrange(start_events_fixed_len(t), e.len() as int) =~= buf@.subrange(b15.len() as int, buf@.len() as int));
            assert(e.subrange(0, start_events_fixed_len(t)) =~= start_events_fixed_octets(info, t));
            assert(start_events_elem_ok(e, infos[0], t, zone));
            objects_extend(Seq::<u8>::empty(), b1, buf@, w, size, false, 0, ioa, ok);
            assert(forall|k: int| 0 <= k < 1 && #[trigger] spec_writes_addr(false, k) ==> k == 0);
        }
        u.info_obj = buf;
        Ok(u)
    }

    /// Build `M_EP_TB_1`: packed start events with a CP24Time2a time tag.
    pub fn packed_start_events_cp24time2a(params: Params, coa: CauseOfTransmission, ca: CommonAddr, info: PackedStartEventsOfProtectionEquipmentInfo) -> (r: Result<Asdu>)
        ensures
            !(coa.cause.0 == 3) ==> r == Err::<Asdu, Error>(Error::CmdCause),
            (coa.cause.0 == 3) ==> built_outcome(
                r,
                params,
                TypeId(18),
                false,
                coa,
                ca,
                1,
                start_events_ioas(start_events_one(info)),
                true,
                |b: Seq<u8>| start_events_built(params, 18, false, start_events_one(info), b),
            ),
    {
        Self::packed_start_events_with_type(params, TypeId(18), coa, ca, info)
    }

    /// Build `M_EP_TE_1`: packed start events with a CP56Time2a time tag.
    pub fn packed_start_events_cp56time2a(params: Params, coa: CauseOfTransmission, ca: CommonAddr, info: PackedStartEventsOfProtectionEquipmentInfo) -> (r: Result<Asdu>)
        ensures
            !(coa.cause.0 == 3) ==> r == Err::<Asdu, Error>(Error::CmdCause),
            (coa.cause.0 == 3) ==> built_outcome(
                r,
                params,
                TypeId(39),
                false,
                coa,
                ca,
                1,
                start_events_ioas(start_events_one(info)),
                true,
                |b: Seq<u8>| start_events_built(params, 39, false, start_events_one(info), b),
            ),
    {
        Self::packed_start_events_with_type(params, TypeId(39), coa, ca, info)
    }

    /// Decode `M_EP_TB_1`, `M_EP_TE_1`; the ASDU must hold exactly one object, not a sequence.
    pub fn get_packed_start_events(&self) -> (r: Result<PackedStartEventsOfProtectionEquipmentInfo>)
        ensures
            self.identifier.variable.is_sequence || self.identifier.variable.number != 1 ==> r == Err::<
                PackedStartEventsOfProtectionEquipmentInfo,
                Error,
            >(Error::InfoObjIndexFit),
            !self.identifier.variable.is_sequence && self.identifier.variable.number == 1 ==> match read_error(
                self.params,
                self.identifier.variable,
                self.info_obj@.len() as int,
                start_events_tag_len(self.identifier.type_id.0) >= 0,
                4,
                start_events_size(self.identifier.type_id.0),
            ) {
                Some(e) => r == Err::<PackedStartEventsOfProtectionEquipmentInfo, Error>(e),
                None => r matches Ok(info) && start_events_read(self.params, self.identifier, self.info_obj@, seq![info]),
            },
    {
        if self.identifier.variable.is_sequence || self.identifier.variable.number != 1 {
            return Err(Error::InfoObjIndexFit);
        }
        let t = self.identifier.type_id.0;
        let tag = start_events_tag(t);
        let size: usize = if tag != 8 {
            start_events_fixed(t) + tag
        } else {
            4
        };
        let b = self.info_obj.as_slice();
        let pos = object_positions(&self.params, self.identifier.variable, b, tag != 8, 4, size)?;
        let (ioa, at) = pos[0];
        let info = read_start_events(b, at, ioa, t, tag, self.params.info_obj_time_zone);
        assert(seq![info][0] == info);
        Ok(info)
    }
}

/// A packed start events payload reads back the object it was built from: its address, its start events, the quality bits of its descriptor, its relay
/// duration, and its time as [`time_read_back`] says.
pub proof fn start_events_round_trip(p: Params, id: Identifier, info: PackedStartEventsOfProtectionEquipmentInfo, payload: Seq<u8>, out: PackedStartEventsOfProtectionEquipmentInfo)
    requires
        p.spec_valid(),
        start_events_tag_len(id.type_id.0) >= 0,
        id.variable.number == 1,
        !id.variable.is_sequence,
        addr_fits(p.info_obj_addr_size, info.ioa),
        start_events_built(p, id.type_id.0, false, start_events_one(info), payload),
        start_events_read(p, id, payload, seq![out]),
    ensures
        read_error(p, id.variable, payload.len() as int, true, 4, start_events_size(id.type_id.0)) is None,
        out.ioa == info.ioa && out.event == info.event && out.qdp == QualityDescriptorProtection(protection_quality(info.qdp.0)) && out.msec == info.msec && time_read_back(
            info.time,
            out.time,
            start_events_tag_len(id.type_id.0),
            p.info_obj_time_zone,
        ),
{
    let t = id.type_id.0;
    let w = p.info_obj_addr_size;
    let size = start_events_size(t);
    let zone = p.info_obj_time_zone;
    let infos = start_events_one(info);
    assert(forall|i: int| 0 <= i < 1 && #[trigger] spec_writes_addr(false, i) ==> addr_fits(w, infos[i].ioa));
    objects_read_back(payload, w, size, false, 1, start_events_ioas(infos), start_events_elems(infos, t, zone));
    let e = elem_of(w as int, size, false, payload, 0);
    assert(start_events_elems(infos, t, zone)(0, e));
    assert(seq![out][0] == out);
    assert(obj_ioa(w, size, false, payload, 0) == start_events_ioas(infos)(0));
    let fx = e.subrange(0, start_events_fixed_len(t));
    assert(fx == start_events_fixed_octets(info, t));
    assert(forall|j: int| 0 <= j < start_events_fixed_len(t) ==> #[trigger] e[j] == fx[j]);
    assert(protection_quality(protection_quality(info.qdp.0)) == protection_quality(info.qdp.0));
    tag_read_back(e.subrange(start_events_fixed_len(t), start_events_size(t)), info.time, out.time, start_events_tag_len(t), zone);
}

/// The time tag length of a packed output circuit information type, or -1 for another type.
pub open spec fn output_circuit_tag_len(t: u8) -> int {
    if t == 19 {
        3
    } else if t == 40 {
        7
    } else {
        -1
    }
}

/// The octets of a packed output circuit information element set before its time tag.
pub open spec fn output_circuit_fixed_len(t: u8) -> int {
    4
}

/// The element set size of a packed output circuit information type.
pub open spec fn output_circuit_size(t: u8) -> int {
    if output_circuit_tag_len(t) >= 0 {
        output_circuit_fixed_len(t) + output_circuit_tag_len(t)
    } else {
        4
    }
}

/// The time tag length of a packed output circuit information type, 8 for another type.
fn output_circuit_tag(t: u8) -> (n: usize)
    ensures
        output_circuit_tag_len(t) >= 0 ==> n == output_circuit_tag_len(t),
        output_circuit_tag_len(t) < 0 ==> n == 8,
{
    if t == 19 {
        3
    } else if t == 40 {
        7
    } else {
        8
    }
}

/// The octets of a packed output circuit information element set before its time tag.
fn output_circuit_fixed(t: u8) -> (n: usize)
    ensures
        n == output_circuit_fixed_len(t),
{
    4
}

/// The octets of a packed output circuit information element set before its time tag, as written.
pub open spec fn output_circuit_fixed_octets(info: PackedOutputCircuitInfoInfo, t: u8) -> Seq<u8> {
    seq![info.oci.0, protection_quality(info.qdp.0)] + u16_octets(info.msec)
}

/// Write the octets of a packed output circuit information element set before its time tag.
fn put_output_circuit_fixed(buf: &mut Vec<u8>, v: PackedOutputCircuitInfoInfo, t: u8)
    ensures
        final(buf)@ == old(buf)@ + output_circuit_fixed_octets(v, t),
{
    put_u8(buf, v.oci.0);
    put_u8(buf, (v.qdp.0 / 8) * 8);
    put_u16(buf, v.msec);
    assert(buf@ =~= old(buf)@ + output_circuit_fixed_octets(v, t));
}

/// The element set of a packed output circuit information object as a builder writes it.
pub open spec fn output_circuit_elem_ok(e: Seq<u8>, info: PackedOutputCircuitInfoInfo, t: u8, zone: TimeZone) -> bool {
    e.len() == output_circuit_size(t) && e.subrange(0, output_circuit_fixed_len(t)) == output_circuit_fixed_octets(info, t) && tag_ok(e.subrange(output_circuit_fixed_len(t), e.len() as int), info.time, output_circuit_tag_len(t), zone)
}

/// A packed output circuit information object as a getter reads it from its element set.
pub open spec fn output_circuit_decoded(e: Seq<u8>, ioa: u32, info: PackedOutputCircuitInfoInfo, t: u8, zone: TimeZone) -> bool {
    &&& info.ioa == ioa
    &&& info.oci == OutputCircuitInfo(e[0]) && info.qdp == QualityDescriptorProtection(protection_quality(e[1])) && info.msec == u16_at(e, 2)
    &&& tag_decoded(e.subrange(output_circuit_fixed_len(t), output_circuit_size(t)), info.time, output_circuit_tag_len(t), zone)
}

/// Read the packed output circuit information object at `at`.
fn read_output_circuit(b: &[u8], at: usize, ioa: u32, t: u8, tag: usize, zone: TimeZone) -> (info: PackedOutputCircuitInfoInfo)
    requires
        output_circuit_tag_len(t) >= 0,
        tag == output_circuit_tag_len(t),
        at + output_circuit_size(t) <= b.len(),
    ensures
        output_circuit_decoded(b@.subrange(at as int, at + output_circuit_size(t)), ioa, info, t, zone),
{
    let fixed = output_circuit_fixed(t);
    let ghost e = b@.subrange(at as int, at + output_circuit_size(t));
    let x = b[at];
    let q = b[at + 1];
    let msec = get_u16(b, at + 2);
    proof {
        assert(e[0] == x && e[1] == q && e[2] == b@[at + 2] && e[3] == b@[at + 3]);
    }
    let time = read_tag(b, at + fixed, tag, zone);
    proof {
        assert(e.subrange(output_circuit_fixed_len(t), output_circuit_size(t)) =~= b@.subrange(at + fixed, at + fixed + tag));
    }
    PackedOutputCircuitInfoInfo { ioa, oci: OutputCircuitInfo(x), qdp: QualityDescriptorProtection((q / 8) * 8), msec, time }
}

/// The addresses of packed output circuit information objects.
pub open spec fn output_circuit_ioas(infos: Seq<PackedOutputCircuitInfoInfo>) -> spec_fn(int) -> u32 {
    |i: int| infos[i].ioa
}

/// The element sets of packed output circuit information objects of type `t`.
pub open spec fn output_circuit_elems(infos: Seq<PackedOutputCircuitInfoInfo>, t: u8, zone: TimeZone) -> spec_fn(int, Seq<u8>) -> bool {
    |i: int, e: Seq<u8>| output_circuit_elem_ok(e, infos[i], t, zone)
}

/// The payload a packed output circuit information builder writes for `infos`.
pub open spec fn output_circuit_built(p: Params, t: u8, seq: bool, infos: Seq<PackedOutputCircuitInfoInfo>, payload: Seq<u8>) -> bool {
    objects_ok(
        payload,
        p.info_obj_addr_size,
        output_circuit_size(t),
        seq,
        infos.len() as int,
        output_circuit_ioas(infos),
        output_circuit_elems(infos, t, p.info_obj_time_zone),
    )
}

/// What a packed output circuit information getter reads from a payload.
pub open spec fn output_circuit_read(p: Params, id: Identifier, payload: Seq<u8>, out: Seq<PackedOutputCircuitInfoInfo>) -> bool {
    let t = id.type_id.0;
    let w = p.info_obj_addr_size;
    let seq = id.variable.is_sequence;
    &&& out.len() == id.variable.number
    &&& forall|i: int|
        0 <= i < out.len() ==> output_circuit_decoded(
            elem_of(w as int, output_circuit_size(t), seq, payload, i),
            obj_ioa(w, output_circuit_size(t), seq, payload, i),
            #[trigger] out[i],
            t,
            p.info_obj_time_zone,
        )
}

/// The one-object sequence of a builder's argument.
pub open spec fn output_circuit_one(info: PackedOutputCircuitInfoInfo) -> Seq<PackedOutputCircuitInfoInfo> {
    seq![info]
}

impl Asdu {
    /// Build `M_EP_TC_1`, `M_EP_TF_1`: packed output circuit information
    /// of protection equipment. Always exactly one information object; only
    /// `Spontaneous` is permitted.
    ///
    /// See companion standard 101, subclasses 7.3.1.19 and 7.3.1.32.
    pub fn packed_output_circuit_info_with_type(
        params: Params,
        type_id: TypeId,
        coa: CauseOfTransmission,
        ca: CommonAddr,
        info: PackedOutputCircuitInfoInfo,
    ) -> (r: Result<Asdu>)
        ensures
            !(coa.cause.0 == 3) ==> r == Err::<Asdu, Error>(Error::CmdCause),
            (coa.cause.0 == 3) ==> built_outcome(
                r,
                params,
                type_id,
                false,
                coa,
                ca,
                1,
                output_circuit_ioas(output_circuit_one(info)),
                output_circuit_tag_len(type_id.0) >= 0,
                |b: Seq<u8>| output_circuit_built(params, type_id.0, false, output_circuit_one(info), b),
            ),
    {
        if coa.cause.0 != 3 {
            return Err(Error::CmdCause);
        }
        let mut u = start(params, type_id, false, coa, ca, 1)?;
        let w = params.info_obj_addr_size;
        let zone = params.info_obj_time_zone;
        let t = type_id.0;
        let tag = output_circuit_tag(t);
        let ghost infos = output_circuit_one(info);
        let ghost size = output_circuit_size(t);
        let ghost ioa = output_circuit_ioas(infos);
        let ghost ok = output_circuit_elems(infos, t, zone);
        let mut buf: Vec<u8> = Vec::new();
        proof {
            objects_empty(w, size, false, ioa, ok);
        }
        match put_object_addr(&mut buf, w, false, 0, info.ioa) {
            Ok(()) => {},
            Err(e) => {
                assert(spec_writes_addr(false, 0) && !addr_fits(w, ioa(0)));
                return Err(e);
            },
        }
        let ghost b1 = buf@;
        put_output_circuit_fixed(&mut buf, info, t);
        let ghost b15 = buf@;
        if tag == 8 {
            assert(spec_writes_addr(false, 0) && addr_fits(w, ioa(0)));
            return Err(Error::TypeIdNotMatch);
        }
        put_tag(&mut buf, info.time, tag, zone);
        proof {
            assert(addr_octets(w, ioa(0)).len() == w);
            assert(buf@.subrange(0, b15.len() as int) == b15);
            assert forall|j: int| 0 <= j < b1.len() implies buf@[j] == b1[j] by {
                assert(buf@.subrange(0, b15.len() as int)[j] == buf@[j]);
            }
            assert(buf@.subrange(0, b1.len() as int) =~= b1);
            let e = buf@.subrange(b1.len() as int, buf@.len() as int);
            assert forall|j: int| 0 <= j < output_circuit_fixed_len(t) implies e[j] == #[trigger] b15[b1.len() + j] by {
                assert(buf@.subrange(0, b15.len() as int)[b1.len() + j] == buf@[b1.len() + j]);
            }
            assert(b15.subrange(b1.len() as int, b15.len() as int) =~= output_circuit_fixed_octets(info, t));
            assert(e.subrange(output_circuit_fixed_len(t), e.len() as int) =~= buf@.subrange(b15.len() as int, buf@.len() as int));
            assert(e.subrange(0, output_circuit_fixed_len(t)) =~= output_circuit_fixed_octets(info, t));
            assert(output_circuit_elem_ok(e, infos[0], t, zone));
            objects_extend(Seq::<u8>::empty(), b1, buf@, w, size, false, 0, ioa, ok);
            assert(forall|k: int| 0 <= k < 1 && #[trigger] spec_writes_addr(false, k) ==> k == 0);
        }
        u.info_obj = buf;
        Ok(u)
    }

    /// Build `M_EP_TC_1`: packed output circuit information, CP24Time2a.
    pub fn packed_output_circuit_info_cp24time2a(params: Params, coa: CauseOfTransmission, ca: CommonAddr, info: PackedOutputCircuitInfoInfo) -> (r: Result<Asdu>)
        ensures
            !(coa.cause.0 == 3) ==> r == Err::<Asdu, Error>(Error::CmdCause),
            (coa.cause.0 == 3) ==> built_outcome(
                r,
                params,
                TypeId(19),
                false,
                coa,
                ca,
                1,
                output_circuit_ioas(output_circuit_one(info)),
                true,
                |b: Seq<u8>| output_circuit_built(params, 19, false, output_circuit_one(info), b),
            ),
    {
        Self::packed_output_circuit_info_with_type(params, TypeId(19), coa, ca, info)
    }

    /// Build `M_EP_TF_1`: packed output circuit information, CP56Time2a.
    pub fn packed_output_circuit_info_cp56time2a(params: Params, coa: CauseOfTransmission, ca: CommonAddr, info: PackedOutputCircuitInfoInfo) -> (r: Result<Asdu>)
        ensures
            !(coa.cause.0 == 3) ==> r == Err::<Asdu, Error>(Error::CmdCause),
            (coa.cause.0 == 3) ==> built_outcome(
                r,
                params,
                TypeId(40),
                false,
                coa,
                ca,
                1,
                output_circuit_ioas(output_circuit_one(info)),
                true,
                |b: Seq<u8>| output_circuit_built(params, 40, false, output_circuit_one(info), b),
            ),
    {
        Self::packed_output_circuit_info_with_type(params, TypeId(40), coa, ca, info)
    }

    /// Decode `M_EP_TC_1`, `M_EP_TF_1`; the ASDU must hold exactly one object, not a sequence.
    pub fn get_packed_output_circuit_info(&self) -> (r: Result<PackedOutputCircuitInfoInfo>)
        ensures
            self.identifier.variable.is_sequence || self.identifier.variable.number != 1 ==> r == Err::<
                PackedOutputCircuitInfoInfo,
                Error,
            >(Error::InfoObjIndexFit),
            !self.identifier.variable.is_sequence && self.identifier.variable.number == 1 ==> match read_error(
                self.params,
                self.identifier.variable,
                self.info_obj@.len() as int,
                output_circuit_tag_len(self.identifier.type_id.0) >= 0,
                4,
                output_circuit_size(self.identifier.type_id.0),
            ) {
                Some(e) => r == Err::<PackedOutputCircuitInfoInfo, Error>(e),
                None => r matches Ok(info) && output_circuit_read(self.params, self.identifier, self.info_obj@, seq![info]),
            },
    {
        if self.identifier.variable.is_sequence || self.identifier.variable.number != 1 {
            return Err(Error::InfoObjIndexFit);
        }
        let t = self.identifier.type_id.0;
        let tag = output_circuit_tag(t);
        let size: usize = if tag != 8 {
            output_circuit_fixed(t) + tag
        } else {
            4
        };
        let b = self.info_obj.as_slice();
        let pos = object_positions(&self.params, self.identifier.variable, b, tag != 8, 4, size)?;
        let (ioa, at) = pos[0];
        let info = read_output_circuit(b, at, ioa, t, tag, self.params.info_obj_time_zone);
        assert(seq![info][0] == info);
        Ok(info)
    }
}

/// A packed output circuit information payload reads back the object it was built from: its address, its output circuits, the quality bits of its descriptor, its
/// operating time, and its time as [`time_read_back`] says.
pub proof fn output_circuit_round_trip(p: Params, id: Identifier, info: PackedOutputCircuitInfoInfo, payload: Seq<u8>, out: PackedOutputCircuitInfoInfo)
    requires
        p.spec_valid(),
        output_circuit_tag_len(id.type_id.0) >= 0,
        id.variable.number == 1,
        !id.variable.is_sequence,
        addr_fits(p.info_obj_addr_size, info.ioa),
        output_circuit_built(p, id.type_id.0, false, output_circuit_one(info), payload),
        output_circuit_read(p, id, payload, seq![out]),
    ensures
        read_error(p, id.variable, payload.len() as int, true, 4, output_circuit_size(id.type_id.0)) is None,
        out.ioa == info.ioa && out.oci == info.oci && out.qdp == QualityDescriptorProtection(protection_quality(info.qdp.0)) && out.msec == info.msec && time_read_back(
            info.time,
            out.time,
            output_circuit_tag_len(id.type_id.0),
            p.info_obj_time_zone,
        ),
{
    let t = id.type_id.0;
    let w = p.info_obj_addr_size;
    let size = output_circuit_size(t);
    let zone = p.info_obj_time_zone;
    let infos = output_circuit_one(info);
    assert(forall|i: int| 0 <= i < 1 && #[trigger] spec_writes_addr(false, i) ==> addr_fits(w, infos[i].ioa));
    objects_read_back(payload, w, size, false, 1, output_circuit_ioas(infos), output_circuit_elems(infos, t, zone));
    let e = elem_of(w as int, size, false, payload, 0);
    assert(output_circuit_elems(infos, t, zone)(0, e));
    assert(seq![out][0] == out);
    assert(obj_ioa(w, size, false, payload, 0) == output_circuit_ioas(infos)(0));
    let fx = e.subrange(0, output_circuit_fixed_len(t));
    assert(fx == output_circuit_fixed_octets(info, t));
    assert(forall|j: int| 0 <= j < output_circuit_fixed_len(t) ==> #[trigger] e[j] == fx[j]);
    assert(protection_quality(protection_quality(info.qdp.0)) == protection_quality(info.qdp.0));
    tag_read_back(e.subrange(output_circuit_fixed_len(t), output_circuit_size(t)), info.time, out.time, output_circuit_tag_len(t), zone);
}


/// A packed single point with status change detection carries no time tag.
pub open spec fn scd_tag_len(t: u8) -> int {
    0
}

/// The octets of a packed single-point with status change detection element set before its time tag.
pub open spec fn scd_fixed_len(t: u8) -> int {
    5
}

/// The element set size of a packed single-point with status change detection type.
pub open spec fn scd_size(t: u8) -> int {
    if scd_tag_len(t) >= 0 {
        scd_fixed_len(t) + scd_tag_len(t)
    } else {
        5
    }
}

/// The time tag length of a packed single-point with status change detection type, 8 for another type.
fn scd_tag(t: u8) -> (n: usize)
    ensures
        scd_tag_len(t) >= 0 ==> n == scd_tag_len(t),
        scd_tag_len(t) < 0 ==> n == 8,
{
    0
}

/// The octets of a packed single-point with status change detection element set before its time tag.
fn scd_fixed(t: u8) -> (n: usize)
    ensures
        n == scd_fixed_len(t),
{
    5
}

/// The octets of a packed single-point with status change detection element set before its time tag, as written.
pub open spec fn scd_fixed_octets(info: PackedSinglePointWithScdInfo, t: u8) -> Seq<u8> {
    u32_octets(info.scd.0) + seq![info.qds.0]
}

/// Write the octets of a packed single-point with status change detection element set before its time tag.
fn put_scd_fixed(buf: &mut Vec<u8>, v: PackedSinglePointWithScdInfo, t: u8)
    ensures
        final(buf)@ == old(buf)@ + scd_fixed_octets(v, t),
{
    put_u32(buf, v.scd.0);
    put_u8(buf, v.qds.0);
    assert(buf@ =~= old(buf)@ + scd_fixed_octets(v, t));
}

/// The element set of a packed single-point with status change detection object as a builder writes it.
pub open spec fn scd_elem_ok(e: Seq<u8>, info: PackedSinglePointWithScdInfo, t: u8, zone: TimeZone) -> bool {
    e.len() == scd_size(t) && e.subrange(0, scd_fixed_len(t)) == scd_fixed_octets(info, t)
}

/// A packed single-point with status change detection object as a getter reads it from its element set.
pub open spec fn scd_decoded(e: Seq<u8>, ioa: u32, info: PackedSinglePointWithScdInfo, t: u8, zone: TimeZone) -> bool {
    &&& info.ioa == ioa
    &&& info.scd == StatusAndStatusChangeDetection(u32_at(e, 0)) && info.qds == QualityDescriptor(e[4])
}

/// Read the packed single-point with status change detection object at `at`.
fn read_scd(b: &[u8], at: usize, ioa: u32, t: u8, tag: usize, zone: TimeZone) -> (info: PackedSinglePointWithScdInfo)
    requires
        scd_tag_len(t) >= 0,
        tag == scd_tag_len(t),
        at + scd_size(t) <= b.len(),
    ensures
        scd_decoded(b@.subrange(at as int, at + scd_size(t)), ioa, info, t, zone),
{
    let fixed = scd_fixed(t);
    let ghost e = b@.subrange(at as int, at + scd_size(t));
    let x = get_u32(b, at);
    let q = b[at + 4];
    proof {
        assert(e[0] == b@[at as int] && e[1] == b@[at + 1] && e[2] == b@[at + 2] && e[3] == b@[at + 3] && e[4] == q);
    }
    PackedSinglePointWithScdInfo { ioa, scd: StatusAndStatusChangeDetection(x), qds: QualityDescriptor(q) }
}

/// The addresses of packed single-point with status change detection objects.
pub open spec fn scd_ioas(infos: Seq<PackedSinglePointWithScdInfo>) -> spec_fn(int) -> u32 {
    |i: int| infos[i].ioa
}

/// The element sets of packed single-point with status change detection objects of type `t`.
pub open spec fn scd_elems(infos: Seq<PackedSinglePointWithScdInfo>, t: u8, zone: TimeZone) -> spec_fn(int, Seq<u8>) -> bool {
    |i: int, e: Seq<u8>| scd_elem_ok(e, infos[i], t, zone)
}

/// The payload a packed single-point with status change detection builder writes for `infos`.
pub open spec fn scd_built(p: Params, t: u8, seq: bool, infos: Seq<PackedSinglePointWithScdInfo>, payload: Seq<u8>) -> bool {
    objects_ok(
        payload,
        p.info_obj_addr_size,
        scd_size(t),
        seq,
        infos.len() as int,
        scd_ioas(infos),
        scd_elems(infos, t, p.info_obj_time_zone),
    )
}

/// What a packed single-point with status change detection getter reads from a payload.
pub open spec fn scd_read(p: Params, id: Identifier, payload: Seq<u8>, out: Seq<PackedSinglePointWithScdInfo>) -> bool {
    let t = id.type_id.0;
    let w = p.info_obj_addr_size;
    let seq = id.variable.is_sequence;
    &&& out.len() == id.variable.number
    &&& forall|i: int|
        0 <= i < out.len() ==> scd_decoded(
            elem_of(w as int, scd_size(t), seq, payload, i),
            obj_ioa(w, scd_size(t), seq, payload, i),
            #[trigger] out[i],
            t,
            p.info_obj_time_zone,
        )
}

impl Asdu {
    /// Build `M_PS_NA_1`: packed single-point information with status change
    /// detection, of the given type.
    fn scd_with_type(
        params: Params,
        type_id: TypeId,
        is_sequence: bool,
        coa: CauseOfTransmission,
        ca: CommonAddr,
        infos: &[PackedSinglePointWithScdInfo],
    ) -> (r: Result<Asdu>)
        ensures
            built_outcome(
                r,
                params,
                type_id,
                is_sequence,
                coa,
                ca,
                infos@.len() as int,
                scd_ioas(infos@),
                scd_tag_len(type_id.0) >= 0,
                |b: Seq<u8>| scd_built(params, type_id.0, is_sequence, infos@, b),
            ),
    {
        let mut u = start(params, type_id, is_sequence, coa, ca, infos.len())?;
        let w = params.info_obj_addr_size;
        let zone = params.info_obj_time_zone;
        let t = type_id.0;
        let tag = scd_tag(t);
        let ghost size = scd_size(t);
        let ghost ioa = scd_ioas(infos@);
        let ghost ok = scd_elems(infos@, t, zone);
        let mut buf: Vec<u8> = Vec::new();
        proof {
            objects_empty(w, size, is_sequence, ioa, ok);
        }
        let mut i: usize = 0;
        while i < infos.len()
            invariant
                1 <= w <= 3,
                w == params.info_obj_addr_size,
                zone == params.info_obj_time_zone,
                t == type_id.0,
                0 < infos@.len() < 128,
                i <= infos@.len(),
                scd_tag_len(t) >= 0 ==> tag == scd_tag_len(t),
                scd_tag_len(t) < 0 ==> tag == 8,
                size == scd_size(t),
                ioa == scd_ioas(infos@),
                ok == scd_elems(infos@, t, zone),
                objects_ok(buf@, w, size, is_sequence, i as int, ioa, ok),
                forall|k: int| 0 <= k < i && #[trigger] spec_writes_addr(is_sequence, k) ==> addr_fits(w, ioa(k)),
                i > 0 ==> addr_fits(w, ioa(0)),
                u.params == params,
                u.identifier == built_identifier(type_id, is_sequence, coa, ca, infos@.len() as int),
                crate::asdu::codec::check_valid_error(params, type_id, is_sequence, infos@.len() as int) is None,
                i > 0 ==> tag != 8,
            decreases infos@.len() - i,
        {
            let v = infos[i];
            let ghost b0 = buf@;
            match put_object_addr(&mut buf, w, is_sequence, i, v.ioa) {
                Ok(()) => {},
                Err(e) => {
                    assert(spec_writes_addr(is_sequence, i as int) && !addr_fits(w, ioa(i as int)));
                    return Err(e);
                },
            }
            let ghost b1 = buf@;
            if tag == 8 {
                assert(spec_writes_addr(is_sequence, 0) && addr_fits(w, ioa(0)));
                return Err(Error::TypeIdNotMatch);
            }
            put_scd_fixed(&mut buf, v, t);
            let ghost b15 = buf@;
            proof {
                assert(addr_octets(w, ioa(i as int)).len() == w);
                assert(buf@.subrange(0, b15.len() as int) == b15);
                assert forall|j: int| 0 <= j < b1.len() implies buf@[j] == b1[j] by {
                    assert(buf@.subrange(0, b15.len() as int)[j] == buf@[j]);
                }
                assert(buf@.subrange(0, b1.len() as int) =~= b1);
                let e = buf@.subrange(b1.len() as int, buf@.len() as int);
                assert forall|j: int| 0 <= j < scd_fixed_len(t) implies e[j] == #[trigger] b15[b1.len() + j] by {
                    assert(buf@.subrange(0, b15.len() as int)[b1.len() + j] == buf@[b1.len() + j]);
                }
                assert(b15.subrange(b1.len() as int, b15.len() as int) =~= scd_fixed_octets(v, t));
                assert(e.subrange(scd_fixed_len(t), e.len() as int) =~= buf@.subrange(b15.len() as int, buf@.len() as int));
                assert(e.subrange(0, scd_fixed_len(t)) =~= scd_fixed_octets(v, t));
                assert(scd_elem_ok(e, infos@[i as int], t, zone));
                objects_extend(b0, b1, buf@, w, size, is_sequence, i as int, ioa, ok);
            }
            i = i + 1;
        }
        u.info_obj = buf;
        Ok(u)
    }

    /// Build `M_PS_NA_1`: packed single-point information with status change
    /// detection.
    ///
    /// See companion standard 101, subclass 7.3.1.20.
    pub fn packed_single_point_with_scd(
        params: Params,
        is_sequence: bool,
        coa: CauseOfTransmission,
        ca: CommonAddr,
        infos: &[PackedSinglePointWithScdInfo],
    ) -> (r: Result<Asdu>)
        ensures
            !untagged_cause_ok(coa.cause.0) ==> r == Err::<Asdu, Error>(Error::CmdCause),
            untagged_cause_ok(coa.cause.0) ==> built_outcome(
                r,
                params,
                TypeId(20),
                is_sequence,
                coa,
                ca,
                infos@.len() as int,
                scd_ioas(infos@),
                true,
                |b: Seq<u8>| scd_built(params, 20, is_sequence, infos@, b),
            ),
    {
        check_untagged_cause(coa)?;
        Self::scd_with_type(params, TypeId(20), is_sequence, coa, ca, infos)
    }

    /// Decode `M_PS_NA_1`.
    pub fn get_packed_single_point_with_scd(&self) -> (r: Result<Vec<PackedSinglePointWithScdInfo>>)
        ensures
            read_outcome(
                r,
                read_error(
                    self.params,
                    self.identifier.variable,
                    self.info_obj@.len() as int,
                    true,
                    5,
                    scd_size(self.identifier.type_id.0),
                ),
                |out: Seq<PackedSinglePointWithScdInfo>| scd_read(self.params, self.identifier, self.info_obj@, out),
            ),
    {
        let t = self.identifier.type_id.0;
        let tag = scd_tag(t);
        let family = true;
        let size: usize = if tag != 8 {
            scd_fixed(t) + tag
        } else {
            5
        };
        let b = self.info_obj.as_slice();
        let pos = object_positions(&self.params, self.identifier.variable, b, family, 5, size)?;
        let zone = self.params.info_obj_time_zone;
        let ghost w = self.params.info_obj_addr_size;
        let ghost seq = self.identifier.variable.is_sequence;
        let mut out: Vec<PackedSinglePointWithScdInfo> = Vec::new();
        let mut j: usize = 0;
        while j < pos.len()
            invariant
                b@ == self.info_obj@,
                zone == self.params.info_obj_time_zone,
                pos@.len() == self.identifier.variable.number,
                pos@.len() > 0 ==> family,
                family ==> scd_tag_len(t) >= 0,
                scd_tag_len(t) >= 0 ==> tag == scd_tag_len(t),
                size == scd_size(t),
                t == self.identifier.type_id.0,
                forall|i: int|
                    0 <= i < pos@.len() ==> (#[trigger] pos@[i]).0 == obj_ioa(w, size as int, seq, b@, i)
                        && pos@[i].1 == crate::asdu::objects::elem_pos(w as int, size as int, seq, i) && pos@[i].1
                        + size <= b@.len(),
                w == self.params.info_obj_addr_size,
                seq == self.identifier.variable.is_sequence,
                j <= pos@.len(),
                out@.len() == j,
                forall|k: int|
                    0 <= k < j ==> scd_decoded(
                        elem_of(w as int, scd_size(t), seq, b@, k),
                        obj_ioa(w, scd_size(t), seq, b@, k),
                        #[trigger] out@[k],
                        t,
                        zone,
                    ),
            decreases pos@.len() - j,
        {
            let (ioa, at) = pos[j];
            let info = read_scd(b, at, ioa, t, tag, zone);
            out.push(info);
            j = j + 1;
        }
        Ok(out)
    }
}

/// A packed single-point with status change detection payload reads back the objects it was built from: the address of
/// each (consecutive ones in a sequence), its status and change detection bits and its quality descriptor.
pub proof fn scd_round_trip(p: Params, id: Identifier, infos: Seq<PackedSinglePointWithScdInfo>, payload: Seq<u8>, out: Seq<PackedSinglePointWithScdInfo>)
    requires
        p.spec_valid(),
        scd_tag_len(id.type_id.0) >= 0,
        0 < infos.len() < 128,
        id.variable.number == infos.len(),
        forall|i: int|
            0 <= i < infos.len() && #[trigger] spec_writes_addr(id.variable.is_sequence, i) ==> addr_fits(
                p.info_obj_addr_size,
                infos[i].ioa,
            ),
        id.variable.is_sequence ==> consecutive(scd_ioas(infos), infos.len() as int),
        scd_built(p, id.type_id.0, id.variable.is_sequence, infos, payload),
        scd_read(p, id, payload, out),
    ensures
        read_error(p, id.variable, payload.len() as int, true, 5, scd_size(id.type_id.0)) is None,
        forall|i: int|
            0 <= i < infos.len() ==> (#[trigger] out[i]).ioa == infos[i].ioa && out[i].scd == infos[i].scd && out[i].qds == infos[i].qds,
{
    let t = id.type_id.0;
    let w = p.info_obj_addr_size;
    let seq = id.variable.is_sequence;
    let n = infos.len() as int;
    let size = scd_size(t);
    let zone = p.info_obj_time_zone;
    objects_read_back(payload, w, size, seq, n, scd_ioas(infos), scd_elems(infos, t, zone));
    assert forall|i: int| 0 <= i < n implies (#[trigger] out[i]).ioa == infos[i].ioa && out[i].scd == infos[i].scd && out[i].qds == infos[i].qds by {
        let e = elem_of(w as int, size, seq, payload, i);
        assert(scd_elems(infos, t, zone)(i, e));
        assert(obj_ioa(w, size, seq, payload, i) == scd_ioas(infos)(i));
        let fx = e.subrange(0, scd_fixed_len(t));
        assert(fx == scd_fixed_octets(infos[i], t));
        assert(forall|j: int| 0 <= j < scd_fixed_len(t) ==> #[trigger] e[j] == fx[j]);
        crate::asdu::codec::u32_round_trip(infos[i].scd.0);
    }
}


} // verus!
