//! The [`Asdu`] container plus the primitives that serialise information
//! elements into it and read them back out.
//!
//! ```text
//!       | data unit identification | information object <1..n> |
//!
//!       | <------------  data unit identification ------------>|
//!       | typeID | variable struct | cause  |  common address  |
//! bytes |    1   |        1        | [1,2]  |      [1,2]       |
//!       | <------------  information object ------------------>|
//!       | object address | element set  |  object time scale   |
//! bytes |     [1,2,3]    |              |                      |
//! ```

use vstd::prelude::*;

use crate::asdu::identifier::{
    info_obj_size_of, Cause, CauseOfTransmission, CommonAddr, Identifier, TypeId, VariableStruct,
    GLOBAL_COMMON_ADDR, INVALID_COMMON_ADDR,
};
use crate::asdu::info::{BinaryCounterReading, InfoObjAddr, Normalize, StatusAndStatusChangeDetection};
use crate::asdu::params::{zone_offset, Params};
use crate::asdu::time::{
    cp16time2a, cp24_clock_read, cp24time2a, cp56_zone_read, cp24time2a_tag, cp56time2a, cp56time2a_tag, decode_cp56_at,
    parse_cp16time2a, parse_cp24time2a, parse_cp24time2a_tag, parse_cp56time2a,
    parse_cp56time2a_tag, TimeTagFlags, Timestamp, CP16TIME2A_SIZE, CP24TIME2A_SIZE,
    CP56TIME2A_SIZE,
};
use crate::text::{decimal, decimal_string};
use crate::error::{Error, Result};

verus! {

/// Maximum size in octets of an ASDU, identifier included.
///
/// The 104 APDU is 255 octets, of which 4 are the APCI control field and 2 the
/// start/length octets.
pub const ASDU_SIZE_MAX: usize = 249;

/// The type identification of a file segment, whose objects carry their own
/// length.
pub const SEGMENT_TYPE_ID: u8 = 125;

/// An Application Service Data Unit: one application message.
#[derive(Debug, Clone, PartialEq, Eq)]
pub struct Asdu {
    /// The system parameters that fix the field widths of this ASDU.
    pub params: Params,
    /// The data unit identifier.
    pub identifier: Identifier,
    /// The serialised information objects.
    pub info_obj: Vec<u8>,
}

/// The octets of the data unit identifier in the widths of `p`.
pub open spec fn identifier_octets(p: Params, id: Identifier) -> Seq<u8> {
    seq![id.type_id.0, id.variable.spec_value(), id.coa.spec_value()] + (if p.cause_size == 2 {
        seq![id.orig_addr]
    } else {
        Seq::empty()
    }) + (if p.common_addr_size == 1 {
        seq![if id.common_addr == GLOBAL_COMMON_ADDR { 255u8 } else { id.common_addr as u8 }]
    } else {
        seq![(id.common_addr % 256) as u8, (id.common_addr / 256) as u8]
    })
}

/// The octets of the identifier in the widths of `p`: 2 + cause + address.
pub open spec fn identifier_len(p: Params) -> int {
    2 + p.cause_size + p.common_addr_size
}

/// Why an ASDU cannot be serialised, checked in this order; `None` when it can.
pub open spec fn marshal_error(p: Params, id: Identifier, payload_len: int) -> Option<Error> {
    if id.coa.cause.0 == 0 {
        Some(Error::CauseZero)
    } else if !(1 <= p.cause_size <= 2 && 1 <= p.common_addr_size <= 2) {
        Some(Error::Param)
    } else if id.common_addr == INVALID_COMMON_ADDR {
        Some(Error::CommonAddrZero)
    } else if p.common_addr_size == 1 && id.common_addr != GLOBAL_COMMON_ADDR && id.common_addr >= 255 {
        Some(Error::Param)
    } else if identifier_len(p) + payload_len > ASDU_SIZE_MAX {
        Some(Error::LengthOutOfRange)
    } else {
        None
    }
}

/// The identifier a wire image holds in the widths of `p`, which must be
/// valid, when the image is at least that long.
pub open spec fn parse_identifier(p: Params, raw: Seq<u8>) -> Identifier {
    let n = identifier_len(p);
    Identifier {
        type_id: TypeId(raw[0]),
        variable: VariableStruct::spec_parse(raw[1]),
        coa: CauseOfTransmission::spec_parse(raw[2]),
        orig_addr: if p.cause_size == 1 { 0 } else { raw[3] },
        common_addr: if p.common_addr_size == 1 {
            if raw[n - 1] == 255 { GLOBAL_COMMON_ADDR } else { raw[n - 1] as u16 }
        } else {
            (raw[n - 2] + raw[n - 1] * 256) as u16
        },
    }
}

/// The octets that the information objects of an ASDU take, from the type
/// identification and the variable structure qualifier; a segment object
/// carries its own length in its LOS octet.
pub open spec fn expected_payload_len(p: Params, id: Identifier, payload: Seq<u8>) -> Result<int> {
    if id.type_id.0 == SEGMENT_TYPE_ID {
        let head = p.info_obj_addr_size + 4;
        if payload.len() < head {
            Err(Error::UnexpectedEof)
        } else {
            Ok(head + payload[p.info_obj_addr_size + 3])
        }
    } else {
        match info_obj_size_of(id.type_id.0) {
            None => Err(Error::TypeIdentifier),
            Some(obj) => {
                let n = id.variable.number as int;
                let a = p.info_obj_addr_size as int;
                let size = if id.variable.is_sequence {
                    a + n * obj
                } else {
                    n * (a + obj)
                };
                if size == 0 {
                    Err(Error::InfoObjIndexFit)
                } else {
                    Ok(size)
                }
            },
        }
    }
}

/// The payload an ASDU keeps after its size is checked: a short payload is
/// an error, a long one too unless surplus octets are allowed, in which case
/// they are dropped.
pub open spec fn checked_payload(p: Params, id: Identifier, payload: Seq<u8>) -> Result<Seq<u8>> {
    match expected_payload_len(p, id, payload) {
        Err(e) => Err(e),
        Ok(size) => if size > payload.len() {
            Err(Error::UnexpectedEof)
        } else if size < payload.len() {
            if !p.allow_trailing_octets {
                Err(Error::TrailingOctets)
            } else {
                Ok(payload.subrange(0, size))
            }
        } else {
            Ok(payload)
        },
    }
}

/// What parsing a wire image gives in the widths of `p`: the identifier and
/// the checked payload, or the error.
pub open spec fn unmarshal_spec(p: Params, raw: Seq<u8>) -> Result<(Identifier, Seq<u8>)> {
    if !(1 <= p.cause_size <= 2 && 1 <= p.common_addr_size <= 2) {
        Err(Error::Param)
    } else if identifier_len(p) > raw.len() {
        Err(Error::UnexpectedEof)
    } else {
        let id = parse_identifier(p, raw);
        match checked_payload(p, id, raw.subrange(identifier_len(p), raw.len() as int)) {
            Err(e) => Err(e),
            Ok(payload) => Ok((id, payload)),
        }
    }
}

impl Asdu {
    /// The first line of a log dump: the identifier, the variable structure
    /// qualifier and the width of the information object addresses,
    /// `TID<..> COT<..> @ca VSQ<..> IOA-Width=w`.
    pub fn header_text(&self) -> (s: String)
        ensures
            s@ == self.identifier.spec_text() + seq![' '] + self.identifier.variable.spec_text() + seq![
                ' ',
                'I',
                'O',
                'A',
                '-',
                'W',
                'i',
                'd',
                't',
                'h',
                '=',
            ] + decimal(self.params.info_obj_addr_size as nat),
    {
        let mut s = self.identifier.to_string();
        s.append(" ");
        let v = self.identifier.variable.to_string();
        s.append(v.as_str());
        s.append(" IOA-Width=");
        let w = decimal_string(self.params.info_obj_addr_size as u64);
        s.append(w.as_str());
        proof {
            reveal_strlit(" ");
            reveal_strlit(" IOA-Width=");
        }
        s
    }

    /// A new ASDU with the given parameters and an all-default identifier.
    pub fn new_empty(params: Params) -> (a: Asdu)
        ensures
            a.params == params,
            a.identifier == (Identifier {
                type_id: TypeId(0),
                variable: VariableStruct { number: 0, is_sequence: false },
                coa: CauseOfTransmission { is_test: false, is_negative: false, cause: Cause(0) },
                orig_addr: params.orig_address,
                common_addr: 0,
            }),
            a.info_obj@ == Seq::<u8>::empty(),
    {
        Asdu {
            params,
            identifier: Identifier {
                type_id: TypeId(0),
                variable: VariableStruct { number: 0, is_sequence: false },
                coa: CauseOfTransmission { is_test: false, is_negative: false, cause: Cause(0) },
                orig_addr: params.orig_address,
                common_addr: 0,
            },
            info_obj: Vec::new(),
        }
    }

    /// A new ASDU with the given parameters and identifier.
    pub fn new(params: Params, identifier: Identifier) -> (a: Asdu)
        ensures
            a.params == params,
            a.identifier == identifier,
            a.info_obj@ == Seq::<u8>::empty(),
    {
        Asdu { params, identifier, info_obj: Vec::new() }
    }

    /// The type identification.
    pub fn type_id(&self) -> (t: TypeId)
        ensures
            t == self.identifier.type_id,
    {
        self.identifier.type_id
    }

    /// The variable structure qualifier.
    pub fn variable(&self) -> (v: VariableStruct)
        ensures
            v == self.identifier.variable,
    {
        self.identifier.variable
    }

    /// The cause of transmission.
    pub fn coa(&self) -> (c: CauseOfTransmission)
        ensures
            c == self.identifier.coa,
    {
        self.identifier.coa
    }

    /// Mutable access to the cause of transmission, for setting the P/N bit
    /// before mirroring a request back.
    pub fn coa_mut(&mut self) -> (c: &mut CauseOfTransmission)
        ensures
            *c == old(self).identifier.coa,
            final(self).params == old(self).params,
            final(self).info_obj == old(self).info_obj,
            final(self).identifier == (Identifier { coa: *final(c), ..old(self).identifier }),
    {
        &mut self.identifier.coa
    }

    /// The station (common) address.
    pub fn common_addr(&self) -> (a: CommonAddr)
        ensures
            a == self.identifier.common_addr,
    {
        self.identifier.common_addr
    }

    /// The originator address.
    pub fn orig_addr(&self) -> (a: u8)
        ensures
            a == self.identifier.orig_addr,
    {
        self.identifier.orig_addr
    }

    /// Set the number of information objects in the variable structure qualifier.
    ///
    /// See companion standard 101, subclass 7.2.2: the count must fit 7 bits.
    pub fn set_variable_number(&mut self, n: usize) -> (r: Result<()>)
        ensures
            n >= 128 ==> r == Err::<(), Error>(Error::InfoObjIndexFit) && *final(self) == *old(self),
            n < 128 ==> r is Ok && final(self).params == old(self).params && final(self).info_obj
                == old(self).info_obj && final(self).identifier == (Identifier {
                variable: VariableStruct { number: n as u8, ..old(self).identifier.variable },
                ..old(self).identifier
            }),
    {
        if n >= 128 {
            return Err(Error::InfoObjIndexFit);
        }
        self.identifier.variable.number = n as u8;
        Ok(())
    }

    /// A copy of this ASDU addressed to `addr` with a different cause.
    pub fn reply(&self, cause: Cause, addr: CommonAddr) -> (r: Asdu)
        ensures
            r.params == self.params,
            r.info_obj@ == self.info_obj@,
            r.identifier == (Identifier {
                common_addr: addr,
                coa: CauseOfTransmission { cause, ..self.identifier.coa },
                ..self.identifier
            }),
    {
        let mut id = self.identifier;
        id.common_addr = addr;
        id.coa.cause = cause;
        Asdu { params: self.params, identifier: id, info_obj: self.info_obj.clone() }
    }

    /// A mirror of this ASDU with a different cause, keeping every other field.
    ///
    /// This is the standard confirmation pattern: echo the request back with
    /// `ActivationCon`, then `ActivationTerm`, or with one of the
    /// `Unknown*` causes to report a protocol error.
    pub fn reply_mirror(&self, cause: Cause) -> (r: Asdu)
        ensures
            r.params == self.params,
            r.info_obj@ == self.info_obj@,
            r.identifier == (Identifier {
                coa: CauseOfTransmission { cause, ..self.identifier.coa },
                ..self.identifier
            }),
    {
        let mut id = self.identifier;
        id.coa.cause = cause;
        Asdu { params: self.params, identifier: id, info_obj: self.info_obj.clone() }
    }

    /// A copy of this ASDU with the negative-confirmation (P/N) bit set.
    pub fn negated(self) -> (r: Asdu)
        ensures
            r.params == self.params,
            r.info_obj@ == self.info_obj@,
            r.identifier == (Identifier {
                coa: CauseOfTransmission { is_negative: true, ..self.identifier.coa },
                ..self.identifier
            }),
    {
        let mut s = self;
        s.identifier.coa.is_negative = true;
        s
    }

    /// Serialise to the wire format.
    pub fn marshal_binary(&self) -> (r: Result<Vec<u8>>)
        ensures
            match marshal_error(self.params, self.identifier, self.info_obj@.len() as int) {
                Some(e) => r == Err::<Vec<u8>, Error>(e),
                None => r matches Ok(v) && v@ == identifier_octets(self.params, self.identifier)
                    + self.info_obj@,
            },
    {
        let id = &self.identifier;
        if id.coa.cause.0 == 0 {
            return Err(Error::CauseZero);
        }
        if self.params.cause_size < 1 || self.params.cause_size > 2 || self.params.common_addr_size < 1
            || self.params.common_addr_size > 2 {
            return Err(Error::Param);
        }
        if id.common_addr == INVALID_COMMON_ADDR {
            return Err(Error::CommonAddrZero);
        }
        if self.params.common_addr_size == 1 && id.common_addr != GLOBAL_COMMON_ADDR && id.common_addr
            >= 255 {
            return Err(Error::Param);
        }
        if self.info_obj.len() > ASDU_SIZE_MAX || self.params.identifier_size() + self.info_obj.len()
            > ASDU_SIZE_MAX {
            return Err(Error::LengthOutOfRange);
        }
        let mut raw: Vec<u8> = Vec::new();
        raw.push(id.type_id.0);
        raw.push(id.variable.value());
        raw.push(id.coa.value());
        if self.params.cause_size == 2 {
            raw.push(id.orig_addr);
        }
        if self.params.common_addr_size == 1 {
            // The 16-bit broadcast address maps to 255 in 8-bit mode.
            raw.push(
                if id.common_addr == GLOBAL_COMMON_ADDR {
                    255
                } else {
                    id.common_addr as u8
                },
            );
        } else {
            raw.push((id.common_addr % 256) as u8);
            raw.push((id.common_addr / 256) as u8);
        }
        assert(raw@ =~= identifier_octets(self.params, self.identifier));
        let ghost head = raw@;
        let mut i: usize = 0;
        while i < self.info_obj.len()
            invariant
                i <= self.info_obj@.len(),
                raw@ == head + self.info_obj@.subrange(0, i as int),
            decreases self.info_obj@.len() - i,
        {
            raw.push(self.info_obj[i]);
            i = i + 1;
            assert(raw@ =~= head + self.info_obj@.subrange(0, i as int));
        }
        assert(self.info_obj@.subrange(0, i as int) =~= self.info_obj@);
        Ok(raw)
    }

    /// Parse an ASDU from the wire format using the given parameters.
    ///
    /// The information object payload is checked against the length implied
    /// by the type identification and the variable structure qualifier; see
    /// [`Asdu::fix_info_obj_size`].
    pub fn unmarshal_binary(params: Params, raw: &[u8]) -> (r: Result<Asdu>)
        ensures
            match unmarshal_spec(params, raw@) {
                Err(e) => r == Err::<Asdu, Error>(e),
                Ok((id, payload)) => r matches Ok(a) && a.params == params && a.identifier == id
                    && a.info_obj@ == payload,
            },
    {
        if params.cause_size < 1 || params.cause_size > 2 || params.common_addr_size < 1
            || params.common_addr_size > 2 {
            return Err(Error::Param);
        }
        let len_dui = params.identifier_size();
        if len_dui > raw.len() {
            return Err(Error::UnexpectedEof);
        }
        let type_id = TypeId(raw[0]);
        let variable = VariableStruct::parse(raw[1]);
        let coa = CauseOfTransmission::parse(raw[2]);
        let orig_addr = if params.cause_size == 1 {
            0
        } else {
            raw[3]
        };
        let common_addr: CommonAddr = if params.common_addr_size == 1 {
            let a = raw[len_dui - 1] as CommonAddr;
            // Map the 8-bit broadcast address to its 16-bit equivalent.
            if a == 255 {
                GLOBAL_COMMON_ADDR
            } else {
                a
            }
        } else {
            raw[len_dui - 2] as u16 + raw[len_dui - 1] as u16 * 256
        };
        let mut info_obj: Vec<u8> = Vec::new();
        let mut i: usize = len_dui;
        while i < raw.len()
            invariant
                len_dui <= i <= raw@.len(),
                info_obj@ == raw@.subrange(len_dui as int, i as int),
            decreases raw@.len() - i,
        {
            info_obj.push(raw[i]);
            i = i + 1;
            assert(info_obj@ =~= raw@.subrange(len_dui as int, i as int));
        }
        let mut asdu = Asdu {
            params,
            identifier: Identifier { type_id, variable, coa, orig_addr, common_addr },
            info_obj,
        };
        assert(asdu.identifier == parse_identifier(params, raw@));
        match asdu.fix_info_obj_size() {
            Ok(()) => Ok(asdu),
            Err(e) => Err(e),
        }
    }

    /// Check the information object payload against the size implied by the
    /// type identification and the variable structure qualifier.
    ///
    /// A short payload is [`Error::UnexpectedEof`]. A long one is
    /// [`Error::TrailingOctets`], unless `Params::allow_trailing_octets` is
    /// set, in which case the surplus is discarded.
    pub fn fix_info_obj_size(&mut self) -> (r: Result<()>)
        ensures
            final(self).params == old(self).params,
            final(self).identifier == old(self).identifier,
            match checked_payload(old(self).params, old(self).identifier, old(self).info_obj@) {
                Err(e) => r == Err::<(), Error>(e) && final(self).info_obj@ == old(self).info_obj@,
                Ok(payload) => r is Ok && final(self).info_obj@ == payload,
            },
    {
        // A variable-length object carries its own length, so "expected" is
        // only meaningful once that octet is present.
        let size: usize = if self.identifier.type_id.0 == SEGMENT_TYPE_ID {
            let head = self.params.info_obj_addr_size as usize + 4;
            if self.info_obj.len() < head {
                return Err(Error::UnexpectedEof);
            }
            head + self.info_obj[self.params.info_obj_addr_size as usize + 3] as usize
        } else {
            let obj_size = match self.identifier.type_id.info_obj_size() {
                Ok(s) => s,
                Err(e) => {
                    return Err(e);
                },
            };
            let n = self.identifier.variable.number as usize;
            let addr_size = self.params.info_obj_addr_size as usize;
            assert(obj_size <= 13);
            assert(n * obj_size <= 255 * 13 && n * (addr_size + obj_size) <= 255 * 268) by (nonlinear_arith)
                requires
                    n <= 255,
                    obj_size <= 13,
                    addr_size <= 255,
            ;
            let size = if self.identifier.variable.is_sequence {
                addr_size + n * obj_size
            } else {
                n * (addr_size + obj_size)
            };
            if size == 0 {
                return Err(Error::InfoObjIndexFit);
            }
            size
        };
        if size > self.info_obj.len() {
            return Err(Error::UnexpectedEof);
        }
        if size < self.info_obj.len() {
            if !self.params.allow_trailing_octets {
                return Err(Error::TrailingOctets);
            }
            self.info_obj.truncate(size);
        }
        Ok(())
    }

    /// Append raw octets to the information object payload.
    pub fn append_bytes(&mut self, b: &[u8]) -> (r: &mut Self)
        ensures
            r.params == old(self).params,
            r.identifier == old(self).identifier,
            r.info_obj@ == old(self).info_obj@ + b@,
            *final(self) == *final(r),
    {
        put_bytes(&mut self.info_obj, b);
        self
    }
}

/// Append `b` to `buf`.
pub(crate) fn put_bytes(buf: &mut Vec<u8>, b: &[u8])
    ensures
        final(buf)@ == old(buf)@ + b@,
{
    let ghost start = buf@;
    let mut i: usize = 0;
    while i < b.len()
        invariant
            i <= b@.len(),
            buf@ == start + b@.subrange(0, i as int),
        decreases b@.len() - i,
    {
        buf.push(b[i]);
        i = i + 1;
        assert(buf@ =~= start + b@.subrange(0, i as int));
    }
    assert(b@.subrange(0, i as int) =~= b@);
}

/// An ASDU that serialises, with a qualifier and a cause that fit their bits
/// and a payload of exactly the size its identifier implies, parses back to
/// itself; the originator address travels only when the cause is two octets.
pub proof fn asdu_round_trip(a: Asdu)
    requires
        marshal_error(a.params, a.identifier, a.info_obj@.len() as int) is None,
        a.identifier.variable.number < 128,
        a.identifier.coa.cause.0 < 64,
        a.params.cause_size == 1 ==> a.identifier.orig_addr == 0,
        expected_payload_len(a.params, a.identifier, a.info_obj@) == Ok::<int, Error>(
            a.info_obj@.len() as int,
        ),
    ensures
        unmarshal_spec(a.params, identifier_octets(a.params, a.identifier) + a.info_obj@) == Ok::<
            (Identifier, Seq<u8>),
            Error,
        >((a.identifier, a.info_obj@)),
{
    let p = a.params;
    let id = a.identifier;
    let raw = identifier_octets(p, id) + a.info_obj@;
    crate::asdu::identifier::variable_struct_round_trip(id.variable, 0);
    crate::asdu::identifier::cause_of_transmission_round_trip(id.coa, 0);
    assert(raw.subrange(identifier_len(p), raw.len() as int) =~= a.info_obj@);
    let ca = id.common_addr;
    assert(ca % 256 + (ca / 256) * 256 == ca);
    assert(parse_identifier(p, raw) == id);
}


/// A 16-bit value, low octet first.
pub open spec fn u16_octets(v: u16) -> Seq<u8> {
    seq![(v % 256) as u8, (v / 256) as u8]
}

/// The low 24 bits of a value, low octet first.
pub open spec fn u24_octets(v: u32) -> Seq<u8> {
    seq![(v % 256) as u8, ((v / 256) % 256) as u8, ((v / 65536) % 256) as u8]
}

/// A 32-bit value, low octet first.
pub open spec fn u32_octets(v: u32) -> Seq<u8> {
    seq![(v % 256) as u8, ((v / 256) % 256) as u8, ((v / 65536) % 256) as u8, (v / 16777216) as u8]
}

/// The 16-bit value at `at`, low octet first.
pub open spec fn u16_at(b: Seq<u8>, at: int) -> u16 {
    (b[at] + b[at + 1] * 256) as u16
}

/// The 24-bit value at `at`, low octet first.
pub open spec fn u24_at(b: Seq<u8>, at: int) -> u32 {
    (b[at] + b[at + 1] * 256 + b[at + 2] * 65536) as u32
}

/// The 32-bit value at `at`, low octet first.
pub open spec fn u32_at(b: Seq<u8>, at: int) -> u32 {
    (b[at] + b[at + 1] * 256 + b[at + 2] * 65536 + b[at + 3] * 16777216) as u32
}

/// An information object address fits an address field `width` octets wide.
pub open spec fn addr_fits(width: u8, a: u32) -> bool {
    (width == 1 && a <= 255) || (width == 2 && a <= 65535) || (width == 3 && a <= 16777215)
}

/// The octets of an information object address `width` octets wide.
pub open spec fn addr_octets(width: u8, a: u32) -> Seq<u8> {
    if width == 1 {
        seq![a as u8]
    } else if width == 2 {
        u16_octets(a as u16)
    } else {
        u24_octets(a)
    }
}

/// The information object address at `at`, `width` octets wide.
pub open spec fn addr_at(width: u8, b: Seq<u8>, at: int) -> u32 {
    if width == 1 {
        b[at] as u32
    } else if width == 2 {
        u16_at(b, at) as u32
    } else {
        u24_at(b, at)
    }
}

/// The flags octet of a binary counter reading.
pub open spec fn bcr_flags(v: BinaryCounterReading) -> u8 {
    (v.seq_number % 32 + (if v.has_carry { 32int } else { 0 }) + (if v.is_adjusted { 64int } else { 0 }) + (
    if v.is_invalid {
        128int
    } else {
        0
    })) as u8
}

/// The five octets of a binary counter reading.
pub open spec fn bcr_octets(v: BinaryCounterReading) -> Seq<u8> {
    u32_octets(v.counter_reading as u32) + seq![bcr_flags(v)]
}

/// The binary counter reading at `at`.
pub open spec fn bcr_at(b: Seq<u8>, at: int) -> BinaryCounterReading {
    let f = b[at + 4];
    BinaryCounterReading {
        counter_reading: u32_at(b, at) as i32,
        seq_number: f % 32,
        has_carry: (f / 32) % 2 == 1,
        is_adjusted: (f / 64) % 2 == 1,
        is_invalid: f >= 128,
    }
}

/// The 16-bit value at `at` of a slice.
pub(crate) fn get_u16(b: &[u8], at: usize) -> (v: u16)
    requires
        at + 2 <= b.len(),
    ensures
        v == u16_at(b@, at as int),
{
    b[at] as u16 + b[at + 1] as u16 * 256
}

/// The 24-bit value at `at` of a slice.
pub(crate) fn get_u24(b: &[u8], at: usize) -> (v: u32)
    requires
        at + 3 <= b.len(),
    ensures
        v == u24_at(b@, at as int),
{
    b[at] as u32 + b[at + 1] as u32 * 256 + b[at + 2] as u32 * 65536
}

/// The 32-bit value at `at` of a slice.
pub(crate) fn get_u32(b: &[u8], at: usize) -> (v: u32)
    requires
        at + 4 <= b.len(),
    ensures
        v == u32_at(b@, at as int),
{
    b[at] as u32 + b[at + 1] as u32 * 256 + b[at + 2] as u32 * 65536 + b[at + 3] as u32 * 16777216
}

/// The information object address at `at` of a slice.
pub(crate) fn get_addr(b: &[u8], at: usize, width: u8) -> (a: u32)
    requires
        1 <= width <= 3,
        at + width <= b.len(),
    ensures
        a == addr_at(width, b@, at as int),
{
    if width == 1 {
        b[at] as u32
    } else if width == 2 {
        get_u16(b, at) as u32
    } else {
        get_u24(b, at)
    }
}

/// The binary counter reading at `at` of a slice.
pub(crate) fn get_bcr(b: &[u8], at: usize) -> (v: BinaryCounterReading)
    requires
        at + 5 <= b.len(),
    ensures
        v == bcr_at(b@, at as int),
{
    let f = b[at + 4];
    BinaryCounterReading {
        counter_reading: get_u32(b, at) as i32,
        seq_number: f % 32,
        has_carry: (f / 32) % 2 == 1,
        is_adjusted: (f / 64) % 2 == 1,
        is_invalid: f >= 128,
    }
}

/// Append one octet.
pub(crate) fn put_u8(buf: &mut Vec<u8>, v: u8)
    ensures
        final(buf)@ == old(buf)@ + seq![v],
{
    buf.push(v);
    assert(buf@ =~= old(buf)@ + seq![v]);
}

/// Append a 16-bit value, low octet first.
pub(crate) fn put_u16(buf: &mut Vec<u8>, v: u16)
    ensures
        final(buf)@ == old(buf)@ + u16_octets(v),
{
    buf.push((v % 256) as u8);
    buf.push((v / 256) as u8);
    assert(buf@ =~= old(buf)@ + u16_octets(v));
}

/// Append the low 24 bits of a value, low octet first.
pub(crate) fn put_u24(buf: &mut Vec<u8>, v: u32)
    ensures
        final(buf)@ == old(buf)@ + u24_octets(v),
{
    buf.push((v % 256) as u8);
    buf.push(((v / 256) % 256) as u8);
    buf.push(((v / 65536) % 256) as u8);
    assert(buf@ =~= old(buf)@ + u24_octets(v));
}

/// Append a 32-bit value, low octet first.
pub(crate) fn put_u32(buf: &mut Vec<u8>, v: u32)
    ensures
        final(buf)@ == old(buf)@ + u32_octets(v),
{
    buf.push((v % 256) as u8);
    buf.push(((v / 256) % 256) as u8);
    buf.push(((v / 65536) % 256) as u8);
    buf.push((v / 16777216) as u8);
    assert(buf@ =~= old(buf)@ + u32_octets(v));
}

/// Append an information object address `width` octets wide.
pub(crate) fn put_addr(buf: &mut Vec<u8>, width: u8, a: u32) -> (r: Result<()>)
    ensures
        !(1 <= width <= 3) ==> r == Err::<(), Error>(Error::Param) && final(buf)@ == old(buf)@,
        1 <= width <= 3 && !addr_fits(width, a) ==> r == Err::<(), Error>(Error::InfoObjAddrFit)
            && final(buf)@ == old(buf)@,
        addr_fits(width, a) ==> r is Ok && final(buf)@ == old(buf)@ + addr_octets(width, a),
{
    if width == 1 {
        if a > 255 {
            return Err(Error::InfoObjAddrFit);
        }
        put_u8(buf, a as u8);
    } else if width == 2 {
        if a > 65535 {
            return Err(Error::InfoObjAddrFit);
        }
        put_u16(buf, a as u16);
    } else if width == 3 {
        if a > 16_777_215 {
            return Err(Error::InfoObjAddrFit);
        }
        put_u24(buf, a);
    } else {
        return Err(Error::Param);
    }
    Ok(())
}

/// Append a binary counter reading.
pub(crate) fn put_bcr(buf: &mut Vec<u8>, v: BinaryCounterReading)
    ensures
        final(buf)@ == old(buf)@ + bcr_octets(v),
{
    let mut flags: u8 = v.seq_number % 32;
    if v.has_carry {
        flags = flags + 32;
    }
    if v.is_adjusted {
        flags = flags + 64;
    }
    if v.is_invalid {
        flags = flags + 128;
    }
    put_u32(buf, v.counter_reading as u32);
    put_u8(buf, flags);
    assert(buf@ =~= old(buf)@ + bcr_octets(v));
}

/// A binary counter reading decodes from what it encodes, when its sequence
/// number fits five bits.
pub proof fn bcr_round_trip(v: BinaryCounterReading)
    requires
        v.seq_number < 32,
    ensures
        bcr_at(bcr_octets(v), 0) == v,
{
    let c = v.counter_reading;
    assert(u32_at(u32_octets(c as u32), 0) == c as u32);
    assert(((c as u32) as i32) == c) by (bit_vector);
}

/// The binary counter reading of IEC 60870-5-101, subclass 7.2.6.9: four
/// octets of count, then an octet with the sequence number in bits 0 to 4,
/// CY (carry) at 0x20, CA (adjusted) at 0x40 and IV (invalid) at 0x80. The
/// octets written hold each flag at its bit, and any five octets are read the
/// same way.
pub proof fn bcr_flag_bits(v: BinaryCounterReading, b: Seq<u8>, at: int)
    requires
        0 <= at,
        at + 5 <= b.len(),
    ensures
        bcr_octets(v).len() == 5,
        bcr_octets(v)[4] & 0x1f == v.seq_number & 0x1f,
        (bcr_octets(v)[4] & 0x20 == 0x20) == v.has_carry,
        (bcr_octets(v)[4] & 0x40 == 0x40) == v.is_adjusted,
        (bcr_octets(v)[4] & 0x80 == 0x80) == v.is_invalid,
        bcr_at(b, at).seq_number == b[at + 4] & 0x1f,
        bcr_at(b, at).has_carry == (b[at + 4] & 0x20 == 0x20),
        bcr_at(b, at).is_adjusted == (b[at + 4] & 0x40 == 0x40),
        bcr_at(b, at).is_invalid == (b[at + 4] & 0x80 == 0x80),
{
    let f = bcr_flags(v);
    let sq = v.seq_number;
    let cy = v.has_carry;
    let ca = v.is_adjusted;
    let iv = v.is_invalid;
    assert(bcr_octets(v)[4] == f);
    assert(f & 0x1f == sq & 0x1f && ((f & 0x20 == 0x20) == cy) && ((f & 0x40 == 0x40) == ca) && ((f & 0x80
        == 0x80) == iv)) by (bit_vector)
        requires
            f == (sq % 32 + (if cy { 32u8 } else { 0u8 }) + (if ca { 64u8 } else { 0u8 }) + (if iv {
                128u8
            } else {
                0u8
            })) as u8,
    ;
    let g = b[at + 4];
    assert(g % 32 == g & 0x1f && (((g / 32) % 2 == 1) == (g & 0x20 == 0x20)) && (((g / 64) % 2 == 1) == (g & 0x40
        == 0x40)) && ((g >= 128) == (g & 0x80 == 0x80))) by (bit_vector);
}

/// A 32-bit value decodes from its octets.
pub proof fn u32_round_trip(v: u32)
    ensures
        u32_at(u32_octets(v), 0) == v,
        u24_at(u24_octets(v), 0) == v % 16777216,
        u16_at(u16_octets((v % 65536) as u16), 0) == v % 65536,
{
}

/// Multi-octet integers travel low octet first: the octets written are the
/// base-256 digits of the value, least significant first, and the value read
/// at `at` has the octet at `at` as its least significant digit.
pub proof fn little_endian_octets(v: u32, b: Seq<u8>, at: int)
    requires
        0 <= at,
        at + 4 <= b.len(),
    ensures
        u16_octets((v % 65536) as u16)[0] + 256 * u16_octets((v % 65536) as u16)[1] == v % 65536,
        u24_octets(v)[0] + 256 * u24_octets(v)[1] + 65536 * u24_octets(v)[2] == v % 16777216,
        u32_octets(v)[0] + 256 * u32_octets(v)[1] + 65536 * u32_octets(v)[2] + 16777216 * u32_octets(v)[3] == v,
        u16_at(b, at) % 256 == b[at],
        u16_at(b, at) / 256 == b[at + 1],
        u24_at(b, at) % 256 == b[at],
        u24_at(b, at) / 65536 == b[at + 2],
        u32_at(b, at) % 256 == b[at],
        u32_at(b, at) / 16777216 == b[at + 3],
{
}

/// An address that fits its field decodes from its octets.
pub proof fn addr_round_trip(width: u8, a: u32)
    requires
        addr_fits(width, a),
    ensures
        addr_octets(width, a).len() == width,
        addr_at(width, addr_octets(width, a), 0) == a,
{
}

/// Appends information elements to an ASDU's payload in wire order.
///
/// The encoder starts from the ASDU's payload and works on its own copy;
/// [`Encoder::finish`] stores what it wrote back into an ASDU. All
/// multi-octet integers are little endian, per the standard.
pub struct Encoder {
    params: Params,
    buf: Vec<u8>,
}

impl Asdu {
    /// An appender that continues this ASDU's payload in its parameters.
    pub fn encoder(&self) -> (e: Encoder)
        ensures
            e.params() == self.params,
            e.payload() == self.info_obj@,
    {
        Encoder { params: self.params, buf: self.info_obj.clone() }
    }
}

impl Encoder {
    /// Store the payload written into `a`, leaving its parameters and
    /// identifier as they are.
    pub fn finish(self, a: &mut Asdu)
        ensures
            final(a).info_obj@ == self.payload(),
            final(a).params == old(a).params,
            final(a).identifier == old(a).identifier,
    {
        a.info_obj = self.buf;
    }

    /// The parameters the encoder writes with.
    pub closed spec fn params(self) -> Params {
        self.params
    }

    /// The payload written so far.
    pub closed spec fn payload(self) -> Seq<u8> {
        self.buf@
    }

    /// Append raw octets.
    pub fn bytes(&mut self, b: &[u8]) -> (r: &mut Self)
        ensures
            r.params() == old(self).params(),
            r.payload() == old(self).payload() + b@,
            *final(self) == *final(r),
    {
        put_bytes(&mut self.buf, b);
        self
    }

    /// Append one octet.
    pub fn byte(&mut self, b: u8) -> (r: &mut Self)
        ensures
            r.params() == old(self).params(),
            r.payload() == old(self).payload() + seq![b],
            *final(self) == *final(r),
    {
        put_u8(&mut self.buf, b);
        self
    }

    /// Append a little-endian `u16`.
    pub fn u16(&mut self, v: u16) -> (r: &mut Self)
        ensures
            r.params() == old(self).params(),
            r.payload() == old(self).payload() + u16_octets(v),
            *final(self) == *final(r),
    {
        put_u16(&mut self.buf, v);
        self
    }

    /// Append an information object address in the configured width.
    pub fn info_obj_addr(&mut self, addr: InfoObjAddr) -> (r: Result<&mut Self>)
        ensures
            r is Ok ==> addr_fits(old(self).params().info_obj_addr_size, addr),
            r matches Ok(e) ==> e.params() == old(self).params(),
            r matches Ok(e) ==> e.payload() == old(self).payload() + addr_octets(
                old(self).params().info_obj_addr_size,
                addr,
            ),
            r matches Ok(e) ==> *final(self) == *final(e),
            r is Err ==> final(self).params() == old(self).params() && final(self).payload() == old(
                self,
            ).payload(),
            r matches Err(err) ==> if 1 <= old(self).params().info_obj_addr_size <= 3 {
                !addr_fits(old(self).params().info_obj_addr_size, addr) && err == Error::InfoObjAddrFit
            } else {
                err == Error::Param
            },
    {
        let w = self.params.info_obj_addr_size;
        match put_addr(&mut self.buf, w, addr) {
            Ok(()) => {
                assert(addr_fits(w, addr));
                Ok(self)
            },
            Err(e) => Err(e),
        }
    }

    /// Append a 3-octet length of file (LOF): the low 24 bits of `n`.
    pub fn length_of_file(&mut self, n: u32) -> (r: &mut Self)
        ensures
            r.params() == old(self).params(),
            r.payload() == old(self).payload() + u24_octets(n),
            *final(self) == *final(r),
    {
        put_u24(&mut self.buf, n);
        self
    }

    /// Append a normalized value (NVA).
    pub fn normalize(&mut self, n: Normalize) -> (r: &mut Self)
        ensures
            r.params() == old(self).params(),
            r.payload() == old(self).payload() + u16_octets(n.0 as u16),
            *final(self) == *final(r),
    {
        put_u16(&mut self.buf, n.0 as u16);
        self
    }

    /// Append a scaled value (SVA). See companion standard 101, subclass 7.2.6.7.
    pub fn scaled(&mut self, v: i16) -> (r: &mut Self)
        ensures
            r.params() == old(self).params(),
            r.payload() == old(self).payload() + u16_octets(v as u16),
            *final(self) == *final(r),
    {
        put_u16(&mut self.buf, v as u16);
        self
    }

    /// Append a short floating point number (R32-IEEE STD 754), given by its
    /// bits. See companion standard 101, subclass 7.2.6.8.
    pub fn f32_bits(&mut self, bits: u32) -> (r: &mut Self)
        ensures
            r.params() == old(self).params(),
            r.payload() == old(self).payload() + u32_octets(bits),
            *final(self) == *final(r),
    {
        put_u32(&mut self.buf, bits);
        self
    }

    /// Append a binary counter reading (BCR). See companion standard 101,
    /// subclass 7.2.6.9.
    pub fn binary_counter_reading(&mut self, v: BinaryCounterReading) -> (r: &mut Self)
        ensures
            r.params() == old(self).params(),
            r.payload() == old(self).payload() + bcr_octets(v),
            *final(self) == *final(r),
    {
        put_bcr(&mut self.buf, v);
        self
    }

    /// Append a 32 bit string (BSI). See companion standard 101, subclass 7.2.6.13.
    pub fn bits_string32(&mut self, v: u32) -> (r: &mut Self)
        ensures
            r.params() == old(self).params(),
            r.payload() == old(self).payload() + u32_octets(v),
            *final(self) == *final(r),
    {
        put_u32(&mut self.buf, v);
        self
    }

    /// Append a CP56Time2a time tag in the ASDU's configured time zone.
    pub fn cp56time2a(&mut self, t: Option<Timestamp>) -> (r: &mut Self)
        ensures
            r.params() == old(self).params(),
            r.payload().len() == old(self).payload().len() + CP56TIME2A_SIZE,
            r.payload().subrange(0, old(self).payload().len() as int) == old(self).payload(),
            *final(self) == *final(r),
    {
        let b = cp56time2a(t, self.params.info_obj_time_zone);
        put_bytes(&mut self.buf, b.as_slice());
        self
    }

    /// Append a CP24Time2a time tag in the ASDU's configured time zone.
    pub fn cp24time2a(&mut self, t: Option<Timestamp>) -> (r: &mut Self)
        ensures
            r.params() == old(self).params(),
            r.payload().len() == old(self).payload().len() + CP24TIME2A_SIZE,
            r.payload().subrange(0, old(self).payload().len() as int) == old(self).payload(),
            *final(self) == *final(r),
    {
        let b = cp24time2a(t, self.params.info_obj_time_zone);
        put_bytes(&mut self.buf, b.as_slice());
        self
    }

    /// Append a CP56Time2a time tag carrying the given IV and SB flags.
    pub fn cp56time2a_tag(&mut self, t: Option<Timestamp>, flags: TimeTagFlags) -> (r: &mut Self)
        ensures
            r.params() == old(self).params(),
            r.payload().len() == old(self).payload().len() + CP56TIME2A_SIZE,
            r.payload().subrange(0, old(self).payload().len() as int) == old(self).payload(),
            *final(self) == *final(r),
    {
        let b = cp56time2a_tag(t, flags, self.params.info_obj_time_zone);
        put_bytes(&mut self.buf, b.as_slice());
        self
    }

    /// Append a CP24Time2a time tag carrying the given IV and SB flags.
    pub fn cp24time2a_tag(&mut self, t: Option<Timestamp>, flags: TimeTagFlags) -> (r: &mut Self)
        ensures
            r.params() == old(self).params(),
            r.payload().len() == old(self).payload().len() + CP24TIME2A_SIZE,
            r.payload().subrange(0, old(self).payload().len() as int) == old(self).payload(),
            *final(self) == *final(r),
    {
        let b = cp24time2a_tag(t, flags, self.params.info_obj_time_zone);
        put_bytes(&mut self.buf, b.as_slice());
        self
    }

    /// Append a CP16Time2a elapsed-millisecond tag.
    pub fn cp16time2a(&mut self, msec: u16) -> (r: &mut Self)
        ensures
            r.params() == old(self).params(),
            r.payload() == old(self).payload() + u16_octets(msec),
            *final(self) == *final(r),
    {
        let b = cp16time2a(msec);
        put_bytes(&mut self.buf, b.as_slice());
        self
    }

    /// Append a status and status change detection word (SCD).
    pub fn scd(&mut self, scd: StatusAndStatusChangeDetection) -> (r: &mut Self)
        ensures
            r.params() == old(self).params(),
            r.payload() == old(self).payload() + u32_octets(scd.0),
            *final(self) == *final(r),
    {
        put_u32(&mut self.buf, scd.0);
        self
    }
}

/// Reads information elements out of an ASDU payload.
///
/// The reader borrows the payload and tracks its own position, so decoding
/// never modifies the ASDU and any number of readers may be taken.
#[derive(Debug, Clone)]
pub struct InfoObjReader<'a> {
    params: Params,
    buf: &'a [u8],
    pos: usize,
    /// The validity flags of the time tag read last by a `*_tag` method.
    last_flags: TimeTagFlags,
}

impl Asdu {
    /// A cursor that reads information elements back out, without consuming
    /// them: the ASDU is left intact and can be decoded repeatedly.
    pub fn reader(&self) -> (r: InfoObjReader<'_>)
        ensures
            r.params() == self.params,
            r.payload() == self.info_obj@,
            r.pos() == 0,
            r.flags() == (TimeTagFlags { invalid: false, substituted: false }),
    {
        InfoObjReader {
            params: self.params,
            buf: self.info_obj.as_slice(),
            pos: 0,
            last_flags: TimeTagFlags { invalid: false, substituted: false },
        }
    }
}

impl<'a> InfoObjReader<'a> {
    /// The parameters the reader decodes with.
    pub closed spec fn params(self) -> Params {
        self.params
    }

    /// The payload being read.
    pub closed spec fn payload(self) -> Seq<u8> {
        self.buf@
    }

    /// The position of the next octet to read.
    pub closed spec fn pos(self) -> int {
        self.pos as int
    }

    /// The flags of the time tag read last.
    pub closed spec fn flags(self) -> TimeTagFlags {
        self.last_flags
    }

    /// The reader advanced by `n` octets, everything else unchanged.
    pub open spec fn advanced(self, before: Self, n: int) -> bool {
        self.params() == before.params() && self.payload() == before.payload() && self.pos()
            == before.pos() + n && self.flags() == before.flags()
    }

    /// There are `n` more octets to read.
    pub open spec fn has(self, n: int) -> bool {
        self.pos() + n <= self.payload().len()
    }

    /// Octets left to read.
    pub fn remaining(&self) -> (n: usize)
        ensures
            n == if self.pos() <= self.payload().len() {
                self.payload().len() - self.pos()
            } else {
                0
            },
    {
        if self.pos <= self.buf.len() {
            self.buf.len() - self.pos
        } else {
            0
        }
    }

    /// Read `n` raw octets, as the payload of a variable-length element.
    pub fn take_bytes(&mut self, n: usize) -> (r: Result<&'a [u8]>)
        ensures
            old(self).has(n as int) ==> (r matches Ok(s) && s@ == old(self).payload().subrange(
                old(self).pos(),
                old(self).pos() + n,
            ) && final(self).advanced(*old(self), n as int)),
            !old(self).has(n as int) ==> r == Err::<&'a [u8], Error>(Error::UnexpectedEof)
                && *final(self) == *old(self),
    {
        if self.pos > self.buf.len() || n > self.buf.len() - self.pos {
            return Err(Error::UnexpectedEof);
        }
        let end = self.pos + n;
        let s = vstd::slice::slice_subrange(self.buf, self.pos, end);
        self.pos = end;
        Ok(s)
    }

    /// Read one octet.
    pub fn byte(&mut self) -> (r: Result<u8>)
        ensures
            old(self).has(1) ==> r == Ok::<u8, Error>(old(self).payload()[old(self).pos()])
                && final(self).advanced(*old(self), 1),
            !old(self).has(1) ==> r == Err::<u8, Error>(Error::UnexpectedEof) && *final(self) == *old(self),
    {
        let s = self.take_bytes(1)?;
        Ok(s[0])
    }

    /// Read a little-endian `u16`.
    pub fn u16(&mut self) -> (r: Result<u16>)
        ensures
            old(self).has(2) ==> r == Ok::<u16, Error>(u16_at(old(self).payload(), old(self).pos()))
                && final(self).advanced(*old(self), 2),
            !old(self).has(2) ==> r == Err::<u16, Error>(Error::UnexpectedEof) && *final(self) == *old(self),
    {
        let s = self.take_bytes(2)?;
        Ok(get_u16(s, 0))
    }

    /// Read an information object address in the configured width.
    pub fn info_obj_addr(&mut self) -> (r: Result<InfoObjAddr>)
        ensures
            ({
                let w = old(self).params().info_obj_addr_size;
                &&& !(1 <= w <= 3) ==> r == Err::<u32, Error>(Error::Param) && *final(self) == *old(self)
                &&& 1 <= w <= 3 && old(self).has(w as int) ==> r == Ok::<u32, Error>(
                    addr_at(w, old(self).payload(), old(self).pos()),
                ) && final(self).advanced(*old(self), w as int)
                &&& 1 <= w <= 3 && !old(self).has(w as int) ==> r == Err::<u32, Error>(
                    Error::UnexpectedEof,
                ) && *final(self) == *old(self)
            }),
    {
        let w = self.params.info_obj_addr_size;
        if w < 1 || w > 3 {
            return Err(Error::Param);
        }
        let s = self.take_bytes(w as usize)?;
        Ok(get_addr(s, 0, w))
    }

    /// Read a 3-octet length of file (LOF).
    pub fn length_of_file(&mut self) -> (r: Result<u32>)
        ensures
            old(self).has(3) ==> r == Ok::<u32, Error>(u24_at(old(self).payload(), old(self).pos()))
                && final(self).advanced(*old(self), 3),
            !old(self).has(3) ==> r == Err::<u32, Error>(Error::UnexpectedEof) && *final(self) == *old(self),
    {
        let s = self.take_bytes(3)?;
        Ok(get_u24(s, 0))
    }

    /// Read a normalized value (NVA).
    pub fn normalize(&mut self) -> (r: Result<Normalize>)
        ensures
            old(self).has(2) ==> r == Ok::<Normalize, Error>(
                Normalize(u16_at(old(self).payload(), old(self).pos()) as i16),
            ) && final(self).advanced(*old(self), 2),
            !old(self).has(2) ==> r == Err::<Normalize, Error>(Error::UnexpectedEof) && *final(self)
                == *old(self),
    {
        let s = self.take_bytes(2)?;
        Ok(Normalize(get_u16(s, 0) as i16))
    }

    /// Read a scaled value (SVA).
    pub fn scaled(&mut self) -> (r: Result<i16>)
        ensures
            old(self).has(2) ==> r == Ok::<i16, Error>(u16_at(old(self).payload(), old(self).pos()) as i16)
                && final(self).advanced(*old(self), 2),
            !old(self).has(2) ==> r == Err::<i16, Error>(Error::UnexpectedEof) && *final(self) == *old(self),
    {
        let s = self.take_bytes(2)?;
        Ok(get_u16(s, 0) as i16)
    }

    /// Read the bits of a short floating point number (R32-IEEE STD 754).
    pub fn f32_bits(&mut self) -> (r: Result<u32>)
        ensures
            old(self).has(4) ==> r == Ok::<u32, Error>(u32_at(old(self).payload(), old(self).pos()))
                && final(self).advanced(*old(self), 4),
            !old(self).has(4) ==> r == Err::<u32, Error>(Error::UnexpectedEof) && *final(self) == *old(self),
    {
        let s = self.take_bytes(4)?;
        Ok(get_u32(s, 0))
    }

    /// Read a binary counter reading (BCR).
    pub fn binary_counter_reading(&mut self) -> (r: Result<BinaryCounterReading>)
        ensures
            old(self).has(5) ==> r == Ok::<BinaryCounterReading, Error>(
                bcr_at(old(self).payload(), old(self).pos()),
            ) && final(self).advanced(*old(self), 5),
            !old(self).has(5) ==> r == Err::<BinaryCounterReading, Error>(Error::UnexpectedEof)
                && *final(self) == *old(self),
    {
        let s = self.take_bytes(5)?;
        let v = get_bcr(s, 0);
        Ok(v)
    }

    /// Read a 32 bit string (BSI).
    pub fn bits_string32(&mut self) -> (r: Result<u32>)
        ensures
            old(self).has(4) ==> r == Ok::<u32, Error>(u32_at(old(self).payload(), old(self).pos()))
                && final(self).advanced(*old(self), 4),
            !old(self).has(4) ==> r == Err::<u32, Error>(Error::UnexpectedEof) && *final(self) == *old(self),
    {
        let s = self.take_bytes(4)?;
        Ok(get_u32(s, 0))
    }

    /// Read a CP56Time2a time tag; `None` when the IV bit is set.
    pub fn cp56time2a(&mut self) -> (r: Result<Option<Timestamp>>)
        ensures
            old(self).has(7) ==> r is Ok && final(self).advanced(*old(self), 7) && (r matches Ok(t) ==> (
            old(self).payload()[old(self).pos() + 2] >= 128 ==> t is None) && (match zone_offset(
                old(self).params().info_obj_time_zone,
            ) {
                Some(off) => old(self).payload()[old(self).pos() + 2] < 128 ==> t == decode_cp56_at(
                    old(self).payload().subrange(old(self).pos(), old(self).pos() + 7),
                    off,
                ),
                None => true,
            }) && (old(self).payload()[old(self).pos() + 2] < 128 ==> cp56_zone_read(
                old(self).params().info_obj_time_zone,
                old(self).payload().subrange(old(self).pos(), old(self).pos() + 7),
                t,
            ))),
            !old(self).has(7) ==> r == Err::<Option<Timestamp>, Error>(Error::UnexpectedEof)
                && *final(self) == *old(self),
    {
        let s = self.take_bytes(CP56TIME2A_SIZE)?;
        Ok(parse_cp56time2a(s, self.params.info_obj_time_zone))
    }

    /// Read a CP24Time2a time tag; `None` when the IV bit is set.
    pub fn cp24time2a(&mut self) -> (r: Result<Option<Timestamp>>)
        ensures
            old(self).has(3) ==> r is Ok && final(self).advanced(*old(self), 3) && (r matches Ok(t) ==> (
            old(self).payload()[old(self).pos() + 2] >= 128 ==> t is None) && (old(self).payload()[old(self).pos()
                + 2] < 128 ==> exists|ms: int|
                #[trigger] cp24_clock_read(
                    old(self).params().info_obj_time_zone,
                    old(self).payload().subrange(old(self).pos(), old(self).pos() + 3),
                    ms,
                    t,
                ))),
            !old(self).has(3) ==> r == Err::<Option<Timestamp>, Error>(Error::UnexpectedEof)
                && *final(self) == *old(self),
    {
        let s = self.take_bytes(CP24TIME2A_SIZE)?;
        Ok(parse_cp24time2a(s, self.params.info_obj_time_zone))
    }

    /// Read a CP56Time2a time tag's reading whatever its validity, keeping
    /// its flags for [`InfoObjReader::time_flags`].
    pub fn cp56time2a_tag(&mut self) -> (r: Result<Option<Timestamp>>)
        ensures
            old(self).has(7) ==> r is Ok && final(self).params() == old(self).params() && final(self).payload()
                == old(self).payload() && final(self).pos() == old(self).pos() + 7 && final(self).flags()
                == TimeTagFlags::spec_from_minutes_octet(old(self).payload()[old(self).pos() + 2])
                && (r matches Ok(t) ==> (match zone_offset(old(self).params().info_obj_time_zone) {
                Some(off) => t == decode_cp56_at(
                    old(self).payload().subrange(old(self).pos(), old(self).pos() + 7),
                    off,
                ),
                None => true,
            }) && cp56_zone_read(
                old(self).params().info_obj_time_zone,
                old(self).payload().subrange(old(self).pos(), old(self).pos() + 7),
                t,
            )),
            !old(self).has(7) ==> r == Err::<Option<Timestamp>, Error>(Error::UnexpectedEof)
                && *final(self) == *old(self),
    {
        let s = self.take_bytes(CP56TIME2A_SIZE)?;
        let (t, flags) = parse_cp56time2a_tag(s, self.params.info_obj_time_zone);
        self.last_flags = flags;
        Ok(t)
    }

    /// Read a CP24Time2a time tag's reading whatever its validity, keeping
    /// its flags for [`InfoObjReader::time_flags`].
    pub fn cp24time2a_tag(&mut self) -> (r: Result<Option<Timestamp>>)
        ensures
            old(self).has(3) ==> r is Ok && final(self).params() == old(self).params() && final(self).payload()
                == old(self).payload() && final(self).pos() == old(self).pos() + 3 && final(self).flags()
                == TimeTagFlags::spec_from_minutes_octet(old(self).payload()[old(self).pos() + 2]) && (r matches Ok(
                t,
            ) ==> exists|ms: int|
                #[trigger] cp24_clock_read(
                    old(self).params().info_obj_time_zone,
                    old(self).payload().subrange(old(self).pos(), old(self).pos() + 3),
                    ms,
                    t,
                )),
            !old(self).has(3) ==> r == Err::<Option<Timestamp>, Error>(Error::UnexpectedEof)
                && *final(self) == *old(self),
    {
        let s = self.take_bytes(CP24TIME2A_SIZE)?;
        let (t, flags) = parse_cp24time2a_tag(s, self.params.info_obj_time_zone);
        self.last_flags = flags;
        Ok(t)
    }

    /// The IV and SB flags of the time tag read last with a `*_tag` method,
    /// and neither before any has been read.
    pub fn time_flags(&self) -> (f: TimeTagFlags)
        ensures
            f == self.flags(),
    {
        self.last_flags
    }

    /// Read a CP16Time2a elapsed-millisecond tag.
    pub fn cp16time2a(&mut self) -> (r: Result<u16>)
        ensures
            old(self).has(2) ==> r == Ok::<u16, Error>(u16_at(old(self).payload(), old(self).pos()))
                && final(self).advanced(*old(self), 2),
            !old(self).has(2) ==> r == Err::<u16, Error>(Error::UnexpectedEof) && *final(self) == *old(self),
    {
        let s = self.take_bytes(CP16TIME2A_SIZE)?;
        Ok(parse_cp16time2a(s))
    }

    /// Read a status and status change detection word (SCD).
    pub fn scd(&mut self) -> (r: Result<StatusAndStatusChangeDetection>)
        ensures
            old(self).has(4) ==> r == Ok::<StatusAndStatusChangeDetection, Error>(
                StatusAndStatusChangeDetection(u32_at(old(self).payload(), old(self).pos())),
            ) && final(self).advanced(*old(self), 4),
            !old(self).has(4) ==> r == Err::<StatusAndStatusChangeDetection, Error>(Error::UnexpectedEof)
                && *final(self) == *old(self),
    {
        let v = self.bits_string32()?;
        Ok(StatusAndStatusChangeDetection(v))
    }

    /// Read the address of the information object at index `i` of the payload.
    ///
    /// For a sequence (SQ = 1) only the first object carries an address; the
    /// rest are implied by incrementing it. `previous` is the address decoded
    /// for the preceding object.
    pub fn next_obj_addr(&mut self, i: usize, is_sequence: bool, previous: InfoObjAddr) -> (r: Result<InfoObjAddr>)
        ensures
            is_sequence && i != 0 ==> r == Ok::<u32, Error>(
                if previous == u32::MAX { 0 } else { (previous + 1) as u32 },
            ) && *final(self) == *old(self),
            !is_sequence || i == 0 ==> ({
                let w = old(self).params().info_obj_addr_size;
                &&& !(1 <= w <= 3) ==> r == Err::<u32, Error>(Error::Param) && *final(self) == *old(self)
                &&& 1 <= w <= 3 && old(self).has(w as int) ==> r == Ok::<u32, Error>(
                    addr_at(w, old(self).payload(), old(self).pos()),
                ) && final(self).advanced(*old(self), w as int)
                &&& 1 <= w <= 3 && !old(self).has(w as int) ==> r == Err::<u32, Error>(
                    Error::UnexpectedEof,
                ) && *final(self) == *old(self)
            }),
    {
        if !is_sequence || i == 0 {
            self.info_obj_addr()
        } else {
            Ok(previous.wrapping_add(1))
        }
    }
}

/// Why the common arguments of a builder are refused, in the order they are
/// checked; `None` when they are accepted.
pub open spec fn check_valid_error(p: Params, type_id: TypeId, is_sequence: bool, n: int) -> Option<Error> {
    if n == 0 {
        Some(Error::NotAnyObjInfo)
    } else {
        match info_obj_size_of(type_id.0) {
            None => Some(Error::TypeIdentifier),
            Some(obj) => if !p.spec_valid() {
                Some(Error::Param)
            } else if identifier_len(p) + (if is_sequence {
                n * obj + p.info_obj_addr_size
            } else {
                n * (obj + p.info_obj_addr_size)
            }) > ASDU_SIZE_MAX {
                Some(Error::LengthOutOfRange)
            } else {
                None
            },
        }
    }
}

/// Validate the common arguments of a builder.
///
/// Checks that at least one information object was given, that the type is
/// sizeable, that the parameters are in range, and that the resulting ASDU
/// fits within [`ASDU_SIZE_MAX`].
pub fn check_valid(params: &Params, type_id: TypeId, is_sequence: bool, infos_len: usize) -> (r: Result<()>)
    ensures
        match check_valid_error(*params, type_id, is_sequence, infos_len as int) {
            Some(e) => r == Err::<(), Error>(e),
            None => r is Ok,
        },
{
    if infos_len == 0 {
        return Err(Error::NotAnyObjInfo);
    }
    let obj_size = type_id.info_obj_size()?;
    params.valid()?;
    let addr_size = params.info_obj_addr_size as u128;
    let n = infos_len as u128;
    let obj = obj_size as u128;
    assert(obj_size <= 13);
    assert(n * obj <= 0xffff_ffff_ffff_ffff * 13 && n * (obj + addr_size) <= 0xffff_ffff_ffff_ffff * 16) by (nonlinear_arith)
        requires
            n <= 0xffff_ffff_ffff_ffff,
            obj <= 13,
            addr_size <= 3,
    ;
    let asdu_len: u128 = if is_sequence {
        params.identifier_size() as u128 + n * obj + addr_size
    } else {
        params.identifier_size() as u128 + n * (obj + addr_size)
    };
    if asdu_len > ASDU_SIZE_MAX as u128 {
        return Err(Error::LengthOutOfRange);
    }
    Ok(())
}
} // verus!
