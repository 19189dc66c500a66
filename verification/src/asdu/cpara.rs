//! Parameters in the control direction: the `P_*` types that configure
//! thresholds, smoothing factors and transmission limits of measured values.
//!
//! Each ASDU carries one object: the address of the measured value being
//! parameterised, the value, and its qualifier.

use vstd::prelude::*;

use crate::asdu::codec::{addr_at, addr_fits, addr_octets, get_u16, get_u32, u16_at, u16_octets, u32_at, u32_octets, Asdu};
use crate::asdu::csys::{build_sys, sys_outcome, sys_read_back, sys_read_error};
use crate::asdu::identifier::{CauseOfTransmission, CommonAddr, TypeId};
use crate::asdu::info::{InfoObjAddr, Normalize, QualifierOfParameterAct, QualifierOfParameterMv};
use crate::asdu::params::Params;
use crate::error::{Error, Result};

verus! {

/// A normalized measured value parameter.
#[derive(Debug, Clone, Copy, PartialEq, Eq, Default)]
pub struct ParameterNormalInfo {
    /// Information object address of the measured value being parameterised.
    pub ioa: InfoObjAddr,
    /// The parameter value.
    pub value: Normalize,
    /// Which parameter this is, plus its change and operation flags.
    pub qpm: QualifierOfParameterMv,
}

/// A scaled measured value parameter.
#[derive(Debug, Clone, Copy, PartialEq, Eq, Default)]
pub struct ParameterScaledInfo {
    /// Information object address of the measured value being parameterised.
    pub ioa: InfoObjAddr,
    /// The parameter value.
    pub value: i16,
    /// Which parameter this is, plus its change and operation flags.
    pub qpm: QualifierOfParameterMv,
}

/// A short floating point measured value parameter, carried as the bits of
/// its IEEE 754 single-precision representation.
#[derive(Debug, Clone, Copy, PartialEq, Eq, Default)]
pub struct ParameterFloatInfo {
    /// Information object address of the measured value being parameterised.
    pub ioa: InfoObjAddr,
    /// The bits of the parameter value (R32-IEEE STD 754).
    pub value: u32,
    /// Which parameter this is, plus its change and operation flags.
    pub qpm: QualifierOfParameterMv,
}

/// A parameter activation.
#[derive(Debug, Clone, Copy, PartialEq, Eq, Default)]
pub struct ParameterActivationInfo {
    /// Information object address; 0 addresses the previously loaded parameters.
    pub ioa: InfoObjAddr,
    /// What is being (de)activated.
    pub qpa: QualifierOfParameterAct,
}

impl Asdu {
    /// Build `P_ME_NA_1`: a normalized measured value parameter.
    ///
    /// See companion standard 101, subclass 7.3.5.1. Only `Activation` is
    /// permitted in the control direction.
    pub fn parameter_normal(params: Params, coa: CauseOfTransmission, ca: CommonAddr, p: ParameterNormalInfo) -> (r: Result<Asdu>)
        ensures
            coa.cause.0 != 6 ==> r == Err::<Asdu, Error>(Error::CmdCause),
            coa.cause.0 == 6 ==> sys_outcome(
                r,
                params,
                TypeId(110),
                coa,
                ca,
                p.ioa,
                |b: Seq<u8>| b == u16_octets(p.value.0 as u16) + seq![p.qpm.spec_value()],
            ),
    {
        if coa.cause.0 != 6 {
            return Err(Error::CmdCause);
        }
        let v = p.value.0 as u16;
        let rest = [(v % 256) as u8, (v / 256) as u8, p.qpm.value()];
        assert(rest@ =~= u16_octets(p.value.0 as u16) + seq![p.qpm.spec_value()]);
        build_sys(params, TypeId(110), coa, ca, p.ioa, rest.as_slice())
    }

    /// Decode `P_ME_NA_1`.
    pub fn get_parameter_normal(&self) -> (r: Result<ParameterNormalInfo>)
        ensures
            match sys_read_error(self.params, self.info_obj@.len() as int, 3) {
                Some(e) => r == Err::<ParameterNormalInfo, Error>(e),
                None => r == Ok::<ParameterNormalInfo, Error>(
                    ParameterNormalInfo {
                        ioa: addr_at(self.params.info_obj_addr_size, self.info_obj@, 0),
                        value: Normalize(u16_at(self.info_obj@, self.params.info_obj_addr_size as int) as i16),
                        qpm: QualifierOfParameterMv::spec_parse(
                            self.info_obj@[self.params.info_obj_addr_size + 2],
                        ),
                    },
                ),
            },
    {
        let (ioa, at) = self.read_sys(3)?;
        let b = self.info_obj.as_slice();
        Ok(
            ParameterNormalInfo {
                ioa,
                value: Normalize(get_u16(b, at) as i16),
                qpm: QualifierOfParameterMv::parse(b[at + 2]),
            },
        )
    }

    /// Build `P_ME_NB_1`: a scaled measured value parameter.
    ///
    /// See companion standard 101, subclass 7.3.5.2.
    pub fn parameter_scaled(params: Params, coa: CauseOfTransmission, ca: CommonAddr, p: ParameterScaledInfo) -> (r: Result<Asdu>)
        ensures
            coa.cause.0 != 6 ==> r == Err::<Asdu, Error>(Error::CmdCause),
            coa.cause.0 == 6 ==> sys_outcome(
                r,
                params,
                TypeId(111),
                coa,
                ca,
                p.ioa,
                |b: Seq<u8>| b == u16_octets(p.value as u16) + seq![p.qpm.spec_value()],
            ),
    {
        if coa.cause.0 != 6 {
            return Err(Error::CmdCause);
        }
        let v = p.value as u16;
        let rest = [(v % 256) as u8, (v / 256) as u8, p.qpm.value()];
        assert(rest@ =~= u16_octets(p.value as u16) + seq![p.qpm.spec_value()]);
        build_sys(params, TypeId(111), coa, ca, p.ioa, rest.as_slice())
    }

    /// Decode `P_ME_NB_1`.
    pub fn get_parameter_scaled(&self) -> (r: Result<ParameterScaledInfo>)
        ensures
            match sys_read_error(self.params, self.info_obj@.len() as int, 3) {
                Some(e) => r == Err::<ParameterScaledInfo, Error>(e),
                None => r == Ok::<ParameterScaledInfo, Error>(
                    ParameterScaledInfo {
                        ioa: addr_at(self.params.info_obj_addr_size, self.info_obj@, 0),
                        value: u16_at(self.info_obj@, self.params.info_obj_addr_size as int) as i16,
                        qpm: QualifierOfParameterMv::spec_parse(
                            self.info_obj@[self.params.info_obj_addr_size + 2],
                        ),
                    },
                ),
            },
    {
        let (ioa, at) = self.read_sys(3)?;
        let b = self.info_obj.as_slice();
        Ok(ParameterScaledInfo { ioa, value: get_u16(b, at) as i16, qpm: QualifierOfParameterMv::parse(b[at + 2]) })
    }

    /// Build `P_ME_NC_1`: a short floating point measured value parameter.
    ///
    /// See companion standard 101, subclass 7.3.5.3.
    pub fn parameter_float(params: Params, coa: CauseOfTransmission, ca: CommonAddr, p: ParameterFloatInfo) -> (r: Result<Asdu>)
        ensures
            coa.cause.0 != 6 ==> r == Err::<Asdu, Error>(Error::CmdCause),
            coa.cause.0 == 6 ==> sys_outcome(
                r,
                params,
                TypeId(112),
                coa,
                ca,
                p.ioa,
                |b: Seq<u8>| b == u32_octets(p.value) + seq![p.qpm.spec_value()],
            ),
    {
        if coa.cause.0 != 6 {
            return Err(Error::CmdCause);
        }
        let v = p.value;
        let rest = [
            (v % 256) as u8,
            ((v / 256) % 256) as u8,
            ((v / 65536) % 256) as u8,
            (v / 16777216) as u8,
            p.qpm.value(),
        ];
        assert(rest@ =~= u32_octets(p.value) + seq![p.qpm.spec_value()]);
        build_sys(params, TypeId(112), coa, ca, p.ioa, rest.as_slice())
    }

    /// Decode `P_ME_NC_1`.
    pub fn get_parameter_float(&self) -> (r: Result<ParameterFloatInfo>)
        ensures
            match sys_read_error(self.params, self.info_obj@.len() as int, 5) {
                Some(e) => r == Err::<ParameterFloatInfo, Error>(e),
                None => r == Ok::<ParameterFloatInfo, Error>(
                    ParameterFloatInfo {
                        ioa: addr_at(self.params.info_obj_addr_size, self.info_obj@, 0),
                        value: u32_at(self.info_obj@, self.params.info_obj_addr_size as int),
                        qpm: QualifierOfParameterMv::spec_parse(
                            self.info_obj@[self.params.info_obj_addr_size + 4],
                        ),
                    },
                ),
            },
    {
        let (ioa, at) = self.read_sys(5)?;
        let b = self.info_obj.as_slice();
        Ok(ParameterFloatInfo { ioa, value: get_u32(b, at), qpm: QualifierOfParameterMv::parse(b[at + 4]) })
    }

    /// Build `P_AC_NA_1`: a parameter activation.
    ///
    /// See companion standard 101, subclass 7.3.5.4.
    /// Permitted causes: `Activation`, `Deactivation`.
    pub fn parameter_activation(params: Params, coa: CauseOfTransmission, ca: CommonAddr, p: ParameterActivationInfo) -> (r: Result<Asdu>)
        ensures
            !(coa.cause.0 == 6 || coa.cause.0 == 8) ==> r == Err::<Asdu, Error>(Error::CmdCause),
            (coa.cause.0 == 6 || coa.cause.0 == 8) ==> sys_outcome(
                r,
                params,
                TypeId(113),
                coa,
                ca,
                p.ioa,
                |b: Seq<u8>| b == seq![p.qpa.0],
            ),
    {
        if coa.cause.0 != 6 && coa.cause.0 != 8 {
            return Err(Error::CmdCause);
        }
        let rest = [p.qpa.0];
        assert(rest@ =~= seq![p.qpa.0]);
        build_sys(params, TypeId(113), coa, ca, p.ioa, rest.as_slice())
    }

    /// Decode `P_AC_NA_1`.
    pub fn get_parameter_activation(&self) -> (r: Result<ParameterActivationInfo>)
        ensures
            match sys_read_error(self.params, self.info_obj@.len() as int, 1) {
                Some(e) => r == Err::<ParameterActivationInfo, Error>(e),
                None => r == Ok::<ParameterActivationInfo, Error>(
                    ParameterActivationInfo {
                        ioa: addr_at(self.params.info_obj_addr_size, self.info_obj@, 0),
                        qpa: QualifierOfParameterAct(self.info_obj@[self.params.info_obj_addr_size as int]),
                    },
                ),
            },
    {
        let (ioa, at) = self.read_sys(1)?;
        Ok(ParameterActivationInfo { ioa, qpa: QualifierOfParameterAct(self.info_obj[at]) })
    }
}

/// A normalized measured value parameter reads back what it was built from,
/// for a qualifier whose category fits its six bits.
pub proof fn parameter_normal_round_trip(p: Params, n: ParameterNormalInfo, pn: Seq<u8>)
    requires
        p.spec_valid(),
        addr_fits(p.info_obj_addr_size, n.ioa),
        n.qpm.category.0 < 64,
        pn == addr_octets(p.info_obj_addr_size, n.ioa) + u16_octets(n.value.0 as u16) + seq![n.qpm.spec_value()],
    ensures
        sys_read_error(p, pn.len() as int, 3) is None,
        (ParameterNormalInfo {
            ioa: addr_at(p.info_obj_addr_size, pn, 0),
            value: Normalize(u16_at(pn, p.info_obj_addr_size as int) as i16),
            qpm: QualifierOfParameterMv::spec_parse(pn[p.info_obj_addr_size + 2]),
        }) == n,
{
    let w = p.info_obj_addr_size;
    assert(pn.subrange(0, w as int) =~= addr_octets(w, n.ioa));
    sys_read_back(p, n.ioa, pn, 3);
    let x = n.value.0;
    assert(((x as u16) as i16) == x) by (bit_vector);
    assert(pn[w as int] == u16_octets(x as u16)[0] && pn[w + 1] == u16_octets(x as u16)[1]);
    assert(QualifierOfParameterMv::spec_parse(n.qpm.spec_value()) == n.qpm);
}

/// A scaled measured value parameter reads back what it was built from, for
/// a qualifier whose category fits its six bits.
pub proof fn parameter_scaled_round_trip(p: Params, s: ParameterScaledInfo, ps: Seq<u8>)
    requires
        p.spec_valid(),
        addr_fits(p.info_obj_addr_size, s.ioa),
        s.qpm.category.0 < 64,
        ps == addr_octets(p.info_obj_addr_size, s.ioa) + u16_octets(s.value as u16) + seq![s.qpm.spec_value()],
    ensures
        sys_read_error(p, ps.len() as int, 3) is None,
        (ParameterScaledInfo {
            ioa: addr_at(p.info_obj_addr_size, ps, 0),
            value: u16_at(ps, p.info_obj_addr_size as int) as i16,
            qpm: QualifierOfParameterMv::spec_parse(ps[p.info_obj_addr_size + 2]),
        }) == s,
{
    let w = p.info_obj_addr_size;
    assert(ps.subrange(0, w as int) =~= addr_octets(w, s.ioa));
    sys_read_back(p, s.ioa, ps, 3);
    let y = s.value;
    assert(((y as u16) as i16) == y) by (bit_vector);
    assert(ps[w as int] == u16_octets(y as u16)[0] && ps[w + 1] == u16_octets(y as u16)[1]);
    assert(QualifierOfParameterMv::spec_parse(s.qpm.spec_value()) == s.qpm);
}

/// A short floating point parameter reads back what it was built from, for a
/// qualifier whose category fits its six bits.
pub proof fn parameter_float_round_trip(p: Params, f: ParameterFloatInfo, pf: Seq<u8>)
    requires
        p.spec_valid(),
        addr_fits(p.info_obj_addr_size, f.ioa),
        f.qpm.category.0 < 64,
        pf == addr_octets(p.info_obj_addr_size, f.ioa) + u32_octets(f.value) + seq![f.qpm.spec_value()],
    ensures
        sys_read_error(p, pf.len() as int, 5) is None,
        (ParameterFloatInfo {
            ioa: addr_at(p.info_obj_addr_size, pf, 0),
            value: u32_at(pf, p.info_obj_addr_size as int),
            qpm: QualifierOfParameterMv::spec_parse(pf[p.info_obj_addr_size + 4]),
        }) == f,
{
    let w = p.info_obj_addr_size;
    assert(pf.subrange(0, w as int) =~= addr_octets(w, f.ioa));
    sys_read_back(p, f.ioa, pf, 5);
    crate::asdu::codec::u32_round_trip(f.value);
    let o = u32_octets(f.value);
    assert(pf[w as int] == o[0] && pf[w + 1] == o[1] && pf[w + 2] == o[2] && pf[w + 3] == o[3]);
    assert(QualifierOfParameterMv::spec_parse(f.qpm.spec_value()) == f.qpm);
}

} // verus!
