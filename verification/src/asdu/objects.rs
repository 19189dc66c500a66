//! The layout of the information objects in a payload, shared by every ASDU
//! family: where each object's address and element set lie, how a builder
//! writes them and how a getter finds them again.
//!
//! Without SQ every object is its address followed by its element set; with
//! SQ only the first object carries an address and the others follow it,
//! their addresses implied by incrementing the first.

use vstd::prelude::*;

use crate::asdu::codec::{
    addr_at, addr_fits, addr_octets, check_valid, check_valid_error, get_addr, put_addr, put_bytes,
    Asdu,
};
use crate::asdu::identifier::{CauseOfTransmission, CommonAddr, Identifier, TypeId, VariableStruct};
use crate::asdu::params::{reading_in, summer_flag, zone_offset, Params, TimeZone};
use crate::asdu::time::{
    cp24_clock_read, cp24_octets, cp24time2a, cp56_no_time, cp56_octets, cp56_zone_read, cp56time2a, decode_cp56_at,
    parse_cp24time2a, parse_cp56time2a, reading_at, CalendarTime, Timestamp,
};
use crate::error::{Error, Result};

verus! {

/// True when the information object at index `i` carries its own address.
pub open spec fn spec_writes_addr(is_sequence: bool, i: int) -> bool {
    !is_sequence || i == 0
}

/// True when the information object at index `i` carries its own address.
pub fn writes_addr(is_sequence: bool, i: usize) -> (b: bool)
    ensures
        b == spec_writes_addr(is_sequence, i as int),
{
    !is_sequence || i == 0
}

/// Where the address of object `i` starts.
pub open spec fn addr_pos(w: int, size: int, seq: bool, i: int) -> int {
    if seq {
        0
    } else {
        i * (w + size)
    }
}

/// Where the element set of object `i` starts.
pub open spec fn elem_pos(w: int, size: int, seq: bool, i: int) -> int {
    if seq {
        w + i * size
    } else {
        i * (w + size) + w
    }
}

/// The octets that `n` objects take.
pub open spec fn objects_len(w: int, size: int, seq: bool, n: int) -> int {
    if n == 0 {
        0
    } else if seq {
        w + n * size
    } else {
        n * (w + size)
    }
}

/// The address of object `i` of a payload: its own, or in a sequence the
/// first one plus `i`, wrapping as a 32-bit count.
pub open spec fn obj_ioa(w: u8, size: int, seq: bool, b: Seq<u8>, i: int) -> u32 {
    if seq {
        ((addr_at(w, b, 0) + i) % 0x1_0000_0000) as u32
    } else {
        addr_at(w, b, i * (w + size))
    }
}

/// The element set of object `i` of a payload.
pub open spec fn elem_of(w: int, size: int, seq: bool, b: Seq<u8>, i: int) -> Seq<u8> {
    b.subrange(elem_pos(w, size, seq, i), elem_pos(w, size, seq, i) + size)
}

/// The objects grow by one: the next starts where the previous ended.
pub proof fn layout_step(w: int, size: int, seq: bool, i: int)
    requires
        1 <= w,
        0 <= size,
        0 <= i,
    ensures
        objects_len(w, size, seq, i + 1) == objects_len(w, size, seq, i) + (if spec_writes_addr(
            seq,
            i,
        ) {
            w
        } else {
            0
        }) + size,
        spec_writes_addr(seq, i) ==> addr_pos(w, size, seq, i) == objects_len(w, size, seq, i),
        elem_pos(w, size, seq, i) == objects_len(w, size, seq, i) + (if spec_writes_addr(seq, i) {
            w
        } else {
            0
        }),
        objects_len(w, size, seq, i) <= objects_len(w, size, seq, i + 1),
{
    assert((i + 1) * (w + size) == i * (w + size) + w + size) by (nonlinear_arith);
    assert((i + 1) * size == i * size + size) by (nonlinear_arith);
    assert(i * (w + size) >= 0) by (nonlinear_arith)
        requires
            i >= 0,
            w + size >= 0,
    ;
    assert(i * size >= 0) by (nonlinear_arith)
        requires
            i >= 0,
            size >= 0,
    ;
}

/// Earlier objects lie before later ones.
pub proof fn layout_monotone(w: int, size: int, seq: bool, i: int, n: int)
    requires
        1 <= w,
        0 <= size,
        0 <= i < n,
    ensures
        elem_pos(w, size, seq, i) + size <= objects_len(w, size, seq, n),
        0 <= addr_pos(w, size, seq, i),
        addr_pos(w, size, seq, i) + w <= elem_pos(w, size, seq, i) || !spec_writes_addr(seq, i),
        spec_writes_addr(seq, i) ==> addr_pos(w, size, seq, i) + w <= objects_len(w, size, seq, n),
        objects_len(w, size, seq, i + 1) <= objects_len(w, size, seq, n),
        elem_pos(w, size, seq, i) + size == objects_len(w, size, seq, i + 1),
{
    assert((i + 1) * (w + size) <= n * (w + size)) by (nonlinear_arith)
        requires
            i + 1 <= n,
            w + size >= 0,
    ;
    assert((i + 1) * size <= n * size) by (nonlinear_arith)
        requires
            i + 1 <= n,
            size >= 0,
    ;
    assert(i * (w + size) >= 0) by (nonlinear_arith)
        requires
            i >= 0,
            w + size >= 0,
    ;
    layout_step(w, size, seq, i);
}

/// Addresses of the objects of a builder's input, as a sequence.
pub open spec fn addresses_written(b: Seq<u8>, w: u8, size: int, seq: bool, n: int, ioa: spec_fn(int) -> u32) -> bool {
    forall|i: int|
        0 <= i < n && #[trigger] spec_writes_addr(seq, i) ==> b.subrange(
            addr_pos(w as int, size, seq, i),
            addr_pos(w as int, size, seq, i) + w,
        ) == addr_octets(w, ioa(i))
}

/// Why a builder refuses its objects, in the order the checks happen: the
/// common arguments, the count, the first address, the type, then the first
/// address that does not fit; `None` when it builds.
pub open spec fn build_error(
    p: Params,
    type_id: TypeId,
    is_sequence: bool,
    n: int,
    ioa: spec_fn(int) -> u32,
    family: bool,
) -> Option<Error> {
    match check_valid_error(p, type_id, is_sequence, n) {
        Some(e) => Some(e),
        None => if n >= 128 {
            Some(Error::InfoObjIndexFit)
        } else if !addr_fits(p.info_obj_addr_size, ioa(0)) {
            Some(Error::InfoObjAddrFit)
        } else if !family {
            Some(Error::TypeIdNotMatch)
        } else if exists|i: int|
            0 <= i < n && #[trigger] spec_writes_addr(is_sequence, i) && !addr_fits(
                p.info_obj_addr_size,
                ioa(i),
            ) {
            Some(Error::InfoObjAddrFit)
        } else {
            None
        },
    }
}

/// The identifier a builder gives its ASDU.
pub open spec fn built_identifier(
    type_id: TypeId,
    is_sequence: bool,
    coa: CauseOfTransmission,
    ca: CommonAddr,
    n: int,
) -> Identifier {
    Identifier {
        type_id,
        variable: VariableStruct { number: n as u8, is_sequence },
        coa,
        orig_addr: 0,
        common_addr: ca,
    }
}

/// Start an ASDU for a set of information objects, with the object count set.
pub fn start(
    params: Params,
    type_id: TypeId,
    is_sequence: bool,
    coa: CauseOfTransmission,
    ca: CommonAddr,
    n: usize,
) -> (r: Result<Asdu>)
    ensures
        match check_valid_error(params, type_id, is_sequence, n as int) {
            Some(e) => r == Err::<Asdu, Error>(e),
            None => if n >= 128 {
                r == Err::<Asdu, Error>(Error::InfoObjIndexFit)
            } else {
                r matches Ok(u) && u.params == params && u.identifier == built_identifier(
                    type_id,
                    is_sequence,
                    coa,
                    ca,
                    n as int,
                ) && u.info_obj@ == Seq::<u8>::empty()
            },
        },
{
    check_valid(&params, type_id, is_sequence, n)?;
    let mut u = Asdu::new(
        params,
        Identifier::new(type_id, VariableStruct { number: 0, is_sequence }, coa, ca),
    );
    u.set_variable_number(n)?;
    Ok(u)
}

/// Write the address of object `i` when it carries one.
pub fn put_object_addr(buf: &mut Vec<u8>, w: u8, is_sequence: bool, i: usize, ioa: u32) -> (r: Result<()>)
    requires
        1 <= w <= 3,
    ensures
        spec_writes_addr(is_sequence, i as int) && !addr_fits(w, ioa) ==> r == Err::<(), Error>(
            Error::InfoObjAddrFit,
        ),
        spec_writes_addr(is_sequence, i as int) && addr_fits(w, ioa) ==> r is Ok && final(buf)@ == old(
            buf,
        )@ + addr_octets(w, ioa),
        !spec_writes_addr(is_sequence, i as int) ==> r is Ok && final(buf)@ == old(buf)@,
{
    if writes_addr(is_sequence, i) {
        put_addr(buf, w, ioa)
    } else {
        Ok(())
    }
}

/// The octets a time tag of `tag_len` octets (0: none, 3: CP24Time2a,
/// 7: CP56Time2a) may take for `t` in `zone`: the tag of the reading of `t`
/// in the zone (with its SU flag for CP56Time2a), which in UTC and at a
/// fixed offset is stated exactly, and the no-time tag for `None`.
pub open spec fn tag_ok(tag: Seq<u8>, t: Option<Timestamp>, tag_len: int, zone: TimeZone) -> bool {
    if tag_len == 0 {
        tag.len() == 0
    } else if tag_len == 3 {
        &&& tag.len() == 3
        &&& t is None ==> tag == seq![0u8, 0u8, 128u8]
        &&& t matches Some(ts) ==> exists|c: CalendarTime|
            c.well_formed() && reading_in(zone, ts, c) && tag == #[trigger] cp24_octets(c)
        &&& t matches Some(ts) ==> match zone_offset(zone) {
            Some(off) => tag == cp24_octets(reading_at(ts, off)),
            None => true,
        }
    } else {
        &&& tag.len() == 7
        &&& t is None ==> tag == cp56_no_time()
        &&& t matches Some(ts) ==> exists|c: CalendarTime, su: bool|
            c.well_formed() && reading_in(zone, ts, c) && summer_flag(zone, ts, su) && tag == #[trigger] cp56_octets(
                c,
                su,
            )
        &&& t matches Some(ts) ==> match zone_offset(zone) {
            Some(off) => tag == cp56_octets(reading_at(ts, off), false) && (2000 <= reading_at(ts, off).year
                <= 2099 ==> decode_cp56_at(tag, off) == Some(ts)),
            None => true,
        }
    }
}

/// What a getter gives back of the time a builder wrote: no time for an
/// untagged type or for `None`, and for a CP56Time2a tag in UTC or at a fixed
/// offset the instant itself when its reading falls in 2000..=2099.
pub open spec fn time_read_back(t: Option<Timestamp>, t2: Option<Timestamp>, tag_len: int, zone: TimeZone) -> bool {
    &&& tag_len == 0 ==> t2 is None
    &&& t is None ==> t2 is None
    &&& tag_len == 7 ==> match (t, zone_offset(zone)) {
        (Some(ts), Some(off)) => 2000 <= reading_at(ts, off).year <= 2099 ==> t2 == t,
        _ => true,
    }
}

/// A time tag reads back as [`time_read_back`] says.
pub proof fn tag_read_back(tag: Seq<u8>, t: Option<Timestamp>, t2: Option<Timestamp>, tag_len: int, zone: TimeZone)
    requires
        tag_len == 0 || tag_len == 3 || tag_len == 7,
        tag_ok(tag, t, tag_len, zone),
        tag_decoded(tag, t2, tag_len, zone),
    ensures
        time_read_back(t, t2, tag_len, zone),
{
    if tag_len == 7 {
        if let Some(ts) = t {
            let (c, su) = choose|c: CalendarTime, su: bool| c.well_formed() && tag == #[trigger] cp56_octets(c, su);
            assert(tag[2] == c.minute as u8);
        }
    }
}

/// What reading a time tag of `tag_len` octets gives: nothing for no tag;
/// nothing for a tag with IV set; for a CP56Time2a tag in UTC, at a fixed
/// offset or in a named zone, exactly its instant, and in the host's zone
/// what [`cp56_zone_read`] allows; for a CP24Time2a tag, its reading with
/// the date and hour of the host clock.
pub open spec fn tag_decoded(tag: Seq<u8>, t: Option<Timestamp>, tag_len: int, zone: TimeZone) -> bool {
    if tag_len == 0 {
        t is None
    } else {
        &&& tag[2] >= 128 ==> t is None
        &&& tag_len == 7 && tag[2] < 128 ==> match zone_offset(zone) {
            Some(off) => t == decode_cp56_at(tag, off),
            None => true,
        }
        &&& tag_len == 7 && tag[2] < 128 ==> cp56_zone_read(zone, tag, t)
        &&& tag_len == 3 && tag[2] < 128 ==> exists|ms: int| #[trigger] cp24_clock_read(zone, tag, ms, t)
    }
}

/// Append the time tag of `tag_len` octets for `t`.
pub fn put_tag(buf: &mut Vec<u8>, t: Option<Timestamp>, tag_len: usize, zone: TimeZone)
    requires
        tag_len == 0 || tag_len == 3 || tag_len == 7,
    ensures
        final(buf)@.len() == old(buf)@.len() + tag_len,
        final(buf)@.subrange(0, old(buf)@.len() as int) == old(buf)@,
        tag_ok(final(buf)@.subrange(old(buf)@.len() as int, final(buf)@.len() as int), t, tag_len as int, zone),
{
    let ghost start = buf@;
    if tag_len == 3 {
        let b = cp24time2a(t, zone);
        put_bytes(buf, b.as_slice());
        assert(buf@.subrange(start.len() as int, buf@.len() as int) =~= b@);
    } else if tag_len == 7 {
        let b = cp56time2a(t, zone);
        put_bytes(buf, b.as_slice());
        assert(buf@.subrange(start.len() as int, buf@.len() as int) =~= b@);
    } else {
        assert(buf@.subrange(start.len() as int, buf@.len() as int) =~= Seq::<u8>::empty());
    }
    assert(buf@.subrange(0, start.len() as int) =~= start);
}

/// Read the time tag of `tag_len` octets at `at`.
pub fn read_tag(b: &[u8], at: usize, tag_len: usize, zone: TimeZone) -> (t: Option<Timestamp>)
    requires
        tag_len == 0 || tag_len == 3 || tag_len == 7,
        at + tag_len <= b.len(),
    ensures
        tag_decoded(b@.subrange(at as int, at + tag_len), t, tag_len as int, zone),
{
    if tag_len == 3 {
        let s = vstd::slice::slice_subrange(b, at, at + 3);
        parse_cp24time2a(s, zone)
    } else if tag_len == 7 {
        let s = vstd::slice::slice_subrange(b, at, at + 7);
        parse_cp56time2a(s, zone)
    } else {
        None
    }
}

/// Why a getter refuses a payload, in the order the checks happen; `None`
/// when every object can be read.
///
/// `family` says whether the type belongs to the getter, `pre` is how many
/// element octets the getter reads before it checks, and `size` is the size
/// of one element set.
pub open spec fn read_error(p: Params, v: VariableStruct, len: int, family: bool, pre: int, size: int) -> Option<Error> {
    let w = p.info_obj_addr_size as int;
    if v.number == 0 {
        None
    } else if !(1 <= w <= 3) {
        Some(Error::Param)
    } else if !family {
        if len < w + pre {
            Some(Error::UnexpectedEof)
        } else {
            Some(Error::TypeIdNotMatch)
        }
    } else if len < objects_len(w, size, v.is_sequence, v.number as int) {
        Some(Error::UnexpectedEof)
    } else {
        None
    }
}

/// The address and element position of every object of a payload, or why a
/// getter refuses it.
pub fn object_positions(p: &Params, v: VariableStruct, b: &[u8], family: bool, pre: usize, size: usize) -> (r: Result<Vec<(u32, usize)>>)
    requires
        pre <= size <= 255,
    ensures
        match read_error(*p, v, b@.len() as int, family, pre as int, size as int) {
            Some(e) => r == Err::<Vec<(u32, usize)>, Error>(e),
            None => r matches Ok(pos) && pos@.len() == v.number && (forall|i: int|
                0 <= i < v.number ==> (#[trigger] pos@[i]).0 == obj_ioa(
                    p.info_obj_addr_size,
                    size as int,
                    v.is_sequence,
                    b@,
                    i,
                ) && pos@[i].1 == elem_pos(p.info_obj_addr_size as int, size as int, v.is_sequence, i)
                && pos@[i].1 + size <= b@.len()),
        },
{
    let n = v.number as usize;
    let mut out: Vec<(u32, usize)> = Vec::new();
    if n == 0 {
        return Ok(out);
    }
    let w = p.info_obj_addr_size;
    if w < 1 || w > 3 {
        return Err(Error::Param);
    }
    let wz = w as usize;
    if !family {
        if b.len() < wz + pre {
            return Err(Error::UnexpectedEof);
        }
        return Err(Error::TypeIdNotMatch);
    }
    let seq = v.is_sequence;
    assert(n * size <= 255 * 255 && n * (wz + size) <= 255 * 258) by (nonlinear_arith)
        requires
            n <= 255,
            size <= 255,
            wz <= 3,
    ;
    let total: usize = if seq {
        wz + n * size
    } else {
        n * (wz + size)
    };
    if b.len() < total {
        return Err(Error::UnexpectedEof);
    }
    assert(n * (wz + size) >= wz) by (nonlinear_arith)
        requires
            n >= 1,
            wz + size >= 0,
    ;
    let first = get_addr(b, 0, w);
    let mut ioa: u32 = first;
    let mut at: usize = 0;
    let mut i: usize = 0;
    while i < n
        invariant
            0 <= i <= n,
            n == v.number,
            1 <= wz <= 3,
            wz == w,
            w == p.info_obj_addr_size,
            seq == v.is_sequence,
            size <= 255,
            total == objects_len(wz as int, size as int, seq, n as int),
            total <= b@.len(),
            at == objects_len(wz as int, size as int, seq, i as int),
            first == addr_at(w, b@, 0),
            seq && i > 0 ==> ioa == obj_ioa(w, size as int, seq, b@, (i - 1) as int),
            out@.len() == i,
            forall|k: int|
                0 <= k < i ==> (#[trigger] out@[k]).0 == obj_ioa(w, size as int, seq, b@, k) && out@[k].1
                    == elem_pos(wz as int, size as int, seq, k) && out@[k].1 + size <= b@.len(),
        decreases n - i,
    {
        proof {
            layout_step(wz as int, size as int, seq, i as int);
            layout_monotone(wz as int, size as int, seq, i as int, n as int);
        }
        if writes_addr(seq, i) {
            ioa = get_addr(b, at, w);
            at = at + wz;
        } else {
            ioa = ioa.wrapping_add(1);
            assert(ioa == obj_ioa(w, size as int, seq, b@, i as int));
        }
        out.push((ioa, at));
        at = at + size;
        i = i + 1;
    }
    Ok(out)
}


/// A payload holds `n` objects: its length is theirs, each object that
/// carries an address carries `ioa(i)`, and each element set satisfies
/// `elem_ok`.
pub open spec fn objects_ok(
    b: Seq<u8>,
    w: u8,
    size: int,
    seq: bool,
    n: int,
    ioa: spec_fn(int) -> u32,
    elem_ok: spec_fn(int, Seq<u8>) -> bool,
) -> bool {
    &&& b.len() == objects_len(w as int, size, seq, n)
    &&& addresses_written(b, w, size, seq, n, ioa)
    &&& forall|i: int| 0 <= i < n ==> #[trigger] elem_ok(i, elem_of(w as int, size, seq, b, i))
}

/// Appending object `i` — its address when it carries one, then its element
/// set — to a payload holding the first `i` objects gives one holding `i + 1`.
pub proof fn objects_extend(
    b0: Seq<u8>,
    b1: Seq<u8>,
    b2: Seq<u8>,
    w: u8,
    size: int,
    seq: bool,
    i: int,
    ioa: spec_fn(int) -> u32,
    elem_ok: spec_fn(int, Seq<u8>) -> bool,
)
    requires
        1 <= w <= 3,
        0 <= size,
        0 <= i,
        objects_ok(b0, w, size, seq, i, ioa, elem_ok),
        spec_writes_addr(seq, i) ==> b1 == b0 + addr_octets(w, ioa(i)),
        !spec_writes_addr(seq, i) ==> b1 == b0,
        addr_octets(w, ioa(i)).len() == w,
        b2.len() == b1.len() + size,
        b2.subrange(0, b1.len() as int) == b1,
        elem_ok(i, b2.subrange(b1.len() as int, b2.len() as int)),
    ensures
        objects_ok(b2, w, size, seq, i + 1, ioa, elem_ok),
{
    layout_step(w as int, size, seq, i);
    assert forall|j: int| 0 <= j < b0.len() implies b2[j] == b0[j] by {
        assert(b2.subrange(0, b1.len() as int)[j] == b2[j]);
        if spec_writes_addr(seq, i) {
            assert((b0 + addr_octets(w, ioa(i)))[j] == b0[j]);
        }
    }
    assert forall|k: int| 0 <= k < i + 1 implies #[trigger] elem_ok(k, elem_of(w as int, size, seq, b2, k)) by {
        if k < i {
            layout_monotone(w as int, size, seq, k, i);
            assert(elem_of(w as int, size, seq, b2, k) =~= elem_of(w as int, size, seq, b0, k));
        } else {
            assert(elem_of(w as int, size, seq, b2, k) =~= b2.subrange(b1.len() as int, b2.len() as int));
        }
    }
    assert forall|k: int|
        0 <= k < i + 1 && #[trigger] spec_writes_addr(seq, k) implies b2.subrange(
        addr_pos(w as int, size, seq, k),
        addr_pos(w as int, size, seq, k) + w,
    ) == addr_octets(w, ioa(k)) by {
        if k < i {
            layout_monotone(w as int, size, seq, k, i);
            assert(b2.subrange(addr_pos(w as int, size, seq, k), addr_pos(w as int, size, seq, k) + w)
                =~= b0.subrange(addr_pos(w as int, size, seq, k), addr_pos(w as int, size, seq, k) + w));
        } else {
            assert forall|j: int| 0 <= j < w implies b2[b0.len() + j] == #[trigger] addr_octets(w, ioa(i))[j] by {
                assert(b2.subrange(0, b1.len() as int)[b0.len() + j] == b2[b0.len() + j]);
            }
            assert(b2.subrange(addr_pos(w as int, size, seq, k), addr_pos(w as int, size, seq, k) + w)
                =~= addr_octets(w, ioa(k)));
        }
    }
}

/// The empty payload holds no objects.
pub proof fn objects_empty(w: u8, size: int, seq: bool, ioa: spec_fn(int) -> u32, elem_ok: spec_fn(int, Seq<u8>) -> bool)
    ensures
        objects_ok(Seq::<u8>::empty(), w, size, seq, 0, ioa, elem_ok),
{
}

/// The addresses of a sequence follow the first: each is the previous plus one.
pub open spec fn consecutive(ioa: spec_fn(int) -> u32, n: int) -> bool {
    forall|i: int| 0 <= i < n ==> #[trigger] ioa(i) == ioa(0) + i
}

/// A payload built from objects whose addresses fit (and follow each other
/// in a sequence) is read back at the same places with the same addresses.
pub proof fn objects_read_back(
    b: Seq<u8>,
    w: u8,
    size: int,
    seq: bool,
    n: int,
    ioa: spec_fn(int) -> u32,
    elem_ok: spec_fn(int, Seq<u8>) -> bool,
)
    requires
        1 <= w <= 3,
        0 <= size,
        0 < n,
        objects_ok(b, w, size, seq, n, ioa, elem_ok),
        forall|i: int| 0 <= i < n && #[trigger] spec_writes_addr(seq, i) ==> addr_fits(w, ioa(i)),
        seq ==> consecutive(ioa, n),
    ensures
        forall|i: int| 0 <= i < n ==> #[trigger] obj_ioa(w, size, seq, b, i) == ioa(i),
        forall|i: int| 0 <= i < n ==> elem_pos(w as int, size, seq, i) + size <= b.len(),
{
    assert forall|i: int| 0 <= i < n implies #[trigger] obj_ioa(w, size, seq, b, i) == ioa(i) by {
        layout_monotone(w as int, size, seq, i, n);
        let j = if seq { 0 } else { i };
        assert(spec_writes_addr(seq, j));
        layout_monotone(w as int, size, seq, j, n);
        let a = b.subrange(addr_pos(w as int, size, seq, j), addr_pos(w as int, size, seq, j) + w);
        assert(a == addr_octets(w, ioa(j)));
        crate::asdu::codec::addr_round_trip(w, ioa(j));
        assert(addr_at(w, b, addr_pos(w as int, size, seq, j)) == addr_at(w, a, 0));
        if seq {
            assert(ioa(i) == ioa(0) + i);
        }
    }
    assert forall|i: int| 0 <= i < n implies elem_pos(w as int, size, seq, i) + size <= b.len() by {
        layout_monotone(w as int, size, seq, i, n);
    }
}

/// What a builder gives: the error [`build_error`] names, or an ASDU with
/// these parameters, the identifier [`built_identifier`] and a payload that
/// satisfies `payload_ok`.
pub open spec fn built_outcome(
    r: Result<Asdu>,
    p: Params,
    type_id: TypeId,
    is_sequence: bool,
    coa: CauseOfTransmission,
    ca: CommonAddr,
    n: int,
    ioa: spec_fn(int) -> u32,
    family: bool,
    payload_ok: spec_fn(Seq<u8>) -> bool,
) -> bool {
    match build_error(p, type_id, is_sequence, n, ioa, family) {
        Some(e) => r == Err::<Asdu, Error>(e),
        None => r matches Ok(u) && u.params == p && u.identifier == built_identifier(
            type_id,
            is_sequence,
            coa,
            ca,
            n,
        ) && payload_ok(u.info_obj@),
    }
}

/// What a getter gives: the error, or objects that satisfy `out_ok`.
pub open spec fn read_outcome<T>(r: Result<Vec<T>>, err: Option<Error>, out_ok: spec_fn(Seq<T>) -> bool) -> bool {
    match err {
        Some(e) => r == Err::<Vec<T>, Error>(e),
        None => r matches Ok(v) && out_ok(v@),
    }
}

/// Why a command builder refuses its object, after the cause: the
/// parameters, the address, then the type; `None` when it builds.
pub open spec fn command_error(p: Params, ioa: u32, family: bool) -> Option<Error> {
    if !p.spec_valid() {
        Some(Error::Param)
    } else if !addr_fits(p.info_obj_addr_size, ioa) {
        Some(Error::InfoObjAddrFit)
    } else if !family {
        Some(Error::TypeIdNotMatch)
    } else {
        None
    }
}

/// What a command builder gives once its cause is accepted: the error
/// [`command_error`] names, or an ASDU holding the one object.
pub open spec fn command_outcome(
    r: Result<Asdu>,
    p: Params,
    type_id: TypeId,
    coa: CauseOfTransmission,
    ca: CommonAddr,
    ioa: u32,
    family: bool,
    payload_ok: spec_fn(Seq<u8>) -> bool,
) -> bool {
    match command_error(p, ioa, family) {
        Some(e) => r == Err::<Asdu, Error>(e),
        None => r matches Ok(u) && u.params == p && u.identifier == built_identifier(type_id, false, coa, ca, 1)
            && payload_ok(u.info_obj@),
    }
}

/// Start a single-object ASDU: the parameters must be valid.
pub fn start_cmd(params: Params, type_id: TypeId, coa: CauseOfTransmission, ca: CommonAddr) -> (r: Result<Asdu>)
    ensures
        !params.spec_valid() ==> r == Err::<Asdu, Error>(Error::Param),
        params.spec_valid() ==> (r matches Ok(u) && u.params == params && u.identifier == built_identifier(
            type_id,
            false,
            coa,
            ca,
            1,
        ) && u.info_obj@ == Seq::<u8>::empty()),
{
    params.valid()?;
    Ok(Asdu::new(params, Identifier::new(type_id, VariableStruct::single(), coa, ca)))
}
} // verus!
