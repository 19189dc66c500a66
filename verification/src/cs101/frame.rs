//! FT1.2 frame format, per IEC 60870-5-1 and IEC 60870-5-2.
//!
//! Three frame formats share the line:
//!
//! ```text
//! single character   E5
//! fixed length       10 | C | A... | CS | 16
//! variable length    68 | L | L | 68 | C | A... | ASDU... | CS | 16
//! ```
//!
//! `C` is the control field, `A` the link address (1 or 2 octets, or none),
//! `L` the count of control + address + ASDU octets, and `CS` the arithmetic
//! sum of those same octets truncated to eight bits.

use vstd::prelude::*;

use crate::asdu::filet::{file_checksum, octet_sum};
use crate::error::{Error, Result};

verus! {

/// The single-character acknowledgement.
pub const SINGLE_CHAR_ACK: u8 = 0xE5;

/// Start character of a fixed-length frame.
pub const START_FIXED: u8 = 0x10;

/// Start character of a variable-length frame.
pub const START_VARIABLE: u8 = 0x68;

/// End character of both fixed- and variable-length frames.
pub const END_CHAR: u8 = 0x16;

/// The largest value the FT1.2 length octet can carry.
///
/// In a variable-length frame — `68 L L 68 | control | link address | ASDU |
/// checksum | 16` — the octet `L` counts the control field, the link address
/// and the ASDU. It is one octet, so it runs to 255, and the largest ASDU is
/// therefore `MAX_LENGTH_FIELD - 1 - link_addr_size`: 253 octets with a one
/// octet link address, which is the figure IEC 60870-5-103 quotes as its
/// maximum ASDU length.
pub const MAX_LENGTH_FIELD: usize = 255;

/// The largest variable-length frame on the wire.
///
/// `68 L L 68` (4 octets) + `L` + checksum + end (2 octets), so 261 — **not**
/// 255. Confusing the length field with the frame length costs six octets of
/// every frame, which is enough to refuse a maximum-size ASDU.
pub const MAX_FRAME_LEN: usize = 261;

/// The largest ASDU that fits one variable-length frame for a given link
/// address size (0, 1 or 2 octets).
pub fn max_asdu_len(link_addr_size: u8) -> (n: usize)
    requires
        link_addr_size <= 254,
    ensures
        n == MAX_LENGTH_FIELD - 1 - link_addr_size,
{
    MAX_LENGTH_FIELD - 1 - link_addr_size as usize
}

/// DIR: direction. In balanced mode, set by station A.
pub const CTRL_DIR: u8 = 0x80;

/// PRM: primary message. Set on frames from the primary station.
pub const CTRL_PRM: u8 = 0x40;

/// FCB: frame count bit (primary frames).
pub const CTRL_FCB: u8 = 0x20;

/// FCV: frame count bit valid (primary frames).
pub const CTRL_FCV: u8 = 0x10;

/// ACD: access demand, class 1 data waiting (secondary frames).
pub const CTRL_ACD: u8 = 0x20;

/// DFC: data flow control, buffers full (secondary frames).
pub const CTRL_DFC: u8 = 0x10;

/// Mask of the function code, bits 0..=3.
pub const CTRL_FUNC_MASK: u8 = 0x0F;

/// A decoded control field octet.
#[derive(Debug, Clone, Copy, PartialEq, Eq, Default, Structural)]
pub struct ControlField {
    /// Direction bit; in balanced mode station A sets it.
    pub dir: bool,
    /// This frame comes from a primary station.
    pub prm: bool,
    /// Frame count bit (primary frames only).
    pub fcb: bool,
    /// Frame count bit valid (primary frames only).
    pub fcv: bool,
    /// Access demand: class 1 data is waiting (secondary frames only).
    pub acd: bool,
    /// Data flow control: the sender's buffers are full (secondary frames only).
    pub dfc: bool,
    /// Function code, bits 0..=3.
    pub fun: u8,
}

/// Bit `k` of an octet.
pub open spec fn bit(b: u8, k: nat) -> bool {
    (b as nat / vstd::arithmetic::power2::pow2(k)) % 2 == 1
}

/// 2^k when the flag is set, else 0.
pub open spec fn flag(f: bool, v: int) -> int {
    if f {
        v
    } else {
        0
    }
}

impl ControlField {
    /// The control field an octet holds: the same two bits read as FCB and
    /// FCV on primary frames and as ACD and DFC on secondary ones.
    pub open spec fn spec_parse(b: u8) -> ControlField {
        let prm = (b / 64) % 2 == 1;
        ControlField {
            dir: b >= 128,
            prm,
            fcb: prm && (b / 32) % 2 == 1,
            fcv: prm && (b / 16) % 2 == 1,
            acd: !prm && (b / 32) % 2 == 1,
            dfc: !prm && (b / 16) % 2 == 1,
            fun: b % 16,
        }
    }

    /// The octet of a control field: only the pair of bits that the PRM bit
    /// makes meaningful is written.
    pub open spec fn spec_value(self) -> u8 {
        (flag(self.dir, 128) + flag(self.prm, 64) + (if self.prm {
            flag(self.fcb, 32) + flag(self.fcv, 16)
        } else {
            flag(self.acd, 32) + flag(self.dfc, 16)
        }) + self.fun % 16) as u8
    }

    /// A control field every bit of which reaches the wire: a function code
    /// below 16, and only the pair of bits its PRM bit gives meaning to.
    pub open spec fn canonical(self) -> bool {
        &&& self.fun < 16
        &&& self.prm ==> !self.acd && !self.dfc
        &&& !self.prm ==> !self.fcb && !self.fcv
    }

    /// Decode the wire octet.
    pub fn parse(b: u8) -> (c: ControlField)
        ensures
            c == Self::spec_parse(b),
            c.canonical(),
    {
        let prm = (b / 64) % 2 == 1;
        ControlField {
            dir: b >= 128,
            prm,
            fcb: prm && (b / 32) % 2 == 1,
            fcv: prm && (b / 16) % 2 == 1,
            acd: !prm && (b / 32) % 2 == 1,
            dfc: !prm && (b / 16) % 2 == 1,
            fun: b % 16,
        }
    }

    /// Encode to the wire octet.
    pub fn value(self) -> (b: u8)
        ensures
            b == self.spec_value(),
    {
        let mut b: u8 = self.fun % 16;
        if self.dir {
            b = b + 128;
        }
        if self.prm {
            b = b + 64;
            if self.fcb {
                b = b + 32;
            }
            if self.fcv {
                b = b + 16;
            }
        } else {
            if self.acd {
                b = b + 32;
            }
            if self.dfc {
                b = b + 16;
            }
        }
        b
    }

    /// A primary control field. FCB is only set together with FCV.
    pub fn primary(fun: u8, fcv: bool, fcb: bool, dir: bool) -> (c: ControlField)
        ensures
            c == (ControlField { dir, prm: true, fcb: fcv && fcb, fcv, acd: false, dfc: false, fun }),
    {
        ControlField { dir, prm: true, fcb: fcv && fcb, fcv, acd: false, dfc: false, fun }
    }

    /// A secondary control field.
    pub fn secondary(fun: u8, acd: bool, dir: bool) -> (c: ControlField)
        ensures
            c == (ControlField { dir, prm: false, fcb: false, fcv: false, acd, dfc: false, fun }),
    {
        ControlField { dir, prm: false, fcb: false, fcv: false, acd, dfc: false, fun }
    }
}

/// A control field survives its octet when every bit of it reaches the wire,
/// and every octet survives the control field it decodes to.
pub proof fn control_field_round_trip(c: ControlField, b: u8)
    requires
        c.canonical(),
    ensures
        ControlField::spec_parse(c.spec_value()) == c,
        ControlField::spec_parse(b).spec_value() == b,
{
    let v = c.spec_value();
    let x = if c.prm {
        c.fcb
    } else {
        c.acd
    };
    let y = if c.prm {
        c.fcv
    } else {
        c.dfc
    };
    let n: int = flag(c.dir, 128) + flag(c.prm, 64) + flag(x, 32) + flag(y, 16) + c.fun;
    assert(v as int == n);
    assert(n / 16 == flag(c.dir, 8) + flag(c.prm, 4) + flag(x, 2) + flag(y, 1));
    assert(n / 32 == flag(c.dir, 4) + flag(c.prm, 2) + flag(x, 1));
    assert(n / 64 == flag(c.dir, 2) + flag(c.prm, 1));
    assert(n % 16 == c.fun);
    assert((n >= 128) == c.dir);
}

/// The control field octet of IEC 60870-5-2: DIR at 0x80,
/// PRM at 0x40, then FCB at 0x20 and FCV at 0x10 on a primary frame or ACD
/// at 0x20 and DFC at 0x10 on a secondary one, and the function code in bits
/// 0 to 3. The octet written holds each flag at its bit; every octet is read
/// the same way.
pub proof fn control_field_bits(c: ControlField, b: u8)
    ensures
        (c.spec_value() & 0x80 == 0x80) == c.dir,
        (c.spec_value() & 0x40 == 0x40) == c.prm,
        (c.spec_value() & 0x20 == 0x20) == (if c.prm { c.fcb } else { c.acd }),
        (c.spec_value() & 0x10 == 0x10) == (if c.prm { c.fcv } else { c.dfc }),
        c.spec_value() & 0x0f == c.fun & 0x0f,
        ControlField::spec_parse(b).dir == (b & 0x80 == 0x80),
        ControlField::spec_parse(b).prm == (b & 0x40 == 0x40),
        ControlField::spec_parse(b).fcb == (b & 0x40 == 0x40 && b & 0x20 == 0x20),
        ControlField::spec_parse(b).fcv == (b & 0x40 == 0x40 && b & 0x10 == 0x10),
        ControlField::spec_parse(b).acd == (b & 0x40 != 0x40 && b & 0x20 == 0x20),
        ControlField::spec_parse(b).dfc == (b & 0x40 != 0x40 && b & 0x10 == 0x10),
        ControlField::spec_parse(b).fun == b & 0x0f,
{
    let v = c.spec_value();
    let d = c.dir;
    let p = c.prm;
    let x = if c.prm {
        c.fcb
    } else {
        c.acd
    };
    let y = if c.prm {
        c.fcv
    } else {
        c.dfc
    };
    let f = c.fun;
    assert(v == ((if d { 128u8 } else { 0u8 }) + (if p { 64u8 } else { 0u8 }) + (if x { 32u8 } else { 0u8 })
        + (if y { 16u8 } else { 0u8 }) + f % 16) as u8);
    assert(((v & 0x80 == 0x80) == d) && ((v & 0x40 == 0x40) == p) && ((v & 0x20 == 0x20) == x) && ((v
        & 0x10 == 0x10) == y) && v & 0x0f == f & 0x0f) by (bit_vector)
        requires
            v == ((if d { 128u8 } else { 0u8 }) + (if p { 64u8 } else { 0u8 }) + (if x { 32u8 } else {
                0u8
            }) + (if y { 16u8 } else { 0u8 }) + f % 16) as u8,
    ;
    crate::asdu::info::octet_bit_facts(b);
}


/// The upper-case hexadecimal digit of a value below 16.
pub open spec fn upper_hex_digit(d: int) -> Seq<char> {
    if d < 10 {
        seq![(48 + d) as char]
    } else {
        seq![(55 + d) as char]
    }
}

/// The text of a control field: `CTRL<PRM` or `CTRL<SEC`, `,DIR` when set,
/// the function code as two upper-case hexadecimal digits, `FCB=` when FCV is
/// set, and `ACD=1` and `DFC=1` when set on a secondary frame.
pub open spec fn control_text(c: ControlField) -> Seq<char> {
    "CTRL<"@ + (if c.prm {
        "PRM"@
    } else {
        "SEC"@
    }) + (if c.dir {
        ",DIR"@
    } else {
        Seq::<char>::empty()
    }) + " FC=0x"@ + upper_hex_digit((c.fun / 16) as int) + upper_hex_digit((c.fun % 16) as int) + (if c.fcv {
        " FCB="@ + (if c.fcb {
            "1"@
        } else {
            "0"@
        })
    } else {
        Seq::<char>::empty()
    }) + (if !c.prm && c.acd {
        " ACD=1"@
    } else {
        Seq::<char>::empty()
    }) + (if !c.prm && c.dfc {
        " DFC=1"@
    } else {
        Seq::<char>::empty()
    }) + ">"@
}

/// The upper-case hexadecimal digit of a value below 16, as text.
fn upper_hex(d: u8) -> (s: &'static str)
    requires
        d < 16,
    ensures
        s@ == upper_hex_digit(d as int),
{
    proof {
        reveal_strlit("0");
        reveal_strlit("1");
        reveal_strlit("2");
        reveal_strlit("3");
        reveal_strlit("4");
        reveal_strlit("5");
        reveal_strlit("6");
        reveal_strlit("7");
        reveal_strlit("8");
        reveal_strlit("9");
        reveal_strlit("A");
        reveal_strlit("B");
        reveal_strlit("C");
        reveal_strlit("D");
        reveal_strlit("E");
        reveal_strlit("F");
    }
    match d {
        0 => "0",
        1 => "1",
        2 => "2",
        3 => "3",
        4 => "4",
        5 => "5",
        6 => "6",
        7 => "7",
        8 => "8",
        9 => "9",
        10 => "A",
        11 => "B",
        12 => "C",
        13 => "D",
        14 => "E",
        _ => "F",
    }
}

impl ControlField {
    /// The text of the control field, for logging.
    pub fn to_string(&self) -> (s: String)
        ensures
            s@ == control_text(*self),
    {
        proof {
            reveal_strlit("CTRL<");
            reveal_strlit("PRM");
            reveal_strlit("SEC");
            reveal_strlit(",DIR");
            reveal_strlit(" FC=0x");
            reveal_strlit(" FCB=");
            reveal_strlit("1");
            reveal_strlit("0");
            reveal_strlit(" ACD=1");
            reveal_strlit(" DFC=1");
            reveal_strlit(">");
        }
        let mut s = String::from_str("CTRL<");
        let ghost s0 = s@;
        if self.prm {
            s.append("PRM");
        } else {
            s.append("SEC");
        }
        let ghost s1 = s@;
        if self.dir {
            s.append(",DIR");
        }
        let ghost s2 = s@;
        s.append(" FC=0x");
        s.append(upper_hex(self.fun / 16));
        s.append(upper_hex(self.fun % 16));
        let ghost s3 = s@;
        if self.fcv {
            s.append(" FCB=");
            if self.fcb {
                s.append("1");
            } else {
                s.append("0");
            }
        }
        let ghost s4 = s@;
        if !self.prm && self.acd {
            s.append(" ACD=1");
        }
        let ghost s5 = s@;
        if !self.prm && self.dfc {
            s.append(" DFC=1");
        }
        let ghost s6 = s@;
        s.append(">");
        proof {
            assert(s2 =~= s0 + (if self.prm {
                "PRM"@
            } else {
                "SEC"@
            }) + (if self.dir {
                ",DIR"@
            } else {
                Seq::<char>::empty()
            }));
        }
        assert(s@ =~= control_text(*self));
        s
    }
}

/// An FT1.2 frame.
#[derive(Debug, Clone, PartialEq, Eq)]
pub enum Frame {
    /// `E5`: the single-character positive acknowledgement.
    SingleCharAck,
    /// A fixed-length frame: control field and link address only.
    Fixed {
        /// The control field.
        control: ControlField,
        /// The link address, as configured (0, 1 or 2 octets).
        link_addr: u16,
    },
    /// A variable-length frame carrying an ASDU.
    Variable {
        /// The control field.
        control: ControlField,
        /// The link address, as configured (0, 1 or 2 octets).
        link_addr: u16,
        /// The serialised ASDU.
        asdu: Vec<u8>,
    },
}

/// What a frame is: its kind, control field, link address and ASDU octets.
pub enum FrameView {
    /// The single-character acknowledgement.
    SingleCharAck,
    /// A fixed-length frame.
    Fixed(ControlField, u16),
    /// A variable-length frame.
    Variable(ControlField, u16, Seq<u8>),
}

impl View for Frame {
    type V = FrameView;

    open spec fn view(&self) -> FrameView {
        match self {
            Frame::SingleCharAck => FrameView::SingleCharAck,
            Frame::Fixed { control, link_addr } => FrameView::Fixed(*control, *link_addr),
            Frame::Variable { control, link_addr, asdu } => FrameView::Variable(*control, *link_addr, asdu@),
        }
    }
}

/// The control field of a frame, `None` for the single-character
/// acknowledgement.
pub open spec fn view_control(f: FrameView) -> Option<ControlField> {
    match f {
        FrameView::SingleCharAck => None,
        FrameView::Fixed(c, _) => Some(c),
        FrameView::Variable(c, _, _) => Some(c),
    }
}

/// The link address of a frame, `None` for the single-character
/// acknowledgement.
pub open spec fn view_link_addr(f: FrameView) -> Option<u16> {
    match f {
        FrameView::SingleCharAck => None,
        FrameView::Fixed(_, a) => Some(a),
        FrameView::Variable(_, a, _) => Some(a),
    }
}

/// The octets of a link address `size` octets wide: the low octet, both
/// octets low first, or none.
pub open spec fn link_addr_octets(addr: u16, size: u8) -> Seq<u8> {
    if size == 1 {
        seq![(addr % 256) as u8]
    } else if size == 2 {
        seq![(addr % 256) as u8, (addr / 256) as u8]
    } else {
        Seq::<u8>::empty()
    }
}

/// The link address in octets: one or two octets low first; zero otherwise.
pub open spec fn link_addr_of(b: Seq<u8>) -> u16 {
    if b.len() == 1 {
        b[0] as u16
    } else if b.len() == 2 {
        (b[0] + b[1] * 256) as u16
    } else {
        0
    }
}

/// The FT1.2 check octet: the arithmetic sum of the control field, the link
/// address and the ASDU, modulo 256.
pub open spec fn frame_checksum(control: u8, addr: Seq<u8>, asdu: Seq<u8>) -> u8 {
    ((control + octet_sum(addr) + octet_sum(asdu)) % 256) as u8
}

/// A two-octet link address travels low octet first, and is read so; a
/// one-octet address is the low octet alone.
pub proof fn link_addr_low_octet_first(addr: u16, b: Seq<u8>)
    requires
        b.len() == 2,
    ensures
        link_addr_octets(addr, 2)[0] + 256 * link_addr_octets(addr, 2)[1] == addr,
        link_addr_octets(addr, 1) == seq![(addr % 256) as u8],
        link_addr_of(b) % 256 == b[0],
        link_addr_of(b) / 256 == b[1],
{
}

/// The FT1.2 check octet is the arithmetic sum, modulo 256, of every octet
/// from the control field to the end of the user data.
pub proof fn frame_checksum_sums_octets(control: u8, addr: Seq<u8>, asdu: Seq<u8>)
    ensures
        frame_checksum(control, addr, asdu) == octet_sum(seq![control] + addr + asdu),
{
    crate::asdu::filet::octet_sum_is_modular_sum(seq![control], addr, control);
    crate::asdu::filet::octet_sum_is_modular_sum(seq![control] + addr, asdu, control);
    let c = control as int;
    let sa = octet_sum(addr) as int;
    let sb = octet_sum(asdu) as int;
    vstd::arithmetic::div_mod::lemma_add_mod_noop(c + sa, sb, 256);
    vstd::arithmetic::div_mod::lemma_mod_twice(c + sa, 256);
    crate::asdu::filet::octet_sum_is_modular_sum(asdu, Seq::<u8>::empty(), control);
    assert(asdu + Seq::<u8>::empty() =~= asdu);
    vstd::arithmetic::div_mod::lemma_small_mod(sb as nat, 256);
    vstd::arithmetic::div_mod::lemma_add_mod_noop(c + sa, sb % 256, 256);
}

/// Why a frame cannot be put on the wire with a link address `size` octets
/// wide; `None` when it can.
pub open spec fn marshal_error(f: FrameView, size: u8) -> Option<Seq<char>> {
    if size > 2 {
        Some("link address size must be 0, 1 or 2"@)
    } else {
        match f {
            FrameView::Variable(_, _, asdu) => if 1 + size + asdu.len() > MAX_LENGTH_FIELD {
                Some("frame length exceeds the FT1.2 maximum"@)
            } else {
                None
            },
            _ => None,
        }
    }
}

/// The octets of a frame with a link address `size` octets wide.
pub open spec fn frame_octets(f: FrameView, size: u8) -> Seq<u8> {
    match f {
        FrameView::SingleCharAck => seq![SINGLE_CHAR_ACK],
        FrameView::Fixed(c, a) => {
            let addr = link_addr_octets(a, size);
            seq![START_FIXED, c.spec_value()] + addr + seq![
                frame_checksum(c.spec_value(), addr, Seq::<u8>::empty()),
                END_CHAR,
            ]
        },
        FrameView::Variable(c, a, asdu) => {
            let addr = link_addr_octets(a, size);
            let l = (1 + addr.len() + asdu.len()) as u8;
            seq![START_VARIABLE, l, l, START_VARIABLE, c.spec_value()] + addr + asdu + seq![
                frame_checksum(c.spec_value(), addr, asdu),
                END_CHAR,
            ]
        },
    }
}

/// Encode a link address into `size` little-endian octets.
pub fn encode_link_addr(addr: u16, size: u8) -> (v: Vec<u8>)
    ensures
        v@ == link_addr_octets(addr, size),
{
    let mut v: Vec<u8> = Vec::new();
    if size == 1 {
        v.push((addr % 256) as u8);
    } else if size == 2 {
        v.push((addr % 256) as u8);
        v.push((addr / 256) as u8);
    }
    assert(v@ =~= link_addr_octets(addr, size));
    v
}

/// The FT1.2 check octet: the arithmetic sum of the control field, the link
/// address and the ASDU, truncated to eight bits.
pub fn checksum(control: u8, link_addr: &[u8], asdu: &[u8]) -> (cs: u8)
    ensures
        cs == frame_checksum(control, link_addr@, asdu@),
{
    let a = file_checksum(link_addr);
    let b = file_checksum(asdu);
    control.wrapping_add(a).wrapping_add(b)
}

/// The link address held in one or two octets, low first; zero otherwise.
pub fn decode_link_addr(b: &[u8]) -> (a: u16)
    ensures
        a == link_addr_of(b@),
{
    if b.len() == 1 {
        b[0] as u16
    } else if b.len() == 2 {
        b[0] as u16 + b[1] as u16 * 256
    } else {
        0
    }
}

impl Frame {
    /// The control field, or `None` for a single-character acknowledgement.
    pub fn control(&self) -> (c: Option<ControlField>)
        ensures
            c == view_control(self@),
    {
        match self {
            Frame::SingleCharAck => None,
            Frame::Fixed { control, .. } => Some(*control),
            Frame::Variable { control, .. } => Some(*control),
        }
    }

    /// The link address, or `None` for a single-character acknowledgement.
    pub fn link_addr(&self) -> (a: Option<u16>)
        ensures
            a == view_link_addr(self@),
    {
        match self {
            Frame::SingleCharAck => None,
            Frame::Fixed { link_addr, .. } => Some(*link_addr),
            Frame::Variable { link_addr, .. } => Some(*link_addr),
        }
    }

    /// The ASDU payload of a variable-length frame.
    pub fn asdu(&self) -> (a: Option<&[u8]>)
        ensures
            match self@ {
                FrameView::Variable(_, _, asdu) => a matches Some(s) && s@ == asdu,
                _ => a is None,
            },
    {
        match self {
            Frame::Variable { asdu, .. } => Some(asdu.as_slice()),
            _ => None,
        }
    }

    /// A copy of the frame.
    pub fn duplicate(&self) -> (f: Frame)
        ensures
            f@ == self@,
    {
        match self {
            Frame::SingleCharAck => Frame::SingleCharAck,
            Frame::Fixed { control, link_addr } => Frame::Fixed { control: *control, link_addr: *link_addr },
            Frame::Variable { control, link_addr, asdu } => Frame::Variable {
                control: *control,
                link_addr: *link_addr,
                asdu: asdu.clone(),
            },
        }
    }

    /// Serialise using a link address of `link_addr_size` octets (0, 1 or 2).
    pub fn marshal(&self, link_addr_size: u8) -> (r: Result<Vec<u8>>)
        ensures
            match marshal_error(self@, link_addr_size) {
                Some(m) => r matches Err(Error::Frame(s)) && s@ == m,
                None => r matches Ok(v) && v@ == frame_octets(self@, link_addr_size),
            },
    {
        if link_addr_size > 2 {
            return Err(Error::Frame("link address size must be 0, 1 or 2"));
        }
        match self {
            Frame::SingleCharAck => {
                let v = vec![SINGLE_CHAR_ACK];
                assert(v@ =~= frame_octets(self@, link_addr_size));
                Ok(v)
            },
            Frame::Fixed { control, link_addr } => {
                let addr = encode_link_addr(*link_addr, link_addr_size);
                let c = control.value();
                let mut buf: Vec<u8> = Vec::new();
                buf.push(START_FIXED);
                buf.push(c);
                crate::asdu::codec::put_bytes(&mut buf, addr.as_slice());
                let empty: [u8; 0] = [];
                assert(empty@ =~= Seq::<u8>::empty());
                buf.push(checksum(c, addr.as_slice(), empty.as_slice()));
                buf.push(END_CHAR);
                assert(buf@ =~= frame_octets(self@, link_addr_size));
                Ok(buf)
            },
            Frame::Variable { control, link_addr, asdu } => {
                let addr = encode_link_addr(*link_addr, link_addr_size);
                if asdu.len() > MAX_LENGTH_FIELD || 1 + addr.len() + asdu.len() > MAX_LENGTH_FIELD {
                    return Err(Error::Frame("frame length exceeds the FT1.2 maximum"));
                }
                let c = control.value();
                let mut buf: Vec<u8> = Vec::new();
                let len_field = 1 + addr.len() + asdu.len();
                buf.push(START_VARIABLE);
                buf.push(len_field as u8);
                buf.push(len_field as u8);
                buf.push(START_VARIABLE);
                buf.push(c);
                crate::asdu::codec::put_bytes(&mut buf, addr.as_slice());
                crate::asdu::codec::put_bytes(&mut buf, asdu.as_slice());
                buf.push(checksum(c, addr.as_slice(), asdu.as_slice()));
                buf.push(END_CHAR);
                assert(buf@ =~= frame_octets(self@, link_addr_size));
                Ok(buf)
            },
        }
    }
}


/// What reading a frame from the front of some octets gives: a frame, a
/// malformed frame with the reason, or too few octets to tell.
pub enum DecodeOutcome {
    /// A well-formed frame.
    Decoded(FrameView),
    /// A malformed frame, with the reason.
    Malformed(Seq<char>),
    /// The octets end before the frame does.
    Short,
}

/// The frame at the front of `w`, read with a link address `size` octets wide.
pub open spec fn decode_spec(w: Seq<u8>, size: u8) -> DecodeOutcome {
    let a = size as int;
    if size > 2 {
        DecodeOutcome::Malformed("link address size must be 0, 1 or 2"@)
    } else if w.len() < 1 {
        DecodeOutcome::Short
    } else if w[0] == SINGLE_CHAR_ACK {
        DecodeOutcome::Decoded(FrameView::SingleCharAck)
    } else if w[0] == START_FIXED {
        if w.len() < 4 + a {
            DecodeOutcome::Short
        } else if w[3 + a] != END_CHAR {
            DecodeOutcome::Malformed("invalid end character"@)
        } else if frame_checksum(w[1], w.subrange(2, 2 + a), Seq::<u8>::empty()) != w[2 + a] {
            DecodeOutcome::Malformed("checksum mismatch"@)
        } else {
            DecodeOutcome::Decoded(
                FrameView::Fixed(ControlField::spec_parse(w[1]), link_addr_of(w.subrange(2, 2 + a))),
            )
        }
    } else if w[0] == START_VARIABLE {
        if w.len() < 5 {
            DecodeOutcome::Short
        } else if w[1] != w[2] {
            DecodeOutcome::Malformed("length fields do not match"@)
        } else if w[3] != START_VARIABLE {
            DecodeOutcome::Malformed("invalid second start character"@)
        } else if w[1] < 1 + a {
            DecodeOutcome::Malformed("frame is too short for its header"@)
        } else {
            let l = w[1] as int;
            if w.len() < 6 + l {
                DecodeOutcome::Short
            } else if w[5 + l] != END_CHAR {
                DecodeOutcome::Malformed("invalid end character"@)
            } else if frame_checksum(w[4], w.subrange(5, 5 + a), w.subrange(5 + a, 4 + l)) != w[4 + l] {
                DecodeOutcome::Malformed("checksum mismatch"@)
            } else {
                DecodeOutcome::Decoded(
                    FrameView::Variable(
                        ControlField::spec_parse(w[4]),
                        link_addr_of(w.subrange(5, 5 + a)),
                        w.subrange(5 + a, 4 + l),
                    ),
                )
            }
        }
    } else {
        DecodeOutcome::Malformed("invalid start character"@)
    }
}

/// How many more octets a reader that has read `w` must read before it can
/// decide the frame: 1 to begin; the rest of a fixed frame after its start;
/// the header of a variable frame, then its body once a sound header says
/// how long it is; 0 once nothing more is needed.
pub open spec fn frame_more(w: Seq<u8>, size: u8) -> int {
    let a = size as int;
    if size > 2 {
        0
    } else if w.len() == 0 {
        1
    } else if w[0] == START_FIXED && w.len() < 4 + a {
        4 + a - w.len()
    } else if w[0] == START_VARIABLE && w.len() < 5 {
        5 - w.len()
    } else if w[0] == START_VARIABLE && w[1] == w[2] && w[3] == START_VARIABLE && w[1] >= 1 + a && w.len()
        < 6 + w[1] {
        6 + w[1] - w.len()
    } else {
        0
    }
}

/// How many more octets to read, after `w`, before the frame can be decoded;
/// 0 when [`decode_frame`] can decide it now.
pub fn frame_more_octets(w: &[u8], link_addr_size: u8) -> (n: usize)
    ensures
        n == frame_more(w@, link_addr_size),
{
    if link_addr_size > 2 {
        return 0;
    }
    let a = link_addr_size as usize;
    let len = w.len();
    if len == 0 {
        1
    } else if w[0] == START_FIXED && len < 4 + a {
        4 + a - len
    } else if w[0] == START_VARIABLE && len < 5 {
        5 - len
    } else if w[0] == START_VARIABLE && w[1] == w[2] && w[3] == START_VARIABLE && w[1] as usize >= 1 + a && len
        < 6 + w[1] as usize {
        6 + w[1] as usize - len
    } else {
        0
    }
}

/// Read one FT1.2 frame from the front of `w`, with a link address of
/// `link_addr_size` octets.
///
/// Malformed frames — a bad start or end character, mismatched length
/// octets, a header too short for its link address, or a failed checksum —
/// yield [`Error::Frame`]; octets that end before the frame does yield
/// [`Error::UnexpectedEof`].
pub fn decode_frame(w: &[u8], link_addr_size: u8) -> (r: Result<Frame>)
    ensures
        match decode_spec(w@, link_addr_size) {
            DecodeOutcome::Decoded(f) => r matches Ok(fr) && fr@ == f,
            DecodeOutcome::Malformed(m) => r matches Err(Error::Frame(s)) && s@ == m,
            DecodeOutcome::Short => r == Err::<Frame, Error>(Error::UnexpectedEof),
        },
{
    if link_addr_size > 2 {
        return Err(Error::Frame("link address size must be 0, 1 or 2"));
    }
    let a = link_addr_size as usize;
    if w.len() < 1 {
        return Err(Error::UnexpectedEof);
    }
    let start = w[0];
    if start == SINGLE_CHAR_ACK {
        Ok(Frame::SingleCharAck)
    } else if start == START_FIXED {
        if w.len() < 4 + a {
            return Err(Error::UnexpectedEof);
        }
        let control = w[1];
        let addr = vstd::slice::slice_subrange(w, 2, 2 + a);
        let cs = w[2 + a];
        if w[3 + a] != END_CHAR {
            return Err(Error::Frame("invalid end character"));
        }
        let empty: [u8; 0] = [];
        assert(empty@ =~= Seq::<u8>::empty());
        if checksum(control, addr, empty.as_slice()) != cs {
            return Err(Error::Frame("checksum mismatch"));
        }
        Ok(Frame::Fixed { control: ControlField::parse(control), link_addr: decode_link_addr(addr) })
    } else if start == START_VARIABLE {
        if w.len() < 5 {
            return Err(Error::UnexpectedEof);
        }
        let l1 = w[1];
        let l2 = w[2];
        let start2 = w[3];
        let control = w[4];
        if l1 != l2 {
            return Err(Error::Frame("length fields do not match"));
        }
        if start2 != START_VARIABLE {
            return Err(Error::Frame("invalid second start character"));
        }
        if (l1 as usize) < 1 + a {
            return Err(Error::Frame("frame is too short for its header"));
        }
        let l = l1 as usize;
        if w.len() < 6 + l {
            return Err(Error::UnexpectedEof);
        }
        let addr = vstd::slice::slice_subrange(w, 5, 5 + a);
        let asdu = vstd::slice::slice_subrange(w, 5 + a, 4 + l);
        let cs = w[4 + l];
        if w[5 + l] != END_CHAR {
            return Err(Error::Frame("invalid end character"));
        }
        if checksum(control, addr, asdu) != cs {
            return Err(Error::Frame("checksum mismatch"));
        }
        Ok(
            Frame::Variable {
                control: ControlField::parse(control),
                link_addr: decode_link_addr(addr),
                asdu: vstd::slice::slice_to_vec(asdu),
            },
        )
    } else {
        Err(Error::Frame("invalid start character"))
    }
}

/// A link address fits a field `size` octets wide: zero without a field, an
/// octet in one.
pub open spec fn link_addr_fits(addr: u16, size: u8) -> bool {
    (size == 0 && addr == 0) || (size == 1 && addr < 256) || size == 2
}

/// A frame every part of which reaches the wire with a link address `size`
/// octets wide: its control field, its address, and for a variable frame an
/// ASDU short enough for the length octet.
pub open spec fn frame_canonical(f: FrameView, size: u8) -> bool {
    &&& size <= 2
    &&& marshal_error(f, size) is None
    &&& match f {
        FrameView::SingleCharAck => true,
        FrameView::Fixed(c, a) => c.canonical() && link_addr_fits(a, size),
        FrameView::Variable(c, a, _) => c.canonical() && link_addr_fits(a, size),
    }
}

/// A link address that fits its field reads back from its octets.
pub proof fn link_addr_round_trip(addr: u16, size: u8)
    requires
        link_addr_fits(addr, size),
    ensures
        link_addr_octets(addr, size).len() == size,
        link_addr_of(link_addr_octets(addr, size)) == addr,
{
}

/// A frame whose every part reaches the wire reads back from its octets, and
/// a reader that reads as [`frame_more`] asks takes in exactly those octets:
/// one, then the rest of a fixed frame or the header of a variable one, then
/// the body of a variable frame.
pub proof fn frame_round_trip(f: FrameView, size: u8)
    requires
        frame_canonical(f, size),
    ensures
        decode_spec(frame_octets(f, size), size) == DecodeOutcome::Decoded(f),
        frame_more(Seq::<u8>::empty(), size) == 1,
        frame_more(frame_octets(f, size), size) == 0,
        f is SingleCharAck ==> frame_octets(f, size).len() == 1,
        f is Fixed ==> frame_more(frame_octets(f, size).subrange(0, 1), size) == frame_octets(f, size).len() - 1,
        f is Variable ==> frame_more(frame_octets(f, size).subrange(0, 1), size) == 4 && frame_more(
            frame_octets(f, size).subrange(0, 5),
            size,
        ) == frame_octets(f, size).len() - 5,
{
    let w = frame_octets(f, size);
    let a = size as int;
    match f {
        FrameView::SingleCharAck => {},
        FrameView::Fixed(c, addr) => {
            let ao = link_addr_octets(addr, size);
            link_addr_round_trip(addr, size);
            control_field_round_trip(c, 0);
            assert(w.subrange(2, 2 + a) =~= ao);
            assert(w[1] == c.spec_value());
            assert(w[2 + a] == frame_checksum(c.spec_value(), ao, Seq::<u8>::empty()));
            assert(w[3 + a] == END_CHAR);
            assert(w.subrange(0, 1)[0] == START_FIXED);
        },
        FrameView::Variable(c, addr, asdu) => {
            let ao = link_addr_octets(addr, size);
            link_addr_round_trip(addr, size);
            control_field_round_trip(c, 0);
            let l = 1 + a + asdu.len();
            assert(w[1] == l && w[2] == l);
            assert(w.subrange(5, 5 + a) =~= ao);
            assert(w.subrange(5 + a, 4 + l) =~= asdu);
            assert(w[4] == c.spec_value());
            assert(w[4 + l] == frame_checksum(c.spec_value(), ao, asdu));
            assert(w[5 + l] == END_CHAR);
            let p1 = w.subrange(0, 1);
            assert(p1[0] == START_VARIABLE);
            let p5 = w.subrange(0, 5);
            assert(p5[0] == w[0] && p5[1] == w[1] && p5[2] == w[2] && p5[3] == w[3]);
        },
    }
}


/// The FCV bit a primary function code carries, per IEC 60870-5-2: set on
/// test link, confirmed user data and the class requests, clear on the resets,
/// unconfirmed user data and the access and status requests; `None` for the
/// reserved codes.
pub open spec fn spec_fcv_required(fun: u8) -> Option<bool> {
    if fun == 2 || fun == 3 || fun == 10 || fun == 11 {
        Some(true)
    } else if fun == 0 || fun == 1 || fun == 4 || fun == 8 || fun == 9 {
        Some(false)
    } else {
        None
    }
}

/// The FCV bit a primary function code carries; `None` for the reserved codes.
pub fn fcv_required(fun: u8) -> (r: Option<bool>)
    ensures
        r == spec_fcv_required(fun),
{
    if fun == 2 || fun == 3 || fun == 10 || fun == 11 {
        Some(true)
    } else if fun == 0 || fun == 1 || fun == 4 || fun == 8 || fun == 9 {
        Some(false)
    } else {
        None
    }
}

} // verus!
