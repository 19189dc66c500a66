//! Information elements: addresses, values, quality descriptors and qualifiers.
//!
//! See companion standard 101, subclass 7.2.6. The wire octets are described
//! arithmetically: bit 7 of an octet `b` is `b >= 128`, bits 0..=6 are
//! `b % 128`, and so on.

use vstd::prelude::*;

use crate::text::{decimal, decimal_string, hex, hex_string};

verus! {

/// Information object address. See companion standard 101, subclass 7.2.5.
///
/// The width on the wire is controlled by `Params::info_obj_addr_size`:
/// width 1 gives `<1..=255>`, width 2 `<1..=65535>`, width 3 `<1..=16777215>`.
/// Zero means "irrelevant" and is reserved for system commands.
pub type InfoObjAddr = u32;

/// Zero: the information object address is irrelevant.
pub const INFO_OBJ_ADDR_IRRELEVANT: u32 = 0;

/// Single-point information. See companion standard 101, subclass 7.2.6.1.
#[derive(Debug, Clone, Copy, PartialEq, Eq, Structural)]
pub enum SinglePoint {
    /// 0: off
    Off,
    /// 1: on
    On,
}

impl SinglePoint {
    /// The two-state value of a point.
    pub open spec fn spec_value(self) -> u8 {
        match self {
            SinglePoint::Off => 0,
            SinglePoint::On => 1,
        }
    }

    /// Encode to the two-state value.
    pub fn value(self) -> (v: u8)
        ensures
            v == self.spec_value(),
    {
        match self {
            SinglePoint::Off => 0,
            SinglePoint::On => 1,
        }
    }

    /// Decode from the low bit of an octet.
    pub fn parse(b: u8) -> (p: Self)
        ensures
            p == (if b % 2 == 1 { SinglePoint::On } else { SinglePoint::Off }),
    {
        if b % 2 == 1 {
            SinglePoint::On
        } else {
            SinglePoint::Off
        }
    }

    /// `On` or `Off`.
    pub fn to_string(&self) -> (s: String)
        ensures
            s@ == (match self {
                SinglePoint::Off => "Off"@,
                SinglePoint::On => "On"@,
            }),
    {
        match self {
            SinglePoint::Off => String::from_str("Off"),
            SinglePoint::On => String::from_str("On"),
        }
    }
}

impl From<bool> for SinglePoint {
    fn from(v: bool) -> (p: SinglePoint)
        ensures
            p == (if v { SinglePoint::On } else { SinglePoint::Off }),
    {
        if v {
            SinglePoint::On
        } else {
            SinglePoint::Off
        }
    }
}

impl vstd::std_specs::convert::FromSpecImpl<bool> for SinglePoint {
    open spec fn obeys_from_spec() -> bool {
        true
    }

    open spec fn from_spec(v: bool) -> SinglePoint {
        if v {
            SinglePoint::On
        } else {
            SinglePoint::Off
        }
    }
}

impl From<SinglePoint> for bool {
    fn from(v: SinglePoint) -> (b: bool)
        ensures
            b == (v == SinglePoint::On),
    {
        match v {
            SinglePoint::On => true,
            SinglePoint::Off => false,
        }
    }
}

impl vstd::std_specs::convert::FromSpecImpl<SinglePoint> for bool {
    open spec fn obeys_from_spec() -> bool {
        true
    }

    open spec fn from_spec(v: SinglePoint) -> bool {
        v == SinglePoint::On
    }
}

/// Double-point information. See companion standard 101, subclass 7.2.6.2.
#[derive(Debug, Clone, Copy, PartialEq, Eq, Default, Structural)]
pub enum DoublePoint {
    /// 0: indeterminate or intermediate state
    #[default]
    IndeterminateOrIntermediate,
    /// 1: determined state off
    DeterminedOff,
    /// 2: determined state on
    DeterminedOn,
    /// 3: indeterminate state
    Indeterminate,
}

impl DoublePoint {
    /// The two-bit value of a state.
    pub open spec fn spec_value(self) -> u8 {
        match self {
            DoublePoint::IndeterminateOrIntermediate => 0,
            DoublePoint::DeterminedOff => 1,
            DoublePoint::DeterminedOn => 2,
            DoublePoint::Indeterminate => 3,
        }
    }

    /// The state in the low two bits of an octet.
    pub open spec fn spec_parse(b: u8) -> DoublePoint {
        if b % 4 == 0 {
            DoublePoint::IndeterminateOrIntermediate
        } else if b % 4 == 1 {
            DoublePoint::DeterminedOff
        } else if b % 4 == 2 {
            DoublePoint::DeterminedOn
        } else {
            DoublePoint::Indeterminate
        }
    }

    /// Encode to the two-bit value.
    pub fn value(self) -> (v: u8)
        ensures
            v == self.spec_value(),
    {
        match self {
            DoublePoint::IndeterminateOrIntermediate => 0,
            DoublePoint::DeterminedOff => 1,
            DoublePoint::DeterminedOn => 2,
            DoublePoint::Indeterminate => 3,
        }
    }

    /// Decode from the low two bits of an octet.
    pub fn parse(b: u8) -> (p: Self)
        ensures
            p == Self::spec_parse(b),
    {
        match b % 4 {
            0 => DoublePoint::IndeterminateOrIntermediate,
            1 => DoublePoint::DeterminedOff,
            2 => DoublePoint::DeterminedOn,
            _ => DoublePoint::Indeterminate,
        }
    }

    /// The name of the state.
    pub fn to_string(&self) -> (s: String)
        ensures
            s@ == (match self {
                DoublePoint::IndeterminateOrIntermediate => "IndeterminateOrIntermediate"@,
                DoublePoint::DeterminedOff => "DeterminedOff"@,
                DoublePoint::DeterminedOn => "DeterminedOn"@,
                DoublePoint::Indeterminate => "Indeterminate"@,
            }),
    {
        match self {
            DoublePoint::IndeterminateOrIntermediate => String::from_str("IndeterminateOrIntermediate"),
            DoublePoint::DeterminedOff => String::from_str("DeterminedOff"),
            DoublePoint::DeterminedOn => String::from_str("DeterminedOn"),
            DoublePoint::Indeterminate => String::from_str("Indeterminate"),
        }
    }
}

/// Quality descriptor flags attached to measured values.
///
/// See companion standard 101, subclass 7.2.6.3. The flags are the associated
/// functions [`QualityDescriptor::OVERFLOW`], [`QualityDescriptor::BLOCKED`],
/// [`QualityDescriptor::SUBSTITUTED`], [`QualityDescriptor::NOT_TOPICAL`] and
/// [`QualityDescriptor::INVALID`].
#[derive(Debug, Clone, Copy, PartialEq, Eq, Default, Hash, Structural)]
pub struct QualityDescriptor(pub u8);

/// The text of `QualityDescriptor::to_string`: `Good`, the names of the set
/// flags joined by commas, or the octet in hexadecimal when only reserved bits
/// are set.
pub open spec fn quality_text(v: u8) -> Seq<char> {
    if v == 0 {
        "Good"@
    } else {
        let s = join_flag(
            join_flag(
                join_flag(
                    join_flag(join_flag(Seq::empty(), v & 0x01 != 0, "Overflow"@), v & 0x10 != 0, "Blocked"@),
                    v & 0x20 != 0,
                    "Substituted"@,
                ),
                v & 0x40 != 0,
                "NotTopical"@,
            ),
            v & 0x80 != 0,
            "Invalid"@,
        );
        if s.len() == 0 {
            "QualityDescriptor("@ + hex(v as nat) + ")"@
        } else {
            s
        }
    }
}

/// Append a flag's name to a comma separated list when the flag is set.
pub open spec fn join_flag(acc: Seq<char>, set: bool, name: Seq<char>) -> Seq<char> {
    if !set {
        acc
    } else if acc.len() == 0 {
        name
    } else {
        acc + ","@ + name
    }
}

#[allow(non_snake_case)]
impl QualityDescriptor {
    /// No flags: the value is good.
    pub fn GOOD() -> (q: QualityDescriptor)
        ensures
            q.0 == 0,
    {
        QualityDescriptor(0)
    }

    /// Bit 0: the value is beyond a predefined range.
    pub fn OVERFLOW() -> (q: QualityDescriptor)
        ensures
            q.0 == 0x01,
    {
        QualityDescriptor(0x01)
    }

    /// Bit 4: the value is blocked for transmission and holds its last value.
    pub fn BLOCKED() -> (q: QualityDescriptor)
        ensures
            q.0 == 0x10,
    {
        QualityDescriptor(0x10)
    }

    /// Bit 5: the value was entered by an operator rather than acquired.
    pub fn SUBSTITUTED() -> (q: QualityDescriptor)
        ensures
            q.0 == 0x20,
    {
        QualityDescriptor(0x20)
    }

    /// Bit 6: the most recent update was unsuccessful.
    pub fn NOT_TOPICAL() -> (q: QualityDescriptor)
        ensures
            q.0 == 0x40,
    {
        QualityDescriptor(0x40)
    }

    /// Bit 7: the value was incorrectly acquired.
    pub fn INVALID() -> (q: QualityDescriptor)
        ensures
            q.0 == 0x80,
    {
        QualityDescriptor(0x80)
    }

    /// True when no quality flag is set.
    pub fn is_good(self) -> (b: bool)
        ensures
            b == (self.0 == 0),
    {
        self.0 == 0
    }

    /// True when every flag in `other` is set here.
    pub fn contains(self, other: QualityDescriptor) -> (b: bool)
        ensures
            b == (self.0 & other.0 == other.0),
    {
        self.0 & other.0 == other.0
    }

    /// `Good`, the names of the flags that are set, or the octet in
    /// hexadecimal when only reserved bits are set.
    pub fn to_string(&self) -> (s: String)
        ensures
            s@ == quality_text(self.0),
    {
        let v = self.0;
        proof {
            reveal_strlit("Good");
            reveal_strlit(",");
            reveal_strlit("Overflow");
            reveal_strlit("Blocked");
            reveal_strlit("Substituted");
            reveal_strlit("NotTopical");
            reveal_strlit("Invalid");
            reveal_strlit("QualityDescriptor(");
            reveal_strlit(")");
        }
        if v == 0 {
            return String::from_str("Good");
        }
        let mut s = String::new();
        let mut first = true;
        let ghost acc0: Seq<char> = Seq::empty();
        assert(s@ == acc0);
        Self::put(&mut s, &mut first, v & 0x01 != 0, "Overflow");
        Self::put(&mut s, &mut first, v & 0x10 != 0, "Blocked");
        Self::put(&mut s, &mut first, v & 0x20 != 0, "Substituted");
        Self::put(&mut s, &mut first, v & 0x40 != 0, "NotTopical");
        Self::put(&mut s, &mut first, v & 0x80 != 0, "Invalid");
        if first {
            let mut r = String::from_str("QualityDescriptor(");
            let h = hex_string(v as u64);
            r.append(h.as_str());
            r.append(")");
            return r;
        }
        s
    }

    /// Append `name` to a comma separated list when `set`.
    fn put(s: &mut String, first: &mut bool, set: bool, name: &str)
        requires
            *old(first) == (old(s)@.len() == 0),
            name@.len() > 0,
        ensures
            final(s)@ == join_flag(old(s)@, set, name@),
            *final(first) == (final(s)@.len() == 0),
    {
        proof {
            reveal_strlit(",");
        }
        if set {
            if !*first {
                s.append(",");
            }
            s.append(name);
            *first = false;
        }
    }
}

impl std::ops::BitOr for QualityDescriptor {
    type Output = QualityDescriptor;

    fn bitor(self, rhs: QualityDescriptor) -> (q: QualityDescriptor)
        ensures
            q.0 == self.0 | rhs.0,
    {
        QualityDescriptor(self.0 | rhs.0)
    }
}

impl vstd::std_specs::ops::BitOrSpecImpl for QualityDescriptor {
    open spec fn obeys_bitor_spec() -> bool {
        true
    }

    open spec fn bitor_req(self, rhs: QualityDescriptor) -> bool {
        true
    }

    open spec fn bitor_spec(self, rhs: QualityDescriptor) -> QualityDescriptor {
        QualityDescriptor(self.0 | rhs.0)
    }
}

impl std::ops::BitAnd for QualityDescriptor {
    type Output = QualityDescriptor;

    fn bitand(self, rhs: QualityDescriptor) -> (q: QualityDescriptor)
        ensures
            q.0 == self.0 & rhs.0,
    {
        QualityDescriptor(self.0 & rhs.0)
    }
}

impl vstd::std_specs::ops::BitAndSpecImpl for QualityDescriptor {
    open spec fn obeys_bitand_spec() -> bool {
        true
    }

    open spec fn bitand_req(self, rhs: QualityDescriptor) -> bool {
        true
    }

    open spec fn bitand_spec(self, rhs: QualityDescriptor) -> QualityDescriptor {
        QualityDescriptor(self.0 & rhs.0)
    }
}

impl std::ops::BitOrAssign for QualityDescriptor {
    fn bitor_assign(&mut self, rhs: QualityDescriptor)
        ensures
            final(self).0 == old(self).0 | rhs.0,
    {
        self.0 = self.0 | rhs.0;
    }
}

impl From<u8> for QualityDescriptor {
    fn from(v: u8) -> (q: QualityDescriptor) {
        QualityDescriptor(v)
    }
}

impl vstd::std_specs::convert::FromSpecImpl<u8> for QualityDescriptor {
    open spec fn obeys_from_spec() -> bool {
        true
    }

    open spec fn from_spec(v: u8) -> QualityDescriptor {
        QualityDescriptor(v)
    }
}


/// Quality descriptor for protection equipment.
///
/// See companion standard 101, subclass 7.2.6.4.
#[derive(Debug, Clone, Copy, PartialEq, Eq, Default, Hash, Structural)]
pub struct QualityDescriptorProtection(pub u8);

#[allow(non_snake_case)]
impl QualityDescriptorProtection {
    /// No flags: the value is good.
    pub fn GOOD() -> (q: QualityDescriptorProtection)
        ensures
            q.0 == 0,
    {
        QualityDescriptorProtection(0)
    }

    /// Bit 3: the elapsed time was incorrectly acquired.
    pub fn ELAPSED_TIME_INVALID() -> (q: QualityDescriptorProtection)
        ensures
            q.0 == 0x08,
    {
        QualityDescriptorProtection(0x08)
    }

    /// Bit 4: the value is blocked for transmission.
    pub fn BLOCKED() -> (q: QualityDescriptorProtection)
        ensures
            q.0 == 0x10,
    {
        QualityDescriptorProtection(0x10)
    }

    /// Bit 5: the value was entered by an operator.
    pub fn SUBSTITUTED() -> (q: QualityDescriptorProtection)
        ensures
            q.0 == 0x20,
    {
        QualityDescriptorProtection(0x20)
    }

    /// Bit 6: the most recent update was unsuccessful.
    pub fn NOT_TOPICAL() -> (q: QualityDescriptorProtection)
        ensures
            q.0 == 0x40,
    {
        QualityDescriptorProtection(0x40)
    }

    /// Bit 7: the value was incorrectly acquired.
    pub fn INVALID() -> (q: QualityDescriptorProtection)
        ensures
            q.0 == 0x80,
    {
        QualityDescriptorProtection(0x80)
    }

}

impl QualityDescriptorProtection {
    /// True when no quality flag is set.
    pub fn is_good(self) -> (b: bool)
        ensures
            b == (self.0 == 0),
    {
        self.0 == 0
    }
}

impl std::ops::BitOr for QualityDescriptorProtection {
    type Output = QualityDescriptorProtection;

    fn bitor(self, rhs: QualityDescriptorProtection) -> (q: QualityDescriptorProtection)
        ensures
            q.0 == self.0 | rhs.0,
    {
        QualityDescriptorProtection(self.0 | rhs.0)
    }
}

impl vstd::std_specs::ops::BitOrSpecImpl for QualityDescriptorProtection {
    open spec fn obeys_bitor_spec() -> bool {
        true
    }

    open spec fn bitor_req(self, rhs: QualityDescriptorProtection) -> bool {
        true
    }

    open spec fn bitor_spec(self, rhs: QualityDescriptorProtection) -> QualityDescriptorProtection {
        QualityDescriptorProtection(self.0 | rhs.0)
    }
}

impl From<u8> for QualityDescriptorProtection {
    fn from(v: u8) -> (q: QualityDescriptorProtection) {
        QualityDescriptorProtection(v)
    }
}

impl vstd::std_specs::convert::FromSpecImpl<u8> for QualityDescriptorProtection {
    open spec fn obeys_from_spec() -> bool {
        true
    }

    open spec fn from_spec(v: u8) -> QualityDescriptorProtection {
        QualityDescriptorProtection(v)
    }
}

/// Measured value with transient state indication, for transformer tap
/// changers and other step positions.
///
/// See companion standard 101, subclass 7.2.6.5. `val` ranges `-64..=63`
/// (bits 0..=6, bit 6 being the sign); bit 7 marks the equipment in transient
/// state.
#[derive(Debug, Clone, Copy, PartialEq, Eq, Default, Structural)]
pub struct StepPosition {
    /// Step position in `-64..=63`.
    pub val: i8,
    /// The equipment is in transient state.
    pub has_transient: bool,
}

impl StepPosition {
    /// The wire octet: the low seven bits of `val` in two's complement, plus
    /// the transient flag in bit 7.
    pub open spec fn spec_value(self) -> u8 {
        ((if self.val < 0 { self.val + 128 } else { self.val as int }) + (if self.has_transient {
            128int
        } else {
            0
        })) as u8
    }

    /// The step position a wire octet holds, with bit 6 sign-extended.
    pub open spec fn spec_parse(b: u8) -> StepPosition {
        StepPosition {
            val: (if b % 128 < 64 { (b % 128) as int } else { (b % 128) - 128 }) as i8,
            has_transient: b >= 128,
        }
    }

    /// Encode to the wire octet.
    pub fn value(self) -> (b: u8)
        ensures
            b == self.spec_value(),
    {
        let raw: u8 = if self.val < 0 {
            (self.val as i16 + 128) as u8
        } else {
            self.val as u8
        };
        if self.has_transient {
            raw + 128
        } else {
            raw
        }
    }

    /// Decode from the wire octet, sign-extending the 7-bit value.
    pub fn parse(b: u8) -> (p: Self)
        ensures
            p == Self::spec_parse(b),
    {
        let raw = b % 128;
        let val: i8 = if raw < 64 {
            raw as i8
        } else {
            (raw as i16 - 128) as i8
        };
        StepPosition { val, has_transient: b >= 128 }
    }
}

/// Decoding an encoded step position gives it back for every position in
/// `-64..=63`, and encoding a decoded octet gives the octet back.
pub proof fn step_position_round_trip(p: StepPosition, b: u8)
    requires
        -64 <= p.val <= 63,
    ensures
        StepPosition::spec_parse(p.spec_value()) == p,
        StepPosition::spec_parse(b).spec_value() == b,
{
}

/// A 16-bit normalized value in `[-1, 1 - 2^-15]`.
///
/// See companion standard 101, subclass 7.2.6.6: the fraction is the value
/// divided by 32768.
#[derive(Debug, Clone, Copy, PartialEq, Eq, Default, Structural)]
pub struct Normalize(pub i16);

impl From<i16> for Normalize {
    fn from(v: i16) -> (n: Normalize)
        ensures
            n.0 == v,
    {
        Normalize(v)
    }
}

impl vstd::std_specs::convert::FromSpecImpl<i16> for Normalize {
    open spec fn obeys_from_spec() -> bool {
        true
    }

    open spec fn from_spec(v: i16) -> Normalize {
        Normalize(v)
    }
}

/// Binary counter reading. See companion standard 101, subclass 7.2.6.9.
///
/// ```text
/// | counter_reading  [bit0..bit31] |
/// | SQ [bit32..bit36] CY [bit37] CA [bit38] IV [bit39] |
/// ```
#[derive(Debug, Clone, Copy, PartialEq, Eq, Default, Structural)]
pub struct BinaryCounterReading {
    /// The accumulated count.
    pub counter_reading: i32,
    /// Sequence number, `0..=31`.
    pub seq_number: u8,
    /// CY: the counter overflowed during the integration period.
    pub has_carry: bool,
    /// CA: the counter was adjusted since the last reading.
    pub is_adjusted: bool,
    /// IV: the counter reading is invalid.
    pub is_invalid: bool,
}

/// Single event of protection equipment. See companion standard 101, subclass 7.2.6.10.
#[derive(Debug, Clone, Copy, PartialEq, Eq, Default, Structural)]
pub enum SingleEvent {
    /// 0: indeterminate or intermediate state
    #[default]
    IndeterminateOrIntermediate,
    /// 1: determined state off
    DeterminedOff,
    /// 2: determined state on
    DeterminedOn,
    /// 3: indeterminate state
    Indeterminate,
}

impl SingleEvent {
    /// The two-bit value of an event state.
    pub open spec fn spec_value(self) -> u8 {
        match self {
            SingleEvent::IndeterminateOrIntermediate => 0,
            SingleEvent::DeterminedOff => 1,
            SingleEvent::DeterminedOn => 2,
            SingleEvent::Indeterminate => 3,
        }
    }

    /// The event state in the low two bits of an octet.
    pub open spec fn spec_parse(b: u8) -> SingleEvent {
        if b % 4 == 0 {
            SingleEvent::IndeterminateOrIntermediate
        } else if b % 4 == 1 {
            SingleEvent::DeterminedOff
        } else if b % 4 == 2 {
            SingleEvent::DeterminedOn
        } else {
            SingleEvent::Indeterminate
        }
    }

    /// Encode to the two-bit value.
    pub fn value(self) -> (v: u8)
        ensures
            v == self.spec_value(),
    {
        match self {
            SingleEvent::IndeterminateOrIntermediate => 0,
            SingleEvent::DeterminedOff => 1,
            SingleEvent::DeterminedOn => 2,
            SingleEvent::Indeterminate => 3,
        }
    }

    /// Decode from the low two bits of an octet.
    pub fn parse(b: u8) -> (p: Self)
        ensures
            p == Self::spec_parse(b),
    {
        match b % 4 {
            0 => SingleEvent::IndeterminateOrIntermediate,
            1 => SingleEvent::DeterminedOff,
            2 => SingleEvent::DeterminedOn,
            _ => SingleEvent::Indeterminate,
        }
    }
}

/// Start event of protection equipment, a bit field.
///
/// See companion standard 101, subclass 7.2.6.11.
#[derive(Debug, Clone, Copy, PartialEq, Eq, Default, Structural)]
pub struct StartEvent(pub u8);

#[allow(non_snake_case)]
impl StartEvent {
    /// Bit 0: general start of operation.
    pub fn GENERAL_START() -> (q: StartEvent)
        ensures
            q.0 == 0x01,
    {
        StartEvent(0x01)
    }

    /// Bit 1: start of operation phase L1.
    pub fn START_L1() -> (q: StartEvent)
        ensures
            q.0 == 0x02,
    {
        StartEvent(0x02)
    }

    /// Bit 2: start of operation phase L2.
    pub fn START_L2() -> (q: StartEvent)
        ensures
            q.0 == 0x04,
    {
        StartEvent(0x04)
    }

    /// Bit 3: start of operation phase L3.
    pub fn START_L3() -> (q: StartEvent)
        ensures
            q.0 == 0x08,
    {
        StartEvent(0x08)
    }

    /// Bit 4: start of operation, earth current.
    pub fn START_EARTH_CURRENT() -> (q: StartEvent)
        ensures
            q.0 == 0x10,
    {
        StartEvent(0x10)
    }

    /// Bit 5: start of operation in reverse direction.
    pub fn START_REVERSE_DIRECTION() -> (q: StartEvent)
        ensures
            q.0 == 0x20,
    {
        StartEvent(0x20)
    }

}

impl std::ops::BitOr for StartEvent {
    type Output = StartEvent;

    fn bitor(self, rhs: StartEvent) -> (e: StartEvent)
        ensures
            e.0 == self.0 | rhs.0,
    {
        StartEvent(self.0 | rhs.0)
    }
}

impl vstd::std_specs::ops::BitOrSpecImpl for StartEvent {
    open spec fn obeys_bitor_spec() -> bool {
        true
    }

    open spec fn bitor_req(self, rhs: StartEvent) -> bool {
        true
    }

    open spec fn bitor_spec(self, rhs: StartEvent) -> StartEvent {
        StartEvent(self.0 | rhs.0)
    }
}

/// Output circuit information of protection equipment, a bit field.
///
/// See companion standard 101, subclass 7.2.6.12.
#[derive(Debug, Clone, Copy, PartialEq, Eq, Default, Structural)]
pub struct OutputCircuitInfo(pub u8);

#[allow(non_snake_case)]
impl OutputCircuitInfo {
    /// Bit 0: general command output to the output circuit.
    pub fn GENERAL_COMMAND() -> (q: OutputCircuitInfo)
        ensures
            q.0 == 0x01,
    {
        OutputCircuitInfo(0x01)
    }

    /// Bit 1: command output to the output circuit, phase L1.
    pub fn COMMAND_L1() -> (q: OutputCircuitInfo)
        ensures
            q.0 == 0x02,
    {
        OutputCircuitInfo(0x02)
    }

    /// Bit 2: command output to the output circuit, phase L2.
    pub fn COMMAND_L2() -> (q: OutputCircuitInfo)
        ensures
            q.0 == 0x04,
    {
        OutputCircuitInfo(0x04)
    }

    /// Bit 3: command output to the output circuit, phase L3.
    pub fn COMMAND_L3() -> (q: OutputCircuitInfo)
        ensures
            q.0 == 0x08,
    {
        OutputCircuitInfo(0x08)
    }

}

impl std::ops::BitOr for OutputCircuitInfo {
    type Output = OutputCircuitInfo;

    fn bitor(self, rhs: OutputCircuitInfo) -> (e: OutputCircuitInfo)
        ensures
            e.0 == self.0 | rhs.0,
    {
        OutputCircuitInfo(self.0 | rhs.0)
    }
}

impl vstd::std_specs::ops::BitOrSpecImpl for OutputCircuitInfo {
    open spec fn obeys_bitor_spec() -> bool {
        true
    }

    open spec fn bitor_req(self, rhs: OutputCircuitInfo) -> bool {
        true
    }

    open spec fn bitor_spec(self, rhs: OutputCircuitInfo) -> OutputCircuitInfo {
        OutputCircuitInfo(self.0 | rhs.0)
    }
}

/// The fixed test bit pattern carried by test commands.
///
/// See companion standard 101, subclass 7.2.6.14.
pub const FBP_TEST_WORD: u16 = 0x55aa;

/// Single command value. See companion standard 101, subclass 7.2.6.15.
#[derive(Debug, Clone, Copy, PartialEq, Eq, Default, Structural)]
pub enum SingleCommand {
    /// 0: switch off
    #[default]
    Off,
    /// 1: switch on
    On,
}

/// Double command value. See companion standard 101, subclass 7.2.6.16.
#[derive(Debug, Clone, Copy, PartialEq, Eq, Default, Structural)]
pub enum DoubleCommand {
    /// 0: not permitted
    #[default]
    NotAllowed0,
    /// 1: switch off
    Off,
    /// 2: switch on
    On,
    /// 3: not permitted
    NotAllowed3,
}

impl DoubleCommand {
    /// The two-bit value of a double command.
    pub open spec fn spec_value(self) -> u8 {
        match self {
            DoubleCommand::NotAllowed0 => 0,
            DoubleCommand::Off => 1,
            DoubleCommand::On => 2,
            DoubleCommand::NotAllowed3 => 3,
        }
    }

    /// The double command in the low two bits of an octet.
    pub open spec fn spec_parse(b: u8) -> DoubleCommand {
        if b % 4 == 0 {
            DoubleCommand::NotAllowed0
        } else if b % 4 == 1 {
            DoubleCommand::Off
        } else if b % 4 == 2 {
            DoubleCommand::On
        } else {
            DoubleCommand::NotAllowed3
        }
    }

    /// Encode to the two-bit value.
    pub fn value(self) -> (v: u8)
        ensures
            v == self.spec_value(),
    {
        match self {
            DoubleCommand::NotAllowed0 => 0,
            DoubleCommand::Off => 1,
            DoubleCommand::On => 2,
            DoubleCommand::NotAllowed3 => 3,
        }
    }

    /// Decode from the low two bits of an octet.
    pub fn parse(b: u8) -> (p: Self)
        ensures
            p == Self::spec_parse(b),
    {
        match b % 4 {
            0 => DoubleCommand::NotAllowed0,
            1 => DoubleCommand::Off,
            2 => DoubleCommand::On,
            _ => DoubleCommand::NotAllowed3,
        }
    }
}

/// Regulating step command value. See companion standard 101, subclass 7.2.6.17.
#[derive(Debug, Clone, Copy, PartialEq, Eq, Default, Structural)]
pub enum StepCommand {
    /// 0: not permitted
    #[default]
    NotAllowed0,
    /// 1: next step lower
    StepDown,
    /// 2: next step higher
    StepUp,
    /// 3: not permitted
    NotAllowed3,
}

impl StepCommand {
    /// The two-bit value of a step command.
    pub open spec fn spec_value(self) -> u8 {
        match self {
            StepCommand::NotAllowed0 => 0,
            StepCommand::StepDown => 1,
            StepCommand::StepUp => 2,
            StepCommand::NotAllowed3 => 3,
        }
    }

    /// The step command in the low two bits of an octet.
    pub open spec fn spec_parse(b: u8) -> StepCommand {
        if b % 4 == 0 {
            StepCommand::NotAllowed0
        } else if b % 4 == 1 {
            StepCommand::StepDown
        } else if b % 4 == 2 {
            StepCommand::StepUp
        } else {
            StepCommand::NotAllowed3
        }
    }

    /// Encode to the two-bit value.
    pub fn value(self) -> (v: u8)
        ensures
            v == self.spec_value(),
    {
        match self {
            StepCommand::NotAllowed0 => 0,
            StepCommand::StepDown => 1,
            StepCommand::StepUp => 2,
            StepCommand::NotAllowed3 => 3,
        }
    }

    /// Decode from the low two bits of an octet.
    pub fn parse(b: u8) -> (p: Self)
        ensures
            p == Self::spec_parse(b),
    {
        match b % 4 {
            0 => StepCommand::NotAllowed0,
            1 => StepCommand::StepDown,
            2 => StepCommand::StepUp,
            _ => StepCommand::NotAllowed3,
        }
    }
}

/// The two-bit states decode what they encode, and re-encode the low two bits
/// of any octet.
pub proof fn two_bit_states_round_trip(d: DoublePoint, e: SingleEvent, c: DoubleCommand, s: StepCommand, b: u8)
    ensures
        DoublePoint::spec_parse(d.spec_value()) == d,
        DoublePoint::spec_parse(b).spec_value() == b % 4,
        SingleEvent::spec_parse(e.spec_value()) == e,
        SingleEvent::spec_parse(b).spec_value() == b % 4,
        DoubleCommand::spec_parse(c.spec_value()) == c,
        DoubleCommand::spec_parse(b).spec_value() == b % 4,
        StepCommand::spec_parse(s.spec_value()) == s,
        StepCommand::spec_parse(b).spec_value() == b % 4,
{
}

/// Double-point information carries the DPI of IEC 60870-5-101, subclass
/// 7.2.6.2, in the low two bits of its octet: 0 indeterminate or
/// intermediate, 1 determined OFF, 2 determined ON, 3 indeterminate. Each
/// state is written as its own value, and every octet is read as the state
/// its low two bits name.
pub proof fn double_point_states_on_the_wire(d: DoublePoint, b: u8)
    ensures
        (d.spec_value() == 0) <==> d == DoublePoint::IndeterminateOrIntermediate,
        (d.spec_value() == 1) <==> d == DoublePoint::DeterminedOff,
        (d.spec_value() == 2) <==> d == DoublePoint::DeterminedOn,
        (d.spec_value() == 3) <==> d == DoublePoint::Indeterminate,
        (DoublePoint::spec_parse(b) == DoublePoint::IndeterminateOrIntermediate) <==> b & 3 == 0,
        (DoublePoint::spec_parse(b) == DoublePoint::DeterminedOff) <==> b & 3 == 1,
        (DoublePoint::spec_parse(b) == DoublePoint::DeterminedOn) <==> b & 3 == 2,
        (DoublePoint::spec_parse(b) == DoublePoint::Indeterminate) <==> b & 3 == 3,
{
    assert(b & 3 == b % 4) by (bit_vector);
}

/// A protection event carries the ES of IEC 60870-5-101, subclass 7.2.6.10,
/// in the low two bits of its octet: 0 indeterminate or intermediate, 1
/// determined OFF, 2 determined ON, 3 indeterminate. Each state is written as
/// its own value, and every octet is read as the state its low two bits name.
pub proof fn single_event_states_on_the_wire(d: SingleEvent, b: u8)
    ensures
        (d.spec_value() == 0) <==> d == SingleEvent::IndeterminateOrIntermediate,
        (d.spec_value() == 1) <==> d == SingleEvent::DeterminedOff,
        (d.spec_value() == 2) <==> d == SingleEvent::DeterminedOn,
        (d.spec_value() == 3) <==> d == SingleEvent::Indeterminate,
        (SingleEvent::spec_parse(b) == SingleEvent::IndeterminateOrIntermediate) <==> b & 3 == 0,
        (SingleEvent::spec_parse(b) == SingleEvent::DeterminedOff) <==> b & 3 == 1,
        (SingleEvent::spec_parse(b) == SingleEvent::DeterminedOn) <==> b & 3 == 2,
        (SingleEvent::spec_parse(b) == SingleEvent::Indeterminate) <==> b & 3 == 3,
{
    assert(b & 3 == b % 4) by (bit_vector);
}

/// A double command carries the DCS of IEC 60870-5-101, subclass 7.2.6.16,
/// in the low two bits of its octet: 1 OFF, 2 ON, 0 and 3 not permitted. Each
/// state is written as its own value, and every octet is read as the state
/// its low two bits name.
pub proof fn double_command_states_on_the_wire(d: DoubleCommand, b: u8)
    ensures
        (d.spec_value() == 0) <==> d == DoubleCommand::NotAllowed0,
        (d.spec_value() == 1) <==> d == DoubleCommand::Off,
        (d.spec_value() == 2) <==> d == DoubleCommand::On,
        (d.spec_value() == 3) <==> d == DoubleCommand::NotAllowed3,
        (DoubleCommand::spec_parse(b) == DoubleCommand::NotAllowed0) <==> b & 3 == 0,
        (DoubleCommand::spec_parse(b) == DoubleCommand::Off) <==> b & 3 == 1,
        (DoubleCommand::spec_parse(b) == DoubleCommand::On) <==> b & 3 == 2,
        (DoubleCommand::spec_parse(b) == DoubleCommand::NotAllowed3) <==> b & 3 == 3,
{
    assert(b & 3 == b % 4) by (bit_vector);
}

/// Cause of initialization. See companion standard 101, subclass 7.2.6.21.
#[derive(Debug, Clone, Copy, PartialEq, Eq, Default, Structural)]
pub struct CoiCause(pub u8);

#[allow(non_snake_case)]
impl CoiCause {
    /// 0: local power on
    pub fn LOCAL_POWER_ON() -> (q: CoiCause)
        ensures
            q.0 == 0,
    {
        CoiCause(0)
    }

    /// 1: local manual reset
    pub fn LOCAL_HAND_RESET() -> (q: CoiCause)
        ensures
            q.0 == 1,
    {
        CoiCause(1)
    }

    /// 2: remote reset
    pub fn REMOTE_RESET() -> (q: CoiCause)
        ensures
            q.0 == 2,
    {
        CoiCause(2)
    }

}

/// Cause of initialization with the "local parameters changed" flag.
#[derive(Debug, Clone, Copy, PartialEq, Eq, Default, Structural)]
pub struct CauseOfInitial {
    /// Why the station initialized.
    pub cause: CoiCause,
    /// Bit 7: initialization occurred after a change of local parameters.
    pub is_local_change: bool,
}

impl CauseOfInitial {
    /// The wire octet: the cause with bit 7 set for a local change.
    pub open spec fn spec_value(self) -> u8 {
        if self.is_local_change && self.cause.0 < 128 {
            (self.cause.0 + 128) as u8
        } else {
            self.cause.0
        }
    }

    /// The cause of initialization a wire octet holds.
    pub open spec fn spec_parse(b: u8) -> CauseOfInitial {
        CauseOfInitial { cause: CoiCause(b % 128), is_local_change: b >= 128 }
    }

    /// Parse the wire octet.
    pub fn parse(b: u8) -> (c: Self)
        ensures
            c == Self::spec_parse(b),
    {
        CauseOfInitial { cause: CoiCause(b % 128), is_local_change: b >= 128 }
    }

    /// Encode to the wire octet.
    pub fn value(self) -> (b: u8)
        ensures
            b == self.spec_value(),
    {
        if self.is_local_change && self.cause.0 < 128 {
            self.cause.0 + 128
        } else {
            self.cause.0
        }
    }
}

/// Qualifier of interrogation. See companion standard 101, subclass 7.2.6.22.
#[derive(Debug, Clone, Copy, PartialEq, Eq, Default, Structural)]
pub struct QualifierOfInterrogation(pub u8);

#[allow(non_snake_case)]
impl QualifierOfInterrogation {
    /// 0: not used
    pub fn UNUSED() -> (q: QualifierOfInterrogation)
        ensures
            q.0 == 0,
    {
        QualifierOfInterrogation(0)
    }

    /// 20: station interrogation (global)
    pub fn STATION() -> (q: QualifierOfInterrogation)
        ensures
            q.0 == 20,
    {
        QualifierOfInterrogation(20)
    }

    /// 21: interrogation of group 1
    pub fn GROUP1() -> (q: QualifierOfInterrogation)
        ensures
            q.0 == 21,
    {
        QualifierOfInterrogation(21)
    }

    /// 36: interrogation of group 16
    pub fn GROUP16() -> (q: QualifierOfInterrogation)
        ensures
            q.0 == 36,
    {
        QualifierOfInterrogation(36)
    }

}

impl QualifierOfInterrogation {
    /// Interrogation of group `n`, for `n` in `1..=16`.
    pub fn group(n: u8) -> (q: Option<Self>)
        ensures
            1 <= n <= 16 ==> q == Some(QualifierOfInterrogation((20 + n) as u8)),
            !(1 <= n <= 16) ==> q.is_none(),
    {
        if n == 0 || n > 16 {
            return None;
        }
        Some(QualifierOfInterrogation(20 + n))
    }
}

/// Counter interrogation request, bits 0..=5.
///
/// See companion standard 101, subclass 7.2.6.23.
#[derive(Debug, Clone, Copy, PartialEq, Eq, Default, Structural)]
pub struct QccRequest(pub u8);

#[allow(non_snake_case)]
impl QccRequest {
    /// 0: not used
    pub fn UNUSED() -> (q: QccRequest)
        ensures
            q.0 == 0,
    {
        QccRequest(0)
    }

    /// 1: request counter group 1
    pub fn GROUP1() -> (q: QccRequest)
        ensures
            q.0 == 1,
    {
        QccRequest(1)
    }

    /// 2: request counter group 2
    pub fn GROUP2() -> (q: QccRequest)
        ensures
            q.0 == 2,
    {
        QccRequest(2)
    }

    /// 3: request counter group 3
    pub fn GROUP3() -> (q: QccRequest)
        ensures
            q.0 == 3,
    {
        QccRequest(3)
    }

    /// 4: request counter group 4
    pub fn GROUP4() -> (q: QccRequest)
        ensures
            q.0 == 4,
    {
        QccRequest(4)
    }

    /// 5: general request counter
    pub fn TOTAL() -> (q: QccRequest)
        ensures
            q.0 == 5,
    {
        QccRequest(5)
    }

}

/// Counter freeze behaviour, bits 6..=7.
///
/// See companion standard 101, subclass 7.2.6.23.
#[derive(Debug, Clone, Copy, PartialEq, Eq, Default, Structural)]
pub struct QccFreeze(pub u8);

#[allow(non_snake_case)]
impl QccFreeze {
    /// 0x00: read without freeze or reset
    pub fn READ() -> (q: QccFreeze)
        ensures
            q.0 == 0x00,
    {
        QccFreeze(0x00)
    }

    /// 0x40: freeze without reset, the frozen value is the accumulated total
    pub fn FREEZE_NO_RESET() -> (q: QccFreeze)
        ensures
            q.0 == 0x40,
    {
        QccFreeze(0x40)
    }

    /// 0x80: freeze with reset, the frozen value is the increment
    pub fn FREEZE_RESET() -> (q: QccFreeze)
        ensures
            q.0 == 0x80,
    {
        QccFreeze(0x80)
    }

    /// 0xc0: counter reset
    pub fn RESET() -> (q: QccFreeze)
        ensures
            q.0 == 0xc0,
    {
        QccFreeze(0xc0)
    }

}

/// Qualifier of counter interrogation command.
///
/// See companion standard 101, subclass 7.2.6.23.
#[derive(Debug, Clone, Copy, PartialEq, Eq, Default, Structural)]
pub struct QualifierCountCall {
    /// Which counter group is requested.
    pub request: QccRequest,
    /// Whether and how the counters are frozen.
    pub freeze: QccFreeze,
}

impl QualifierCountCall {
    /// The wire octet: the request in bits 0..=5 and the freeze in bits 6..=7.
    pub open spec fn spec_value(self) -> u8 {
        (self.request.0 % 64 + self.freeze.0 / 64 * 64) as u8
    }

    /// The qualifier a wire octet holds.
    pub open spec fn spec_parse(b: u8) -> QualifierCountCall {
        QualifierCountCall { request: QccRequest(b % 64), freeze: QccFreeze((b / 64 * 64) as u8) }
    }

    /// Parse the wire octet.
    pub fn parse(b: u8) -> (q: Self)
        ensures
            q == Self::spec_parse(b),
    {
        QualifierCountCall { request: QccRequest(b % 64), freeze: QccFreeze(b / 64 * 64) }
    }

    /// Encode to the wire octet.
    pub fn value(self) -> (b: u8)
        ensures
            b == self.spec_value(),
    {
        self.request.0 % 64 + self.freeze.0 / 64 * 64
    }
}

/// Category of a measured value parameter, bits 0..=5.
#[derive(Debug, Clone, Copy, PartialEq, Eq, Default, Structural)]
pub struct QpmCategory(pub u8);

#[allow(non_snake_case)]
impl QpmCategory {
    /// 0: not used
    pub fn UNUSED() -> (q: QpmCategory)
        ensures
            q.0 == 0,
    {
        QpmCategory(0)
    }

    /// 1: threshold value
    pub fn THRESHOLD() -> (q: QpmCategory)
        ensures
            q.0 == 1,
    {
        QpmCategory(1)
    }

    /// 2: smoothing factor (filter time constant)
    pub fn SMOOTHING() -> (q: QpmCategory)
        ensures
            q.0 == 2,
    {
        QpmCategory(2)
    }

    /// 3: low limit for transmission of measured values
    pub fn LOW_LIMIT() -> (q: QpmCategory)
        ensures
            q.0 == 3,
    {
        QpmCategory(3)
    }

    /// 4: high limit for transmission of measured values
    pub fn HIGH_LIMIT() -> (q: QpmCategory)
        ensures
            q.0 == 4,
    {
        QpmCategory(4)
    }

}

/// Qualifier of parameter of measured values.
///
/// See companion standard 101, subclass 7.2.6.24.
#[derive(Debug, Clone, Copy, PartialEq, Eq, Default, Structural)]
pub struct QualifierOfParameterMv {
    /// Which parameter this is.
    pub category: QpmCategory,
    /// Bit 6: the parameter was changed locally.
    pub is_change: bool,
    /// Bit 7: the parameter is not in operation.
    pub is_in_operation: bool,
}

impl QualifierOfParameterMv {
    /// The wire octet: the category in bits 0..=5 and the two flags above it.
    pub open spec fn spec_value(self) -> u8 {
        (self.category.0 % 64 + (if self.is_change { 64int } else { 0 }) + (if self.is_in_operation {
            128int
        } else {
            0
        })) as u8
    }

    /// The qualifier a wire octet holds.
    pub open spec fn spec_parse(b: u8) -> QualifierOfParameterMv {
        QualifierOfParameterMv {
            category: QpmCategory(b % 64),
            is_change: (b / 64) % 2 == 1,
            is_in_operation: b >= 128,
        }
    }

    /// Parse the wire octet.
    pub fn parse(b: u8) -> (q: Self)
        ensures
            q == Self::spec_parse(b),
    {
        QualifierOfParameterMv {
            category: QpmCategory(b % 64),
            is_change: (b / 64) % 2 == 1,
            is_in_operation: b >= 128,
        }
    }

    /// Encode to the wire octet.
    pub fn value(self) -> (b: u8)
        ensures
            b == self.spec_value(),
    {
        let mut v = self.category.0 % 64;
        if self.is_change {
            v = v + 64;
        }
        if self.is_in_operation {
            v = v + 128;
        }
        v
    }
}

/// Qualifier of parameter activation. See companion standard 101, subclass 7.2.6.25.
#[derive(Debug, Clone, Copy, PartialEq, Eq, Default, Structural)]
pub struct QualifierOfParameterAct(pub u8);

#[allow(non_snake_case)]
impl QualifierOfParameterAct {
    /// 0: not used
    pub fn UNUSED() -> (q: QualifierOfParameterAct)
        ensures
            q.0 == 0,
    {
        QualifierOfParameterAct(0)
    }

    /// 1: (de)activation of the previously loaded parameters (IOA = 0)
    pub fn DEACT_PREV_LOADED_PARAMETER() -> (q: QualifierOfParameterAct)
        ensures
            q.0 == 1,
    {
        QualifierOfParameterAct(1)
    }

    /// 2: (de)activation of the parameters of the addressed object
    pub fn DEACT_OBJECT_PARAMETER() -> (q: QualifierOfParameterAct)
        ensures
            q.0 == 2,
    {
        QualifierOfParameterAct(2)
    }

    /// 3: (de)activation of cyclic or periodic transmission of the addressed object
    pub fn DEACT_OBJECT_TRANSMISSION() -> (q: QualifierOfParameterAct)
        ensures
            q.0 == 3,
    {
        QualifierOfParameterAct(3)
    }

}

/// Command qualifier value, bits 2..=6 of the qualifier octet.
///
/// See companion standard 101, subclass 7.2.6.26.
#[derive(Debug, Clone, Copy, PartialEq, Eq, Default, Structural)]
pub struct QocQual(pub u8);

#[allow(non_snake_case)]
impl QocQual {
    /// 0: no additional definition
    pub fn NO_ADDITIONAL_DEFINITION() -> (q: QocQual)
        ensures
            q.0 == 0,
    {
        QocQual(0)
    }

    /// 1: short pulse duration, determined by a parameter in the outstation
    pub fn SHORT_PULSE_DURATION() -> (q: QocQual)
        ensures
            q.0 == 1,
    {
        QocQual(1)
    }

    /// 2: long pulse duration, determined by a parameter in the outstation
    pub fn LONG_PULSE_DURATION() -> (q: QocQual)
        ensures
            q.0 == 2,
    {
        QocQual(2)
    }

    /// 3: persistent output
    pub fn PERSISTENT_OUTPUT() -> (q: QocQual)
        ensures
            q.0 == 3,
    {
        QocQual(3)
    }

    /// The name of a defined qualifier, or `QOCQual(v)` in decimal.
    pub fn to_string(&self) -> (s: String)
        ensures
            s@ == qoc_text(self.0),
    {
        proof {
            reveal_strlit("NoAdditionalDefinition");
            reveal_strlit("ShortPulseDuration");
            reveal_strlit("LongPulseDuration");
            reveal_strlit("PersistentOutput");
            reveal_strlit("QOCQual(");
            reveal_strlit(")");
        }
        match self.0 {
            0 => String::from_str("NoAdditionalDefinition"),
            1 => String::from_str("ShortPulseDuration"),
            2 => String::from_str("LongPulseDuration"),
            3 => String::from_str("PersistentOutput"),
            v => {
                let mut r = String::from_str("QOCQual(");
                let d = decimal_string(v as u64);
                r.append(d.as_str());
                r.append(")");
                r
            },
        }
    }
}

/// The text of a command qualifier value.
pub open spec fn qoc_text(v: u8) -> Seq<char> {
    if v == 0 {
        "NoAdditionalDefinition"@
    } else if v == 1 {
        "ShortPulseDuration"@
    } else if v == 2 {
        "LongPulseDuration"@
    } else if v == 3 {
        "PersistentOutput"@
    } else {
        "QOCQual("@ + decimal(v as nat) + ")"@
    }
}

/// `Select:` or `Execute:` followed by the text of the qualifier value.
pub open spec fn select_text(in_select: bool) -> Seq<char> {
    if in_select {
        "Select:"@
    } else {
        "Execute:"@
    }
}

/// Qualifier of command. See companion standard 101, subclass 7.2.6.26 and
/// section 5, subclass 6.8.
#[derive(Debug, Clone, Copy, PartialEq, Eq, Default, Structural)]
pub struct QualifierOfCommand {
    /// Pulse behaviour of the output.
    pub qual: QocQual,
    /// S/E bit: `true` selects, `false` executes.
    pub in_select: bool,
}

impl QualifierOfCommand {
    /// The wire octet: the qualifier in bits 2..=6 and S/E in bit 7; the
    /// value bits 0..=1 are left clear.
    pub open spec fn spec_value(self) -> u8 {
        (self.qual.0 % 32 * 4 + (if self.in_select { 128int } else { 0 })) as u8
    }

    /// The qualifier a command octet holds.
    pub open spec fn spec_parse(b: u8) -> QualifierOfCommand {
        QualifierOfCommand { qual: QocQual((b / 4) % 32), in_select: b >= 128 }
    }

    /// Parse the wire octet (bits 2..=7 of the command octet).
    pub fn parse(b: u8) -> (q: Self)
        ensures
            q == Self::spec_parse(b),
    {
        QualifierOfCommand { qual: QocQual((b / 4) % 32), in_select: b >= 128 }
    }

    /// Encode to the wire octet, leaving the value bits clear.
    pub fn value(self) -> (b: u8)
        ensures
            b == self.spec_value(),
    {
        let v = self.qual.0 % 32 * 4;
        if self.in_select {
            v + 128
        } else {
            v
        }
    }

    /// `Select:` or `Execute:`, then the text of the qualifier value.
    pub fn to_string(&self) -> (s: String)
        ensures
            s@ == select_text(self.in_select) + qoc_text(self.qual.0),
    {
        proof {
            reveal_strlit("Select:");
            reveal_strlit("Execute:");
        }
        let mut r = if self.in_select {
            String::from_str("Select:")
        } else {
            String::from_str("Execute:")
        };
        let q = self.qual.to_string();
        r.append(q.as_str());
        r
    }
}

/// Qualifier of reset process command. See companion standard 101, subclass 7.2.6.27.
#[derive(Debug, Clone, Copy, PartialEq, Eq, Default, Structural)]
pub struct QualifierOfResetProcessCmd(pub u8);

#[allow(non_snake_case)]
impl QualifierOfResetProcessCmd {
    /// 0: not used
    pub fn UNUSED() -> (q: QualifierOfResetProcessCmd)
        ensures
            q.0 == 0,
    {
        QualifierOfResetProcessCmd(0)
    }

    /// 1: general reset of the process
    pub fn GENERAL_RESET() -> (q: QualifierOfResetProcessCmd)
        ensures
            q.0 == 1,
    {
        QualifierOfResetProcessCmd(1)
    }

    /// 2: reset of pending time-tagged information in the event buffer
    pub fn RESET_PENDING_INFO_WITH_TIME_TAG() -> (q: QualifierOfResetProcessCmd)
        ensures
            q.0 == 2,
    {
        QualifierOfResetProcessCmd(2)
    }

}

/// Set-point command qualifier value, bits 0..=6.
///
/// See companion standard 101, subclass 7.2.6.39.
#[derive(Debug, Clone, Copy, PartialEq, Eq, Default, Structural)]
pub struct QosQual(pub u8);

/// Qualifier of a set-point command. See section 5, subclass 6.8.
#[derive(Debug, Clone, Copy, PartialEq, Eq, Default, Structural)]
pub struct QualifierOfSetpointCmd {
    /// Implementation-defined qualifier value.
    pub qual: QosQual,
    /// S/E bit: `true` selects, `false` executes.
    pub in_select: bool,
}

impl QualifierOfSetpointCmd {
    /// The wire octet: the qualifier in bits 0..=6 and S/E in bit 7.
    pub open spec fn spec_value(self) -> u8 {
        (self.qual.0 % 128 + (if self.in_select { 128int } else { 0 })) as u8
    }

    /// The qualifier a wire octet holds.
    pub open spec fn spec_parse(b: u8) -> QualifierOfSetpointCmd {
        QualifierOfSetpointCmd { qual: QosQual(b % 128), in_select: b >= 128 }
    }

    /// Parse the wire octet.
    pub fn parse(b: u8) -> (q: Self)
        ensures
            q == Self::spec_parse(b),
    {
        QualifierOfSetpointCmd { qual: QosQual(b % 128), in_select: b >= 128 }
    }

    /// Encode to the wire octet.
    pub fn value(self) -> (b: u8)
        ensures
            b == self.spec_value(),
    {
        let v = self.qual.0 % 128;
        if self.in_select {
            v + 128
        } else {
            v
        }
    }

    /// `Select:QOSQual(v)` or `Execute:QOSQual(v)`, the value in decimal.
    pub fn to_string(&self) -> (s: String)
        ensures
            s@ == select_text(self.in_select) + "QOSQual("@ + decimal(self.qual.0 as nat) + ")"@,
    {
        proof {
            reveal_strlit("Select:QOSQual(");
            reveal_strlit("Execute:QOSQual(");
            reveal_strlit("Select:");
            reveal_strlit("Execute:");
            reveal_strlit("QOSQual(");
            reveal_strlit(")");
        }
        let mut r = if self.in_select {
            String::from_str("Select:QOSQual(")
        } else {
            String::from_str("Execute:QOSQual(")
        };
        let d = decimal_string(self.qual.0 as u64);
        r.append(d.as_str());
        r.append(")");
        r
    }
}

/// The qualifier octets decode what they encode, for every field value that
/// fits its bits, and re-encode every octet unchanged.
pub proof fn qualifiers_round_trip(
    coi: CauseOfInitial,
    qcc: QualifierCountCall,
    qpm: QualifierOfParameterMv,
    qoc: QualifierOfCommand,
    qos: QualifierOfSetpointCmd,
    b: u8,
)
    requires
        coi.cause.0 < 128,
        qcc.request.0 < 64,
        qcc.freeze.0 % 64 == 0,
        qpm.category.0 < 64,
        qoc.qual.0 < 32,
        qos.qual.0 < 128,
    ensures
        CauseOfInitial::spec_parse(coi.spec_value()) == coi,
        CauseOfInitial::spec_parse(b).spec_value() == b,
        QualifierCountCall::spec_parse(qcc.spec_value()) == qcc,
        QualifierCountCall::spec_parse(b).spec_value() == b,
        QualifierOfParameterMv::spec_parse(qpm.spec_value()) == qpm,
        QualifierOfParameterMv::spec_parse(b).spec_value() == b,
        QualifierOfCommand::spec_parse(qoc.spec_value()) == qoc,
        QualifierOfSetpointCmd::spec_parse(qos.spec_value()) == qos,
        QualifierOfSetpointCmd::spec_parse(b).spec_value() == b,
{
}

/// Facts that tie the masks and shifts of one octet to its arithmetic: a low
/// mask is a remainder, a single high bit is a digit of the quotient.
pub(crate) proof fn octet_bit_facts(x: u8)
    by (bit_vector)
    ensures
        x & 0x01 == x % 2,
        x & 0x03 == x % 4,
        x & 0x0f == x % 16,
        x & 0x1f == x % 32,
        x & 0x3f == x % 64,
        x & 0x7f == x % 128,
        (x & 0x10 == 0x10) == ((x / 16) % 2 == 1),
        (x & 0x20 == 0x20) == ((x / 32) % 2 == 1),
        (x & 0x40 == 0x40) == ((x / 64) % 2 == 1),
        (x & 0x40 == 0x40) == (x % 128 >= 64),
        (x & 0x80 == 0x80) == (x >= 128),
        x & 0xc0 == x / 64 * 64,
        x & 0xf0 == x / 16 * 16,
        (x >> 2) & 0x1f == (x / 4) % 32,
        x >> 4 == x / 16,
{
}

/// Single-point information carries the SPI of IEC 60870-5-101, subclass
/// 7.2.6.1, in bit 0: 0 OFF, 1 ON.
pub proof fn single_point_states_on_the_wire(p: SinglePoint)
    ensures
        (p.spec_value() == 0) <==> p == SinglePoint::Off,
        (p.spec_value() == 1) <==> p == SinglePoint::On,
{
}

/// A regulating step command carries the RCS of IEC 60870-5-101, subclass
/// 7.2.6.17, in the low two bits of its octet: 1 next step lower, 2 next step
/// higher, 0 and 3 not permitted. Each state is written as its own value,
/// and every octet is read as the state its low two bits name.
pub proof fn step_command_states_on_the_wire(s: StepCommand, b: u8)
    ensures
        (s.spec_value() == 0) <==> s == StepCommand::NotAllowed0,
        (s.spec_value() == 1) <==> s == StepCommand::StepDown,
        (s.spec_value() == 2) <==> s == StepCommand::StepUp,
        (s.spec_value() == 3) <==> s == StepCommand::NotAllowed3,
        (StepCommand::spec_parse(b) == StepCommand::NotAllowed0) <==> b & 3 == 0,
        (StepCommand::spec_parse(b) == StepCommand::StepDown) <==> b & 3 == 1,
        (StepCommand::spec_parse(b) == StepCommand::StepUp) <==> b & 3 == 2,
        (StepCommand::spec_parse(b) == StepCommand::NotAllowed3) <==> b & 3 == 3,
{
    octet_bit_facts(b);
}

/// The value with transient state indication of IEC 60870-5-101, subclass
/// 7.2.6.5: the step position in bits 0 to 6 as a seven-bit two's complement
/// number (bit 6 its sign), and the transient flag in bit 7. The octet
/// written holds the position modulo 128 and the flag; every octet is read
/// by sign-extending bit 6.
pub proof fn step_position_bits(p: StepPosition, b: u8)
    ensures
        (p.spec_value() & 0x7f) as int == (p.val as int) % 128,
        (p.spec_value() & 0x80 == 0x80) == p.has_transient,
        -64 <= p.val <= 63 ==> ((p.spec_value() & 0x40 == 0x40) == (p.val < 0)),
        StepPosition::spec_parse(b).has_transient == (b & 0x80 == 0x80),
        StepPosition::spec_parse(b).val == (if b & 0x40 == 0x40 {
            (b & 0x7f) - 128
        } else {
            (b & 0x7f) as int
        }),
{
    let v = p.spec_value();
    let r: int = if p.val < 0 { p.val + 128 } else { p.val as int };
    let q: int = if p.val < 0 { -1 } else { 0 };
    let t: int = if p.has_transient { 1 } else { 0 };
    assert(v == t * 128 + r);
    vstd::arithmetic::div_mod::lemma_fundamental_div_mod_converse(v as int, 128, t, r);
    vstd::arithmetic::div_mod::lemma_fundamental_div_mod_converse(p.val as int, 128, q, r);
    octet_bit_facts(v);
    octet_bit_facts(b);
}

/// The cause of initialization octet of IEC 60870-5-101, subclass 7.2.6.21:
/// the cause in bits 0 to 6 and the local-change flag in bit 7. The octet
/// written keeps the cause's seven bits and sets bit 7 for a local change;
/// every octet is read the same way.
pub proof fn cause_of_initialization_bits(c: CauseOfInitial, b: u8)
    ensures
        c.spec_value() & 0x7f == c.cause.0 & 0x7f,
        (c.spec_value() & 0x80 == 0x80) == (c.is_local_change || c.cause.0 & 0x80 == 0x80),
        CauseOfInitial::spec_parse(b).cause.0 == b & 0x7f,
        CauseOfInitial::spec_parse(b).is_local_change == (b & 0x80 == 0x80),
{
    let v = c.spec_value();
    let x = c.cause.0;
    let l = c.is_local_change;
    assert(v & 0x7f == x & 0x7f && ((v & 0x80 == 0x80) == (l || x & 0x80 == 0x80))) by (bit_vector)
        requires
            v == (if l && x < 128 { (x + 128) as u8 } else { x }),
    ;
    octet_bit_facts(b);
}

/// The qualifier of counter interrogation of IEC 60870-5-101, subclass
/// 7.2.6.23: the request in bits 0 to 5 and the freeze in bits 6 and 7.
pub proof fn counter_call_qualifier_bits(q: QualifierCountCall, b: u8)
    ensures
        q.spec_value() & 0x3f == q.request.0 & 0x3f,
        q.spec_value() & 0xc0 == q.freeze.0 & 0xc0,
        QualifierCountCall::spec_parse(b).request.0 == b & 0x3f,
        QualifierCountCall::spec_parse(b).freeze.0 == b & 0xc0,
{
    let v = q.spec_value();
    let r = q.request.0;
    let f = q.freeze.0;
    assert(v & 0x3f == r & 0x3f && v & 0xc0 == f & 0xc0) by (bit_vector)
        requires
            v == (r % 64 + f / 64 * 64) as u8,
    ;
    octet_bit_facts(b);
}

/// The qualifier of parameter of measured values of IEC 60870-5-101,
/// subclass 7.2.6.24: the category in bits 0 to 5, local change at 0x40 and
/// not in operation at 0x80.
pub proof fn parameter_qualifier_bits(q: QualifierOfParameterMv, b: u8)
    ensures
        q.spec_value() & 0x3f == q.category.0 & 0x3f,
        (q.spec_value() & 0x40 == 0x40) == q.is_change,
        (q.spec_value() & 0x80 == 0x80) == q.is_in_operation,
        QualifierOfParameterMv::spec_parse(b).category.0 == b & 0x3f,
        QualifierOfParameterMv::spec_parse(b).is_change == (b & 0x40 == 0x40),
        QualifierOfParameterMv::spec_parse(b).is_in_operation == (b & 0x80 == 0x80),
{
    let v = q.spec_value();
    let k = q.category.0;
    let c = q.is_change;
    let o = q.is_in_operation;
    assert(v & 0x3f == k & 0x3f && ((v & 0x40 == 0x40) == c) && ((v & 0x80 == 0x80) == o)) by (bit_vector)
        requires
            v == (k % 64 + (if c { 64u8 } else { 0u8 }) + (if o { 128u8 } else { 0u8 })) as u8,
    ;
    octet_bit_facts(b);
}

/// The qualifier of command of IEC 60870-5-101, subclass 7.2.6.26: the
/// qualifier in bits 2 to 6, bits 0 and 1 left clear for the command state,
/// and S/E (select) at 0x80.
pub proof fn command_qualifier_bits(q: QualifierOfCommand, b: u8)
    ensures
        q.spec_value() & 0x03 == 0,
        (q.spec_value() >> 2) & 0x1f == q.qual.0 & 0x1f,
        (q.spec_value() & 0x80 == 0x80) == q.in_select,
        QualifierOfCommand::spec_parse(b).qual.0 == (b >> 2) & 0x1f,
        QualifierOfCommand::spec_parse(b).in_select == (b & 0x80 == 0x80),
{
    let v = q.spec_value();
    let k = q.qual.0;
    let s = q.in_select;
    assert(v & 0x03 == 0 && (v >> 2) & 0x1f == k & 0x1f && ((v & 0x80 == 0x80) == s)) by (bit_vector)
        requires
            v == (k % 32 * 4 + (if s { 128u8 } else { 0u8 })) as u8,
    ;
    octet_bit_facts(b);
}

/// The qualifier of a set-point command of IEC 60870-5-101, subclass
/// 7.2.6.39: the qualifier in bits 0 to 6 and S/E (select) at 0x80.
pub proof fn setpoint_qualifier_bits(q: QualifierOfSetpointCmd, b: u8)
    ensures
        q.spec_value() & 0x7f == q.qual.0 & 0x7f,
        (q.spec_value() & 0x80 == 0x80) == q.in_select,
        QualifierOfSetpointCmd::spec_parse(b).qual.0 == b & 0x7f,
        QualifierOfSetpointCmd::spec_parse(b).in_select == (b & 0x80 == 0x80),
{
    let v = q.spec_value();
    let k = q.qual.0;
    let s = q.in_select;
    assert(v & 0x7f == k & 0x7f && ((v & 0x80 == 0x80) == s)) by (bit_vector)
        requires
            v == (k % 128 + (if s { 128u8 } else { 0u8 })) as u8,
    ;
    octet_bit_facts(b);
}

/// Status and status change detection, 32 bits.
///
/// See companion standard 101, subclass 7.2.6.40. The low 16 bits are the
/// current status of 16 single points, the high 16 bits mark which of them
/// changed since the last transmission.
#[derive(Debug, Clone, Copy, PartialEq, Eq, Default, Structural)]
pub struct StatusAndStatusChangeDetection(pub u32);

impl StatusAndStatusChangeDetection {
    /// The 16 status bits (ST).
    pub fn status(self) -> (s: u16)
        ensures
            s == self.0 % 65536,
    {
        (self.0 % 65536) as u16
    }

    /// The 16 change-detection bits (CD).
    pub fn change_detection(self) -> (c: u16)
        ensures
            c == self.0 / 65536,
    {
        (self.0 / 65536) as u16
    }
}

impl From<u32> for StatusAndStatusChangeDetection {
    fn from(v: u32) -> (s: StatusAndStatusChangeDetection)
        ensures
            s.0 == v,
    {
        StatusAndStatusChangeDetection(v)
    }
}

impl vstd::std_specs::convert::FromSpecImpl<u32> for StatusAndStatusChangeDetection {
    open spec fn obeys_from_spec() -> bool {
        true
    }

    open spec fn from_spec(v: u32) -> StatusAndStatusChangeDetection {
        StatusAndStatusChangeDetection(v)
    }
}

} // verus!
