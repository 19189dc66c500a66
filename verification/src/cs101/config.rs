//! Link-layer, serial and TCP configuration for IEC 60870-5-101 and -103.
//!
//! [`Config::valid`] fills each unset (zero) timing with its default and then
//! checks that every value lies in its range and that the values agree with
//! one another.

use vstd::prelude::*;

use crate::error::{Error, Result};

verus! {

/// A span of time, kept as whole seconds and the nanoseconds within the last
/// second.
#[derive(Debug, Clone, Copy, PartialEq, Eq, Hash, Structural)]
pub struct Duration {
    secs: u64,
    nanos: u32,
}

#[allow(non_snake_case)]
impl Duration {
    #[verifier::type_invariant]
    spec fn subsec_in_range(self) -> bool {
        self.nanos < 1_000_000_000
    }

    /// The length of the span in nanoseconds.
    pub closed spec fn total_nanos(self) -> int {
        self.secs * 1_000_000_000 + self.nanos
    }

    /// The empty span.
    pub fn ZERO() -> (d: Duration)
        ensures
            d.total_nanos() == 0,
    {
        Duration { secs: 0, nanos: 0 }
    }

    /// A span of `secs` seconds.
    pub fn from_secs(secs: u64) -> (d: Duration)
        ensures
            d.total_nanos() == secs * 1_000_000_000,
    {
        Duration { secs, nanos: 0 }
    }

    /// A span of `millis` milliseconds.
    pub fn from_millis(millis: u64) -> (d: Duration)
        ensures
            d.total_nanos() == millis * 1_000_000,
    {
        Duration { secs: millis / 1000, nanos: ((millis % 1000) * 1_000_000) as u32 }
    }

    /// True for the empty span.
    pub fn is_zero(&self) -> (b: bool)
        ensures
            b == (self.total_nanos() == 0),
    {
        self.secs == 0 && self.nanos == 0
    }

    /// The whole seconds of the span.
    pub fn as_secs(&self) -> (s: u64)
        ensures
            s == self.total_nanos() / 1_000_000_000,
    {
        proof {
            use_type_invariant(self);
        }
        self.secs
    }

    /// The nanoseconds of the span beyond its whole seconds.
    pub fn subsec_nanos(&self) -> (n: u32)
        ensures
            n == self.total_nanos() % 1_000_000_000,
    {
        proof {
            use_type_invariant(self);
        }
        self.nanos
    }

    /// The whole milliseconds of the span.
    pub fn as_millis(&self) -> (m: u128)
        ensures
            m == self.total_nanos() / 1_000_000,
    {
        proof {
            use_type_invariant(self);
        }
        self.secs as u128 * 1000 + (self.nanos / 1_000_000) as u128
    }

    /// True when this span is shorter than `other`.
    pub fn shorter_than(&self, other: &Duration) -> (b: bool)
        ensures
            b == (self.total_nanos() < other.total_nanos()),
    {
        proof {
            use_type_invariant(self);
            use_type_invariant(other);
        }
        self.secs < other.secs || (self.secs == other.secs && self.nanos < other.nanos)
    }
}

/// How the FT1.2 frames are carried.
#[derive(Debug, Clone, Copy, PartialEq, Eq, Structural)]
pub enum TransportType {
    /// A local serial port.
    Serial,
    /// Dial out to `TcpConfig::address` and run FT1.2 over the TCP stream.
    ///
    /// This is the usual arrangement with a terminal server or serial-device
    /// server. It is still 101/103 framing inside a pipe, not IEC 104.
    TcpClient,
    /// Listen on `TcpConfig::address`, serving one connection at a time.
    TcpServer,
}

impl TransportType {
    /// The name of the transport: `serial`, `tcp-client` or `tcp-server`.
    pub fn to_string(&self) -> (s: String)
        ensures
            s@ == transport_name(*self),
    {
        proof {
            reveal_strlit("serial");
            reveal_strlit("tcp-client");
            reveal_strlit("tcp-server");
        }
        match self {
            TransportType::Serial => String::from_str("serial"),
            TransportType::TcpClient => String::from_str("tcp-client"),
            TransportType::TcpServer => String::from_str("tcp-server"),
        }
    }
}

/// The name of a transport.
pub open spec fn transport_name(t: TransportType) -> Seq<char> {
    match t {
        TransportType::Serial => "serial"@,
        TransportType::TcpClient => "tcp-client"@,
        TransportType::TcpServer => "tcp-server"@,
    }
}

impl Default for TransportType {
    fn default() -> (t: TransportType)
        ensures
            t == TransportType::Serial,
    {
        TransportType::Serial
    }
}

/// The transmission procedure.
#[derive(Debug, Clone, Copy, PartialEq, Eq, Structural)]
pub enum TransmissionMode {
    /// One primary station polls one or more secondaries on a shared line.
    /// Only the primary initiates; secondaries answer polls.
    Unbalanced,
    /// Point-to-point: both stations may transmit spontaneously, each running
    /// a primary role for sending and a secondary role for acknowledging.
    Balanced,
}

impl Default for TransmissionMode {
    fn default() -> (m: TransmissionMode)
        ensures
            m == TransmissionMode::Unbalanced,
    {
        TransmissionMode::Unbalanced
    }
}

/// Parity of the serial line.
#[derive(Debug, Clone, Copy, PartialEq, Eq, Structural)]
pub enum Parity {
    /// No parity bit.
    NoParity,
    /// Odd parity.
    Odd,
    /// Even parity. This is the IEC 60870-5-101 standard (8E1).
    Even,
}

impl Default for Parity {
    fn default() -> (p: Parity)
        ensures
            p == Parity::Even,
    {
        Parity::Even
    }
}

/// Number of stop bits.
#[derive(Debug, Clone, Copy, PartialEq, Eq, Structural)]
pub enum StopBits {
    /// One stop bit, the IEC 60870-5-101 standard.
    One,
    /// Two stop bits.
    Two,
}

impl Default for StopBits {
    fn default() -> (s: StopBits)
        ensures
            s == StopBits::One,
    {
        StopBits::One
    }
}

/// Serial port settings.
///
/// 8E1 (eight data bits, even parity, one stop bit) is the framing the standard
/// specifies, and is the default here.
#[derive(Debug, Clone, PartialEq, Eq)]
pub struct SerialConfig {
    /// Port name, for example `/dev/ttyUSB0` or `COM3`.
    pub address: String,
    /// Line speed in bits per second.
    pub baud_rate: u32,
    /// Data bits, normally 8.
    pub data_bits: u8,
    /// Stop bits.
    pub stop_bits: StopBits,
    /// Parity.
    pub parity: Parity,
    /// Read timeout; `None` blocks indefinitely.
    pub timeout: Option<Duration>,
}

impl Default for SerialConfig {
    fn default() -> (c: SerialConfig)
        ensures
            c.address@ == Seq::<char>::empty(),
            c.baud_rate == 9600,
            c.data_bits == 8,
            c.stop_bits == StopBits::One,
            c.parity == Parity::Even,
            c.timeout is None,
    {
        SerialConfig {
            address: String::new(),
            baud_rate: 9600,
            data_bits: 8,
            stop_bits: StopBits::One,
            parity: Parity::Even,
            timeout: None,
        }
    }
}

impl SerialConfig {
    /// A standard 8E1 port at `baud_rate`.
    pub fn new(address: &str, baud_rate: u32) -> (c: SerialConfig)
        ensures
            c.address@ == address@,
            c.baud_rate == baud_rate,
            c.data_bits == 8,
            c.stop_bits == StopBits::One,
            c.parity == Parity::Even,
            c.timeout is None,
    {
        SerialConfig {
            address: address.to_owned(),
            baud_rate,
            data_bits: 8,
            stop_bits: StopBits::One,
            parity: Parity::Even,
            timeout: None,
        }
    }
}

/// Default TCP connect timeout when none is configured: 30 s.
#[allow(non_snake_case)]
pub fn DEFAULT_TCP_CONNECT_TIMEOUT() -> (d: Duration)
    ensures
        d.total_nanos() == 30 * 1_000_000_000,
{
    Duration::from_secs(30)
}

/// Settings for the TCP encapsulation transports.
#[derive(Debug, Clone, PartialEq, Eq)]
pub struct TcpConfig {
    /// `host:port` to dial ([`TransportType::TcpClient`]) or to listen on
    /// ([`TransportType::TcpServer`], for example `":2400"`).
    pub address: String,
    /// Bounds dialling. Defaults to 30 s.
    pub connect_timeout: Option<Duration>,
}

impl Default for TcpConfig {
    fn default() -> (c: TcpConfig)
        ensures
            c.address@ == Seq::<char>::empty(),
            c.connect_timeout is None,
    {
        TcpConfig { address: String::new(), connect_timeout: None }
    }
}


/// Default response timeout t1: 10 s.
#[allow(non_snake_case)]
pub fn DEFAULT_TIMEOUT_RESPONSE_T1() -> (d: Duration)
    ensures
        d.total_nanos() == 10 * 1_000_000_000,
{
    Duration::from_secs(10)
}

/// t1 lower bound: 1 s.
#[allow(non_snake_case)]
pub fn TIMEOUT_RESPONSE_T1_MIN() -> (d: Duration)
    ensures
        d.total_nanos() == 1_000_000_000,
{
    Duration::from_secs(1)
}

/// t1 upper bound: 255 s.
#[allow(non_snake_case)]
pub fn TIMEOUT_RESPONSE_T1_MAX() -> (d: Duration)
    ensures
        d.total_nanos() == 255 * 1_000_000_000,
{
    Duration::from_secs(255)
}

/// Default repetition timeout t2: 5 s.
#[allow(non_snake_case)]
pub fn DEFAULT_TIMEOUT_REPEAT_T2() -> (d: Duration)
    ensures
        d.total_nanos() == 5 * 1_000_000_000,
{
    Duration::from_secs(5)
}

/// t2 lower bound: 1 s.
#[allow(non_snake_case)]
pub fn TIMEOUT_REPEAT_T2_MIN() -> (d: Duration)
    ensures
        d.total_nanos() == 1_000_000_000,
{
    Duration::from_secs(1)
}

/// t2 upper bound: 255 s.
#[allow(non_snake_case)]
pub fn TIMEOUT_REPEAT_T2_MAX() -> (d: Duration)
    ensures
        d.total_nanos() == 255 * 1_000_000_000,
{
    Duration::from_secs(255)
}

/// Default idle timeout t3: 20 s.
#[allow(non_snake_case)]
pub fn DEFAULT_TIMEOUT_TEST_T3() -> (d: Duration)
    ensures
        d.total_nanos() == 20 * 1_000_000_000,
{
    Duration::from_secs(20)
}

/// t3 lower bound: 1 s.
#[allow(non_snake_case)]
pub fn TIMEOUT_TEST_T3_MIN() -> (d: Duration)
    ensures
        d.total_nanos() == 1_000_000_000,
{
    Duration::from_secs(1)
}

/// t3 upper bound: 48 hours.
#[allow(non_snake_case)]
pub fn TIMEOUT_TEST_T3_MAX() -> (d: Duration)
    ensures
        d.total_nanos() == 172_800 * 1_000_000_000,
{
    Duration::from_secs(172_800)
}

/// Default pacing of the poll and transmit scheduler: 200 ms.
#[allow(non_snake_case)]
pub fn DEFAULT_TIMEOUT_SEND_LINK_MSG() -> (d: Duration)
    ensures
        d.total_nanos() == 200 * 1_000_000,
{
    Duration::from_millis(200)
}

/// Scheduler pacing lower bound: 1 ms.
#[allow(non_snake_case)]
pub fn TIMEOUT_SEND_LINK_MSG_MIN() -> (d: Duration)
    ensures
        d.total_nanos() == 1_000_000,
{
    Duration::from_millis(1)
}

/// Scheduler pacing upper bound: 10 s.
#[allow(non_snake_case)]
pub fn TIMEOUT_SEND_LINK_MSG_MAX() -> (d: Duration)
    ensures
        d.total_nanos() == 10 * 1_000_000_000,
{
    Duration::from_secs(10)
}

/// Default outbound queue capacity.
pub const DEFAULT_MAX_SEND_QUEUE_SIZE: usize = 100;

/// Default link address width in octets.
pub const DEFAULT_LINK_ADDR_SIZE: u8 = 1;

/// Default maximum ASDU length carried in one frame.
pub const DEFAULT_MAX_APDU_LENGTH: u8 = 253;

/// Default number of times an unanswered confirmed frame is repeated.
pub const DEFAULT_MAX_REPETITIONS: u8 = 1;

/// IEC 60870-5-101 link-layer configuration.
///
/// Both stations must agree on `link_addr_size`, `link_address` and `mode`, and
/// on the `asdu::Params` set separately on the endpoint.
#[derive(Debug, Clone, PartialEq, Eq)]
pub struct Config {
    /// How FT1.2 frames are carried.
    pub transport: TransportType,
    /// Serial port settings, used when `transport` is [`TransportType::Serial`].
    pub serial: SerialConfig,
    /// TCP settings, used by the other transports.
    pub tcp: TcpConfig,
    /// Unbalanced (polled) or balanced (point-to-point).
    pub mode: TransmissionMode,
    /// This station's address (secondary) or the station to poll (primary).
    pub link_address: u16,
    /// Link address width on the wire: 1 or 2 octets.
    pub link_addr_size: u8,
    /// t1: response timeout for confirmed frames, `1..=255` s.
    pub timeout_response_t1: Duration,
    /// t2: timeout after the first repetition, `1..=255` s and below t1.
    pub timeout_repeat_t2: Duration,
    /// t3: idle time before a keep-alive, 1 s to 48 h.
    pub timeout_test_t3: Duration,
    /// Pacing of the poll and transmit scheduler; effectively the polling
    /// period of an unbalanced primary. 1 ms to 10 s.
    pub timeout_send_link_msg: Duration,
    /// Capacity of the outbound queue and of each class buffer.
    pub max_send_queue_size: usize,
    /// Maximum ASDU length carried in one frame, `1..=253`.
    pub max_apdu_length: u8,
    /// How many times the primary repeats a confirmed frame that goes
    /// unanswered before it gives the station up.
    pub max_repetitions: u8,
    /// Acknowledge the peer's frames with the single character `E5`, where the
    /// procedure allows it (the secondary role in balanced mode).
    pub use_single_char_ack: bool,
}

/// Nanoseconds in a second.
pub open spec fn second() -> int {
    1_000_000_000
}

/// The configuration defaults.
pub open spec fn is_default_config(c: Config) -> bool {
    &&& c.transport == TransportType::Serial
    &&& c.serial.address@ == Seq::<char>::empty()
    &&& c.serial.baud_rate == 9600 && c.serial.data_bits == 8
    &&& c.serial.stop_bits == StopBits::One && c.serial.parity == Parity::Even && c.serial.timeout is None
    &&& c.tcp.address@ == Seq::<char>::empty() && c.tcp.connect_timeout is None
    &&& c.mode == TransmissionMode::Unbalanced
    &&& c.link_address == 1
    &&& c.link_addr_size == DEFAULT_LINK_ADDR_SIZE
    &&& c.timeout_response_t1.total_nanos() == 10 * second()
    &&& c.timeout_repeat_t2.total_nanos() == 5 * second()
    &&& c.timeout_test_t3.total_nanos() == 20 * second()
    &&& c.timeout_send_link_msg.total_nanos() == 200 * 1_000_000
    &&& c.max_send_queue_size == DEFAULT_MAX_SEND_QUEUE_SIZE
    &&& c.max_apdu_length == DEFAULT_MAX_APDU_LENGTH
    &&& c.max_repetitions == DEFAULT_MAX_REPETITIONS
    &&& !c.use_single_char_ack
}

impl Default for Config {
    fn default() -> (c: Config)
        ensures
            is_default_config(c),
    {
        Config {
            transport: TransportType::Serial,
            serial: SerialConfig::default(),
            tcp: TcpConfig::default(),
            mode: TransmissionMode::Unbalanced,
            link_address: 1,
            link_addr_size: DEFAULT_LINK_ADDR_SIZE,
            timeout_response_t1: DEFAULT_TIMEOUT_RESPONSE_T1(),
            timeout_repeat_t2: DEFAULT_TIMEOUT_REPEAT_T2(),
            timeout_test_t3: DEFAULT_TIMEOUT_TEST_T3(),
            timeout_send_link_msg: DEFAULT_TIMEOUT_SEND_LINK_MSG(),
            max_send_queue_size: DEFAULT_MAX_SEND_QUEUE_SIZE,
            max_apdu_length: DEFAULT_MAX_APDU_LENGTH,
            max_repetitions: DEFAULT_MAX_REPETITIONS,
            use_single_char_ack: false,
        }
    }
}

/// A timing with its default in place of zero.
pub open spec fn or_default(d: Duration, dflt: int) -> int {
    if d.total_nanos() == 0 {
        dflt
    } else {
        d.total_nanos()
    }
}

/// Where [`Config::valid`] stops and why: the stage of the first check that
/// fails, with its message, or stage 10 and no message when every check
/// passes. The stages are, in order: 0 the transport, 2 the link address
/// size, 3 the link address, 4 t1, 5 t2, 6 t2 against t1, 7 t3, 8 the
/// scheduler pacing and 9 the maximum APDU length.
pub open spec fn config_failure(c: Config) -> (int, Seq<char>) {
    let serial = c.transport == TransportType::Serial;
    let t1 = c.timeout_response_t1.total_nanos();
    let t2 = c.timeout_repeat_t2.total_nanos();
    let t3 = c.timeout_test_t3.total_nanos();
    let pace = c.timeout_send_link_msg.total_nanos();
    if serial && c.serial.address@.len() == 0 {
        (0, "the serial port name must be configured"@)
    } else if serial && c.serial.baud_rate == 0 {
        (0, "the serial baud rate must be positive"@)
    } else if !serial && c.tcp.address@.len() == 0 {
        (0, "the TCP address must be configured for a TCP transport"@)
    } else if !(1 <= c.link_addr_size <= 2) {
        (2, "the link address size must be 1 or 2"@)
    } else if c.link_addr_size == 1 && c.link_address > 0xff {
        (3, "the link address exceeds one octet"@)
    } else if t1 != 0 && !(second() <= t1 <= 255 * second()) {
        (4, "timeout t1 not in [1, 255]s"@)
    } else if t2 != 0 && !(second() <= t2 <= 255 * second()) {
        (5, "timeout t2 not in [1, 255]s"@)
    } else if or_default(c.timeout_repeat_t2, 5 * second()) >= or_default(c.timeout_response_t1, 10 * second()) {
        (6, "timeout t2 must be less than t1"@)
    } else if t3 != 0 && !(second() <= t3 <= 172_800 * second()) {
        (7, "timeout t3 not in [1 second, 48 hours]"@)
    } else if pace != 0 && !(1_000_000 <= pace <= 10 * second()) {
        (8, "the link message send timeout is not in [1ms, 10s]"@)
    } else if c.max_apdu_length > DEFAULT_MAX_APDU_LENGTH {
        (9, "the maximum APDU length is out of range"@)
    } else {
        (10, Seq::<char>::empty())
    }
}

/// A timing after validation reached `stage`: its default when it was zero
/// and its defaulting stage was passed, else unchanged.
pub open spec fn timing_after(new: Duration, old: Duration, dflt: int, passed: bool) -> bool {
    if passed && old.total_nanos() == 0 {
        new.total_nanos() == dflt
    } else {
        new == old
    }
}

/// The configuration [`Config::valid`] leaves behind from `old`: the
/// defaults it substituted before it stopped, everything else unchanged.
pub open spec fn config_after(old: Config, new: Config) -> bool {
    let stage = config_failure(old).0;
    &&& new.transport == old.transport
    &&& new.serial == old.serial
    &&& new.tcp.address == old.tcp.address
    &&& (if stage >= 1 && old.transport != TransportType::Serial && old.tcp.connect_timeout is None {
        new.tcp.connect_timeout matches Some(d) && d.total_nanos() == 30 * second()
    } else {
        new.tcp.connect_timeout == old.tcp.connect_timeout
    })
    &&& new.mode == old.mode
    &&& new.link_address == old.link_address
    &&& new.link_addr_size == old.link_addr_size
    &&& timing_after(new.timeout_response_t1, old.timeout_response_t1, 10 * second(), stage >= 4)
    &&& timing_after(new.timeout_repeat_t2, old.timeout_repeat_t2, 5 * second(), stage >= 5)
    &&& timing_after(new.timeout_test_t3, old.timeout_test_t3, 20 * second(), stage >= 7)
    &&& timing_after(new.timeout_send_link_msg, old.timeout_send_link_msg, 200_000_000int, stage >= 8)
    &&& new.max_send_queue_size == (if stage >= 9 && old.max_send_queue_size == 0 {
        DEFAULT_MAX_SEND_QUEUE_SIZE
    } else {
        old.max_send_queue_size
    })
    &&& new.max_apdu_length == (if stage >= 9 && old.max_apdu_length == 0 {
        DEFAULT_MAX_APDU_LENGTH
    } else {
        old.max_apdu_length
    })
    &&& new.max_repetitions == old.max_repetitions
    &&& new.use_single_char_ack == old.use_single_char_ack
}

impl Config {
    /// The defaults: serial 8E1, unbalanced, link address 1 in one octet.
    pub fn new() -> (c: Config)
        ensures
            is_default_config(c),
    {
        Config::default()
    }

    /// Substitute the default for each unset (zero) timing value, then check
    /// that everything is in range and mutually consistent.
    pub fn valid(&mut self) -> (r: Result<()>)
        ensures
            (config_failure(*old(self)).0 == 10) == (r is Ok),
            config_failure(*old(self)).0 < 10 ==> (r matches Err(Error::Config(m)) && m@ == config_failure(
                *old(self),
            ).1),
            config_after(*old(self), *final(self)),
    {
        match self.transport {
            TransportType::Serial => {
                if self.serial.address.as_str().is_empty() {
                    return Err(Error::Config("the serial port name must be configured"));
                }
                if self.serial.baud_rate == 0 {
                    return Err(Error::Config("the serial baud rate must be positive"));
                }
            },
            _ => {
                if self.tcp.address.as_str().is_empty() {
                    return Err(Error::Config("the TCP address must be configured for a TCP transport"));
                }
                if self.tcp.connect_timeout.is_none() {
                    self.tcp.connect_timeout = Some(DEFAULT_TCP_CONNECT_TIMEOUT());
                }
            },
        }
        if self.link_addr_size < 1 || self.link_addr_size > 2 {
            return Err(Error::Config("the link address size must be 1 or 2"));
        }
        if self.link_addr_size == 1 && self.link_address > 0xff {
            return Err(Error::Config("the link address exceeds one octet"));
        }
        if self.timeout_response_t1.is_zero() {
            self.timeout_response_t1 = DEFAULT_TIMEOUT_RESPONSE_T1();
        } else if self.timeout_response_t1.shorter_than(&TIMEOUT_RESPONSE_T1_MIN())
            || TIMEOUT_RESPONSE_T1_MAX().shorter_than(&self.timeout_response_t1) {
            return Err(Error::Config("timeout t1 not in [1, 255]s"));
        }
        if self.timeout_repeat_t2.is_zero() {
            self.timeout_repeat_t2 = DEFAULT_TIMEOUT_REPEAT_T2();
        } else if self.timeout_repeat_t2.shorter_than(&TIMEOUT_REPEAT_T2_MIN())
            || TIMEOUT_REPEAT_T2_MAX().shorter_than(&self.timeout_repeat_t2) {
            return Err(Error::Config("timeout t2 not in [1, 255]s"));
        }
        if !self.timeout_repeat_t2.shorter_than(&self.timeout_response_t1) {
            return Err(Error::Config("timeout t2 must be less than t1"));
        }
        if self.timeout_test_t3.is_zero() {
            self.timeout_test_t3 = DEFAULT_TIMEOUT_TEST_T3();
        } else if self.timeout_test_t3.shorter_than(&TIMEOUT_TEST_T3_MIN())
            || TIMEOUT_TEST_T3_MAX().shorter_than(&self.timeout_test_t3) {
            return Err(Error::Config("timeout t3 not in [1 second, 48 hours]"));
        }
        if self.timeout_send_link_msg.is_zero() {
            self.timeout_send_link_msg = DEFAULT_TIMEOUT_SEND_LINK_MSG();
        } else if self.timeout_send_link_msg.shorter_than(&TIMEOUT_SEND_LINK_MSG_MIN())
            || TIMEOUT_SEND_LINK_MSG_MAX().shorter_than(&self.timeout_send_link_msg) {
            return Err(Error::Config("the link message send timeout is not in [1ms, 10s]"));
        }
        if self.max_send_queue_size == 0 {
            self.max_send_queue_size = DEFAULT_MAX_SEND_QUEUE_SIZE;
        }
        if self.max_apdu_length == 0 {
            self.max_apdu_length = DEFAULT_MAX_APDU_LENGTH;
        } else if self.max_apdu_length > DEFAULT_MAX_APDU_LENGTH {
            return Err(Error::Config("the maximum APDU length is out of range"));
        }
        Ok(())
    }

    /// True when this configuration runs the balanced procedure.
    pub fn is_balanced(&self) -> (b: bool)
        ensures
            b == (self.mode == TransmissionMode::Balanced),
    {
        match self.mode {
            TransmissionMode::Balanced => true,
            TransmissionMode::Unbalanced => false,
        }
    }

    /// A short description of the configured endpoint, for logging: the serial
    /// port name or the TCP address.
    pub fn transport_label(&self) -> (s: &str)
        ensures
            s@ == (if self.transport == TransportType::Serial {
                self.serial.address@
            } else {
                self.tcp.address@
            }),
    {
        match self.transport {
            TransportType::Serial => self.serial.address.as_str(),
            _ => self.tcp.address.as_str(),
        }
    }
}

} // verus!
