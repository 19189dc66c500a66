//! The IEC 60870-5-101 primary station (master): its options and the link
//! procedure it runs.
//!
//! The client drives the link procedure by itself: request status of link,
//! reset of remote link, then continuous class 2 polling with a class 1 request
//! whenever a response sets the ACD bit. The frame count bit is tracked per
//! station across every FCV frame, and a frame that goes unanswered is repeated
//! with the same FCB, per IEC 60870-5-2.
//!
//! [`LinkState`] is the procedure itself. It never touches the line: each of
//! its steps appends the frames to transmit to an output list, takes the time
//! as a count of milliseconds on the caller's monotonic clock, and reports the
//! deadline of the response timer t1, so the endpoint that owns the line and
//! the timers performs what it decided.

use vstd::prelude::*;

use std::collections::HashMap;
use std::collections::VecDeque;

use crate::asdu::codec::Asdu;
use crate::asdu::params::{params_of, Params, PARAMS_STANDARD_101};
use crate::cs101::config::{config_after, config_failure, Config, Duration, TransmissionMode};
use crate::cs101::frame::{spec_fcv_required, fcv_required, ControlField, Frame, FrameView};
use crate::cs101::prim_fc;
use crate::cs101::sec_fc;
use crate::error::{Error, Result};

verus! {

broadcast use vstd::std_specs::hash::group_hash_axioms;

/// Default interval between reconnection attempts: 60 s.
#[allow(non_snake_case)]
pub fn DEFAULT_RECONNECT_INTERVAL() -> (d: Duration)
    ensures
        d.total_nanos() == 60 * 1_000_000_000,
{
    Duration::from_secs(60)
}

/// Configuration for a client.
#[derive(Debug, Clone)]
pub struct ClientOption {
    config: Config,
    params: Params,
    auto_reconnect: bool,
    reconnect_interval: Duration,
    secondary_addrs: Vec<u16>,
    client_number: usize,
}

impl ClientOption {
    /// The link configuration.
    pub closed spec fn spec_config(self) -> Config {
        self.config
    }

    /// The ASDU parameters.
    pub closed spec fn spec_params(self) -> Params {
        self.params
    }

    /// Whether the line is reopened after it is lost.
    pub closed spec fn spec_auto_reconnect(self) -> bool {
        self.auto_reconnect
    }

    /// The delay between reconnection attempts.
    pub closed spec fn spec_reconnect_interval(self) -> Duration {
        self.reconnect_interval
    }

    /// The secondary stations added, in the order they were added.
    pub closed spec fn spec_secondary_addrs(self) -> Seq<u16> {
        self.secondary_addrs@
    }

    /// The client index reported to the handler.
    pub closed spec fn spec_client_number(self) -> usize {
        self.client_number
    }

    /// The station commands go to by default: the first secondary added, on
    /// an unbalanced line that has any, else the configured link address.
    pub open spec fn spec_default_addr(self) -> u16 {
        if self.spec_secondary_addrs().len() > 0 && self.spec_config().mode != TransmissionMode::Balanced {
            self.spec_secondary_addrs()[0]
        } else {
            self.spec_config().link_address
        }
    }

    /// Every secondary station the client serves, in polling order: the
    /// secondaries added, on an unbalanced line that has any, else the one
    /// configured link address.
    pub open spec fn spec_addresses(self) -> Seq<u16> {
        if self.spec_secondary_addrs().len() == 0 || self.spec_config().mode == TransmissionMode::Balanced {
            seq![self.spec_config().link_address]
        } else {
            self.spec_secondary_addrs()
        }
    }

    /// The secondaries added hold no address twice.
    pub closed spec fn wf(self) -> bool {
        forall|i: int, j: int|
            0 <= i < j < self.secondary_addrs@.len() ==> self.secondary_addrs@[i] != self.secondary_addrs@[j]
    }

    /// The defaults: the default link configuration, the standard 101
    /// parameters, reconnection every 60 s, no secondary added, client 0.
    pub fn new() -> (o: ClientOption)
        ensures
            crate::cs101::config::is_default_config(o.spec_config()),
            o.spec_params() == params_of(1, 1, 2),
            o.spec_auto_reconnect(),
            o.spec_reconnect_interval().total_nanos() == 60 * 1_000_000_000,
            o.spec_secondary_addrs() == Seq::<u16>::empty(),
            o.spec_client_number() == 0,
            o.wf(),
    {
        ClientOption {
            config: Config::new(),
            params: PARAMS_STANDARD_101(),
            auto_reconnect: true,
            reconnect_interval: DEFAULT_RECONNECT_INTERVAL(),
            secondary_addrs: Vec::new(),
            client_number: 0,
        }
    }

    /// Set the link configuration. Rejected if invalid; otherwise the
    /// configuration is kept as [`Config::valid`] completes it.
    pub fn with_config(self, config: Config) -> (r: Result<ClientOption>)
        ensures
            config_failure(config).0 < 10 ==> (r matches Err(Error::Config(m)) && m@ == config_failure(config).1),
            config_failure(config).0 == 10 ==> (r matches Ok(o) && config_after(config, o.spec_config())
                && o.spec_params() == self.spec_params() && o.spec_auto_reconnect() == self.spec_auto_reconnect()
                && o.spec_reconnect_interval() == self.spec_reconnect_interval() && o.spec_secondary_addrs()
                == self.spec_secondary_addrs() && o.spec_client_number() == self.spec_client_number() && (
            self.wf() ==> o.wf())),
    {
        let mut config = config;
        config.valid()?;
        let mut o = self;
        o.config = config;
        Ok(o)
    }

    /// Set the ASDU parameters; invalid values fall back to the standard 101
    /// parameters.
    pub fn with_params(self, params: Params) -> (o: ClientOption)
        ensures
            o.spec_params() == (if params.spec_valid() {
                params
            } else {
                params_of(1, 1, 2)
            }),
            o.spec_config() == self.spec_config(),
            o.spec_auto_reconnect() == self.spec_auto_reconnect(),
            o.spec_reconnect_interval() == self.spec_reconnect_interval(),
            o.spec_secondary_addrs() == self.spec_secondary_addrs(),
            o.spec_client_number() == self.spec_client_number(),
            self.wf() ==> o.wf(),
    {
        let mut o = self;
        o.params = if params.valid().is_ok() {
            params
        } else {
            PARAMS_STANDARD_101()
        };
        o
    }

    /// Enable or disable automatic reconnection. Enabled by default.
    pub fn with_auto_reconnect(self, on: bool) -> (o: ClientOption)
        ensures
            o.spec_auto_reconnect() == on,
            o.spec_config() == self.spec_config(),
            o.spec_params() == self.spec_params(),
            o.spec_reconnect_interval() == self.spec_reconnect_interval(),
            o.spec_secondary_addrs() == self.spec_secondary_addrs(),
            o.spec_client_number() == self.spec_client_number(),
            self.wf() ==> o.wf(),
    {
        let mut o = self;
        o.auto_reconnect = on;
        o
    }

    /// Set the delay between reconnection attempts; a zero delay is ignored.
    pub fn with_reconnect_interval(self, interval: Duration) -> (o: ClientOption)
        ensures
            o.spec_reconnect_interval() == (if interval.total_nanos() == 0 {
                self.spec_reconnect_interval()
            } else {
                interval
            }),
            o.spec_config() == self.spec_config(),
            o.spec_params() == self.spec_params(),
            o.spec_auto_reconnect() == self.spec_auto_reconnect(),
            o.spec_secondary_addrs() == self.spec_secondary_addrs(),
            o.spec_client_number() == self.spec_client_number(),
            self.wf() ==> o.wf(),
    {
        let mut o = self;
        if !interval.is_zero() {
            o.reconnect_interval = interval;
        }
        o
    }

    /// Add a secondary station to poll (unbalanced multi-drop).
    ///
    /// With no address added, `Config::link_address` is the single secondary.
    /// Duplicates are ignored. Not used in balanced mode.
    pub fn with_secondary_address(self, addr: u16) -> (o: ClientOption)
        ensures
            o.spec_secondary_addrs() == (if self.spec_secondary_addrs().contains(addr) {
                self.spec_secondary_addrs()
            } else {
                self.spec_secondary_addrs().push(addr)
            }),
            o.spec_config() == self.spec_config(),
            o.spec_params() == self.spec_params(),
            o.spec_auto_reconnect() == self.spec_auto_reconnect(),
            o.spec_reconnect_interval() == self.spec_reconnect_interval(),
            o.spec_client_number() == self.spec_client_number(),
            self.wf() ==> o.wf(),
    {
        let mut o = self;
        let mut found = false;
        let mut i: usize = 0;
        while i < o.secondary_addrs.len()
            invariant
                i <= o.secondary_addrs@.len(),
                found == exists|j: int| 0 <= j < i && o.secondary_addrs@[j] == addr,
            decreases o.secondary_addrs@.len() - i,
        {
            if o.secondary_addrs[i] == addr {
                found = true;
            }
            i = i + 1;
        }
        if !found {
            o.secondary_addrs.push(addr);
        }
        o
    }

    /// Set the client index reported to the handler.
    pub fn with_client_number(self, n: usize) -> (o: ClientOption)
        ensures
            o.spec_client_number() == n,
            o.spec_config() == self.spec_config(),
            o.spec_params() == self.spec_params(),
            o.spec_auto_reconnect() == self.spec_auto_reconnect(),
            o.spec_reconnect_interval() == self.spec_reconnect_interval(),
            o.spec_secondary_addrs() == self.spec_secondary_addrs(),
            self.wf() ==> o.wf(),
    {
        let mut o = self;
        o.client_number = n;
        o
    }

    /// The configured link settings.
    pub fn config(&self) -> (c: &Config)
        ensures
            *c == self.spec_config(),
    {
        &self.config
    }

    /// The configured ASDU parameters.
    pub fn params(&self) -> (p: Params)
        ensures
            p == self.spec_params(),
    {
        self.params
    }

    /// Whether the line is reopened after it is lost.
    pub fn auto_reconnect(&self) -> (b: bool)
        ensures
            b == self.spec_auto_reconnect(),
    {
        self.auto_reconnect
    }

    /// The delay between reconnection attempts.
    pub fn reconnect_interval(&self) -> (d: Duration)
        ensures
            d == self.spec_reconnect_interval(),
    {
        self.reconnect_interval
    }

    /// The client index reported to the handler.
    pub fn client_number(&self) -> (n: usize)
        ensures
            n == self.spec_client_number(),
    {
        self.client_number
    }

    /// The link address commands are sent to by default.
    pub fn default_addr(&self) -> (a: u16)
        ensures
            a == self.spec_default_addr(),
    {
        if self.secondary_addrs.len() > 0 && !self.config.is_balanced() {
            self.secondary_addrs[0]
        } else {
            self.config.link_address
        }
    }

    /// Every secondary station this client serves, in polling order.
    pub fn addresses(&self) -> (v: Vec<u16>)
        ensures
            v@ == self.spec_addresses(),
    {
        if self.secondary_addrs.len() == 0 || self.config.is_balanced() {
            let v = vec![self.config.link_address];
            assert(v@ =~= seq![self.config.link_address]);
            v
        } else {
            self.secondary_addrs.clone()
        }
    }

    /// The addresses served hold none twice.
    pub proof fn addresses_distinct(self)
        requires
            self.wf(),
        ensures
            forall|i: int, j: int|
                0 <= i < j < self.spec_addresses().len() ==> self.spec_addresses()[i] != self.spec_addresses()[j],
            self.spec_addresses().len() >= 1,
    {
    }
}

impl Default for ClientOption {
    fn default() -> (o: ClientOption)
        ensures
            crate::cs101::config::is_default_config(o.spec_config()),
            o.spec_params() == params_of(1, 1, 2),
            o.spec_auto_reconnect(),
            o.spec_secondary_addrs() == Seq::<u16>::empty(),
            o.spec_client_number() == 0,
            o.wf(),
    {
        ClientOption::new()
    }
}

/// One ASDU queued for a specific secondary station.
#[derive(Debug)]
pub struct Outgoing {
    /// The ASDU to send.
    pub asdu: Asdu,
    /// The link address of the station it goes to.
    pub addr: u16,
}


/// Whether to open the line again after it closed or could not be opened:
/// never while the station is shutting down, and only when automatic
/// reconnection is on.
pub fn should_reconnect(shutting_down: bool, auto_reconnect: bool) -> (b: bool)
    ensures
        b == (!shutting_down && auto_reconnect),
{
    !shutting_down && auto_reconnect
}

/// Where a secondary station is in the link initialization procedure, as seen
/// by the primary.
#[derive(Debug, Clone, Copy, PartialEq, Eq, Structural)]
pub enum Phase {
    /// Request status of link is due.
    Status,
    /// Reset of remote link is due.
    Reset,
    /// The link layer is active and carrying data.
    Active,
}

/// Per-station link state kept by the primary.
///
/// The FCB alternates per station across **all** frames sent with FCV = 1 —
/// user data, class 1/2 requests and test link alike — as IEC 60870-5-2
/// requires.
#[derive(Debug, Clone, Copy, PartialEq, Eq, Structural)]
pub struct Secondary {
    /// Where the station is in the initialization procedure.
    pub phase: Phase,
    /// FCB of the next FCV frame sent to this station.
    pub fcb: bool,
    /// A response set ACD: a class 1 request is due.
    pub want_class1: bool,
    /// The last response set DFC: the station's buffers are full, so it must
    /// not be sent more user data until it clears the bit.
    ///
    /// See IEC 60870-5-2, subclass 5.1.3. Class polls and link management stay
    /// allowed — they are what lets the station report that it has drained.
    pub busy: bool,
}

/// A station that has not yet been brought up.
pub open spec fn initial_secondary() -> Secondary {
    Secondary { phase: Phase::Status, fcb: false, want_class1: false, busy: false }
}

/// A confirmed frame awaiting an acknowledgement.
pub struct Pending {
    frame: Frame,
    ctrl: ControlField,
    addr: u16,
}

/// What a pending transaction is: the frame sent, its control field and the
/// station it went to.
pub struct PendingView {
    /// The frame sent.
    pub frame: FrameView,
    /// Its control field.
    pub ctrl: ControlField,
    /// The station it went to.
    pub addr: u16,
}

/// What a positive confirmation completed.
#[derive(Debug, Clone, Copy, PartialEq, Eq, Structural)]
pub struct Confirmed {
    /// Function code of the primary frame that was confirmed.
    pub fun: u8,
    /// The station whose link it activated, when it was a link reset.
    pub became_active: Option<u16>,
}

/// What handling one received frame produced.
pub struct FrameOutcome {
    /// Stations whose link just became active.
    pub newly_active: Vec<u16>,
    /// The frame carries user data that is new and belongs to the
    /// application. False for a repeat, an unsolicited response, and anything
    /// from a station this client does not serve.
    pub deliver: bool,
}

/// The link state machine of the primary station.
pub struct LinkState {
    secs: HashMap<u16, Secondary>,
    order: Vec<u16>,
    poll_idx: usize,
    last_sent: Option<Pending>,
    retry_count: u32,
    fcb_expected: bool,
    single_char_ack: bool,
    t1_at: Option<u64>,
    addr_size: u8,
    dir: bool,
    t1_duration: Duration,
    default_addr: u16,
}

/// What the link state is.
pub struct LinkView {
    /// Each station's state, by link address.
    pub secs: Map<u16, Secondary>,
    /// The stations in polling order.
    pub order: Seq<u16>,
    /// The station the next poll starts from.
    pub poll_idx: int,
    /// The confirmed frame awaiting its acknowledgement.
    pub pending: Option<PendingView>,
    /// How many times the pending frame has been repeated.
    pub retry_count: int,
    /// Balanced mode: the FCB expected on the peer's next FCV frame.
    pub fcb_expected: bool,
    /// Acknowledge the peer's frames with `E5` in balanced mode.
    pub single_char_ack: bool,
    /// When the response timer expires, in milliseconds of the caller's clock.
    pub t1_at: Option<u64>,
    /// Link address width in octets.
    pub addr_size: u8,
    /// The DIR bit this station sets: station A in balanced mode.
    pub dir: bool,
    /// The response timeout t1.
    pub t1: Duration,
    /// The station manual link requests are addressed to.
    pub default_addr: u16,
}

impl View for LinkState {
    type V = LinkView;

    closed spec fn view(&self) -> LinkView {
        LinkView {
            secs: self.secs@,
            order: self.order@,
            poll_idx: self.poll_idx as int,
            pending: match self.last_sent {
                Some(p) => Some(PendingView { frame: p.frame@, ctrl: p.ctrl, addr: p.addr }),
                None => None,
            },
            retry_count: self.retry_count as int,
            fcb_expected: self.fcb_expected,
            single_char_ack: self.single_char_ack,
            t1_at: self.t1_at,
            addr_size: self.addr_size,
            dir: self.dir,
            t1: self.t1_duration,
            default_addr: self.default_addr,
        }
    }
}

/// The link state is sound: at least one station, the poll index among them,
/// no station twice, a state for exactly the stations polled, and a pending
/// frame that is a frame of its own control field and station.
pub open spec fn link_wf(v: LinkView) -> bool {
    &&& v.order.len() >= 1
    &&& 0 <= v.poll_idx < v.order.len()
    &&& forall|i: int, j: int| 0 <= i < j < v.order.len() ==> v.order[i] != v.order[j]
    &&& forall|a: u16| #[trigger] v.secs.contains_key(a) <==> v.order.contains(a)
    &&& 0 <= v.retry_count <= 255
    &&& v.pending matches Some(p) ==> crate::cs101::frame::view_control(p.frame) == Some(p.ctrl)
        && crate::cs101::frame::view_link_addr(p.frame) == Some(p.addr)
}

/// `now` plus a span, in whole milliseconds, saturating.
pub open spec fn after(now: u64, d: Duration) -> u64 {
    let t = now + d.total_nanos() / 1_000_000;
    if t > u64::MAX {
        u64::MAX
    } else {
        t as u64
    }
}

/// `now` plus a span, in whole milliseconds, saturating.
pub fn deadline(now: u64, d: Duration) -> (t: u64)
    ensures
        t == after(now, d),
{
    let ms = d.as_millis();
    if ms > (u64::MAX - now) as u128 {
        u64::MAX
    } else {
        now + ms as u64
    }
}

/// One frame appended to the output.
pub open spec fn sent_one(before: Seq<Frame>, after: Seq<Frame>, f: FrameView) -> bool {
    &&& after.len() == before.len() + 1
    &&& after.subrange(0, before.len() as int) == before
    &&& after[before.len() as int]@ == f
}

/// The frames appended to the output, in order.
pub open spec fn sent(before: Seq<Frame>, after: Seq<Frame>, fs: Seq<FrameView>) -> bool {
    &&& after.len() == before.len() + fs.len()
    &&& after.subrange(0, before.len() as int) == before
    &&& forall|i: int| 0 <= i < fs.len() ==> (#[trigger] after[before.len() + i])@ == fs[i]
}

/// A station's state once the frame with control field `ctrl` it was sent
/// is positively confirmed: the FCB becomes the complement of the one the
/// frame carried, when it counted frames; a link reset makes the link active
/// with FCB 1 due next; a status answer moves a station awaiting status on to
/// the reset; a class 1 answer clears the class 1 demand.
pub open spec fn confirm_sec(sec: Secondary, ctrl: ControlField) -> Secondary {
    let s1 = if ctrl.fcv {
        Secondary { fcb: !ctrl.fcb, ..sec }
    } else {
        sec
    };
    if ctrl.fun == prim_fc::RESET_LINK {
        Secondary { phase: Phase::Active, fcb: true, ..s1 }
    } else if ctrl.fun == prim_fc::REQ_STATUS {
        if s1.phase == Phase::Status {
            Secondary { phase: Phase::Reset, ..s1 }
        } else {
            s1
        }
    } else if ctrl.fun == prim_fc::REQ_DATA1 {
        Secondary { want_class1: false, ..s1 }
    } else {
        s1
    }
}

/// A positive confirmation from `addr` (any station when `addr_valid` is
/// false): with no frame outstanding, or one outstanding to another station,
/// nothing changes and nothing is confirmed; otherwise the transaction ends,
/// the station's state moves as [`confirm_sec`] says, and the function code
/// is reported with the station when the confirmation activated its link.
pub open spec fn confirm_spec(v: LinkView, addr: u16, addr_valid: bool) -> (LinkView, Option<Confirmed>) {
    match v.pending {
        None => (v, None),
        Some(p) => if addr_valid && p.addr != addr {
            (v, None)
        } else {
            let known = v.secs.contains_key(p.addr);
            let secs = if known {
                v.secs.insert(p.addr, confirm_sec(v.secs[p.addr], p.ctrl))
            } else {
                v.secs
            };
            (
                LinkView { secs, pending: None, retry_count: 0, t1_at: None, ..v },
                Some(
                    Confirmed {
                        fun: p.ctrl.fun,
                        became_active: if known && p.ctrl.fun == prim_fc::RESET_LINK {
                            Some(p.addr)
                        } else {
                            None
                        },
                    },
                ),
            )
        },
    }
}

/// Abort the transaction outstanding to `addr`, without moving the FCB, and
/// send the station back to the start of the initialization procedure;
/// nothing changes when no frame is outstanding to it.
pub open spec fn fail_spec(v: LinkView, addr: u16) -> LinkView {
    match v.pending {
        Some(p) => if p.addr == addr {
            let secs = if v.secs.contains_key(p.addr) {
                v.secs.insert(
                    p.addr,
                    Secondary { phase: Phase::Status, want_class1: false, busy: false, ..v.secs[p.addr] },
                )
            } else {
                v.secs
            };
            LinkView { secs, pending: None, retry_count: 0, t1_at: None, ..v }
        } else {
            v
        },
        None => v,
    }
}

/// The frame a confirmed primary request to `addr` goes out as: a fixed
/// frame carrying the station's current FCB when FCV is set.
pub open spec fn prim_frame(v: LinkView, addr: u16, fun: u8, fcv: bool) -> FrameView {
    FrameView::Fixed(
        ControlField { dir: v.dir, prm: true, fcb: fcv && v.secs[addr].fcb, fcv, acd: false, dfc: false, fun },
        addr,
    )
}

/// The state once a confirmed primary request goes out: it is the pending
/// transaction, not yet repeated, with the response timer running.
pub open spec fn sent_confirmed(v: LinkView, f: FrameView, addr: u16, t1: Duration, now: u64) -> LinkView {
    LinkView {
        pending: Some(
            PendingView { frame: f, ctrl: crate::cs101::frame::view_control(f).unwrap(), addr },
        ),
        retry_count: 0,
        t1_at: Some(after(now, t1)),
        ..v
    }
}

/// The response this station's secondary role gives: `E5` for a positive
/// acknowledgement when so configured, else a fixed frame.
pub open spec fn sec_response(v: LinkView, fun: u8, addr: u16) -> FrameView {
    if fun == sec_fc::CONF_ACK && v.single_char_ack {
        FrameView::SingleCharAck
    } else {
        FrameView::Fixed(
            ControlField { dir: v.dir, prm: false, fcb: false, fcv: false, acd: false, dfc: false, fun },
            addr,
        )
    }
}

impl LinkState {
    /// The state at the start of a connection: every station awaiting its
    /// status request, nothing outstanding, and the first FCV frame of the
    /// peer expected with FCB 1.
    pub fn new(option: &ClientOption) -> (l: LinkState)
        requires
            option.wf(),
        ensures
            link_wf(l@),
            l@.order == option.spec_addresses(),
            forall|a: u16| #[trigger] l@.secs.contains_key(a) ==> l@.secs[a] == initial_secondary(),
            l@.poll_idx == 0,
            l@.pending is None,
            l@.retry_count == 0,
            l@.fcb_expected,
            l@.t1_at is None,
            l@.addr_size == option.spec_config().link_addr_size,
            l@.dir == (option.spec_config().mode == TransmissionMode::Balanced),
            l@.single_char_ack == option.spec_config().use_single_char_ack,
            l@.t1 == option.spec_config().timeout_response_t1,
            l@.default_addr == option.spec_default_addr(),
    {
        let order = option.addresses();
        proof {
            option.addresses_distinct();
        }
        let mut secs: HashMap<u16, Secondary> = HashMap::new();
        let mut i: usize = 0;
        while i < order.len()
            invariant
                i <= order@.len(),
                forall|a: u16| #[trigger] secs@.contains_key(a) <==> order@.subrange(0, i as int).contains(a),
                forall|a: u16| #[trigger] secs@.contains_key(a) ==> secs@[a] == initial_secondary(),
            decreases order@.len() - i,
        {
            let a = order[i];
            secs.insert(a, Secondary { phase: Phase::Status, fcb: false, want_class1: false, busy: false });
            proof {
                let s0 = order@.subrange(0, i as int);
                let s1 = order@.subrange(0, i + 1);
                assert(s1 =~= s0.push(a));
                assert forall|b: u16| #[trigger] secs@.contains_key(b) <==> s1.contains(b) by {
                    if s0.contains(b) {
                        let k = choose|k: int| 0 <= k < s0.len() && s0[k] == b;
                        assert(s1[k] == b);
                    }
                    if s1.contains(b) && b != a {
                        let k = choose|k: int| 0 <= k < s1.len() && s1[k] == b;
                        assert(s0[k] == b);
                    }
                    if b == a {
                        assert(s1[i as int] == a);
                    }
                }
            }
            i = i + 1;
        }
        assert(order@.subrange(0, i as int) =~= order@);
        LinkState {
            secs,
            order,
            poll_idx: 0,
            last_sent: None,
            retry_count: 0,
            fcb_expected: true,
            single_char_ack: option.config().use_single_char_ack,
            t1_at: None,
            addr_size: option.config().link_addr_size,
            dir: option.config().is_balanced(),
            t1_duration: option.config().timeout_response_t1,
            default_addr: option.default_addr(),
        }
    }

    /// When the response timer expires, if it runs.
    pub fn t1_at(&self) -> (t: Option<u64>)
        ensures
            t == self@.t1_at,
    {
        self.t1_at
    }

    /// True when a confirmed frame awaits its acknowledgement.
    pub fn is_busy(&self) -> (b: bool)
        ensures
            b == self@.pending is Some,
    {
        self.last_sent.is_some()
    }

    /// The state of the station at `addr`, if this client serves it.
    pub fn station(&self, addr: u16) -> (s: Option<Secondary>)
        ensures
            s == (if self@.secs.contains_key(addr) {
                Some(self@.secs[addr])
            } else {
                None
            }),
    {
        match self.secs.get(&addr) {
            Some(s) => Some(*s),
            None => None,
        }
    }

    /// True when at least one station's link is active.
    pub fn any_active(&self) -> (b: bool)
        requires
            link_wf(self@),
        ensures
            b == first_active_from(self@, 0) is Some,
    {
        self.first_active().is_some()
    }

    /// The first station, in polling order, whose link is active.
    pub fn first_active(&self) -> (r: Option<u16>)
        requires
            link_wf(self@),
        ensures
            r == first_active_from(self@, 0),
    {
        let mut i: usize = 0;
        while i < self.order.len()
            invariant
                link_wf(self@),
                i <= self@.order.len(),
                first_active_from(self@, 0) == first_active_from(self@, i as int),
            decreases self@.order.len() - i,
        {
            let a = self.order[i];
            assert(self@.order.contains(a));
            assert(self@.secs.contains_key(a));
            match self.secs.get(&a) {
                Some(s) => {
                    if s.phase == Phase::Active {
                        return Some(a);
                    }
                },
                None => {},
            }
            i = i + 1;
        }
        None
    }

    /// Send a confirmed primary frame and arm the response timer t1.
    pub fn send_prim_confirmed(
        &mut self,
        addr: u16,
        fun: u8,
        fcv: bool,
        t1: Duration,
        now: u64,
        out: &mut Vec<Frame>,
    )
        requires
            link_wf(old(self)@),
            old(self)@.secs.contains_key(addr),
        ensures
            link_wf(final(self)@),
            final(self)@ == sent_confirmed(old(self)@, prim_frame(old(self)@, addr, fun, fcv), addr, t1, now),
            sent_one(old(out)@, final(out)@, prim_frame(old(self)@, addr, fun, fcv)),
    {
        let fcb = match self.secs.get(&addr) {
            Some(s) => s.fcb,
            None => false,
        };
        let ctrl = ControlField::primary(fun, fcv, fcb, self.dir);
        out.push(Frame::Fixed { control: ctrl, link_addr: addr });
        self.last_sent = Some(Pending { frame: Frame::Fixed { control: ctrl, link_addr: addr }, ctrl, addr });
        self.retry_count = 0;
        self.t1_at = Some(deadline(now, t1));
        proof {
            assert(final(out)@.subrange(0, old(out)@.len() as int) =~= old(out)@);
        }
    }

    /// Send a secondary (PRM = 0) response; used by the balanced-mode
    /// secondary role of this station. A positive acknowledgement may be the
    /// single character `E5` when that is configured.
    pub fn send_sec_fixed(&self, fun: u8, addr: u16, out: &mut Vec<Frame>)
        ensures
            sent_one(old(out)@, final(out)@, sec_response(self@, fun, addr)),
    {
        if fun == sec_fc::CONF_ACK && self.single_char_ack {
            out.push(Frame::SingleCharAck);
        } else {
            out.push(Frame::Fixed { control: ControlField::secondary(fun, false, self.dir), link_addr: addr });
        }
        proof {
            assert(final(out)@.subrange(0, old(out)@.len() as int) =~= old(out)@);
        }
    }

    /// Complete the outstanding transaction positively.
    ///
    /// `addr_valid` is false for a single-character acknowledgement, which
    /// carries no link address. Returns `None` when there was no transaction
    /// from that station to complete.
    pub fn confirm_positive(&mut self, addr: u16, addr_valid: bool) -> (c: Option<Confirmed>)
        requires
            link_wf(old(self)@),
        ensures
            link_wf(final(self)@),
            (final(self)@, c) == confirm_spec(old(self)@, addr, addr_valid),
    {
        let (pc, pa) = match &self.last_sent {
            None => {
                return None;
            },
            Some(p) => (p.ctrl, p.addr),
        };
        if addr_valid && pa != addr {
            return None;
        }
        let ghost v0 = self@;
        let mut became: Option<u16> = None;
        match self.secs.get(&pa) {
            Some(s) => {
                let mut sec = *s;
                if pc.fcv {
                    sec.fcb = !pc.fcb;
                }
                if pc.fun == prim_fc::RESET_LINK {
                    sec.phase = Phase::Active;
                    sec.fcb = true;
                    became = Some(pa);
                } else if pc.fun == prim_fc::REQ_STATUS {
                    if sec.phase == Phase::Status {
                        sec.phase = Phase::Reset;
                    }
                } else if pc.fun == prim_fc::REQ_DATA1 {
                    sec.want_class1 = false;
                }
                assert(sec == confirm_sec(v0.secs[pa], pc));
                self.secs.insert(pa, sec);
            },
            None => {},
        }
        self.last_sent = None;
        self.retry_count = 0;
        self.t1_at = None;
        Some(Confirmed { fun: pc.fun, became_active: became })
    }

    /// Abort the outstanding transaction without toggling the FCB and send the
    /// station back to the start of the initialization procedure.
    pub fn fail_transaction(&mut self, addr: u16)
        requires
            link_wf(old(self)@),
        ensures
            link_wf(final(self)@),
            final(self)@ == fail_spec(old(self)@, addr),
    {
        let pa = match &self.last_sent {
            None => {
                return;
            },
            Some(p) => p.addr,
        };
        if pa != addr {
            return;
        }
        match self.secs.get(&pa) {
            Some(s) => {
                let sec = Secondary { phase: Phase::Status, want_class1: false, busy: false, fcb: s.fcb };
                self.secs.insert(pa, sec);
            },
            None => {},
        }
        self.last_sent = None;
        self.retry_count = 0;
        self.t1_at = None;
    }
}


/// How this station's secondary role answers a primary frame of the peer in
/// balanced mode: the state after it, the responses, and whether the frame's
/// user data is new and belongs to the application.
///
/// A frame whose FCV contradicts its function code is ignored. Among the
/// peer's FCV frames a repeat — an FCB other than the one expected — means the
/// acknowledgement was lost: it is acknowledged again, its data not delivered
/// again, and the expected FCB stays. Any other FCV frame toggles the
/// expected FCB; a link reset sets it to 1.
pub open spec fn peer_primary_spec(v: LinkView, ctrl: ControlField, addr: u16) -> (LinkView, Seq<FrameView>, bool) {
    if spec_fcv_required(ctrl.fun) matches Some(fcv) && fcv != ctrl.fcv {
        (v, Seq::<FrameView>::empty(), false)
    } else if ctrl.fcv && ctrl.fcb != v.fcb_expected {
        (v, seq![sec_response(v, sec_fc::CONF_ACK, addr)], false)
    } else {
        let v1 = if ctrl.fcv {
            LinkView { fcb_expected: !v.fcb_expected, ..v }
        } else {
            v
        };
        if ctrl.fun == prim_fc::RESET_LINK {
            (LinkView { fcb_expected: true, ..v1 }, seq![sec_response(v1, sec_fc::CONF_ACK, addr)], false)
        } else if ctrl.fun == prim_fc::RESET_USER || ctrl.fun == prim_fc::TEST_LINK {
            (v1, seq![sec_response(v1, sec_fc::CONF_ACK, addr)], false)
        } else if ctrl.fun == prim_fc::USER_DATA_CONF {
            (v1, seq![sec_response(v1, sec_fc::CONF_ACK, addr)], true)
        } else if ctrl.fun == prim_fc::USER_DATA_NO_CONF {
            (v1, Seq::<FrameView>::empty(), true)
        } else if ctrl.fun == prim_fc::REQ_STATUS {
            (v1, seq![sec_response(v1, sec_fc::RESP_STATUS, addr)], false)
        } else {
            (v1, seq![sec_response(v1, sec_fc::RESP_LINK_NI, addr)], false)
        }
    }
}

/// The stations a confirmation activated.
pub open spec fn activated(c: Option<Confirmed>) -> Seq<u16> {
    match c {
        Some(cc) => match cc.became_active {
            Some(a) => seq![a],
            None => Seq::<u16>::empty(),
        },
        None => Seq::<u16>::empty(),
    }
}

/// How a secondary frame from `addr` moves the transaction: acknowledgements,
/// status answers and "no data" answers confirm it, "link service not
/// available" fails it, user data confirms it and is new data only when it
/// answers a class 1 or class 2 request. Returns the state, the confirmation,
/// and whether the frame's user data is to be delivered.
pub open spec fn secondary_answer_spec(v: LinkView, f: FrameView, addr: u16) -> (LinkView, Option<Confirmed>, bool) {
    match f {
        FrameView::Fixed(ctrl, _) => if ctrl.fun == sec_fc::CONF_ACK || ctrl.fun == sec_fc::USER_DATA_NO_REP
            || ctrl.fun == sec_fc::RESP_STATUS {
            let (v2, c) = confirm_spec(v, addr, true);
            (v2, c, false)
        } else if ctrl.fun == sec_fc::RESP_LINK_NF || ctrl.fun == sec_fc::RESP_LINK_NI {
            (fail_spec(v, addr), None, false)
        } else {
            (v, None, false)
        },
        FrameView::Variable(ctrl, _, _) => if ctrl.fun == sec_fc::USER_DATA_CONF {
            let (v2, c) = confirm_spec(v, addr, true);
            (v2, c, c matches Some(cc) && (cc.fun == prim_fc::REQ_DATA1 || cc.fun == prim_fc::REQ_DATA2))
        } else if ctrl.fun == sec_fc::RESP_STATUS || ctrl.fun == sec_fc::USER_DATA_NO_REP {
            let (v2, c) = confirm_spec(v, addr, true);
            (v2, c, false)
        } else {
            (v, None, false)
        },
        FrameView::SingleCharAck => (v, None, false),
    }
}

/// How the primary handles one received frame: the state after it, the
/// frames it transmits, the stations whose link it activated, and whether the
/// frame's user data is new and belongs to the application.
///
/// `E5` confirms whatever is outstanding. A frame from a station not served
/// is ignored, as is a primary frame outside balanced mode. A secondary frame
/// first records the station's DFC, then moves the transaction as
/// [`secondary_answer_spec`] says; in unbalanced mode its ACD bit makes a
/// class 1 request due, sent at once when the link is active and idle.
pub open spec fn handle_frame_spec(v: LinkView, f: FrameView, balanced: bool, now: u64) -> (
    LinkView,
    Seq<FrameView>,
    Seq<u16>,
    bool,
) {
    match f {
        FrameView::SingleCharAck => {
            let (v1, c) = confirm_spec(v, 0, false);
            (v1, Seq::<FrameView>::empty(), activated(c), false)
        },
        _ => {
            let addr = crate::cs101::frame::view_link_addr(f).unwrap();
            let ctrl = crate::cs101::frame::view_control(f).unwrap();
            if v.addr_size > 0 && !v.secs.contains_key(addr) {
                (v, Seq::<FrameView>::empty(), Seq::<u16>::empty(), false)
            } else if ctrl.prm {
                if !balanced {
                    (v, Seq::<FrameView>::empty(), Seq::<u16>::empty(), false)
                } else {
                    let (v1, fs, d) = peer_primary_spec(v, ctrl, addr);
                    (v1, fs, Seq::<u16>::empty(), d)
                }
            } else {
                let v1 = if v.secs.contains_key(addr) {
                    LinkView { secs: v.secs.insert(addr, Secondary { busy: ctrl.dfc, ..v.secs[addr] }), ..v }
                } else {
                    v
                };
                let (v2, c, deliver) = secondary_answer_spec(v1, f, addr);
                let (v3, fs) = access_demand_spec(v2, ctrl, addr, balanced, now);
                (v3, fs, activated(c), deliver)
            }
        },
    }
}

/// What the ACD bit of a secondary frame from `addr` does in unbalanced
/// mode: a class 1 request becomes due, and goes out at once when the
/// station's link is active and nothing is outstanding.
pub open spec fn access_demand_spec(v: LinkView, ctrl: ControlField, addr: u16, balanced: bool, now: u64) -> (
    LinkView,
    Seq<FrameView>,
) {
    if ctrl.acd && !balanced && v.secs.contains_key(addr) {
        let v3 = LinkView { secs: v.secs.insert(addr, Secondary { want_class1: true, ..v.secs[addr] }), ..v };
        if v3.secs[addr].phase == Phase::Active && v3.pending is None {
            let fr = prim_frame(v3, addr, prim_fc::REQ_DATA1, true);
            (sent_confirmed(v3, fr, addr, v3.t1, now), seq![fr])
        } else {
            (v3, Seq::<FrameView>::empty())
        }
    } else {
        (v, Seq::<FrameView>::empty())
    }
}

impl LinkState {
    /// Service the secondary role of this station in balanced mode: the peer
    /// acts as a primary and sends link commands and user data to acknowledge.
    ///
    /// Returns whether the frame's user data is new and should be delivered.
    pub fn handle_peer_primary_frame(&mut self, ctrl: ControlField, addr: u16, out: &mut Vec<Frame>) -> (d: bool)
        requires
            link_wf(old(self)@),
        ensures
            link_wf(final(self)@),
            ({
                let (v, fs, dd) = peer_primary_spec(old(self)@, ctrl, addr);
                final(self)@ == v && sent(old(out)@, final(out)@, fs) && d == dd
            }),
    {
        let ghost o0 = out@;
        match fcv_required(ctrl.fun) {
            Some(fcv) => {
                if fcv != ctrl.fcv {
                    assert(out@.subrange(0, o0.len() as int) =~= o0);
                    return false;
                }
            },
            None => {},
        }
        if ctrl.fcv {
            if ctrl.fcb != self.fcb_expected {
                self.send_sec_fixed(sec_fc::CONF_ACK, addr, out);
                return false;
            }
            self.fcb_expected = !self.fcb_expected;
        }
        if ctrl.fun == prim_fc::RESET_LINK {
            self.fcb_expected = true;
            self.send_sec_fixed(sec_fc::CONF_ACK, addr, out);
            false
        } else if ctrl.fun == prim_fc::RESET_USER || ctrl.fun == prim_fc::TEST_LINK {
            self.send_sec_fixed(sec_fc::CONF_ACK, addr, out);
            false
        } else if ctrl.fun == prim_fc::USER_DATA_CONF {
            self.send_sec_fixed(sec_fc::CONF_ACK, addr, out);
            true
        } else if ctrl.fun == prim_fc::USER_DATA_NO_CONF {
            assert(out@.subrange(0, o0.len() as int) =~= o0);
            true
        } else if ctrl.fun == prim_fc::REQ_STATUS {
            self.send_sec_fixed(sec_fc::RESP_STATUS, addr, out);
            false
        } else {
            self.send_sec_fixed(sec_fc::RESP_LINK_NI, addr, out);
            false
        }
    }

    /// Process one received frame.
    pub fn handle_frame(&mut self, frame: &Frame, balanced: bool, now: u64, out: &mut Vec<Frame>) -> (o: FrameOutcome)
        requires
            link_wf(old(self)@),
        ensures
            link_wf(final(self)@),
            ({
                let (v, fs, act, d) = handle_frame_spec(old(self)@, frame@, balanced, now);
                final(self)@ == v && sent(old(out)@, final(out)@, fs) && o.newly_active@ == act && o.deliver == d
            }),
    {
        let ghost o0 = out@;
        let mut newly: Vec<u16> = Vec::new();
        match frame {
            Frame::SingleCharAck => {
                let c = self.confirm_positive(0, false);
                match c {
                    Some(cc) => match cc.became_active {
                        Some(a) => newly.push(a),
                        None => {},
                    },
                    None => {},
                }
                assert(newly@ =~= activated(c));
                assert(out@.subrange(0, o0.len() as int) =~= o0);
                return FrameOutcome { newly_active: newly, deliver: false };
            },
            _ => {},
        }
        let addr = match frame.link_addr() {
            Some(a) => a,
            None => 0,
        };
        let ctrl = match frame.control() {
            Some(c) => c,
            None => ControlField::secondary(0, false, false),
        };
        if self.addr_size > 0 && !self.secs.contains_key(&addr) {
            assert(out@.subrange(0, o0.len() as int) =~= o0);
            assert(newly@ =~= Seq::<u16>::empty());
            return FrameOutcome { newly_active: newly, deliver: false };
        }
        if ctrl.prm {
            if !balanced {
                assert(out@.subrange(0, o0.len() as int) =~= o0);
                assert(newly@ =~= Seq::<u16>::empty());
                return FrameOutcome { newly_active: newly, deliver: false };
            }
            let d = self.handle_peer_primary_frame(ctrl, addr, out);
            assert(newly@ =~= Seq::<u16>::empty());
            return FrameOutcome { newly_active: newly, deliver: d };
        }
        match self.secs.get(&addr) {
            Some(s) => {
                let sec = Secondary { busy: ctrl.dfc, ..*s };
                self.secs.insert(addr, sec);
            },
            None => {},
        }
        let ghost v1 = self@;
        let (conf, deliver) = self.answer_secondary(frame, ctrl, addr);
        match conf {
            Some(cc) => match cc.became_active {
                Some(a) => newly.push(a),
                None => {},
            },
            None => {},
        }
        assert(newly@ =~= activated(conf));
        self.note_access_demand(ctrl, addr, balanced, now, out);
        FrameOutcome { newly_active: newly, deliver }
    }

    /// Move the transaction by a secondary frame from `addr`.
    fn answer_secondary(&mut self, frame: &Frame, ctrl: ControlField, addr: u16) -> (r: (Option<Confirmed>, bool))
        requires
            link_wf(old(self)@),
            crate::cs101::frame::view_control(frame@) == Some(ctrl),
        ensures
            link_wf(final(self)@),
            (final(self)@, r.0, r.1) == secondary_answer_spec(old(self)@, frame@, addr),
    {
        let mut conf: Option<Confirmed> = None;
        let mut deliver = false;
        match frame {
            Frame::Fixed { .. } => {
                if ctrl.fun == sec_fc::CONF_ACK || ctrl.fun == sec_fc::USER_DATA_NO_REP || ctrl.fun
                    == sec_fc::RESP_STATUS {
                    conf = self.confirm_positive(addr, true);
                } else if ctrl.fun == sec_fc::RESP_LINK_NF || ctrl.fun == sec_fc::RESP_LINK_NI {
                    self.fail_transaction(addr);
                }
            },
            Frame::Variable { .. } => {
                if ctrl.fun == sec_fc::USER_DATA_CONF {
                    conf = self.confirm_positive(addr, true);
                    match conf {
                        Some(cc) => {
                            deliver = cc.fun == prim_fc::REQ_DATA1 || cc.fun == prim_fc::REQ_DATA2;
                        },
                        None => {},
                    }
                } else if ctrl.fun == sec_fc::RESP_STATUS || ctrl.fun == sec_fc::USER_DATA_NO_REP {
                    conf = self.confirm_positive(addr, true);
                }
            },
            Frame::SingleCharAck => {},
        }
        (conf, deliver)
    }

    /// Act on the ACD bit of a secondary frame from `addr`.
    fn note_access_demand(&mut self, ctrl: ControlField, addr: u16, balanced: bool, now: u64, out: &mut Vec<Frame>)
        requires
            link_wf(old(self)@),
        ensures
            link_wf(final(self)@),
            ({
                let (v, fs) = access_demand_spec(old(self)@, ctrl, addr, balanced, now);
                final(self)@ == v && sent(old(out)@, final(out)@, fs)
            }),
    {
        let ghost o0 = out@;
        if ctrl.acd && !balanced {
            match self.secs.get(&addr) {
                Some(s) => {
                    let sec = Secondary { want_class1: true, ..*s };
                    self.secs.insert(addr, sec);
                    if sec.phase == Phase::Active && self.last_sent.is_none() {
                        let t1 = self.t1_duration;
                        self.send_prim_confirmed(addr, prim_fc::REQ_DATA1, true, t1, now, out);
                    } else {
                        assert(out@.subrange(0, o0.len() as int) =~= o0);
                    }
                },
                None => {
                    assert(out@.subrange(0, o0.len() as int) =~= o0);
                },
            }
        } else {
            assert(out@.subrange(0, o0.len() as int) =~= o0);
        }
    }
}


/// An ASDU that may go out now: its station is served, active, and not
/// holding off under DFC.
pub open spec fn may_send(v: LinkView, o: Outgoing) -> bool {
    v.secs.contains_key(o.addr) && v.secs[o.addr].phase == Phase::Active && !v.secs[o.addr].busy
}

/// The queue after looking for the next ASDU to send, and the ASDU found:
/// ASDUs for stations not served are dropped on the way, ASDUs for stations
/// that may not be sent to yet stay queued in order, and the first ASDU that
/// may go out is taken.
pub open spec fn scan_queue(v: LinkView, q: Seq<Outgoing>) -> (Seq<Outgoing>, Option<Outgoing>)
    decreases q.len(),
{
    if q.len() == 0 {
        (q, None)
    } else if !v.secs.contains_key(q[0].addr) {
        scan_queue(v, q.drop_first())
    } else if may_send(v, q[0]) {
        (q.drop_first(), Some(q[0]))
    } else {
        let (rest, found) = scan_queue(v, q.drop_first());
        (seq![q[0]] + rest, found)
    }
}

/// The octets of an ASDU on the wire, `None` when it cannot be encoded.
pub open spec fn asdu_octets(a: Asdu) -> Option<Seq<u8>> {
    match crate::asdu::codec::marshal_error(a.params, a.identifier, a.info_obj@.len() as int) {
        Some(_) => None,
        None => Some(crate::asdu::codec::identifier_octets(a.params, a.identifier) + a.info_obj@),
    }
}

/// Transmit the first queued ASDU that may go out, as confirmed user data
/// carrying its station's current FCB: the state after, the frames sent, the
/// queue after, and whether one went out. An ASDU that cannot be encoded is
/// dropped and nothing goes out.
pub open spec fn send_queued_spec(v: LinkView, q: Seq<Outgoing>, t1: Duration, now: u64) -> (
    LinkView,
    Seq<FrameView>,
    Seq<Outgoing>,
    bool,
) {
    let (q1, found) = scan_queue(v, q);
    match found {
        None => (v, Seq::<FrameView>::empty(), q1, false),
        Some(o) => match asdu_octets(o.asdu) {
            None => (v, Seq::<FrameView>::empty(), q1, false),
            Some(raw) => {
                let f = FrameView::Variable(
                    ControlField {
                        dir: v.dir,
                        prm: true,
                        fcb: v.secs[o.addr].fcb,
                        fcv: true,
                        acd: false,
                        dfc: false,
                        fun: prim_fc::USER_DATA_CONF,
                    },
                    o.addr,
                    raw,
                );
                (sent_confirmed(v, f, o.addr, t1, now), seq![f], q1, true)
            },
        },
    }
}

/// The round-robin poll of up to `n` stations from the poll index: a station
/// awaiting status is asked for it, one awaiting reset is reset, and an
/// active one is polled for class 1 data when it demanded access, else for
/// class 2 — except in balanced mode, where active stations are not polled
/// and the next station is considered.
pub open spec fn poll_spec(v: LinkView, balanced: bool, now: u64, n: nat) -> (LinkView, Seq<FrameView>)
    decreases n,
{
    if n == 0 || v.order.len() == 0 {
        (v, Seq::<FrameView>::empty())
    } else {
        let addr = v.order[v.poll_idx];
        let v1 = LinkView { poll_idx: (v.poll_idx + 1) % (v.order.len() as int), ..v };
        let sec = v1.secs[addr];
        if sec.phase == Phase::Status {
            let f = prim_frame(v1, addr, prim_fc::REQ_STATUS, false);
            (sent_confirmed(v1, f, addr, v1.t1, now), seq![f])
        } else if sec.phase == Phase::Reset {
            let f = prim_frame(v1, addr, prim_fc::RESET_LINK, false);
            (sent_confirmed(v1, f, addr, v1.t1, now), seq![f])
        } else if balanced {
            poll_spec(v1, balanced, now, (n - 1) as nat)
        } else {
            let fun = if sec.want_class1 {
                prim_fc::REQ_DATA1
            } else {
                prim_fc::REQ_DATA2
            };
            let f = prim_frame(v1, addr, fun, true);
            (sent_confirmed(v1, f, addr, v1.t1, now), seq![f])
        }
    }
}

/// One scheduler tick: nothing while a frame is outstanding; otherwise queued
/// user data first, then link initialization and class polling.
pub open spec fn tick_spec(v: LinkView, q: Seq<Outgoing>, balanced: bool, now: u64) -> (
    LinkView,
    Seq<FrameView>,
    Seq<Outgoing>,
) {
    if v.pending is Some {
        (v, Seq::<FrameView>::empty(), q)
    } else {
        let (v1, fs, q1, done) = send_queued_spec(v, q, v.t1, now);
        if done {
            (v1, fs, q1)
        } else {
            let (v2, fs2) = poll_spec(v, balanced, now, v.order.len());
            (v2, fs2, q1)
        }
    }
}

/// The response timer expired: the outstanding frame is repeated unchanged,
/// FCB included, while repetitions are left, with the timer rearmed for t2;
/// after the last one the station is given up — sent back to the start of
/// the initialization procedure with its FCB kept — and on a point-to-point
/// line that ends the connection with `TimeoutT1`.
pub open spec fn t1_timeout_spec(v: LinkView, max_repetitions: u8, t2: Duration, now: u64) -> (
    LinkView,
    Seq<FrameView>,
    Result<()>,
) {
    match v.pending {
        None => (LinkView { t1_at: None, ..v }, Seq::<FrameView>::empty(), Ok(())),
        Some(p) => if v.retry_count < max_repetitions {
            (
                LinkView { retry_count: v.retry_count + 1, t1_at: Some(after(now, t2)), ..v },
                seq![p.frame],
                Ok(()),
            )
        } else {
            let secs = if v.secs.contains_key(p.addr) {
                v.secs.insert(
                    p.addr,
                    Secondary { phase: Phase::Status, want_class1: false, busy: false, ..v.secs[p.addr] },
                )
            } else {
                v.secs
            };
            (
                LinkView { secs, pending: None, retry_count: 0, t1_at: None, ..v },
                Seq::<FrameView>::empty(),
                if v.order.len() == 1 {
                    Err(Error::TimeoutT1)
                } else {
                    Ok(())
                },
            )
        },
    }
}

/// The first station in polling order, from index `i` on, whose link is active.
pub open spec fn first_active_from(v: LinkView, i: int) -> Option<u16>
    decreases v.order.len() - i,
{
    if i < 0 || i >= v.order.len() {
        None
    } else if v.secs[v.order[i]].phase == Phase::Active {
        Some(v.order[i])
    } else {
        first_active_from(v, i + 1)
    }
}

/// The line has been idle: when nothing is outstanding, a test link frame
/// goes to the first active station to keep the line alive.
pub open spec fn t3_timeout_spec(v: LinkView, t1: Duration, now: u64) -> (LinkView, Seq<FrameView>) {
    if v.pending is Some {
        (v, Seq::<FrameView>::empty())
    } else {
        match first_active_from(v, 0) {
            Some(a) => {
                let f = prim_frame(v, a, prim_fc::TEST_LINK, true);
                (sent_confirmed(v, f, a, t1, now), seq![f])
            },
            None => (v, Seq::<FrameView>::empty()),
        }
    }
}

/// A manual link request from the application, to the default station and
/// only when nothing is outstanding: a link reset (which restarts the
/// station's initialization at the reset), a status request, or — on an
/// active unbalanced link — a class 2 poll. Anything else is dropped.
pub open spec fn link_request_spec(v: LinkView, fun: u8, balanced: bool, now: u64) -> (LinkView, Seq<FrameView>) {
    let addr = v.default_addr;
    if v.pending is Some || !v.secs.contains_key(addr) {
        (v, Seq::<FrameView>::empty())
    } else if fun == prim_fc::RESET_LINK {
        let v1 = LinkView { secs: v.secs.insert(addr, Secondary { phase: Phase::Reset, ..v.secs[addr] }), ..v };
        let f = prim_frame(v1, addr, prim_fc::RESET_LINK, false);
        (sent_confirmed(v1, f, addr, v.t1, now), seq![f])
    } else if fun == prim_fc::REQ_STATUS {
        let f = prim_frame(v, addr, prim_fc::REQ_STATUS, false);
        (sent_confirmed(v, f, addr, v.t1, now), seq![f])
    } else if fun == prim_fc::REQ_DATA2 && v.secs[addr].phase == Phase::Active && !balanced {
        let f = prim_frame(v, addr, prim_fc::REQ_DATA2, true);
        (sent_confirmed(v, f, addr, v.t1, now), seq![f])
    } else {
        (v, Seq::<FrameView>::empty())
    }
}


impl LinkState {
    /// Transmit the first queued ASDU whose station is active and not
    /// holding off under DFC.
    pub fn try_send_queued(&mut self, queue: &mut VecDeque<Outgoing>, t1: Duration, now: u64, out: &mut Vec<Frame>) -> (b: bool)
        requires
            link_wf(old(self)@),
        ensures
            link_wf(final(self)@),
            ({
                let (v, fs, q, d) = send_queued_spec(old(self)@, old(queue)@, t1, now);
                final(self)@ == v && sent(old(out)@, final(out)@, fs) && final(queue)@ == q && b == d
            }),
    {
        let ghost q0 = queue@;
        let ghost v0 = self@;
        let ghost o0 = out@;
        let ghost mut kept: Seq<Outgoing> = Seq::empty();
        let ghost mut j: int = 0;
        let mut i: usize = 0;
        let mut found: Option<Outgoing> = None;
        assert(q0.subrange(0, q0.len() as int) =~= q0);
        assert(kept + q0 =~= q0);
        assert(kept + scan_queue(v0, q0).0 =~= scan_queue(v0, q0).0);
        while i < queue.len() && found.is_none()
            invariant
                link_wf(self@),
                self@ == v0,
                out@ == o0,
                i <= queue@.len(),
                0 <= j <= q0.len(),
                found is None ==> queue@ == kept + q0.subrange(j, q0.len() as int),
                found is None ==> kept.len() == i,
                found is None ==> scan_queue(v0, q0) == (
                    kept + scan_queue(v0, q0.subrange(j, q0.len() as int)).0,
                    scan_queue(v0, q0.subrange(j, q0.len() as int)).1,
                ),
                found matches Some(o) ==> scan_queue(v0, q0) == (queue@, Some(o)),
            decreases queue@.len() - i,
        {
            let addr = queue[i].addr;
            proof {
                let rest = q0.subrange(j, q0.len() as int);
                assert(queue@[i as int] == rest[0]);
                assert(rest.drop_first() =~= q0.subrange(j + 1, q0.len() as int));
            }
            match self.secs.get(&addr) {
                None => {
                    let _ = queue.remove(i);
                    proof {
                        assert(queue@ =~= kept + q0.subrange(j + 1, q0.len() as int));
                        j = j + 1;
                    }
                },
                Some(s) => {
                    if s.phase == Phase::Active && !s.busy {
                        found = queue.remove(i);
                        proof {
                            assert(queue@ =~= kept + q0.subrange(j + 1, q0.len() as int));
                        }
                    } else {
                        proof {
                            let rest = q0.subrange(j, q0.len() as int);
                            let r1 = scan_queue(v0, q0.subrange(j + 1, q0.len() as int));
                            assert(kept + (seq![rest[0]] + r1.0) =~= kept.push(rest[0]) + r1.0);
                            assert(kept + q0.subrange(j, q0.len() as int) =~= kept.push(rest[0]) + q0.subrange(
                                j + 1,
                                q0.len() as int,
                            ));
                            kept = kept.push(rest[0]);
                            j = j + 1;
                        }
                        i = i + 1;
                    }
                },
            }
        }
        let o = match found {
            None => {
                proof {
                    assert(q0.subrange(j, q0.len() as int).len() == 0);
                    assert(kept + scan_queue(v0, q0.subrange(j, q0.len() as int)).0 =~= queue@);
                    assert(out@.subrange(0, o0.len() as int) =~= o0);
                }
                return false;
            },
            Some(o) => o,
        };
        proof {
            scan_found_may_send(v0, q0);
        }
        let raw = match o.asdu.marshal_binary() {
            Ok(v) => v,
            Err(_) => {
                assert(out@.subrange(0, o0.len() as int) =~= o0);
                return false;
            },
        };
        let fcb = match self.secs.get(&o.addr) {
            Some(s) => s.fcb,
            None => false,
        };
        let ctrl = ControlField::primary(prim_fc::USER_DATA_CONF, true, fcb, self.dir);
        let frame = Frame::Variable { control: ctrl, link_addr: o.addr, asdu: raw };
        let copy = frame.duplicate();
        out.push(copy);
        self.last_sent = Some(Pending { frame, ctrl, addr: o.addr });
        self.retry_count = 0;
        self.t1_at = Some(deadline(now, t1));
        assert(out@.subrange(0, o0.len() as int) =~= o0);
        true
    }

    /// Poll the stations round-robin from the poll index.
    fn poll(&mut self, balanced: bool, now: u64, out: &mut Vec<Frame>)
        requires
            link_wf(old(self)@),
        ensures
            link_wf(final(self)@),
            ({
                let (v, fs) = poll_spec(old(self)@, balanced, now, old(self)@.order.len());
                final(self)@ == v && sent(old(out)@, final(out)@, fs)
            }),
    {
        let ghost v0 = self@;
        let ghost o0 = out@;
        let n = self.order.len();
        let mut k: usize = 0;
        while k < n
            invariant
                link_wf(self@),
                n == self@.order.len(),
                k <= n,
                out@ == o0,
                v0 == old(self)@,
                o0 == old(out)@,
                poll_spec(v0, balanced, now, v0.order.len()) == poll_spec(self@, balanced, now, (n - k) as nat),
            decreases n - k,
        {
            let ghost vb = self@;
            let addr = self.order[self.poll_idx];
            self.poll_idx = (self.poll_idx + 1) % n;
            assert(self@.order.contains(addr));
            assert(self@ == LinkView { poll_idx: (vb.poll_idx + 1) % (vb.order.len() as int), ..vb });
            assert(addr == vb.order[vb.poll_idx]);
            let sec = match self.secs.get(&addr) {
                Some(s) => *s,
                None => Secondary { phase: Phase::Status, fcb: false, want_class1: false, busy: false },
            };
            let t1 = self.t1_duration;
            match sec.phase {
                Phase::Status => {
                    let ghost v1 = self@;
                    assert(v1.secs[addr] == sec);
                    assert((n - k) as nat > 0);
                    assert(poll_spec(vb, balanced, now, (n - k) as nat) == (
                        sent_confirmed(v1, prim_frame(v1, addr, prim_fc::REQ_STATUS, false), addr, v1.t1, now),
                        seq![prim_frame(v1, addr, prim_fc::REQ_STATUS, false)],
                    ));
                    self.send_prim_confirmed(addr, prim_fc::REQ_STATUS, false, t1, now, out);
                    return;
                },
                Phase::Reset => {
                    self.send_prim_confirmed(addr, prim_fc::RESET_LINK, false, t1, now, out);
                    return;
                },
                Phase::Active => {
                    if !balanced {
                        let fun = if sec.want_class1 {
                            prim_fc::REQ_DATA1
                        } else {
                            prim_fc::REQ_DATA2
                        };
                        self.send_prim_confirmed(addr, fun, true, t1, now, out);
                        return;
                    }
                },
            }
            k = k + 1;
        }
        assert(out@.subrange(0, o0.len() as int) =~= o0);
    }

    /// Drive the link when it is free: queued user data first, then link
    /// initialization and class polling, round-robin over the stations.
    pub fn tick(&mut self, queue: &mut VecDeque<Outgoing>, balanced: bool, now: u64, out: &mut Vec<Frame>)
        requires
            link_wf(old(self)@),
        ensures
            link_wf(final(self)@),
            ({
                let (v, fs, q) = tick_spec(old(self)@, old(queue)@, balanced, now);
                final(self)@ == v && sent(old(out)@, final(out)@, fs) && final(queue)@ == q
            }),
    {
        let ghost o0 = out@;
        if self.last_sent.is_some() {
            assert(out@.subrange(0, o0.len() as int) =~= o0);
            return;
        }
        let t1 = self.t1_duration;
        if self.try_send_queued(queue, t1, now, out) {
            return;
        }
        assert(out@ =~= out@.subrange(0, o0.len() as int));
        self.poll(balanced, now, out);
    }

    /// A confirmed frame went unanswered. Repeat it with the same FCB up to
    /// the configured number of times, then give up on the station.
    pub fn on_t1_timeout(&mut self, cfg: &Config, now: u64, out: &mut Vec<Frame>) -> (r: Result<()>)
        requires
            link_wf(old(self)@),
        ensures
            link_wf(final(self)@),
            ({
                let (v, fs, rr) = t1_timeout_spec(old(self)@, cfg.max_repetitions, cfg.timeout_repeat_t2, now);
                final(self)@ == v && sent(old(out)@, final(out)@, fs) && r == rr
            }),
    {
        let ghost o0 = out@;
        let (copy, addr) = match &self.last_sent {
            None => {
                self.t1_at = None;
                assert(out@.subrange(0, o0.len() as int) =~= o0);
                return Ok(());
            },
            Some(p) => (p.frame.duplicate(), p.addr),
        };
        if self.retry_count < cfg.max_repetitions as u32 {
            self.retry_count = self.retry_count + 1;
            out.push(copy);
            self.t1_at = Some(deadline(now, cfg.timeout_repeat_t2));
            assert(out@.subrange(0, o0.len() as int) =~= o0);
            return Ok(());
        }
        self.last_sent = None;
        self.retry_count = 0;
        self.t1_at = None;
        match self.secs.get(&addr) {
            Some(s) => {
                let sec = Secondary { phase: Phase::Status, want_class1: false, busy: false, fcb: s.fcb };
                self.secs.insert(addr, sec);
            },
            None => {},
        }
        assert(out@.subrange(0, o0.len() as int) =~= o0);
        if self.order.len() == 1 {
            return Err(Error::TimeoutT1);
        }
        Ok(())
    }

    /// The line has been idle: send a test link frame to keep it alive.
    pub fn on_t3_timeout(&mut self, cfg: &Config, now: u64, out: &mut Vec<Frame>)
        requires
            link_wf(old(self)@),
        ensures
            link_wf(final(self)@),
            ({
                let (v, fs) = t3_timeout_spec(old(self)@, cfg.timeout_response_t1, now);
                final(self)@ == v && sent(old(out)@, final(out)@, fs)
            }),
    {
        let ghost o0 = out@;
        if self.last_sent.is_some() {
            assert(out@.subrange(0, o0.len() as int) =~= o0);
            return;
        }
        match self.first_active() {
            Some(addr) => {
                proof {
                    first_active_member(self@, 0);
                }
                self.send_prim_confirmed(addr, prim_fc::TEST_LINK, true, cfg.timeout_response_t1, now, out);
            },
            None => {
                assert(out@.subrange(0, o0.len() as int) =~= o0);
            },
        }
    }

    /// Execute a manual link-layer request from the application.
    pub fn handle_link_request(&mut self, fun: u8, balanced: bool, now: u64, out: &mut Vec<Frame>)
        requires
            link_wf(old(self)@),
        ensures
            link_wf(final(self)@),
            ({
                let (v, fs) = link_request_spec(old(self)@, fun, balanced, now);
                final(self)@ == v && sent(old(out)@, final(out)@, fs)
            }),
    {
        let ghost o0 = out@;
        let addr = self.default_addr;
        if self.last_sent.is_some() || !self.secs.contains_key(&addr) {
            assert(out@.subrange(0, o0.len() as int) =~= o0);
            return;
        }
        let t1 = self.t1_duration;
        let sec = match self.secs.get(&addr) {
            Some(s) => *s,
            None => Secondary { phase: Phase::Status, fcb: false, want_class1: false, busy: false },
        };
        if fun == prim_fc::RESET_LINK {
            self.secs.insert(addr, Secondary { phase: Phase::Reset, ..sec });
            self.send_prim_confirmed(addr, prim_fc::RESET_LINK, false, t1, now, out);
        } else if fun == prim_fc::REQ_STATUS {
            self.send_prim_confirmed(addr, prim_fc::REQ_STATUS, false, t1, now, out);
        } else if fun == prim_fc::REQ_DATA2 && sec.phase == Phase::Active && !balanced {
            self.send_prim_confirmed(addr, prim_fc::REQ_DATA2, true, t1, now, out);
        } else {
            assert(out@.subrange(0, o0.len() as int) =~= o0);
        }
    }
}

/// The ASDU the queue scan takes may go out.
proof fn scan_found_may_send(v: LinkView, q: Seq<Outgoing>)
    ensures
        scan_queue(v, q).1 matches Some(o) ==> may_send(v, o),
    decreases q.len(),
{
    if q.len() > 0 {
        scan_found_may_send(v, q.drop_first());
    }
}

/// The first active station is a station served.
proof fn first_active_member(v: LinkView, i: int)
    requires
        link_wf(v),
        first_active_from(v, i) is Some,
    ensures
        v.secs.contains_key(first_active_from(v, i).unwrap()),
    decreases v.order.len() - i,
{
    if 0 <= i < v.order.len() && v.secs[v.order[i]].phase != Phase::Active {
        first_active_member(v, i + 1);
    } else {
        assert(v.order.contains(v.order[i]));
    }
}


/// The frame count bit of a station alternates across its FCV frames: an
/// FCV frame carries the station's current FCB, and only its positive
/// confirmation moves the station's FCB, to the complement of the one sent.
pub proof fn fcb_alternates_on_confirmation(v: LinkView, addr: u16, fun: u8, t1: Duration, now: u64)
    requires
        link_wf(v),
        v.secs.contains_key(addr),
        fun != prim_fc::RESET_LINK,
    ensures
        ({
            let f = prim_frame(v, addr, fun, true);
            let v1 = sent_confirmed(v, f, addr, t1, now);
            let (v2, c) = confirm_spec(v1, addr, true);
            &&& crate::cs101::frame::view_control(f).unwrap().fcb == v.secs[addr].fcb
            &&& v1.secs == v.secs
            &&& v2.secs[addr].fcb == !v.secs[addr].fcb
            &&& c matches Some(cc) && cc.fun == fun
        }),
{
}

/// A frame that goes unanswered is repeated unchanged, FCB included, while
/// repetitions are left; neither the repetition nor giving the station up
/// moves any station's FCB.
pub proof fn unanswered_frame_repeated_unchanged(v: LinkView, max_repetitions: u8, t2: Duration, now: u64)
    requires
        link_wf(v),
        v.pending is Some,
    ensures
        ({
            let (v1, fs, r) = t1_timeout_spec(v, max_repetitions, t2, now);
            &&& v.retry_count < max_repetitions ==> fs == seq![v.pending.unwrap().frame] && v1.pending == v.pending
                && v1.secs == v.secs && r is Ok
            &&& v.retry_count >= max_repetitions ==> fs.len() == 0 && v1.pending is None && (forall|a: u16|
                #[trigger] v1.secs.contains_key(a) ==> v1.secs[a].fcb == v.secs[a].fcb) && (r is Err <==> v.order.len()
                == 1)
        }),
{
}

/// A station is brought up by the status request and the link reset: from
/// awaiting its status, a confirmed status request moves it to the reset, and
/// a confirmed reset makes its link active with FCB 1 due next.
pub proof fn link_initialization(v: LinkView, addr: u16, t1: Duration, now: u64)
    requires
        link_wf(v),
        v.secs.contains_key(addr),
        v.secs[addr].phase == Phase::Status,
    ensures
        ({
            let f1 = prim_frame(v, addr, prim_fc::REQ_STATUS, false);
            let (v1, c1) = confirm_spec(sent_confirmed(v, f1, addr, t1, now), addr, true);
            let f2 = prim_frame(v1, addr, prim_fc::RESET_LINK, false);
            let (v2, c2) = confirm_spec(sent_confirmed(v1, f2, addr, t1, now), addr, true);
            &&& v1.secs[addr].phase == Phase::Reset
            &&& c1 == Some(Confirmed { fun: prim_fc::REQ_STATUS, became_active: None })
            &&& v2.secs[addr].phase == Phase::Active
            &&& v2.secs[addr].fcb
            &&& c2 == Some(Confirmed { fun: prim_fc::RESET_LINK, became_active: Some(addr) })
        }),
{
}

/// User data from a secondary is delivered once: the answer to an
/// outstanding class 1 or class 2 request is delivered and completes the
/// transaction, so the same response arriving again is not delivered.
pub proof fn answer_delivered_once(v: LinkView, f: FrameView, now: u64)
    requires
        link_wf(v),
        v.pending matches Some(p) && (p.ctrl.fun == prim_fc::REQ_DATA1 || p.ctrl.fun == prim_fc::REQ_DATA2),
        f matches FrameView::Variable(c, a, _) && !c.prm && !c.acd && c.fun == sec_fc::USER_DATA_CONF && a
            == v.pending.unwrap().addr && v.secs.contains_key(a),
    ensures
        handle_frame_spec(v, f, false, now).3,
        !handle_frame_spec(handle_frame_spec(v, f, false, now).0, f, false, now).3,
{
}

/// User data from a station that was not asked is not delivered.
pub proof fn unsolicited_data_not_delivered(v: LinkView, f: FrameView, now: u64)
    requires
        link_wf(v),
        v.pending is None,
        f matches FrameView::Variable(c, _, _) && !c.prm,
    ensures
        !handle_frame_spec(v, f, false, now).3,
{
}

/// In balanced mode a repeat of the peer's confirmed user data — the same
/// FCB again, because the acknowledgement was lost — is acknowledged again
/// but not delivered again, and the expected FCB does not move.
pub proof fn repeated_peer_frame_acknowledged_not_delivered(v: LinkView, ctrl: ControlField, addr: u16)
    requires
        ctrl.prm,
        ctrl.fcv,
        ctrl.fun == prim_fc::USER_DATA_CONF,
        ctrl.fcb == v.fcb_expected,
    ensures
        ({
            let (v1, fs1, d1) = peer_primary_spec(v, ctrl, addr);
            let (v2, fs2, d2) = peer_primary_spec(v1, ctrl, addr);
            &&& d1 && fs1 == seq![sec_response(v, sec_fc::CONF_ACK, addr)]
            &&& v1.fcb_expected == !v.fcb_expected
            &&& !d2 && fs2 == seq![sec_response(v1, sec_fc::CONF_ACK, addr)]
            &&& v2 == v1
        }),
{
}

/// A peer frame whose FCV contradicts its function code is ignored: nothing
/// is sent, nothing delivered, and the expected FCB does not move.
pub proof fn contradictory_fcv_ignored(v: LinkView, ctrl: ControlField, addr: u16)
    requires
        spec_fcv_required(ctrl.fun) matches Some(fcv) && fcv != ctrl.fcv,
    ensures
        peer_primary_spec(v, ctrl, addr) == (v, Seq::<FrameView>::empty(), false),
{
}

/// No user data goes to a station that is not active or signals DFC: when
/// queued data goes out, its station is active and not busy.
pub proof fn user_data_only_to_ready_stations(v: LinkView, q: Seq<Outgoing>, t1: Duration, now: u64)
    requires
        link_wf(v),
    ensures
        ({
            let (v1, fs, q1, done) = send_queued_spec(v, q, t1, now);
            done ==> (v1.pending matches Some(p) && v.secs.contains_key(p.addr) && v.secs[p.addr].phase
                == Phase::Active && !v.secs[p.addr].busy && p.ctrl.fcb == v.secs[p.addr].fcb && p.ctrl.fcv)
        }),
{
    scan_found_may_send(v, q);
}

/// Class polls go on under DFC: an active station of an unbalanced line is
/// polled whether or not it signals DFC.
pub proof fn busy_station_still_polled(v: LinkView, now: u64)
    requires
        link_wf(v),
        v.secs[v.order[v.poll_idx]].phase == Phase::Active,
    ensures
        poll_spec(v, false, now, v.order.len()).1.len() == 1,
        poll_spec(v, false, now, v.order.len()).0.pending is Some,
{
}

} // verus!
