//! The IEC 60870-5-101 secondary station (outstation / slave): the link
//! procedure it runs and the buffering of the data it sends.
//!
//! The server answers the link procedure by itself — status, reset, test, and
//! FCB duplicate detection with retransmission of the previous response.
//!
//! In **unbalanced** mode outgoing ASDUs are buffered: causes `Periodic` and
//! `Background` go to the class 2 buffer, everything else to class 1, and the
//! primary collects them when it polls. Pending class 1 data is announced with
//! the ACD bit on every response, which makes a standard master issue a class 1
//! request. The standard forbids unsolicited transmission here.
//!
//! In **balanced** mode the station also runs a primary role and transmits
//! queued ASDUs as confirmed user data on its own.
//!
//! [`SecondaryState`] never touches the line: each step appends the frames to
//! transmit to an output list and takes the time as milliseconds of the
//! caller's monotonic clock.

use vstd::prelude::*;

use std::collections::VecDeque;

use crate::asdu::codec::Asdu;
use crate::asdu::identifier::Cause;
use crate::cs101::client::{after, asdu_octets, deadline, sent, sent_one};
use crate::cs101::config::{Config, Duration};
use crate::cs101::frame::{view_control, view_link_addr, ControlField, Frame, FrameView};
use crate::cs101::prim_fc;
use crate::cs101::sec_fc;
use crate::error::{Error, Result};

verus! {

/// Where [`Connect::send`](crate) puts an ASDU on a secondary station.
#[derive(Debug, Clone, Copy, PartialEq, Eq, Structural)]
pub enum SendQueue {
    /// Events and everything not cyclic; announced with the ACD bit.
    Class1,
    /// Cyclic and background data.
    Class2,
    /// Balanced mode: transmitted by this station's primary role.
    Primary,
}

/// The buffer for an ASDU of cause `cause`: the primary role's queue in
/// balanced mode; otherwise class 2 for `Periodic` (1) and `Background` (2)
/// and class 1 for everything else.
pub open spec fn spec_send_queue(balanced: bool, cause: Cause) -> SendQueue {
    if balanced {
        SendQueue::Primary
    } else if cause.0 == 1 || cause.0 == 2 {
        SendQueue::Class2
    } else {
        SendQueue::Class1
    }
}

/// Choose the buffer for an outgoing ASDU.
pub fn send_queue(balanced: bool, cause: Cause) -> (q: SendQueue)
    ensures
        q == spec_send_queue(balanced, cause),
{
    if balanced {
        SendQueue::Primary
    } else if cause.0 == 1 || cause.0 == 2 {
        SendQueue::Class2
    } else {
        SendQueue::Class1
    }
}

/// Append to a bounded queue: refused with `SendQueueFull` when it already
/// holds `max` items.
pub fn enqueue<T>(queue: &mut VecDeque<T>, max: usize, item: T) -> (r: Result<()>)
    ensures
        old(queue)@.len() >= max ==> r == Err::<(), Error>(Error::SendQueueFull) && final(queue)@ == old(queue)@,
        old(queue)@.len() < max ==> r is Ok && final(queue)@ == old(queue)@.push(item),
{
    if queue.len() >= max {
        return Err(Error::SendQueueFull);
    }
    queue.push_back(item);
    Ok(())
}

/// The class buffers after taking the next ASDU for a class 1 or class 2
/// request, and the ASDU taken: the front of the requested class, falling
/// back to the front of the other class when the requested one is empty —
/// permitted by IEC 60870-5-101, subclass 6.6.
pub open spec fn pop_class_spec(class: u8, c1: Seq<Asdu>, c2: Seq<Asdu>) -> (Seq<Asdu>, Seq<Asdu>, Option<Asdu>) {
    if class == 2 {
        if c2.len() > 0 {
            (c1, c2.drop_first(), Some(c2[0]))
        } else if c1.len() > 0 {
            (c1.drop_first(), c2, Some(c1[0]))
        } else {
            (c1, c2, None)
        }
    } else {
        if c1.len() > 0 {
            (c1.drop_first(), c2, Some(c1[0]))
        } else if c2.len() > 0 {
            (c1, c2.drop_first(), Some(c2[0]))
        } else {
            (c1, c2, None)
        }
    }
}

/// Take the next buffered ASDU for a class 1 or class 2 request.
pub fn pop_class(class: u8, class1: &mut VecDeque<Asdu>, class2: &mut VecDeque<Asdu>) -> (a: Option<Asdu>)
    ensures
        (final(class1)@, final(class2)@, a) == pop_class_spec(class, old(class1)@, old(class2)@),
{
    if class == 2 {
        match class2.pop_front() {
            Some(a) => {
                return Some(a);
            },
            None => {},
        }
        class1.pop_front()
    } else {
        match class1.pop_front() {
            Some(a) => {
                return Some(a);
            },
            None => {},
        }
        class2.pop_front()
    }
}

/// What handling one received frame produced.
pub struct Outcome {
    /// The link layer was just reset and is now active.
    pub link_became_active: bool,
    /// A user data ASDU to dispatch to the handler.
    pub asdu: Option<Vec<u8>>,
}

/// The secondary-role link state machine, plus the balanced-mode primary role.
pub struct SecondaryState {
    link_addr: u16,
    addr_size: u8,
    fcb_expected: bool,
    last_resp: Option<Frame>,
    prim_out: Option<Frame>,
    prim_out_ctrl: ControlField,
    prim_fcb: bool,
    prim_active: bool,
    prim_retry: u32,
    prim_deadline: Option<u64>,
    prim_next_init: u64,
}

/// What the secondary station's link state is.
pub struct ServerView {
    /// This station's link address.
    pub link_addr: u16,
    /// Link address width in octets.
    pub addr_size: u8,
    /// The FCB expected on the primary's next FCV frame.
    pub fcb_expected: bool,
    /// The last response sent, retransmitted when a request is repeated.
    pub last_resp: Option<FrameView>,
    /// Balanced mode: the primary-role frame awaiting confirmation.
    pub prim_out: Option<FrameView>,
    /// Its control field.
    pub prim_out_ctrl: ControlField,
    /// The FCB of the primary role's next FCV frame.
    pub prim_fcb: bool,
    /// The peer has confirmed the primary role's link reset.
    pub prim_active: bool,
    /// How many times the outstanding primary-role frame was repeated.
    pub prim_retry: int,
    /// When the outstanding primary-role frame times out.
    pub prim_deadline: Option<u64>,
    /// When the primary role may next try to reset the link.
    pub prim_next_init: u64,
}

impl View for SecondaryState {
    type V = ServerView;

    closed spec fn view(&self) -> ServerView {
        ServerView {
            link_addr: self.link_addr,
            addr_size: self.addr_size,
            fcb_expected: self.fcb_expected,
            last_resp: match self.last_resp {
                Some(f) => Some(f@),
                None => None,
            },
            prim_out: match self.prim_out {
                Some(f) => Some(f@),
                None => None,
            },
            prim_out_ctrl: self.prim_out_ctrl,
            prim_fcb: self.prim_fcb,
            prim_active: self.prim_active,
            prim_retry: self.prim_retry as int,
            prim_deadline: self.prim_deadline,
            prim_next_init: self.prim_next_init,
        }
    }
}

/// The state is sound: the primary role's repetition count stays small.
pub open spec fn server_wf(v: ServerView) -> bool {
    0 <= v.prim_retry <= 1
}

/// The state at the start of a connection.
pub open spec fn initial_server(v: ServerView, cfg: Config, now: u64) -> bool {
    &&& v.link_addr == cfg.link_address
    &&& v.addr_size == cfg.link_addr_size
    &&& v.fcb_expected
    &&& v.last_resp is None
    &&& v.prim_out is None
    &&& !v.prim_fcb
    &&& !v.prim_active
    &&& v.prim_retry == 0
    &&& v.prim_deadline is None
    &&& v.prim_next_init == now
}

/// A fixed response of this station: the secondary never sets DIR.
pub open spec fn sec_frame(v: ServerView, fun: u8, acd: bool) -> FrameView {
    FrameView::Fixed(ControlField { dir: false, prm: false, fcb: false, fcv: false, acd, dfc: false, fun }, v.link_addr)
}

/// True when `addr` addresses this station, including the broadcast address
/// of the configured width; every address does without one.
pub open spec fn spec_addressed_to_us(v: ServerView, addr: u16) -> bool {
    if v.addr_size == 1 {
        addr == v.link_addr || addr == 0x00ff
    } else if v.addr_size == 2 {
        addr == v.link_addr || addr == 0xffff
    } else {
        true
    }
}

/// Send a response and remember it for a repeated request.
pub open spec fn respond(v: ServerView, f: FrameView) -> (ServerView, Seq<FrameView>) {
    (ServerView { last_resp: Some(f), ..v }, seq![f])
}

/// The answer to a class 1 or class 2 poll: buffered data as user data, with
/// ACD telling whether class 1 data is still waiting, or "requested data not
/// available" when nothing is buffered or the ASDU taken cannot be encoded.
pub open spec fn class_data_spec(v: ServerView, class: u8, c1: Seq<Asdu>, c2: Seq<Asdu>) -> (
    ServerView,
    Seq<FrameView>,
    Seq<Asdu>,
    Seq<Asdu>,
) {
    let (c1b, c2b, taken) = pop_class_spec(class, c1, c2);
    match taken {
        None => {
            let (v1, fs) = respond(v, sec_frame(v, sec_fc::USER_DATA_NO_REP, false));
            (v1, fs, c1b, c2b)
        },
        Some(a) => match asdu_octets(a) {
            None => {
                let (v1, fs) = respond(v, sec_frame(v, sec_fc::USER_DATA_NO_REP, c1b.len() > 0));
                (v1, fs, c1b, c2b)
            },
            Some(raw) => {
                let f = FrameView::Variable(
                    ControlField {
                        dir: false,
                        prm: false,
                        fcb: false,
                        fcv: false,
                        acd: c1b.len() > 0,
                        dfc: false,
                        fun: sec_fc::USER_DATA_CONF,
                    },
                    v.link_addr,
                    raw,
                );
                let (v1, fs) = respond(v, f);
                (v1, fs, c1b, c2b)
            },
        },
    }
}

/// How the secondary answers a primary frame once duplicate detection let it
/// through: a link reset expects FCB 1 next, forgets the last response, is
/// acknowledged and activates the link; user data is acknowledged (or, when
/// unconfirmed, not answered) and handed to the application; status and
/// access requests get the link status; class requests get buffered data;
/// anything else is "link service not implemented". Confirmed user data
/// without FCV is ignored. Acknowledgements and status answers carry ACD
/// when class 1 data is waiting. Returns the state, the responses, the class
/// buffers, whether the link became active, and the ASDU to deliver.
pub open spec fn primary_request_spec(
    v: ServerView,
    f: FrameView,
    ctrl: ControlField,
    c1: Seq<Asdu>,
    c2: Seq<Asdu>,
) -> (ServerView, Seq<FrameView>, Seq<Asdu>, Seq<Asdu>, bool, Option<Seq<u8>>) {
    let pending1 = c1.len() > 0;
    let data = match f {
        FrameView::Variable(_, _, a) => Some(a),
        _ => None,
    };
    if ctrl.fun == prim_fc::RESET_LINK {
        let v1 = ServerView { fcb_expected: true, last_resp: None, ..v };
        let (v2, fs) = respond(v1, sec_frame(v1, sec_fc::CONF_ACK, pending1));
        (v2, fs, c1, c2, true, None)
    } else if ctrl.fun == prim_fc::RESET_USER || ctrl.fun == prim_fc::TEST_LINK {
        let (v2, fs) = respond(v, sec_frame(v, sec_fc::CONF_ACK, pending1));
        (v2, fs, c1, c2, false, None)
    } else if ctrl.fun == prim_fc::USER_DATA_CONF {
        if !ctrl.fcv {
            (v, Seq::<FrameView>::empty(), c1, c2, false, None)
        } else {
            let (v2, fs) = respond(v, sec_frame(v, sec_fc::CONF_ACK, pending1));
            (v2, fs, c1, c2, false, data)
        }
    } else if ctrl.fun == prim_fc::USER_DATA_NO_CONF {
        (v, Seq::<FrameView>::empty(), c1, c2, false, data)
    } else if ctrl.fun == prim_fc::REQ_ACCESS || ctrl.fun == prim_fc::REQ_STATUS {
        let (v2, fs) = respond(v, sec_frame(v, sec_fc::RESP_STATUS, pending1));
        (v2, fs, c1, c2, false, None)
    } else if ctrl.fun == prim_fc::REQ_DATA1 {
        let (v2, fs, c1b, c2b) = class_data_spec(v, 1, c1, c2);
        (v2, fs, c1b, c2b, false, None)
    } else if ctrl.fun == prim_fc::REQ_DATA2 {
        let (v2, fs, c1b, c2b) = class_data_spec(v, 2, c1, c2);
        (v2, fs, c1b, c2b, false, None)
    } else {
        let (v2, fs) = respond(v, sec_frame(v, sec_fc::RESP_LINK_NI, false));
        (v2, fs, c1, c2, false, None)
    }
}

/// Complete the primary role's outstanding transaction: positively, the FCB
/// moves to the complement of the one sent, and a confirmed link reset opens
/// the transmit direction with FCB 1 next.
pub open spec fn prim_confirm_spec(v: ServerView, positive: bool) -> ServerView {
    if v.prim_out is None {
        v
    } else {
        let fcb1 = if positive && v.prim_out_ctrl.fcv {
            !v.prim_out_ctrl.fcb
        } else {
            v.prim_fcb
        };
        let (active, fcb) = if positive && v.prim_out_ctrl.fun == prim_fc::RESET_LINK {
            (true, true)
        } else {
            (v.prim_active, fcb1)
        };
        ServerView { prim_fcb: fcb, prim_active: active, prim_out: None, prim_retry: 0, prim_deadline: None, ..v }
    }
}

/// A response from the peer to this station's primary role: an
/// acknowledgement or status confirms it; "link service not available"
/// closes the transmit direction until a new reset after t1.
pub open spec fn peer_secondary_spec(v: ServerView, ctrl: ControlField, t1: Duration, now: u64) -> ServerView {
    if ctrl.fun == sec_fc::CONF_ACK || ctrl.fun == sec_fc::RESP_STATUS {
        prim_confirm_spec(v, true)
    } else if ctrl.fun == sec_fc::RESP_LINK_NF || ctrl.fun == sec_fc::RESP_LINK_NI {
        ServerView {
            prim_out: None,
            prim_retry: 0,
            prim_deadline: None,
            prim_active: false,
            prim_next_init: after(now, t1),
            ..v
        }
    } else {
        v
    }
}

/// How the secondary station handles one received frame: the state after,
/// the frames it sends, the class buffers after, whether the link became
/// active, and the ASDU to hand to the application.
///
/// `E5` confirms the primary role in balanced mode. Frames for another
/// station are ignored, as are secondary frames outside balanced mode. Among
/// the primary's FCV frames, one whose FCB is not the one expected is a
/// repeat: the previous response is sent again (an acknowledgement when there
/// is none) and nothing else happens; any other FCV frame toggles the
/// expected FCB before [`primary_request_spec`] answers it.
pub open spec fn server_frame_spec(
    v: ServerView,
    f: FrameView,
    c1: Seq<Asdu>,
    c2: Seq<Asdu>,
    balanced: bool,
    t1: Duration,
    now: u64,
) -> (ServerView, Seq<FrameView>, Seq<Asdu>, Seq<Asdu>, bool, Option<Seq<u8>>) {
    match f {
        FrameView::SingleCharAck => (
            if balanced {
                prim_confirm_spec(v, true)
            } else {
                v
            },
            Seq::<FrameView>::empty(),
            c1,
            c2,
            false,
            None,
        ),
        _ => {
            let addr = view_link_addr(f).unwrap();
            let ctrl = view_control(f).unwrap();
            if v.addr_size > 0 && !spec_addressed_to_us(v, addr) {
                (v, Seq::<FrameView>::empty(), c1, c2, false, None)
            } else if !ctrl.prm {
                (
                    if balanced {
                        peer_secondary_spec(v, ctrl, t1, now)
                    } else {
                        v
                    },
                    Seq::<FrameView>::empty(),
                    c1,
                    c2,
                    false,
                    None,
                )
            } else if ctrl.fcv && ctrl.fcb != v.fcb_expected {
                match v.last_resp {
                    Some(prev) => (v, seq![prev], c1, c2, false, None),
                    None => {
                        let (v1, fs) = respond(v, sec_frame(v, sec_fc::CONF_ACK, c1.len() > 0));
                        (v1, fs, c1, c2, false, None)
                    },
                }
            } else {
                let v1 = if ctrl.fcv {
                    ServerView { fcb_expected: !v.fcb_expected, ..v }
                } else {
                    v
                };
                primary_request_spec(v1, f, ctrl, c1, c2)
            }
        },
    }
}

/// The primary role's scheduler step in balanced mode: with a frame
/// outstanding, its deadline passing repeats it once (rearmed for t2) and
/// then gives the transmit direction up until a new reset after t1; with the
/// direction closed, a link reset goes out once `prim_next_init` is reached,
/// backing off two t1 before the next try; otherwise the next queued ASDU
/// goes out as confirmed user data with the primary role's FCB, an ASDU that
/// cannot be encoded being dropped.
pub open spec fn prim_tick_spec(v: ServerView, q: Seq<Asdu>, t1: Duration, t2: Duration, now: u64) -> (
    ServerView,
    Seq<FrameView>,
    Seq<Asdu>,
) {
    if v.prim_out is Some {
        if v.prim_deadline matches Some(d) && now >= d {
            if v.prim_retry < 1 {
                (
                    ServerView { prim_retry: v.prim_retry + 1, prim_deadline: Some(after(now, t2)), ..v },
                    seq![v.prim_out.unwrap()],
                    q,
                )
            } else {
                (
                    ServerView {
                        prim_out: None,
                        prim_retry: 0,
                        prim_deadline: None,
                        prim_active: false,
                        prim_next_init: after(now, t1),
                        ..v
                    },
                    Seq::<FrameView>::empty(),
                    q,
                )
            }
        } else {
            (v, Seq::<FrameView>::empty(), q)
        }
    } else if !v.prim_active {
        if now >= v.prim_next_init {
            let c = ControlField {
                dir: false,
                prm: true,
                fcb: false,
                fcv: false,
                acd: false,
                dfc: false,
                fun: prim_fc::RESET_LINK,
            };
            let f = FrameView::Fixed(c, v.link_addr);
            (
                ServerView {
                    prim_next_init: after(after(now, t1), t1),
                    prim_out: Some(f),
                    prim_out_ctrl: c,
                    prim_retry: 0,
                    prim_deadline: Some(after(now, t1)),
                    ..v
                },
                seq![f],
                q,
            )
        } else {
            (v, Seq::<FrameView>::empty(), q)
        }
    } else if q.len() == 0 {
        (v, Seq::<FrameView>::empty(), q)
    } else {
        match asdu_octets(q[0]) {
            None => (v, Seq::<FrameView>::empty(), q.drop_first()),
            Some(raw) => {
                let c = ControlField {
                    dir: false,
                    prm: true,
                    fcb: v.prim_fcb,
                    fcv: true,
                    acd: false,
                    dfc: false,
                    fun: prim_fc::USER_DATA_CONF,
                };
                let f = FrameView::Variable(c, v.link_addr, raw);
                (
                    ServerView {
                        prim_out: Some(f),
                        prim_out_ctrl: c,
                        prim_retry: 0,
                        prim_deadline: Some(after(now, t1)),
                        ..v
                    },
                    seq![f],
                    q.drop_first(),
                )
            },
        }
    }
}


impl SecondaryState {
    /// The state at the start of a connection: FCB 1 expected on the
    /// primary's first FCV frame, nothing sent, and the primary role's
    /// transmit direction closed but due to be opened now.
    pub fn new(cfg: &Config, now: u64) -> (s: SecondaryState)
        ensures
            initial_server(s@, *cfg, now),
            server_wf(s@),
    {
        SecondaryState {
            link_addr: cfg.link_address,
            addr_size: cfg.link_addr_size,
            fcb_expected: true,
            last_resp: None,
            prim_out: None,
            prim_out_ctrl: ControlField::secondary(0, false, false),
            prim_fcb: false,
            prim_active: false,
            prim_retry: 0,
            prim_deadline: None,
            prim_next_init: now,
        }
    }

    /// Whether the primary role's transmit direction is open.
    pub fn is_prim_active(&self) -> (b: bool)
        ensures
            b == self@.prim_active,
    {
        self.prim_active
    }

    /// When the outstanding primary-role frame times out.
    pub fn prim_deadline(&self) -> (d: Option<u64>)
        ensures
            d == self@.prim_deadline,
    {
        self.prim_deadline
    }

    /// Send a response and remember it, so a repeated request (FCB mismatch)
    /// is answered with exactly the same frame.
    fn send_resp(&mut self, frame: Frame, out: &mut Vec<Frame>)
        requires
            server_wf(old(self)@),
        ensures
            server_wf(final(self)@),
            ({
                let (v, fs) = respond(old(self)@, frame@);
                final(self)@ == v && sent(old(out)@, final(out)@, fs)
            }),
    {
        let ghost o0 = out@;
        self.last_resp = Some(frame.duplicate());
        out.push(frame);
        assert(out@.subrange(0, o0.len() as int) =~= o0);
    }

    /// A fixed response of this station.
    fn sec_frame(&self, fun: u8, acd: bool) -> (f: Frame)
        ensures
            f@ == sec_frame(self@, fun, acd),
    {
        Frame::Fixed { control: ControlField::secondary(fun, acd, false), link_addr: self.link_addr }
    }

    /// Answer a class 1 or class 2 poll with buffered data, or with
    /// "requested data not available" when there is none.
    fn respond_class_data(
        &mut self,
        class: u8,
        class1: &mut VecDeque<Asdu>,
        class2: &mut VecDeque<Asdu>,
        out: &mut Vec<Frame>,
    )
        requires
            server_wf(old(self)@),
        ensures
            server_wf(final(self)@),
            ({
                let (v, fs, c1, c2) = class_data_spec(old(self)@, class, old(class1)@, old(class2)@);
                final(self)@ == v && sent(old(out)@, final(out)@, fs) && final(class1)@ == c1 && final(class2)@ == c2
            }),
    {
        let a = match pop_class(class, class1, class2) {
            None => {
                let f = self.sec_frame(sec_fc::USER_DATA_NO_REP, false);
                self.send_resp(f, out);
                return;
            },
            Some(a) => a,
        };
        let pending1 = class1.len() > 0;
        match a.marshal_binary() {
            Err(_) => {
                let f = self.sec_frame(sec_fc::USER_DATA_NO_REP, pending1);
                self.send_resp(f, out);
            },
            Ok(raw) => {
                let f = Frame::Variable {
                    control: ControlField::secondary(sec_fc::USER_DATA_CONF, pending1, false),
                    link_addr: self.link_addr,
                    asdu: raw,
                };
                self.send_resp(f, out);
            },
        }
    }

    /// True when `addr` addresses this station, including the broadcast address.
    pub fn addressed_to_us(&self, addr: u16) -> (b: bool)
        ensures
            b == spec_addressed_to_us(self@, addr),
    {
        if self.addr_size == 1 {
            addr == self.link_addr || addr == 0x00ff
        } else if self.addr_size == 2 {
            addr == self.link_addr || addr == 0xffff
        } else {
            true
        }
    }

    /// Answer a primary frame that duplicate detection let through.
    fn handle_primary_request(
        &mut self,
        frame: &Frame,
        ctrl: ControlField,
        class1: &mut VecDeque<Asdu>,
        class2: &mut VecDeque<Asdu>,
        out: &mut Vec<Frame>,
    ) -> (o: Outcome)
        requires
            server_wf(old(self)@),
        ensures
            server_wf(final(self)@),
            ({
                let (v, fs, c1, c2, act, data) = primary_request_spec(
                    old(self)@,
                    frame@,
                    ctrl,
                    old(class1)@,
                    old(class2)@,
                );
                &&& final(self)@ == v && sent(old(out)@, final(out)@, fs)
                &&& final(class1)@ == c1 && final(class2)@ == c2
                &&& o.link_became_active == act
                &&& match data {
                    Some(d) => o.asdu matches Some(a) && a@ == d,
                    None => o.asdu is None,
                }
            }),
    {
        let ghost o0 = out@;
        let pending1 = class1.len() > 0;
        if ctrl.fun == prim_fc::RESET_LINK {
            self.fcb_expected = true;
            self.last_resp = None;
            let f = self.sec_frame(sec_fc::CONF_ACK, pending1);
            self.send_resp(f, out);
            Outcome { link_became_active: true, asdu: None }
        } else if ctrl.fun == prim_fc::RESET_USER || ctrl.fun == prim_fc::TEST_LINK {
            let f = self.sec_frame(sec_fc::CONF_ACK, pending1);
            self.send_resp(f, out);
            Outcome { link_became_active: false, asdu: None }
        } else if ctrl.fun == prim_fc::USER_DATA_CONF {
            if !ctrl.fcv {
                assert(out@.subrange(0, o0.len() as int) =~= o0);
                return Outcome { link_became_active: false, asdu: None };
            }
            let data = match frame.asdu() {
                Some(a) => Some(vstd::slice::slice_to_vec(a)),
                None => None,
            };
            let f = self.sec_frame(sec_fc::CONF_ACK, pending1);
            self.send_resp(f, out);
            Outcome { link_became_active: false, asdu: data }
        } else if ctrl.fun == prim_fc::USER_DATA_NO_CONF {
            let data = match frame.asdu() {
                Some(a) => Some(vstd::slice::slice_to_vec(a)),
                None => None,
            };
            assert(out@.subrange(0, o0.len() as int) =~= o0);
            Outcome { link_became_active: false, asdu: data }
        } else if ctrl.fun == prim_fc::REQ_ACCESS || ctrl.fun == prim_fc::REQ_STATUS {
            let f = self.sec_frame(sec_fc::RESP_STATUS, pending1);
            self.send_resp(f, out);
            Outcome { link_became_active: false, asdu: None }
        } else if ctrl.fun == prim_fc::REQ_DATA1 {
            self.respond_class_data(1, class1, class2, out);
            Outcome { link_became_active: false, asdu: None }
        } else if ctrl.fun == prim_fc::REQ_DATA2 {
            self.respond_class_data(2, class1, class2, out);
            Outcome { link_became_active: false, asdu: None }
        } else {
            let f = self.sec_frame(sec_fc::RESP_LINK_NI, false);
            self.send_resp(f, out);
            Outcome { link_became_active: false, asdu: None }
        }
    }

    /// Complete this station's outstanding primary-role transaction.
    pub fn prim_confirm(&mut self, positive: bool)
        requires
            server_wf(old(self)@),
        ensures
            server_wf(final(self)@),
            final(self)@ == prim_confirm_spec(old(self)@, positive),
    {
        if self.prim_out.is_none() {
            return;
        }
        if positive {
            if self.prim_out_ctrl.fcv {
                self.prim_fcb = !self.prim_out_ctrl.fcb;
            }
            if self.prim_out_ctrl.fun == prim_fc::RESET_LINK {
                self.prim_active = true;
                self.prim_fcb = true;
            }
        }
        self.prim_out = None;
        self.prim_retry = 0;
        self.prim_deadline = None;
    }

    /// Handle a response from the peer to this station's primary role.
    pub fn handle_peer_secondary_frame(&mut self, ctrl: ControlField, t1: Duration, now: u64)
        requires
            server_wf(old(self)@),
        ensures
            server_wf(final(self)@),
            final(self)@ == peer_secondary_spec(old(self)@, ctrl, t1, now),
    {
        if ctrl.fun == sec_fc::CONF_ACK || ctrl.fun == sec_fc::RESP_STATUS {
            self.prim_confirm(true);
        } else if ctrl.fun == sec_fc::RESP_LINK_NF || ctrl.fun == sec_fc::RESP_LINK_NI {
            self.prim_out = None;
            self.prim_retry = 0;
            self.prim_deadline = None;
            self.prim_active = false;
            self.prim_next_init = deadline(now, t1);
        }
    }

    /// Process one received frame. `balanced` and `t1` come from the link
    /// configuration.
    pub fn handle_frame(
        &mut self,
        frame: &Frame,
        class1: &mut VecDeque<Asdu>,
        class2: &mut VecDeque<Asdu>,
        balanced: bool,
        t1: Duration,
        now: u64,
        out: &mut Vec<Frame>,
    ) -> (o: Outcome)
        requires
            server_wf(old(self)@),
        ensures
            server_wf(final(self)@),
            ({
                let (v, fs, c1, c2, act, data) = server_frame_spec(
                    old(self)@,
                    frame@,
                    old(class1)@,
                    old(class2)@,
                    balanced,
                    t1,
                    now,
                );
                &&& final(self)@ == v && sent(old(out)@, final(out)@, fs)
                &&& final(class1)@ == c1 && final(class2)@ == c2
                &&& o.link_became_active == act
                &&& match data {
                    Some(d) => o.asdu matches Some(a) && a@ == d,
                    None => o.asdu is None,
                }
            }),
    {
        let ghost o0 = out@;
        match frame {
            Frame::SingleCharAck => {
                if balanced {
                    self.prim_confirm(true);
                }
                assert(out@.subrange(0, o0.len() as int) =~= o0);
                return Outcome { link_became_active: false, asdu: None };
            },
            _ => {},
        }
        let addr = match frame.link_addr() {
            Some(a) => a,
            None => 0,
        };
        let ctrl = match frame.control() {
            Some(c) => c,
            None => ControlField::secondary(0, false, false),
        };
        if self.addr_size > 0 && !self.addressed_to_us(addr) {
            assert(out@.subrange(0, o0.len() as int) =~= o0);
            return Outcome { link_became_active: false, asdu: None };
        }
        if !ctrl.prm {
            if balanced {
                self.handle_peer_secondary_frame(ctrl, t1, now);
            }
            assert(out@.subrange(0, o0.len() as int) =~= o0);
            return Outcome { link_became_active: false, asdu: None };
        }
        if ctrl.fcv {
            if ctrl.fcb != self.fcb_expected {
                match &self.last_resp {
                    Some(f) => {
                        out.push(f.duplicate());
                        assert(out@.subrange(0, o0.len() as int) =~= o0);
                    },
                    None => {
                        let pending1 = class1.len() > 0;
                        let f = self.sec_frame(sec_fc::CONF_ACK, pending1);
                        self.send_resp(f, out);
                    },
                }
                return Outcome { link_became_active: false, asdu: None };
            }
            self.fcb_expected = !self.fcb_expected;
        }
        self.handle_primary_request(frame, ctrl, class1, class2, out)
    }

    /// Send a confirmed primary-role frame and arm its deadline.
    fn prim_send_confirmed(&mut self, frame: Frame, t1: Duration, now: u64, out: &mut Vec<Frame>)
        requires
            server_wf(old(self)@),
            view_control(frame@) is Some,
        ensures
            server_wf(final(self)@),
            final(self)@ == (ServerView {
                prim_out: Some(frame@),
                prim_out_ctrl: view_control(frame@).unwrap(),
                prim_retry: 0,
                prim_deadline: Some(after(now, t1)),
                ..old(self)@
            }),
            sent_one(old(out)@, final(out)@, frame@),
    {
        let ghost o0 = out@;
        let ctrl = match frame.control() {
            Some(c) => c,
            None => ControlField::secondary(0, false, false),
        };
        out.push(frame.duplicate());
        self.prim_out = Some(frame);
        self.prim_out_ctrl = ctrl;
        self.prim_retry = 0;
        self.prim_deadline = Some(deadline(now, t1));
        assert(out@.subrange(0, o0.len() as int) =~= o0);
    }

    /// Supervise the balanced-mode primary role: initialization, response
    /// timeouts with one repetition, and transmission of queued data.
    pub fn prim_tick(&mut self, queue: &mut VecDeque<Asdu>, cfg: &Config, now: u64, out: &mut Vec<Frame>)
        requires
            server_wf(old(self)@),
        ensures
            server_wf(final(self)@),
            ({
                let (v, fs, q) = prim_tick_spec(
                    old(self)@,
                    old(queue)@,
                    cfg.timeout_response_t1,
                    cfg.timeout_repeat_t2,
                    now,
                );
                final(self)@ == v && sent(old(out)@, final(out)@, fs) && final(queue)@ == q
            }),
    {
        let ghost o0 = out@;
        let t1 = cfg.timeout_response_t1;
        if self.prim_out.is_some() {
            let expired = match self.prim_deadline {
                Some(d) => now >= d,
                None => false,
            };
            if expired {
                if self.prim_retry < 1 {
                    self.prim_retry = self.prim_retry + 1;
                    match &self.prim_out {
                        Some(f) => out.push(f.duplicate()),
                        None => {},
                    }
                    self.prim_deadline = Some(deadline(now, cfg.timeout_repeat_t2));
                } else {
                    self.prim_out = None;
                    self.prim_retry = 0;
                    self.prim_deadline = None;
                    self.prim_active = false;
                    self.prim_next_init = deadline(now, t1);
                }
            }
            assert(out@.subrange(0, o0.len() as int) =~= o0);
            return;
        }
        if !self.prim_active {
            if now >= self.prim_next_init {
                self.prim_next_init = deadline(deadline(now, t1), t1);
                let f = Frame::Fixed {
                    control: ControlField::primary(prim_fc::RESET_LINK, false, false, false),
                    link_addr: self.link_addr,
                };
                self.prim_send_confirmed(f, t1, now, out);
            } else {
                assert(out@.subrange(0, o0.len() as int) =~= o0);
            }
            return;
        }
        let next = match queue.pop_front() {
            None => {
                assert(out@.subrange(0, o0.len() as int) =~= o0);
                return;
            },
            Some(a) => a,
        };
        let raw = match next.marshal_binary() {
            Ok(v) => v,
            Err(_) => {
                assert(out@.subrange(0, o0.len() as int) =~= o0);
                return;
            },
        };
        let f = Frame::Variable {
            control: ControlField::primary(prim_fc::USER_DATA_CONF, true, self.prim_fcb, false),
            link_addr: self.link_addr,
            asdu: raw,
        };
        self.prim_send_confirmed(f, t1, now, out);
    }
}


/// A repeated request — an FCV frame whose FCB is not the one expected — is
/// answered with exactly the previous response and not acted on again: the
/// state and the class buffers stay, the link does not change, and no data
/// reaches the application.
pub proof fn repeated_request_gets_previous_response(
    v: ServerView,
    f: FrameView,
    c1: Seq<Asdu>,
    c2: Seq<Asdu>,
    balanced: bool,
    t1: Duration,
    now: u64,
)
    requires
        f !is SingleCharAck,
        v.addr_size == 0 || spec_addressed_to_us(v, view_link_addr(f).unwrap()),
        view_control(f).unwrap().prm,
        view_control(f).unwrap().fcv,
        view_control(f).unwrap().fcb != v.fcb_expected,
        v.last_resp is Some,
    ensures
        server_frame_spec(v, f, c1, c2, balanced, t1, now) == (v, seq![v.last_resp.unwrap()], c1, c2, false, None::<
            Seq<u8>,
        >),
{
}

/// The expected FCB alternates on every fresh FCV frame of the primary,
/// whatever its function code; a link reset makes FCB 1 expected next.
pub proof fn expected_fcb_alternates(
    v: ServerView,
    f: FrameView,
    c1: Seq<Asdu>,
    c2: Seq<Asdu>,
    balanced: bool,
    t1: Duration,
    now: u64,
)
    requires
        f !is SingleCharAck,
        v.addr_size == 0 || spec_addressed_to_us(v, view_link_addr(f).unwrap()),
        view_control(f).unwrap().prm,
        view_control(f).unwrap().fcv,
        view_control(f).unwrap().fcb == v.fcb_expected,
    ensures
        server_frame_spec(v, f, c1, c2, balanced, t1, now).0.fcb_expected == (if view_control(f).unwrap().fun
            == prim_fc::RESET_LINK {
            true
        } else {
            !v.fcb_expected
        }),
{
}

/// A link reset is acknowledged and activates the link, forgets the last
/// response and expects FCB 1 next; the acknowledgement's ACD tells whether
/// class 1 data is waiting.
pub proof fn reset_activates_link(v: ServerView, f: FrameView, c1: Seq<Asdu>, c2: Seq<Asdu>, balanced: bool, t1: Duration, now: u64)
    requires
        f !is SingleCharAck,
        v.addr_size == 0 || spec_addressed_to_us(v, view_link_addr(f).unwrap()),
        view_control(f).unwrap().prm,
        !view_control(f).unwrap().fcv,
        view_control(f).unwrap().fun == prim_fc::RESET_LINK,
    ensures
        ({
            let (v1, fs, c1b, c2b, act, data) = server_frame_spec(v, f, c1, c2, balanced, t1, now);
            &&& act
            &&& v1.fcb_expected
            &&& fs == seq![sec_frame(v, sec_fc::CONF_ACK, c1.len() > 0)]
            &&& v1.last_resp == Some(sec_frame(v, sec_fc::CONF_ACK, c1.len() > 0))
            &&& c1b == c1 && c2b == c2 && data is None
        }),
{
}

/// A class request takes the front of its own class, else the front of the
/// other class, and the answer's ACD tells whether class 1 data is still
/// waiting after it.
pub proof fn class_request_falls_back(v: ServerView, class: u8, c1: Seq<Asdu>, c2: Seq<Asdu>)
    requires
        class == 1 || class == 2,
        c1.len() + c2.len() > 0,
    ensures
        ({
            let (c1b, c2b, taken) = pop_class_spec(class, c1, c2);
            &&& taken is Some
            &&& c1b.len() + c2b.len() == c1.len() + c2.len() - 1
            &&& class == 2 && c2.len() > 0 ==> taken == Some(c2[0]) && c1b == c1
            &&& class == 2 && c2.len() == 0 ==> taken == Some(c1[0]) && c2b == c2
            &&& class == 1 && c1.len() > 0 ==> taken == Some(c1[0]) && c2b == c2
            &&& class == 1 && c1.len() == 0 ==> taken == Some(c2[0]) && c1b == c1
            &&& class_data_spec(v, class, c1, c2).1.len() == 1
            &&& view_control(class_data_spec(v, class, c1, c2).1[0]).unwrap().acd == (c1b.len() > 0)
        }),
{
}

/// The primary role repeats an unanswered frame once, unchanged, and then
/// closes its transmit direction until a new reset after t1.
pub proof fn primary_role_repeats_once(v: ServerView, q: Seq<Asdu>, t1: Duration, t2: Duration, now: u64)
    requires
        server_wf(v),
        v.prim_out is Some,
        v.prim_deadline matches Some(d) && now >= d,
    ensures
        ({
            let (v1, fs, q1) = prim_tick_spec(v, q, t1, t2, now);
            &&& q1 == q
            &&& v.prim_retry == 0 ==> fs == seq![v.prim_out.unwrap()] && v1.prim_out == v.prim_out && v1.prim_retry
                == 1
            &&& v.prim_retry == 1 ==> fs.len() == 0 && v1.prim_out is None && !v1.prim_active && v1.prim_next_init
                == after(now, t1)
        }),
{
}

} // verus!
