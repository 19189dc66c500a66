use std::collections::VecDeque;

use rs_iec60870_5::asdu::{
    Asdu, Cause, CauseOfTransmission, Identifier, TypeId, VariableStruct, PARAMS_STANDARD_101,
};
use rs_iec60870_5::cs101::client::Phase;
use rs_iec60870_5::cs101::server::{enqueue, pop_class, send_queue, SendQueue};
use rs_iec60870_5::cs101::{
    prim_fc, sec_fc, ClientOption, Config, ControlField, Duration, Frame, LinkState, Outgoing, SecondaryState,
    SerialConfig, TransmissionMode,
};
use rs_iec60870_5::Error;

fn asdu() -> Asdu {
    Asdu::new(
        PARAMS_STANDARD_101(),
        Identifier::new(
            TypeId::C_IC_NA_1(),
            VariableStruct::single(),
            CauseOfTransmission::new(Cause::ACTIVATION()),
            1,
        ),
    )
}

fn ack(fun: u8, acd: bool, dfc: bool) -> Frame {
    let mut control = ControlField::secondary(fun, acd, false);
    control.dfc = dfc;
    Frame::Fixed { control, link_addr: 1 }
}

/// A primary whose one secondary, at address 1, has been brought up by the
/// status request and the link reset.
fn primary() -> LinkState {
    let option = ClientOption::new();
    let mut link = LinkState::new(&option);
    let mut q: VecDeque<Outgoing> = VecDeque::new();
    let mut out = Vec::new();
    link.tick(&mut q, false, 0, &mut out);
    assert_eq!(out.len(), 1, "the status request");
    link.handle_frame(&ack(sec_fc::RESP_STATUS, false, false), false, 1, &mut out);
    assert_eq!(link.station(1).unwrap().phase, Phase::Reset);
    link.tick(&mut q, false, 2, &mut out);
    assert_eq!(out.len(), 2, "the link reset");
    let o = link.handle_frame(&ack(sec_fc::CONF_ACK, false, false), false, 3, &mut out);
    assert_eq!(o.newly_active, vec![1]);
    assert_eq!(link.station(1).unwrap().phase, Phase::Active);
    assert!(link.station(1).unwrap().fcb, "FCB 1 is due first after a reset");
    assert!(!link.is_busy());
    link
}

fn user_data(addr: u16) -> Frame {
    Frame::Variable {
        control: ControlField::secondary(sec_fc::USER_DATA_CONF, false, false),
        link_addr: addr,
        asdu: asdu().marshal_binary().unwrap(),
    }
}

fn poll(link: &mut LinkState, out: &mut Vec<Frame>) {
    link.send_prim_confirmed(1, prim_fc::REQ_DATA2, true, Duration::from_secs(1), 10, out);
}

#[test]
fn the_link_comes_up_by_status_and_reset() {
    let link = primary();
    assert!(link.any_active());
    assert_eq!(link.first_active(), Some(1));
}

#[test]
fn user_data_is_held_while_the_station_signals_dfc() {
    let mut link = primary();
    let mut q: VecDeque<Outgoing> = VecDeque::new();
    q.push_back(Outgoing { asdu: asdu(), addr: 1 });
    let mut out = Vec::new();
    poll(&mut link, &mut out);
    link.handle_frame(&ack(sec_fc::CONF_ACK, false, true), false, 11, &mut out);
    assert!(link.station(1).unwrap().busy, "the station reported DFC");

    out.clear();
    let sent = link.try_send_queued(&mut q, Duration::from_secs(1), 12, &mut out);
    assert!(!sent, "no user data may go out while DFC is set");
    assert_eq!(q.len(), 1, "and it stays queued");
    assert!(out.is_empty());
}

#[test]
fn queued_data_goes_out_once_the_station_clears_dfc() {
    let mut link = primary();
    let mut q: VecDeque<Outgoing> = VecDeque::new();
    q.push_back(Outgoing { asdu: asdu(), addr: 1 });
    let mut out = Vec::new();
    poll(&mut link, &mut out);
    link.handle_frame(&ack(sec_fc::CONF_ACK, false, true), false, 11, &mut out);
    assert!(!link.try_send_queued(&mut q, Duration::from_secs(1), 12, &mut out));

    poll(&mut link, &mut out);
    link.handle_frame(&ack(sec_fc::CONF_ACK, false, false), false, 13, &mut out);
    assert!(!link.station(1).unwrap().busy);

    out.clear();
    assert!(link.try_send_queued(&mut q, Duration::from_secs(1), 14, &mut out));
    assert!(q.is_empty(), "the ASDU went out");
    assert_eq!(out.len(), 1);
    assert_eq!(out[0].control().unwrap().fun, prim_fc::USER_DATA_CONF);
    assert_eq!(out[0].asdu(), Some(&asdu().marshal_binary().unwrap()[..]));
}

#[test]
fn a_busy_station_is_still_polled() {
    let mut link = primary();
    let mut out = Vec::new();
    poll(&mut link, &mut out);
    link.handle_frame(&ack(sec_fc::CONF_ACK, false, true), false, 11, &mut out);
    assert!(link.station(1).unwrap().busy);
    out.clear();
    let mut q: VecDeque<Outgoing> = VecDeque::new();
    link.tick(&mut q, false, 20, &mut out);
    assert_eq!(out.len(), 1, "the poll still goes out");
    assert_eq!(out[0].control().unwrap().fun, prim_fc::REQ_DATA2);
}

#[test]
fn the_answer_to_a_poll_is_delivered_once() {
    let mut link = primary();
    let mut out = Vec::new();
    poll(&mut link, &mut out);
    assert!(link.handle_frame(&user_data(1), false, 11, &mut out).deliver);
    assert!(!link.handle_frame(&user_data(1), false, 12, &mut out).deliver, "a repeated response was delivered twice");
}

#[test]
fn user_data_nobody_asked_for_is_not_delivered() {
    let mut link = primary();
    let mut out = Vec::new();
    assert!(!link.handle_frame(&user_data(1), false, 11, &mut out).deliver);
}

#[test]
fn user_data_from_an_unknown_station_is_not_delivered() {
    let mut link = primary();
    let mut out = Vec::new();
    poll(&mut link, &mut out);
    assert!(!link.handle_frame(&user_data(42), false, 11, &mut out).deliver);
    assert!(link.is_busy(), "the real answer is still awaited");
}

#[test]
fn user_data_answering_a_non_request_is_not_delivered() {
    let mut link = primary();
    let mut out = Vec::new();
    link.send_prim_confirmed(1, prim_fc::TEST_LINK, true, Duration::from_secs(1), 10, &mut out);
    assert!(!link.handle_frame(&user_data(1), false, 11, &mut out).deliver);
}

fn peer_user_data(fcb: bool, fcv: bool) -> Frame {
    Frame::Variable {
        control: ControlField::primary(prim_fc::USER_DATA_CONF, fcv, fcb, false),
        link_addr: 1,
        asdu: asdu().marshal_binary().unwrap(),
    }
}

#[test]
fn a_repeated_balanced_frame_is_acknowledged_but_not_delivered_again() {
    let mut link = LinkState::new(&ClientOption::new());
    let mut out = Vec::new();
    assert!(link.handle_frame(&peer_user_data(true, true), true, 0, &mut out).deliver);
    assert_eq!(out.len(), 1, "acknowledged");

    assert!(
        !link.handle_frame(&peer_user_data(true, true), true, 1, &mut out).deliver,
        "the repeat was delivered as new data"
    );
    assert_eq!(out.len(), 2, "the repeat is acknowledged again");

    assert!(link.handle_frame(&peer_user_data(false, true), true, 2, &mut out).deliver);
}

#[test]
fn a_balanced_frame_whose_fcv_contradicts_its_function_is_ignored() {
    let mut link = LinkState::new(&ClientOption::new());
    let mut out = Vec::new();
    assert!(!link.handle_frame(&peer_user_data(true, false), true, 0, &mut out).deliver);
    assert!(out.is_empty(), "not answered");
    // The expected FCB did not move: FCB 1 is still taken as new data.
    assert!(link.handle_frame(&peer_user_data(true, true), true, 1, &mut out).deliver);
}

#[test]
fn an_unanswered_frame_is_repeated_the_configured_number_of_times() {
    for repetitions in [0u8, 1, 3] {
        let cfg = Config { max_repetitions: repetitions, ..Config::default() };
        let mut link = primary();
        let mut out = Vec::new();
        poll(&mut link, &mut out);
        let first = out[0].clone();
        out.clear();

        for n in 0..repetitions {
            link.on_t1_timeout(&cfg, 100, &mut out).unwrap();
            assert_eq!(out.pop().unwrap(), first, "repetition {n} must be the same frame, FCB included");
        }
        assert_eq!(link.on_t1_timeout(&cfg, 200, &mut out), Err(Error::TimeoutT1));
        assert!(out.is_empty(), "no repetition beyond {repetitions}");
        assert_eq!(link.station(1).unwrap().phase, Phase::Status);
    }
}

#[test]
fn the_balanced_secondary_role_may_acknowledge_with_the_single_character() {
    let config = Config {
        use_single_char_ack: true,
        serial: SerialConfig::new("/dev/ttyS0", 9600),
        ..Config::default()
    };
    let option = ClientOption::new().with_config(config).unwrap();
    let mut link = LinkState::new(&option);
    let f = Frame::Fixed { control: ControlField::primary(prim_fc::RESET_LINK, false, false, false), link_addr: 1 };
    let mut out = Vec::new();
    link.handle_frame(&f, true, 0, &mut out);
    assert_eq!(out, vec![Frame::SingleCharAck]);
    assert_eq!(out[0].marshal(1).unwrap(), vec![rs_iec60870_5::cs101::SINGLE_CHAR_ACK]);
}

#[test]
fn the_fcb_alternates_across_confirmed_polls() {
    let mut link = primary();
    let mut q: VecDeque<Outgoing> = VecDeque::new();
    let mut out = Vec::new();
    let mut fcbs = Vec::new();
    for t in 0..4u64 {
        link.tick(&mut q, false, 100 + t, &mut out);
        fcbs.push(out.last().unwrap().control().unwrap().fcb);
        link.handle_frame(&ack(sec_fc::USER_DATA_NO_REP, false, false), false, 100 + t, &mut out);
    }
    assert_eq!(fcbs, vec![true, false, true, false]);
}

#[test]
fn the_response_timer_is_armed_and_cleared() {
    let mut link = primary();
    let mut out = Vec::new();
    link.send_prim_confirmed(1, prim_fc::REQ_DATA2, true, Duration::from_secs(2), 1000, &mut out);
    assert_eq!(link.t1_at(), Some(3000));
    link.handle_frame(&ack(sec_fc::CONF_ACK, false, false), false, 1500, &mut out);
    assert_eq!(link.t1_at(), None);
}

#[test]
fn access_demand_fetches_class_one_data_at_once() {
    let mut link = primary();
    let mut out = Vec::new();
    poll(&mut link, &mut out);
    link.handle_frame(&ack(sec_fc::USER_DATA_NO_REP, true, false), false, 11, &mut out);
    assert_eq!(out.last().unwrap().control().unwrap().fun, prim_fc::REQ_DATA1);
    assert!(link.station(1).unwrap().want_class1);
}

#[test]
fn an_idle_line_is_tested_and_a_manual_reset_restarts_the_station() {
    let cfg = Config::default();
    let mut link = primary();
    let mut out = Vec::new();
    link.on_t3_timeout(&cfg, 50, &mut out);
    assert_eq!(out.last().unwrap().control().unwrap().fun, prim_fc::TEST_LINK);
    link.handle_frame(&ack(sec_fc::CONF_ACK, false, false), false, 51, &mut out);
    link.handle_link_request(prim_fc::RESET_LINK, false, 52, &mut out);
    assert_eq!(out.last().unwrap().control().unwrap().fun, prim_fc::RESET_LINK);
    assert_eq!(link.station(1).unwrap().phase, Phase::Reset);
}

#[test]
fn client_options_keep_what_they_are_given() {
    let o = ClientOption::new().with_secondary_address(5).with_secondary_address(7).with_secondary_address(5);
    assert_eq!(o.addresses(), vec![5, 7]);
    assert_eq!(o.default_addr(), 5);
    let o = o.with_config(Config {
        mode: TransmissionMode::Balanced,
        serial: SerialConfig::new("COM1", 9600),
        ..Config::default()
    });
    let o = o.unwrap();
    assert_eq!(o.addresses(), vec![1], "balanced mode serves the configured address");
    let mut bad = PARAMS_STANDARD_101();
    bad.cause_size = 3;
    assert_eq!(ClientOption::new().with_params(bad).params(), PARAMS_STANDARD_101());
    assert_eq!(ClientOption::new().with_reconnect_interval(Duration::ZERO()).reconnect_interval(), Duration::from_secs(60));
    assert!(ClientOption::new().with_config(Config::default()).is_err());
}

// -- the secondary station --------------------------------------------------

fn serial_config() -> Config {
    Config { serial: SerialConfig::new("/dev/ttyS1", 9600), ..Config::default() }
}

fn request(fun: u8, fcv: bool, fcb: bool) -> Frame {
    Frame::Fixed { control: ControlField::primary(fun, fcv, fcb, false), link_addr: 1 }
}

#[test]
fn the_secondary_resets_and_answers_polls_from_its_buffers() {
    let cfg = serial_config();
    let mut s = SecondaryState::new(&cfg, 0);
    let mut c1: VecDeque<Asdu> = VecDeque::new();
    let mut c2: VecDeque<Asdu> = VecDeque::new();
    let mut out = Vec::new();
    let t1 = cfg.timeout_response_t1;

    let o = s.handle_frame(&request(prim_fc::RESET_LINK, false, false), &mut c1, &mut c2, false, t1, 0, &mut out);
    assert!(o.link_became_active);
    assert_eq!(out.pop().unwrap().control().unwrap().fun, sec_fc::CONF_ACK);

    c1.push_back(asdu());
    let o = s.handle_frame(&request(prim_fc::REQ_DATA2, true, true), &mut c1, &mut c2, false, t1, 1, &mut out);
    assert!(o.asdu.is_none());
    let resp = out.pop().unwrap();
    assert_eq!(resp.control().unwrap().fun, sec_fc::USER_DATA_CONF, "class 2 falls back to class 1");
    assert!(!resp.control().unwrap().acd, "no class 1 data left");
    assert!(c1.is_empty());

    let _ = s.handle_frame(&request(prim_fc::REQ_DATA2, true, false), &mut c1, &mut c2, false, t1, 2, &mut out);
    assert_eq!(out.pop().unwrap().control().unwrap().fun, sec_fc::USER_DATA_NO_REP);
}

#[test]
fn the_secondary_repeats_its_previous_response_to_a_repeated_request() {
    let cfg = serial_config();
    let mut s = SecondaryState::new(&cfg, 0);
    let mut c1: VecDeque<Asdu> = VecDeque::new();
    let mut c2: VecDeque<Asdu> = VecDeque::new();
    let mut out = Vec::new();
    let t1 = cfg.timeout_response_t1;
    s.handle_frame(&request(prim_fc::RESET_LINK, false, false), &mut c1, &mut c2, false, t1, 0, &mut out);
    c2.push_back(asdu());
    s.handle_frame(&request(prim_fc::REQ_DATA2, true, true), &mut c1, &mut c2, false, t1, 1, &mut out);
    let first = out.pop().unwrap();
    c2.push_back(asdu());
    // The same FCB again: the answer was lost, so it is sent again as it was,
    // and the newly buffered ASDU stays buffered.
    s.handle_frame(&request(prim_fc::REQ_DATA2, true, true), &mut c1, &mut c2, false, t1, 2, &mut out);
    assert_eq!(out.pop().unwrap(), first);
    assert_eq!(c2.len(), 1);
}

#[test]
fn the_secondary_delivers_user_data_and_ignores_other_stations() {
    let cfg = serial_config();
    let mut s = SecondaryState::new(&cfg, 0);
    let mut c1: VecDeque<Asdu> = VecDeque::new();
    let mut c2: VecDeque<Asdu> = VecDeque::new();
    let mut out = Vec::new();
    let t1 = cfg.timeout_response_t1;
    let data = asdu().marshal_binary().unwrap();
    let f = Frame::Variable {
        control: ControlField::primary(prim_fc::USER_DATA_CONF, true, true, false),
        link_addr: 1,
        asdu: data.clone(),
    };
    let o = s.handle_frame(&f, &mut c1, &mut c2, false, t1, 0, &mut out);
    assert_eq!(o.asdu, Some(data));
    assert_eq!(out.len(), 1, "acknowledged");

    let other = Frame::Fixed { control: ControlField::primary(prim_fc::REQ_STATUS, false, false, false), link_addr: 9 };
    s.handle_frame(&other, &mut c1, &mut c2, false, t1, 1, &mut out);
    assert_eq!(out.len(), 1, "another station's request is not answered");
    assert!(s.addressed_to_us(0xff), "the broadcast address is ours");
}

#[test]
fn the_balanced_primary_role_resets_then_sends_and_repeats_once() {
    let cfg = Config { mode: TransmissionMode::Balanced, ..serial_config() };
    let mut s = SecondaryState::new(&cfg, 0);
    let mut c1: VecDeque<Asdu> = VecDeque::new();
    let mut c2: VecDeque<Asdu> = VecDeque::new();
    let mut q: VecDeque<Asdu> = VecDeque::new();
    let mut out = Vec::new();
    s.prim_tick(&mut q, &cfg, 0, &mut out);
    assert_eq!(out.pop().unwrap().control().unwrap().fun, prim_fc::RESET_LINK);
    s.handle_frame(&Frame::SingleCharAck, &mut c1, &mut c2, true, cfg.timeout_response_t1, 1, &mut out);
    assert!(s.is_prim_active());

    q.push_back(asdu());
    s.prim_tick(&mut q, &cfg, 2, &mut out);
    let sent = out.pop().unwrap();
    assert!(sent.control().unwrap().fcb, "FCB 1 first after the reset");
    let deadline = s.prim_deadline().unwrap();
    s.prim_tick(&mut q, &cfg, deadline, &mut out);
    assert_eq!(out.pop().unwrap(), sent, "repeated unchanged");
    let deadline = s.prim_deadline().unwrap();
    s.prim_tick(&mut q, &cfg, deadline, &mut out);
    assert!(out.is_empty());
    assert!(!s.is_prim_active(), "given up after one repetition");
}

#[test]
fn outgoing_data_is_routed_and_bounded() {
    assert_eq!(send_queue(false, Cause::PERIODIC()), SendQueue::Class2);
    assert_eq!(send_queue(false, Cause::BACKGROUND()), SendQueue::Class2);
    assert_eq!(send_queue(false, Cause::SPONTANEOUS()), SendQueue::Class1);
    assert_eq!(send_queue(true, Cause::PERIODIC()), SendQueue::Primary);
    let mut q: VecDeque<u8> = VecDeque::new();
    assert_eq!(enqueue(&mut q, 1, 7), Ok(()));
    assert_eq!(enqueue(&mut q, 1, 8), Err(Error::SendQueueFull));
    assert_eq!(q.len(), 1);
    let mut c1: VecDeque<Asdu> = VecDeque::new();
    let mut c2: VecDeque<Asdu> = VecDeque::new();
    c2.push_back(asdu());
    assert!(pop_class(1, &mut c1, &mut c2).is_some(), "class 1 falls back to class 2");
    assert!(pop_class(1, &mut c1, &mut c2).is_none());
}

#[test]
fn the_line_is_reopened_only_when_asked_and_not_shutting_down() {
    assert!(rs_iec60870_5::cs101::client::should_reconnect(false, true));
    assert!(!rs_iec60870_5::cs101::client::should_reconnect(true, true));
    assert!(!rs_iec60870_5::cs101::client::should_reconnect(false, false));
    assert!(!rs_iec60870_5::cs101::client::should_reconnect(true, false));
}
