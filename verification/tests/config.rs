use rs_iec60870_5::cs101::config::{
    Duration, DEFAULT_MAX_APDU_LENGTH, DEFAULT_MAX_SEND_QUEUE_SIZE, DEFAULT_TCP_CONNECT_TIMEOUT,
    DEFAULT_TIMEOUT_REPEAT_T2, DEFAULT_TIMEOUT_RESPONSE_T1, DEFAULT_TIMEOUT_SEND_LINK_MSG, DEFAULT_TIMEOUT_TEST_T3,
};
use rs_iec60870_5::cs101::{Config, SerialConfig, TransmissionMode, TransportType};
use rs_iec60870_5::Error;

fn serial_cfg() -> Config {
    Config { serial: SerialConfig::new("/dev/ttyUSB0", 9600), ..Default::default() }
}

#[test]
fn a_serial_config_needs_a_port_name() {
    let mut c = Config::default();
    assert!(c.valid().is_err());
    let mut c = serial_cfg();
    assert!(c.valid().is_ok());
}

#[test]
fn a_tcp_config_needs_an_address_and_gets_a_default_timeout() {
    let mut c = Config { transport: TransportType::TcpClient, ..Default::default() };
    assert!(c.valid().is_err());

    c.tcp.address = "10.0.0.9:2400".into();
    c.valid().unwrap();
    assert_eq!(c.tcp.connect_timeout, Some(DEFAULT_TCP_CONNECT_TIMEOUT()));
}

#[test]
fn zero_timings_take_the_defaults() {
    let mut c = Config {
        timeout_response_t1: Duration::ZERO(),
        timeout_repeat_t2: Duration::ZERO(),
        timeout_test_t3: Duration::ZERO(),
        timeout_send_link_msg: Duration::ZERO(),
        max_send_queue_size: 0,
        max_apdu_length: 0,
        ..serial_cfg()
    };
    c.valid().unwrap();
    assert_eq!(c.timeout_response_t1, DEFAULT_TIMEOUT_RESPONSE_T1());
    assert_eq!(c.timeout_repeat_t2, DEFAULT_TIMEOUT_REPEAT_T2());
    assert_eq!(c.timeout_test_t3, DEFAULT_TIMEOUT_TEST_T3());
    assert_eq!(c.timeout_send_link_msg, DEFAULT_TIMEOUT_SEND_LINK_MSG());
    assert_eq!(c.max_send_queue_size, DEFAULT_MAX_SEND_QUEUE_SIZE);
    assert_eq!(c.max_apdu_length, DEFAULT_MAX_APDU_LENGTH);
}

#[test]
fn t2_must_be_shorter_than_t1() {
    let mut c = Config {
        timeout_response_t1: Duration::from_secs(5),
        timeout_repeat_t2: Duration::from_secs(5),
        ..serial_cfg()
    };
    assert_eq!(c.valid(), Err(Error::Config("timeout t2 must be less than t1")));
}

#[test]
fn the_link_address_must_fit_its_configured_width() {
    let mut c = Config { link_addr_size: 1, link_address: 300, ..serial_cfg() };
    assert!(c.valid().is_err());

    let mut c = Config { link_addr_size: 2, link_address: 300, ..serial_cfg() };
    assert!(c.valid().is_ok());

    let mut c = Config { link_addr_size: 3, ..serial_cfg() };
    assert!(c.valid().is_err());
}

#[test]
fn out_of_range_timings_are_rejected() {
    for c in [
        Config { timeout_response_t1: Duration::from_secs(256), ..serial_cfg() },
        Config { timeout_test_t3: Duration::from_secs(172_801), ..serial_cfg() },
        Config { timeout_send_link_msg: Duration::from_secs(11), ..serial_cfg() },
    ] {
        let mut c = c;
        assert!(c.valid().is_err());
    }
}

#[test]
fn every_refusal_names_its_reason() {
    let mut c = Config::default();
    assert_eq!(c.valid(), Err(Error::Config("the serial port name must be configured")));
    let mut c = Config { serial: SerialConfig::new("COM3", 0), ..Default::default() };
    assert_eq!(c.valid(), Err(Error::Config("the serial baud rate must be positive")));
    let mut c = Config { transport: TransportType::TcpServer, ..Default::default() };
    assert_eq!(
        c.valid(),
        Err(Error::Config("the TCP address must be configured for a TCP transport"))
    );
    let mut c = Config { link_addr_size: 0, ..serial_cfg() };
    assert_eq!(c.valid(), Err(Error::Config("the link address size must be 1 or 2")));
    let mut c = Config { link_address: 256, ..serial_cfg() };
    assert_eq!(c.valid(), Err(Error::Config("the link address exceeds one octet")));
    let mut c = Config { timeout_response_t1: Duration::from_millis(999), ..serial_cfg() };
    assert_eq!(c.valid(), Err(Error::Config("timeout t1 not in [1, 255]s")));
    let mut c = Config { timeout_repeat_t2: Duration::from_secs(256), ..serial_cfg() };
    assert_eq!(c.valid(), Err(Error::Config("timeout t2 not in [1, 255]s")));
    let mut c = Config { timeout_test_t3: Duration::from_millis(500), ..serial_cfg() };
    assert_eq!(c.valid(), Err(Error::Config("timeout t3 not in [1 second, 48 hours]")));
    let mut c = Config { timeout_send_link_msg: Duration::from_secs(11), ..serial_cfg() };
    assert_eq!(
        c.valid(),
        Err(Error::Config("the link message send timeout is not in [1ms, 10s]"))
    );
    let mut c = Config { max_apdu_length: 254, ..serial_cfg() };
    assert_eq!(c.valid(), Err(Error::Config("the maximum APDU length is out of range")));
}

#[test]
fn defaults_are_taken_only_up_to_the_failing_check() {
    // t1 is defaulted before t2 is found out of range; t3 is never reached.
    let mut c = Config {
        timeout_response_t1: Duration::ZERO(),
        timeout_repeat_t2: Duration::from_secs(300),
        timeout_test_t3: Duration::ZERO(),
        ..serial_cfg()
    };
    assert!(c.valid().is_err());
    assert_eq!(c.timeout_response_t1, DEFAULT_TIMEOUT_RESPONSE_T1());
    assert_eq!(c.timeout_test_t3, Duration::ZERO());
}

#[test]
fn the_defaults_describe_a_standard_serial_line() {
    let c = Config::new();
    assert!(!c.is_balanced());
    assert_eq!(c.mode, TransmissionMode::Unbalanced);
    assert_eq!(c.link_address, 1);
    assert_eq!(c.transport_label(), "");
    let c = Config { mode: TransmissionMode::Balanced, ..serial_cfg() };
    assert!(c.is_balanced());
    assert_eq!(c.transport_label(), "/dev/ttyUSB0");
    let c = Config { transport: TransportType::TcpClient, ..serial_cfg() };
    assert_eq!(c.transport_label(), "");
    assert_eq!(TransportType::TcpClient.to_string(), "tcp-client");
    assert_eq!(TransportType::Serial.to_string(), "serial");
}

#[test]
fn durations_convert_exactly() {
    assert_eq!(Duration::from_millis(1500).as_secs(), 1);
    assert_eq!(Duration::from_millis(1500).subsec_nanos(), 500_000_000);
    assert_eq!(Duration::from_secs(3).as_millis(), 3000);
    assert!(Duration::from_millis(999).shorter_than(&Duration::from_secs(1)));
    assert!(!Duration::from_secs(1).shorter_than(&Duration::from_millis(1000)));
    assert!(Duration::ZERO().is_zero());
}
