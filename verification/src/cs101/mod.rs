//! IEC 60870-5-101: the FT1.2 link layer — its configuration, its frames,
//! and the link procedures of the primary and the secondary station.

pub mod client;
pub mod config;
pub mod frame;
pub mod handler;
pub mod prim_fc;
pub mod sec_fc;
pub mod server;

pub use client::{ClientOption, LinkState, Outgoing, DEFAULT_RECONNECT_INTERVAL};
pub use config::{
    Config, Duration, Parity, SerialConfig, StopBits, TcpConfig, TransmissionMode, TransportType,
    DEFAULT_LINK_ADDR_SIZE, DEFAULT_MAX_APDU_LENGTH, DEFAULT_MAX_SEND_QUEUE_SIZE, DEFAULT_TCP_CONNECT_TIMEOUT,
    DEFAULT_TIMEOUT_REPEAT_T2, DEFAULT_TIMEOUT_RESPONSE_T1, DEFAULT_TIMEOUT_SEND_LINK_MSG, DEFAULT_TIMEOUT_TEST_T3,
};
pub use frame::{ControlField, Frame, MAX_FRAME_LEN, SINGLE_CHAR_ACK, START_FIXED, START_VARIABLE};
pub use server::SecondaryState;
