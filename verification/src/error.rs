//! The error type shared by every module.

use vstd::prelude::*;

verus! {

/// Everything that can go wrong while building, encoding or decoding an ASDU,
/// or while running the link layer.
#[derive(Debug, Clone, PartialEq, Eq)]
pub enum Error {
    /// The parameters (field widths) are out of range.
    Param,
    /// The cause of transmission is zero.
    CauseZero,
    /// The common address is zero.
    CommonAddrZero,
    /// The common address does not fit its configured width.
    CommonAddrFit,
    /// The ASDU is longer than the protocol allows.
    LengthOutOfRange,
    /// The type identification cannot be sized or is not supported.
    TypeIdentifier,
    /// The information object address does not fit its configured width.
    InfoObjAddrFit,
    /// The number of information objects does not fit the qualifier.
    InfoObjIndexFit,
    /// The interrogation group number is out of range.
    InroGroupNumFit,
    /// No information object was given.
    NotAnyObjInfo,
    /// The cause of transmission is not permitted for this type.
    CmdCause,
    /// The type identification does not belong to this family.
    TypeIdNotMatch,
    /// The payload ended before the element being read.
    UnexpectedEof,
    /// The payload is longer than its qualifier accounts for.
    TrailingOctets,
    /// A configuration value is invalid.
    Config(&'static str),
    /// A link-layer frame is malformed.
    Frame(&'static str),
    /// The connection is closed.
    UseClosedConnection,
    /// The send queue is full.
    SendQueueFull,
    /// A buffer is full.
    BufferFull,
    /// No response arrived within t1 after the repetitions.
    TimeoutT1,
    /// An I/O operation failed.
    Io(String),
}

/// The result type of this crate.
pub type Result<T> = core::result::Result<T, Error>;

} // verus!
