//! IEC 60870-5-101/-104 application layer and the FT1.2 link layer of
//! IEC 60870-5-101, with the encodings and the link procedure verified.

pub mod asdu;
pub mod cs101;
pub mod error;
pub mod text;

pub use error::{Error, Result};
