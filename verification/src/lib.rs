//! Serial session management: one logical serial-port session, opened
//! exclusively, read under a bounded timeout, with explicit detection of
//! physical disconnection.
//!
//! `port` holds the handle over one open device and the verified
//! classification of raw read results; `text` the UTF-8 decoding of received
//! bytes; `session` the state machine coordinating open, close and read, with
//! the proved laws of its transitions.

use vstd::prelude::*;

pub mod port;
pub mod session;
pub mod text;

verus! {

/// Baud rate every session is opened at.
pub const BAUD_RATE: u32 = 115200;

/// Read timeout, in milliseconds, for one read attempt.
pub const READ_TIMEOUT_MS: u64 = 10;

/// Size in bytes of the buffer used for one read attempt.
pub const READ_BUFFER_LEN: usize = 1024;

} // verus!
