//! The one error type of the protocol layer.
//!
//! Every failed exchange is reported through `AudioMothError`, with one
//! variant per kind of failure, so callers can tell a channel fault from a
//! desynchronized device without parsing strings.

use vstd::prelude::*;

verus! {

/// What went wrong during one command exchange with the device.
#[derive(Debug, Clone, PartialEq, Eq)]
pub enum AudioMothError {
    /// The underlying channel failed to open, write, or read.
    /// The message of the channel is carried verbatim.
    Transport(String),
    /// The reply frame's tag byte does not equal the command code that was
    /// sent: the device is desynchronized or misbehaving.
    ProtocolMismatch,
    /// The exchange completed, but the channel handed back no usable data
    /// (a zero-length write or read).
    NoData,
    /// The battery query completed without usable data.
    BatteryReadFailed,
}

impl AudioMothError {
    /// A human-readable description of the error.
    pub fn message(&self) -> (r: String)
        ensures
            self matches AudioMothError::Transport(m) ==> r@ == m@,
            self is ProtocolMismatch ==> r@ == "reply type does not match the issued command"@,
            self is NoData ==> r@ == "no data exchanged with the device"@,
            self is BatteryReadFailed ==> r@ == "battery read failed"@,
    {
        match self {
            AudioMothError::Transport(m) => m.clone(),
            AudioMothError::ProtocolMismatch => "reply type does not match the issued command".to_owned(),
            AudioMothError::NoData => "no data exchanged with the device".to_owned(),
            AudioMothError::BatteryReadFailed => "battery read failed".to_owned(),
        }
    }
}

} // verus!
