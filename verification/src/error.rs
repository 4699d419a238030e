//! What can go wrong: at start, and in an operation on a handle.

use vstd::prelude::*;

verus! {

/// Why an operation on a handle failed.
#[derive(Clone, Debug, PartialEq, Eq)]
pub enum ClientError {
    /// The payload is larger than the session's limit. Nothing was sent.
    PacketSizeLimitExceeded,
    /// The engine has dropped its end of the channel. Nothing was sent.
    MpscSend,
}

/// Why the engine could not bring a session up.
#[derive(Clone, Debug, PartialEq, Eq)]
pub enum ConnectError {
    /// The broker answered the connection attempt with this return code.
    MqttConnectionRefused(u8),
    /// The transport could not be set up; the text is the engine's.
    Io(String),
    /// The engine refused the options.
    InvalidOptions,
}

} // verus!
