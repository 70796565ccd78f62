use vstd::prelude::*;

verus! {

/// Why a session ends early. Every one of these is fatal to the session.
#[derive(Clone, Copy, Debug, PartialEq, Eq, Structural)]
pub enum NetError {
    /// The transport reported a hard error.
    ConnectionLost,
    /// No byte moved for longer than the idle timeout.
    Timeout,
    /// A token or marker matched none of the values allowed at that point.
    InvalidProtocol,
    /// A string field did not hold well-formed UTF-8.
    InvalidText,
    /// The peer refused the opening handshake.
    NoServer,
}

impl NetError {
    /// A one-line description for diagnostics.
    pub fn message(&self) -> (r: &'static str) {
        match self {
            NetError::ConnectionLost => "Connection lost",
            NetError::Timeout => "Connection lost (timeout)",
            NetError::InvalidProtocol => "Invalid protocol",
            NetError::InvalidText => "Couldn't convert bytes to string",
            NetError::NoServer => "No server found",
        }
    }
}

} // verus!
