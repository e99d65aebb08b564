//! Violations of the protocol.

use vstd::prelude::*;
use crate::light_id::LightId;

verus! {

/// A violation of the protocol by the peer. None can be recovered from:
/// the connection is of no use after one.
#[derive(Debug, PartialEq, Eq, Copy, Clone, Structural)]
pub enum ProtocolError {
    /// The peer opened a channel under an identifier that is still tracked.
    CreatedTwice(LightId),
    /// The first payload on a channel of the peer was not a token.
    ExpectedNodeId(LightId),
    /// The payload that opens the peer's side of the handshake was not a
    /// handshake payload.
    ExpectedHandshake(LightId),
    /// During the handshake, a frame of another kind or for another channel
    /// than the one that the handshake waits for.
    UnexpectedFrame,
}

impl ProtocolError {
    /// What went wrong, in words.
    pub fn message(&self) -> (r: &'static str)
        ensures
            r@ == match self {
                ProtocolError::CreatedTwice(_) => "light id created twice"@,
                ProtocolError::ExpectedNodeId(_) => "expecting nodeid but received something else"@,
                ProtocolError::ExpectedHandshake(_) => "expecting handshake but received something else"@,
                ProtocolError::UnexpectedFrame => "unexpected frame during handshake"@,
            },
    {
        match self {
            ProtocolError::CreatedTwice(_) => "light id created twice",
            ProtocolError::ExpectedNodeId(_) => "expecting nodeid but received something else",
            ProtocolError::ExpectedHandshake(_) => "expecting handshake but received something else",
            ProtocolError::UnexpectedFrame => "unexpected frame during handshake",
        }
    }
}

} // verus!
