//! The handshake: the exchange that opens a connection, before any command.

use vstd::prelude::*;
use crate::connection::{Connection, ConnectionView};
use crate::error::ProtocolError;
use crate::frame::{ControlHeader, Frame, FrameView, OutgoingView};
use crate::light_connection::{LightConnectionView, ServerLightConnection};
use crate::light_id::LightId;
use crate::node_id::NodeId;

verus! {

/// Where the handshake stands once this side has sent its part.
#[derive(Debug, PartialEq, Eq, Copy, Clone, Structural)]
pub enum Handshake {
    /// Waiting for the peer to open its channel.
    AwaitCreation,
    /// Waiting for the peer's handshake payload on the peer's channel.
    AwaitHandshake(LightId),
    /// Waiting for the peer's token on the peer's channel.
    AwaitNodeId(LightId),
    /// Over: the peer's channel is established.
    Done(LightId),
}

/// What a [`Reading`] is, as plain values.
pub enum ReadingView {
    Opaque,
    Handshake,
    NodeId(Seq<u8>),
}

/// What the codecs made of the payload of a data frame during the handshake.
#[derive(Debug, PartialEq, Eq)]
pub enum Reading {
    /// Nothing: the payload was not read, or is not what was looked for.
    Opaque,
    /// The payload decodes as a handshake payload.
    Handshake,
    /// The payload decodes as this token.
    NodeId(NodeId),
}

impl View for Reading {
    type V = ReadingView;

    open spec fn view(&self) -> ReadingView {
        match self {
            Reading::Opaque => ReadingView::Opaque,
            Reading::Handshake => ReadingView::Handshake,
            Reading::NodeId(n) => ReadingView::NodeId(n@),
        }
    }
}

/// Where the handshake stands after `frame` arrived in `state`, or the
/// violation that `frame` is.
pub open spec fn handshake_next(state: Handshake, frame: FrameView, reading: ReadingView) -> Result<
    Handshake,
    ProtocolError,
> {
    match (state, frame) {
        (Handshake::AwaitCreation, FrameView::Control(ControlHeader::CreatedNewConnection, id)) => Ok(
            Handshake::AwaitHandshake(LightId(id)),
        ),
        (Handshake::AwaitHandshake(peer), FrameView::Data(id, _)) => if id != peer.0 {
            Err(ProtocolError::UnexpectedFrame)
        } else if reading is Handshake {
            Ok(Handshake::AwaitNodeId(peer))
        } else {
            Err(ProtocolError::ExpectedHandshake(peer))
        },
        (Handshake::AwaitNodeId(peer), FrameView::Data(id, _)) => if id != peer.0 {
            Err(ProtocolError::UnexpectedFrame)
        } else if reading is NodeId {
            Ok(Handshake::Done(peer))
        } else {
            Err(ProtocolError::ExpectedNodeId(peer))
        },
        _ => Err(ProtocolError::UnexpectedFrame),
    }
}

impl ConnectionView {
    /// The connection after this side sent its part of the handshake: the
    /// payload `hs`, then the token `node_id`, on the first free channel.
    pub open spec fn handshake_sent(self, hs: Seq<u8>, node_id: Seq<u8>) -> ConnectionView {
        let id = LightId(self.first_free_id());
        ConnectionView {
            client_cons: self.client_cons.insert(
                id.0,
                LightConnectionView { id, node_id, received: None },
            ),
            outgoing: self.outgoing.push(OutgoingView::CreateLight(id.0)).push(
                OutgoingView::Data(id.0, hs),
            ).push(OutgoingView::Data(id.0, node_id)),
            ..self
        }
    }

    /// The connection after `frame` arrived in `state` of the handshake.
    /// Only the frame that ends the handshake changes anything: it
    /// establishes the peer's channel under the peer's token. The index is
    /// left alone.
    pub open spec fn handshake_stepped(
        self,
        state: Handshake,
        frame: FrameView,
        reading: ReadingView,
    ) -> ConnectionView {
        match handshake_next(state, frame, reading) {
            Ok(Handshake::Done(peer)) => ConnectionView {
                server_cons: self.server_cons.insert(peer.0, Some(reading->NodeId_0)),
                ..self
            },
            _ => self,
        }
    }
}

impl Connection {
    /// Sends this side's part of the handshake: on the first free channel,
    /// the request to create it, the handshake payload `hs` and the token
    /// `node_id`. Returns that channel. The peer's answer is then handed,
    /// frame by frame, to [`Connection::handshake_step`], from
    /// [`Handshake::AwaitCreation`] on.
    pub fn handshake(&mut self, hs: &[u8], node_id: NodeId) -> (r: LightId)
        requires
            old(self).wf(),
            old(self)@.has_free_id(crate::connection::FIRST_LIGHT_ID),
        ensures
            final(self).wf(),
            r.0 == old(self)@.first_free_id(),
            !r.is_reserved(),
            !old(self)@.client_cons.contains_key(r.0),
            !old(self)@.client_cons.contains_key(crate::connection::FIRST_LIGHT_ID) ==> r.0
                == crate::connection::FIRST_LIGHT_ID,
            final(self)@ == old(self)@.handshake_sent(hs@, node_id@),
    {
        let lcid = self.find_next_connection_id();
        self.create_light(lcid);
        self.send_bytes(lcid, hs);
        self.send_nodeid(lcid, &node_id);
        self.file_client(lcid, node_id);
        lcid
    }

    /// Takes one frame of the peer's answer during the handshake.
    ///
    /// The peer has to open a channel, send its handshake payload on it,
    /// then its token. `reading` holds what the codecs made of the payload
    /// of a data frame. Anything else is a violation, after which the
    /// handshake cannot go on.
    pub fn handshake_step(&mut self, state: Handshake, frame: Frame, reading: Reading) -> (r: Result<
        Handshake,
        ProtocolError,
    >)
        requires
            old(self).wf(),
        ensures
            final(self).wf(),
            r == handshake_next(state, frame@, reading@),
            final(self)@ == old(self)@.handshake_stepped(state, frame@, reading@),
    {
        match (state, frame) {
            (Handshake::AwaitCreation, Frame::Control(ControlHeader::CreatedNewConnection, cid)) => {
                Ok(Handshake::AwaitHandshake(LightId(cid)))
            },
            (Handshake::AwaitHandshake(peer), Frame::Data(cid, _)) => {
                if cid != peer.0 {
                    Err(ProtocolError::UnexpectedFrame)
                } else {
                    match reading {
                        Reading::Handshake => Ok(Handshake::AwaitNodeId(peer)),
                        _ => Err(ProtocolError::ExpectedHandshake(peer)),
                    }
                }
            },
            (Handshake::AwaitNodeId(peer), Frame::Data(cid, _)) => {
                if cid != peer.0 {
                    Err(ProtocolError::UnexpectedFrame)
                } else {
                    match reading {
                        Reading::NodeId(server_nodeid) => {
                            self.track_server(peer, ServerLightConnection::Established(server_nodeid));
                            Ok(Handshake::Done(peer))
                        },
                        _ => Err(ProtocolError::ExpectedNodeId(peer)),
                    }
                }
            },
            _ => Err(ProtocolError::UnexpectedFrame),
        }
    }
}

} // verus!
