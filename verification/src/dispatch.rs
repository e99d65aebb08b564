//! The dispatcher: what one frame from the peer does to the tables.

use vstd::prelude::*;
use crate::connection::{Connection, ConnectionView};
use crate::error::ProtocolError;
use crate::frame::{ControlHeader, Frame, FrameView};
use crate::light_connection::ServerLightConnection;
use crate::light_id::LightId;
use crate::node_id::NodeId;

verus! {

/// What an [`Identity`] is, as plain values.
pub struct IdentityView {
    pub node_id: Seq<u8>,
    pub acked: Seq<LightId>,
}

/// What the transport's token check made of a payload: the token that the
/// payload decodes to, and the local channels whose own token that token
/// acknowledges. The library takes both as given.
#[derive(Debug)]
pub struct Identity {
    /// The token that the payload decodes to.
    pub node_id: NodeId,
    /// The local channels whose token `node_id` acknowledges, in any order.
    pub acked: Vec<LightId>,
}

impl View for Identity {
    type V = IdentityView;

    open spec fn view(&self) -> IdentityView {
        IdentityView { node_id: self.node_id@, acked: self.acked@ }
    }
}

/// The view of a token check that may be missing.
pub open spec fn identity_view(identity: Option<Identity>) -> Option<IdentityView> {
    match identity {
        Some(i) => Some(i@),
        None => None,
    }
}

/// What the dispatcher did with one frame. The last three are routing
/// misses: the payload was dropped and the tables were left as they were.
#[derive(Debug, PartialEq, Eq, Copy, Clone, Structural)]
pub enum Dispatch {
    /// The peer closed its channel, which is tracked no longer.
    Closed(LightId),
    /// The peer closed a channel that was not tracked.
    CloseUntracked(LightId),
    /// The peer opened a channel, which now awaits the peer's token.
    Created(LightId),
    /// A control frame of a kind that this layer does not handle.
    Unsupported(LightId),
    /// The peer's channel received its token. The second field is the
    /// local channel that the token answers, if there is one.
    Established(LightId, Option<LightId>),
    /// The payload on the peer's channel was appended to the local channel.
    Received(LightId, LightId),
    /// Data for a channel of the peer that is not tracked.
    UnknownChannel(LightId),
    /// Data on an established channel whose token answers no local channel.
    NotCorrelated(LightId),
    /// Data on an established channel whose token answers a local channel
    /// that is no longer open.
    ClientGone(LightId, LightId),
}

impl ConnectionView {
    /// Whether `k` is an open local channel that `acked` names.
    pub open spec fn acks(self, acked: Seq<LightId>, k: u32) -> bool {
        self.client_cons.contains_key(k) && acked.contains(LightId(k))
    }

    /// The open local channel with the smallest identifier among those that
    /// `acked` names, if there is one.
    pub open spec fn first_acked(self, acked: Seq<LightId>) -> Option<LightId> {
        if exists|k: u32| #[trigger] self.acks(acked, k) {
            Some(
                LightId(
                    choose|k: u32| #[trigger]
                        self.acks(acked, k) && forall|j: u32| #[trigger]
                            self.acks(acked, j) ==> k <= j,
                ),
            )
        } else {
            None
        }
    }

    /// The connection after the peer's channel `id` received its token:
    /// the channel is established, and the token is recorded for the first
    /// local channel that it acknowledges, if it acknowledges one.
    pub open spec fn established(self, id: u32, identity: IdentityView) -> ConnectionView {
        ConnectionView {
            server_cons: self.server_cons.insert(id, Some(identity.node_id)),
            map_to_client: match self.first_acked(identity.acked) {
                Some(z) => self.map_to_client.insert(identity.node_id, z),
                None => self.map_to_client,
            },
            ..self
        }
    }

    /// Where a payload on the established channel `id` of the peer, whose
    /// token is `token`, goes.
    pub open spec fn route(self, id: u32, token: Seq<u8>) -> Dispatch {
        if !self.map_to_client.contains_key(token) {
            Dispatch::NotCorrelated(LightId(id))
        } else if !self.client_cons.contains_key(self.map_to_client[token].0) {
            Dispatch::ClientGone(LightId(id), self.map_to_client[token])
        } else {
            Dispatch::Received(LightId(id), self.map_to_client[token])
        }
    }

    /// What the dispatcher answers to `frame`, given what the token check
    /// made of its payload.
    pub open spec fn dispatch_outcome(
        self,
        frame: FrameView,
        identity: Option<IdentityView>,
    ) -> Result<Dispatch, ProtocolError> {
        match frame {
            FrameView::Control(ControlHeader::CloseConnection, id) => Ok(
                if self.server_cons.contains_key(id) {
                    Dispatch::Closed(LightId(id))
                } else {
                    Dispatch::CloseUntracked(LightId(id))
                },
            ),
            FrameView::Control(ControlHeader::CreatedNewConnection, id) => if self.server_cons.contains_key(
                id,
            ) {
                Err(ProtocolError::CreatedTwice(LightId(id)))
            } else {
                Ok(Dispatch::Created(LightId(id)))
            },
            FrameView::Control(ControlHeader::Unsupported, id) => Ok(
                Dispatch::Unsupported(LightId(id)),
            ),
            FrameView::Data(id, _) => if !self.server_cons.contains_key(id) {
                Ok(Dispatch::UnknownChannel(LightId(id)))
            } else {
                match (self.server_cons[id], identity) {
                    (Some(token), _) => Ok(self.route(id, token)),
                    (None, Some(i)) => Ok(
                        Dispatch::Established(LightId(id), self.first_acked(i.acked)),
                    ),
                    (None, None) => Err(ProtocolError::ExpectedNodeId(LightId(id))),
                }
            },
        }
    }

    /// The connection after the dispatcher handled `frame`.
    pub open spec fn dispatched(
        self,
        frame: FrameView,
        identity: Option<IdentityView>,
    ) -> ConnectionView {
        match self.dispatch_outcome(frame, identity) {
            Ok(Dispatch::Closed(id)) => ConnectionView {
                server_cons: self.server_cons.remove(id.0),
                ..self
            },
            Ok(Dispatch::Created(id)) => ConnectionView {
                server_cons: self.server_cons.insert(id.0, None),
                ..self
            },
            Ok(Dispatch::Established(id, _)) => self.established(id.0, identity.unwrap()),
            Ok(Dispatch::Received(_, client)) => self.delivered(client, frame->Data_1),
            _ => self,
        }
    }
}

impl Connection {
    /// The open local channel with the smallest identifier among those that `acked` names.
    pub fn find_acked(&self, acked: &Vec<LightId>) -> (r: Option<LightId>)
        ensures
            r == self@.first_acked(acked@),
    {
        let mut best: Option<LightId> = None;
        let mut i: usize = 0;
        while i < acked.len()
            invariant
                i <= acked.len(),
                match best {
                    Some(b) => self@.acks(acked@, b.0) && forall|j: int|
                        0 <= j < i && self@.client_cons.contains_key((#[trigger] acked@[j]).0)
                            ==> b.0 <= acked@[j].0,
                    None => forall|j: int|
                        0 <= j < i ==> !self@.client_cons.contains_key((#[trigger] acked@[j]).0),
                },
            decreases acked.len() - i,
        {
            let candidate = acked[i];
            if self.has_client(candidate) {
                let better = match best {
                    Some(b) => candidate.0 < b.0,
                    None => true,
                };
                if better {
                    assert(acked@.contains(candidate));
                    best = Some(candidate);
                }
            }
            i = i + 1;
        }
        proof {
            match best {
                Some(b) => {
                    assert forall|j: u32| #[trigger] self@.acks(acked@, j) implies b.0 <= j by {
                        let at = choose|at: int| 0 <= at < acked@.len() && acked@[at] == LightId(j);
                        assert(acked@[at].0 == j);
                    }
                    let k = choose|k: u32| #[trigger]
                        self@.acks(acked@, k) && forall|j: u32| #[trigger]
                            self@.acks(acked@, j) ==> k <= j;
                    assert(k == b.0);
                },
                None => {
                    assert forall|k: u32| !#[trigger] self@.acks(acked@, k) by {
                        if self@.acks(acked@, k) {
                            let at = choose|at: int|
                                0 <= at < acked@.len() && acked@[at] == LightId(k);
                            assert(acked@[at].0 == k);
                        }
                    }
                },
            }
        }
        best
    }

    /// Handles one frame from the peer.
    ///
    /// A control frame opens or closes a channel of the peer. A data frame
    /// on a channel of the peer that awaits its token is that token, and
    /// `identity` holds what the token check made of it; on an established
    /// channel it is routed to the local channel that the peer's token
    /// answers. `identity` is read in the first of these cases only.
    pub fn broadcast(&mut self, frame: Frame, identity: Option<Identity>) -> (r: Result<
        Dispatch,
        ProtocolError,
    >)
        requires
            old(self).wf(),
        ensures
            final(self).wf(),
            r == old(self)@.dispatch_outcome(frame@, identity_view(identity)),
            final(self)@ == old(self)@.dispatched(frame@, identity_view(identity)),
    {
        match frame {
            Frame::Control(ControlHeader::CloseConnection, cid) => {
                let id = LightId(cid);
                if self.untrack_server(id) {
                    Ok(Dispatch::Closed(id))
                } else {
                    proof {
                        assert(old(self)@.server_cons.remove(cid) =~= old(self)@.server_cons);
                    }
                    Ok(Dispatch::CloseUntracked(id))
                }
            },
            Frame::Control(ControlHeader::CreatedNewConnection, cid) => {
                let id = LightId(cid);
                match self.server_state(id) {
                    Some(_) => Err(ProtocolError::CreatedTwice(id)),
                    None => {
                        self.track_server(id, ServerLightConnection::Establishing);
                        Ok(Dispatch::Created(id))
                    },
                }
            },
            Frame::Control(ControlHeader::Unsupported, cid) => Ok(Dispatch::Unsupported(LightId(cid))),
            Frame::Data(cid, payload) => {
                let id = LightId(cid);
                match self.server_state(id) {
                    None => Ok(Dispatch::UnknownChannel(id)),
                    Some(ServerLightConnection::Established(nodeid)) => {
                        match self.correlated(&nodeid) {
                            None => Ok(Dispatch::NotCorrelated(id)),
                            Some(client_id) => {
                                if self.deliver(client_id, payload.as_slice()) {
                                    Ok(Dispatch::Received(id, client_id))
                                } else {
                                    Ok(Dispatch::ClientGone(id, client_id))
                                }
                            },
                        }
                    },
                    Some(ServerLightConnection::Establishing) => {
                        match identity {
                            None => Err(ProtocolError::ExpectedNodeId(id)),
                            Some(found) => {
                                let client = self.find_acked(&found.acked);
                                self.track_server(
                                    id,
                                    ServerLightConnection::Established(found.node_id.clone()),
                                );
                                match client {
                                    None => {},
                                    Some(z) => {
                                        self.correlate(found.node_id, z);
                                    },
                                }
                                Ok(Dispatch::Established(id, client))
                            },
                        }
                    },
                }
            },
        }
    }
}

} // verus!
