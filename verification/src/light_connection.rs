//! The two ends of a light channel, as this side tracks them.

use vstd::prelude::*;
use crate::light_id::LightId;
use crate::node_id::NodeId;

verus! {

/// What a [`LightConnection`] is, as plain values.
pub struct LightConnectionView {
    /// The identifier of the channel.
    pub id: LightId,
    /// The bytes of the token that the channel was opened with.
    pub node_id: Seq<u8>,
    /// The bytes received and not yet consumed, if any arrived.
    pub received: Option<Seq<u8>>,
}

/// A channel opened by this side: its identifier, the token it was opened
/// with, and the bytes that arrived for it and were not consumed yet.
#[derive(Debug, PartialEq, Eq)]
pub struct LightConnection {
    id: LightId,
    node_id: NodeId,
    received: Option<Vec<u8>>,
}

impl View for LightConnection {
    type V = LightConnectionView;

    closed spec fn view(&self) -> LightConnectionView {
        LightConnectionView {
            id: self.id,
            node_id: self.node_id@,
            received: match self.received {
                Some(v) => Some(v@),
                None => None,
            },
        }
    }
}

impl Clone for LightConnection {
    fn clone(&self) -> (r: LightConnection)
        ensures
            r@ == self@,
    {
        let received = match &self.received {
            Some(v) => Some(crate::node_id::copy_bytes(v)),
            None => None,
        };
        LightConnection { id: self.id, node_id: self.node_id.clone(), received }
    }
}

impl LightConnection {
    /// A channel that this side opens under its own token.
    pub fn new_with_nodeid(id: LightId, node_id: NodeId) -> (r: LightConnection)
        ensures
            r@ == (LightConnectionView { id, node_id: node_id@, received: None }),
    {
        LightConnection { id, node_id, received: None }
    }

    /// A channel on which the token `node` is expected.
    pub fn new_expecting_nodeid(id: LightId, node: &NodeId) -> (r: LightConnection)
        ensures
            r@ == (LightConnectionView { id, node_id: node@, received: None }),
    {
        LightConnection { id, node_id: node.clone(), received: None }
    }

    /// The identifier of the channel.
    pub fn get_id(&self) -> (r: LightId)
        ensures
            r == self@.id,
    {
        self.id
    }

    /// The token that the channel was opened with.
    pub fn get_node_id(&self) -> (r: &NodeId)
        ensures
            r@ == self@.node_id,
    {
        &self.node_id
    }

    /// Whether anything arrived that was not consumed yet.
    pub fn pending_received(&self) -> (r: bool)
        ensures
            r == self@.received.is_some(),
    {
        self.received.is_some()
    }

    /// Whether at least one byte arrived that was not consumed yet.
    pub fn has_bytes(&self) -> (r: bool)
        ensures
            r == (self@.received matches Some(v) && v.len() > 0),
    {
        match &self.received {
            None => false,
            Some(v) => v.len() > 0,
        }
    }

    /// Hands out what arrived and leaves the buffer empty.
    pub fn get_received(&mut self) -> (r: Option<Vec<u8>>)
        ensures
            match r {
                Some(v) => old(self)@.received == Some(v@),
                None => old(self)@.received.is_none(),
            },
            final(self)@ == (LightConnectionView { received: None, ..old(self)@ }),
    {
        self.received.take()
    }

    /// Appends `bytes` to what arrived before, in the order of arrival.
    pub fn receive(&mut self, bytes: &[u8])
        ensures
            final(self)@ == (LightConnectionView {
                received: Some(
                    match old(self)@.received {
                        Some(v) => v + bytes@,
                        None => bytes@,
                    },
                ),
                ..old(self)@
            }),
    {
        let mut buffer = match self.get_received() {
            None => Vec::new(),
            Some(v) => v,
        };
        let ghost before = buffer@;
        let mut i: usize = 0;
        while i < bytes.len()
            invariant
                i <= bytes.len(),
                buffer@ == before + bytes@.take(i as int),
            decreases bytes.len() - i,
        {
            buffer.push(bytes[i]);
            i = i + 1;
            assert(buffer@ =~= before + bytes@.take(i as int));
        }
        assert(bytes@.take(bytes.len() as int) =~= bytes@);
        assert(Seq::<u8>::empty() + bytes@ =~= bytes@);
        self.received = Some(buffer);
    }
}

/// A channel opened by the peer. It is `Establishing` from the peer's
/// announcement until its token arrives, and `Established` from then on.
#[derive(Debug, PartialEq, Eq)]
pub enum ServerLightConnection {
    Establishing,
    Established(NodeId),
}

impl View for ServerLightConnection {
    /// `None` while establishing, the token's bytes once established.
    type V = Option<Seq<u8>>;

    open spec fn view(&self) -> Option<Seq<u8>> {
        match self {
            ServerLightConnection::Establishing => None,
            ServerLightConnection::Established(n) => Some(n@),
        }
    }
}

impl Clone for ServerLightConnection {
    fn clone(&self) -> (r: ServerLightConnection)
        ensures
            r@ == self@,
    {
        match self {
            ServerLightConnection::Establishing => ServerLightConnection::Establishing,
            ServerLightConnection::Established(n) => ServerLightConnection::Established(n.clone()),
        }
    }
}

} // verus!
