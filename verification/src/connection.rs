//! The multiplexed connection: the channel tables and what changes them.

use std::collections::BTreeMap;
use vstd::prelude::*;
use crate::correlation::CorrelationIndex;
use crate::frame::{outgoing_view, Outgoing, OutgoingView};
use crate::light_connection::{LightConnection, LightConnectionView, ServerLightConnection};
use crate::light_id::{LightId, LIGHT_ID_MIN};
use crate::node_id::NodeId;

verus! {

/// The first identifier that a connection hands to a local channel.
pub const FIRST_LIGHT_ID: u32 = 0x401;

/// What a [`Connection`] is, as plain values.
pub struct ConnectionView {
    /// The channels that the peer opened, by the identifier that the peer
    /// gave them: `None` while establishing, the peer's token once established.
    pub server_cons: Map<u32, Option<Seq<u8>>>,
    /// The channels that this side opened, by their identifier.
    pub client_cons: Map<u32, LightConnectionView>,
    /// For a peer's token, the local channel that it answers.
    pub map_to_client: Map<Seq<u8>, LightId>,
    /// The identifier that the next command channel gets.
    pub next_light_id: LightId,
    /// The requests to the transport that were queued and not taken yet.
    pub outgoing: Seq<OutgoingView>,
}

impl ConnectionView {
    /// What holds of every connection: no local channel has a reserved
    /// identifier, each local channel is filed under its own identifier, and
    /// the counter never points into the reserved range.
    pub open spec fn wf(self) -> bool {
        &&& self.next_light_id.0 >= FIRST_LIGHT_ID
        &&& forall|k: u32| #[trigger]
            self.client_cons.contains_key(k) ==> k >= LIGHT_ID_MIN && self.client_cons[k].id.0 == k
    }

    /// Whether some identifier from `from` on is not in use by a local channel.
    pub open spec fn has_free_id(self, from: u32) -> bool {
        exists|k: u32| k >= from && !#[trigger] self.client_cons.contains_key(k)
    }

    /// The first identifier, from [`FIRST_LIGHT_ID`] on, that no local channel uses.
    pub open spec fn first_free_id(self) -> u32 {
        choose|k: u32|
            k >= FIRST_LIGHT_ID && !#[trigger] self.client_cons.contains_key(k) && forall|j: u32|
                FIRST_LIGHT_ID <= j < k ==> #[trigger] self.client_cons.contains_key(j)
    }

    /// The connection after the counter handed out its identifier.
    pub open spec fn allocated(self) -> ConnectionView {
        ConnectionView { next_light_id: LightId((self.next_light_id.0 + 1) as u32), ..self }
    }

    /// The connection after the counter handed out `n` identifiers in a row.
    pub open spec fn allocated_times(self, n: nat) -> ConnectionView
        decreases n,
    {
        if n == 0 {
            self
        } else {
            self.allocated_times((n - 1) as nat).allocated()
        }
    }

    /// The connection after `request` was queued for the transport.
    pub open spec fn queued(self, request: OutgoingView) -> ConnectionView {
        ConnectionView { outgoing: self.outgoing.push(request), ..self }
    }

    /// The connection after the local channel `id` was opened under the token `node_id`.
    pub open spec fn opened(self, id: LightId, node_id: Seq<u8>) -> ConnectionView {
        ConnectionView {
            client_cons: self.client_cons.insert(
                id.0,
                LightConnectionView { id, node_id, received: None },
            ),
            outgoing: self.outgoing.push(OutgoingView::CreateLight(id.0)).push(
                OutgoingView::Data(id.0, node_id),
            ),
            ..self
        }
    }

    /// The connection after the local channel `id` was closed.
    pub open spec fn closed(self, id: LightId) -> ConnectionView {
        ConnectionView { client_cons: self.client_cons.remove(id.0), ..self }
    }

    /// Whether the local channel `id` is open and holds at least one byte.
    pub open spec fn has_bytes_to_read(self, id: LightId) -> bool {
        &&& self.client_cons.contains_key(id.0)
        &&& self.client_cons[id.0].received matches Some(v) && v.len() > 0
    }

    /// The connection after `bytes` arrived for the open local channel `id`.
    pub open spec fn delivered(self, id: LightId, bytes: Seq<u8>) -> ConnectionView {
        let con = self.client_cons[id.0];
        ConnectionView {
            client_cons: self.client_cons.insert(
                id.0,
                LightConnectionView {
                    received: Some(
                        match con.received {
                            Some(v) => v + bytes,
                            None => bytes,
                        },
                    ),
                    ..con
                },
            ),
            ..self
        }
    }

    /// The connection after what the open local channel `id` held was consumed.
    pub open spec fn consumed(self, id: LightId) -> ConnectionView {
        ConnectionView {
            client_cons: self.client_cons.insert(
                id.0,
                LightConnectionView { received: None, ..self.client_cons[id.0] },
            ),
            ..self
        }
    }
}

/// The numbers of a list of identifiers, in order.
pub open spec fn numbers(ids: Seq<LightId>) -> Seq<u32> {
    ids.map_values(|id: LightId| id.0)
}

/// The views of the local channels of a table.
pub open spec fn client_views(m: Map<u32, LightConnection>) -> Map<u32, LightConnectionView> {
    m.map_values(|c: LightConnection| c@)
}

/// The views of the peer's channels of a table.
pub open spec fn server_views(m: Map<u32, ServerLightConnection>) -> Map<u32, Option<Seq<u8>>> {
    m.map_values(|c: ServerLightConnection| c@)
}

/// One connection to a peer, carrying many light channels. It owns the three
/// tables and the queue of requests for the transport. Nothing here reads or
/// writes a stream: the driver hands in what it read and performs what is queued.
#[derive(Debug)]
pub struct Connection {
    server_cons: BTreeMap<u32, ServerLightConnection>,
    client_cons: BTreeMap<u32, LightConnection>,
    map_to_client: CorrelationIndex,
    next_light_id: LightId,
    outgoing: Vec<Outgoing>,
}

impl View for Connection {
    type V = ConnectionView;

    closed spec fn view(&self) -> ConnectionView {
        ConnectionView {
            server_cons: server_views(self.server_cons@),
            client_cons: client_views(self.client_cons@),
            map_to_client: self.map_to_client@,
            next_light_id: self.next_light_id,
            outgoing: outgoing_view(self.outgoing@),
        }
    }
}

impl Connection {
    /// The connection's invariant: that of its view, and that of the index.
    pub closed spec fn wf(&self) -> bool {
        &&& self@.wf()
        &&& self.map_to_client.wf()
    }

    /// A well-formed connection has a well-formed view.
    pub proof fn lemma_wf_view(&self)
        requires
            self.wf(),
        ensures
            self@.wf(),
    {
    }

    /// A connection with no channel, whose first command channel will be [`FIRST_LIGHT_ID`].
    pub fn new() -> (r: Connection)
        ensures
            r.wf(),
            r@.has_free_id(FIRST_LIGHT_ID),
            r@ == (ConnectionView {
                server_cons: Map::empty(),
                client_cons: Map::empty(),
                map_to_client: Map::empty(),
                next_light_id: LightId(FIRST_LIGHT_ID),
                outgoing: Seq::empty(),
            }),
    {
        let r = Connection {
            server_cons: BTreeMap::new(),
            client_cons: BTreeMap::new(),
            map_to_client: CorrelationIndex::new(),
            next_light_id: LightId::new(FIRST_LIGHT_ID),
            outgoing: Vec::new(),
        };
        assert(r@.server_cons =~= Map::empty());
        assert(r@.client_cons =~= Map::empty());
        assert(r@.outgoing =~= Seq::empty());
        assert(!r@.client_cons.contains_key(FIRST_LIGHT_ID));
        r
    }

    /// The identifier that the next command channel gets.
    pub fn next_light_id(&self) -> (r: LightId)
        ensures
            r == self@.next_light_id,
    {
        self.next_light_id
    }

    /// The first identifier, from [`FIRST_LIGHT_ID`] on, that no open local channel uses.
    pub fn find_next_connection_id(&self) -> (r: LightId)
        requires
            self.wf(),
            self@.has_free_id(FIRST_LIGHT_ID),
        ensures
            r.0 == self@.first_free_id(),
            !r.is_reserved(),
            r.0 >= FIRST_LIGHT_ID,
            !self@.client_cons.contains_key(r.0),
            forall|j: u32| FIRST_LIGHT_ID <= j < r.0 ==> #[trigger] self@.client_cons.contains_key(j),
            !self@.client_cons.contains_key(FIRST_LIGHT_ID) ==> r.0 == FIRST_LIGHT_ID,
    {
        let mut x = LightId(FIRST_LIGHT_ID);
        while self.client_cons.contains_key(&x.0)
            invariant
                x.0 >= FIRST_LIGHT_ID,
                self@.has_free_id(x.0),
                forall|j: u32| FIRST_LIGHT_ID <= j < x.0 ==> #[trigger] self@.client_cons.contains_key(j),
            decreases u32::MAX - x.0,
        {
            proof {
                let k = choose|k: u32| k >= x.0 && !#[trigger] self@.client_cons.contains_key(k);
                assert(self@.client_cons.contains_key(x.0));
                assert(k > x.0);
            }
            x = x.next();
        }
        proof {
            assert(!self@.client_cons.contains_key(x.0));
            let c = self@.first_free_id();
            assert(c >= FIRST_LIGHT_ID && !self@.client_cons.contains_key(c) && forall|j: u32|
                FIRST_LIGHT_ID <= j < c ==> #[trigger] self@.client_cons.contains_key(j));
            if c < x.0 {
                assert(self@.client_cons.contains_key(c));
            } else if x.0 < c {
                assert(self@.client_cons.contains_key(x.0));
            }
        }
        x
    }

    /// Hands out the identifier for the next command channel and advances the counter.
    pub fn get_free_light_id(&mut self) -> (id: LightId)
        requires
            old(self).wf(),
            old(self)@.next_light_id.0 < u32::MAX,
        ensures
            final(self).wf(),
            id == old(self)@.next_light_id,
            !id.is_reserved(),
            final(self)@ == old(self)@.allocated(),
    {
        let id = self.next_light_id;
        self.next_light_id = id.next();
        id
    }

    /// The state of the peer's channel `id`, if it is tracked.
    pub fn server_state(&self, id: LightId) -> (r: Option<ServerLightConnection>)
        ensures
            match r {
                Some(state) => self@.server_cons.contains_key(id.0) && self@.server_cons[id.0]
                    == state@,
                None => !self@.server_cons.contains_key(id.0),
            },
    {
        match self.server_cons.get(&id.0) {
            Some(state) => Some(state.clone()),
            None => None,
        }
    }

    /// Whether the peer's channel `id` is tracked and its token has not arrived yet.
    pub fn is_establishing(&self, id: LightId) -> (r: bool)
        ensures
            r == (self@.server_cons.contains_key(id.0) && self@.server_cons[id.0].is_none()),
    {
        match self.server_cons.get(&id.0) {
            Some(ServerLightConnection::Establishing) => true,
            _ => false,
        }
    }

    /// Whether the local channel `id` is open.
    pub fn has_client(&self, id: LightId) -> (r: bool)
        ensures
            r == self@.client_cons.contains_key(id.0),
    {
        self.client_cons.contains_key(&id.0)
    }

    /// The token that the local channel `id` was opened with, if it is open.
    pub fn client_node_id(&self, id: LightId) -> (r: Option<NodeId>)
        ensures
            match r {
                Some(n) => self@.client_cons.contains_key(id.0) && self@.client_cons[id.0].node_id
                    == n@,
                None => !self@.client_cons.contains_key(id.0),
            },
    {
        match self.client_cons.get(&id.0) {
            Some(con) => Some(con.get_node_id().clone()),
            None => None,
        }
    }

    /// The open local channels, smallest identifier first.
    pub fn client_ids(&self) -> (r: Vec<LightId>)
        ensures
            crate::ordered::is_ascending_keys(numbers(r@), self@.client_cons.dom()),
    {
        let keys = crate::ordered::keys_in_order(&self.client_cons);
        let mut out: Vec<LightId> = Vec::new();
        let mut i: usize = 0;
        while i < keys.len()
            invariant
                i <= keys.len(),
                out@.len() == i,
                forall|j: int| 0 <= j < i ==> (#[trigger] out@[j]).0 == keys@[j],
            decreases keys.len() - i,
        {
            out.push(LightId(keys[i]));
            i = i + 1;
        }
        proof {
            assert(numbers(out@) =~= keys@);
            assert(self@.client_cons.dom() =~= self.client_cons@.dom());
        }
        out
    }

    /// The local channel recorded for the token `node_id`, if one is.
    pub fn correlated(&self, node_id: &NodeId) -> (r: Option<LightId>)
        requires
            self.wf(),
        ensures
            r == if self@.map_to_client.contains_key(node_id@) {
                Some(self@.map_to_client[node_id@])
            } else {
                None
            },
    {
        self.map_to_client.get(node_id)
    }
}

/// The steps on single tables, from which the operations of the protocol are made.
impl Connection {
    /// Queues the request to create the channel `id`.
    pub(crate) fn create_light(&mut self, id: LightId)
        requires
            old(self).wf(),
        ensures
            final(self).wf(),
            final(self)@ == old(self)@.queued(OutgoingView::CreateLight(id.0)),
    {
        self.outgoing.push(Outgoing::CreateLight(id.0));
        proof {
            assert(self@.outgoing =~= old(self)@.outgoing.push(OutgoingView::CreateLight(id.0)));
        }
    }

    /// Files the local channel `id`, opened under the token `node_id`.
    pub(crate) fn file_client(&mut self, id: LightId, node_id: NodeId)
        requires
            old(self).wf(),
            !id.is_reserved(),
        ensures
            final(self).wf(),
            final(self)@ == (ConnectionView {
                client_cons: old(self)@.client_cons.insert(
                    id.0,
                    LightConnectionView { id, node_id: node_id@, received: None },
                ),
                ..old(self)@
            }),
    {
        let lc = LightConnection::new_with_nodeid(id, node_id);
        self.client_cons.insert(id.0, lc);
        proof {
            assert(self@.client_cons =~= old(self)@.client_cons.insert(
                id.0,
                LightConnectionView { id, node_id: node_id@, received: None },
            ));
        }
    }

    /// Files the peer's channel `id` in the given state.
    pub(crate) fn track_server(&mut self, id: LightId, state: ServerLightConnection)
        requires
            old(self).wf(),
        ensures
            final(self).wf(),
            final(self)@ == (ConnectionView {
                server_cons: old(self)@.server_cons.insert(id.0, state@),
                ..old(self)@
            }),
    {
        self.server_cons.insert(id.0, state);
        proof {
            assert(self@.server_cons =~= old(self)@.server_cons.insert(id.0, state@));
        }
    }

    /// Drops the peer's channel `id`, and tells whether it was tracked.
    pub(crate) fn untrack_server(&mut self, id: LightId) -> (r: bool)
        requires
            old(self).wf(),
        ensures
            final(self).wf(),
            r == old(self)@.server_cons.contains_key(id.0),
            final(self)@ == (ConnectionView {
                server_cons: old(self)@.server_cons.remove(id.0),
                ..old(self)@
            }),
    {
        let removed = self.server_cons.remove(&id.0);
        proof {
            assert(self@.server_cons =~= old(self)@.server_cons.remove(id.0));
        }
        removed.is_some()
    }

    /// Appends `bytes` to what the local channel `id` holds, if it is open,
    /// and tells whether it was.
    pub(crate) fn deliver(&mut self, id: LightId, bytes: &[u8]) -> (r: bool)
        requires
            old(self).wf(),
        ensures
            final(self).wf(),
            r == old(self)@.client_cons.contains_key(id.0),
            final(self)@ == if r {
                old(self)@.delivered(id, bytes@)
            } else {
                old(self)@
            },
    {
        match self.client_cons.remove(&id.0) {
            None => {
                proof {
                    assert(self@.client_cons =~= old(self)@.client_cons);
                }
                false
            },
            Some(mut con) => {
                con.receive(bytes);
                self.client_cons.insert(id.0, con);
                proof {
                    assert(self@.client_cons =~= old(self)@.delivered(id, bytes@).client_cons);
                }
                true
            },
        }
    }

    /// Records the local channel `id` for the token `node_id`.
    pub(crate) fn correlate(&mut self, node_id: NodeId, id: LightId)
        requires
            old(self).wf(),
        ensures
            final(self).wf(),
            final(self)@ == (ConnectionView {
                map_to_client: old(self)@.map_to_client.insert(node_id@, id),
                ..old(self)@
            }),
    {
        self.map_to_client.insert(node_id, id);
    }
}

/// Opening and closing local channels, sending, and reading what arrived.
impl Connection {
    /// Opens the local channel `id` under the token `node_id`: queues the
    /// request to create the channel, then the token as the channel's first
    /// payload, and files the channel. A channel already filed under `id` is replaced.
    pub fn new_light_connection(&mut self, id: LightId, node_id: NodeId)
        requires
            old(self).wf(),
            !id.is_reserved(),
        ensures
            final(self).wf(),
            final(self)@ == old(self)@.opened(id, node_id@),
    {
        self.create_light(id);
        self.send_nodeid(id, &node_id);
        self.file_client(id, node_id);
    }

    /// Closes the local channel `id`. The peer is not told, and what the
    /// index holds for the channel stays.
    pub fn close_light_connection(&mut self, id: LightId)
        requires
            old(self).wf(),
        ensures
            final(self).wf(),
            final(self)@ == old(self)@.closed(id),
    {
        self.client_cons.remove(&id.0);
        proof {
            assert(self@.client_cons =~= old(self)@.closed(id).client_cons);
        }
    }

    /// Whether the local channel `id` is open and holds at least one byte.
    pub fn has_bytes_to_read(&self, id: LightId) -> (r: bool)
        ensures
            r == self@.has_bytes_to_read(id),
    {
        match self.client_cons.get(&id.0) {
            None => false,
            Some(con) => con.has_bytes(),
        }
    }

    /// Hands out what the local channel `id` holds and leaves its buffer
    /// empty, provided it holds at least one byte. Otherwise nothing changes
    /// and the caller has to let another frame in before asking again.
    pub fn wait_msg(&mut self, id: LightId) -> (r: Option<Vec<u8>>)
        requires
            old(self).wf(),
        ensures
            final(self).wf(),
            match r {
                Some(bytes) => {
                    &&& old(self)@.has_bytes_to_read(id)
                    &&& old(self)@.client_cons[id.0].received == Some(bytes@)
                    &&& final(self)@ == old(self)@.consumed(id)
                },
                None => !old(self)@.has_bytes_to_read(id) && final(self)@ == old(self)@,
            },
    {
        if !self.has_bytes_to_read(id) {
            return None;
        }
        match self.client_cons.remove(&id.0) {
            None => None,
            Some(mut con) => {
                let bytes = con.get_received();
                self.client_cons.insert(id.0, con);
                proof {
                    assert(self@.client_cons =~= old(self)@.consumed(id).client_cons);
                }
                bytes
            },
        }
    }

    /// Queues `bytes` for sending on the channel `id`.
    pub fn send_bytes(&mut self, id: LightId, bytes: &[u8])
        requires
            old(self).wf(),
        ensures
            final(self).wf(),
            final(self)@ == old(self)@.queued(OutgoingView::Data(id.0, bytes@)),
    {
        self.outgoing.push(Outgoing::Data(id.0, vstd::slice::slice_to_vec(bytes)));
        proof {
            assert(self@.outgoing =~= old(self)@.outgoing.push(OutgoingView::Data(id.0, bytes@)));
        }
    }

    /// Queues the token `nodeid` for sending on the channel `id`.
    pub fn send_nodeid(&mut self, id: LightId, nodeid: &NodeId)
        requires
            old(self).wf(),
        ensures
            final(self).wf(),
            final(self)@ == old(self)@.queued(OutgoingView::Data(id.0, nodeid@)),
    {
        self.outgoing.push(Outgoing::Data(id.0, crate::node_id::copy_bytes(nodeid.as_bytes())));
        proof {
            assert(self@.outgoing =~= old(self)@.outgoing.push(OutgoingView::Data(id.0, nodeid@)));
        }
    }

    /// Queues `bytes` for sending on the open local channel `id`, and
    /// returns the token that the channel was opened with.
    pub fn send_bytes_ack(&mut self, id: LightId, bytes: &[u8]) -> (r: NodeId)
        requires
            old(self).wf(),
            old(self)@.client_cons.contains_key(id.0),
        ensures
            final(self).wf(),
            final(self)@ == old(self)@.queued(OutgoingView::Data(id.0, bytes@)),
            r@ == old(self)@.client_cons[id.0].node_id,
    {
        let node_id = self.client_node_id(id).unwrap();
        self.send_bytes(id, bytes);
        node_id
    }

    /// Hands out the queued requests, oldest first, and leaves the queue empty.
    pub fn take_outgoing(&mut self) -> (r: Vec<Outgoing>)
        requires
            old(self).wf(),
        ensures
            final(self).wf(),
            outgoing_view(r@) == old(self)@.outgoing,
            final(self)@ == (ConnectionView { outgoing: Seq::empty(), ..old(self)@ }),
    {
        let mut taken: Vec<Outgoing> = Vec::new();
        std::mem::swap(&mut self.outgoing, &mut taken);
        proof {
            assert(self@.outgoing =~= Seq::empty());
        }
        taken
    }
}

} // verus!
