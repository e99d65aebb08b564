//! What holds of the connection across its operations.

use vstd::prelude::*;
use crate::connection::{ConnectionView, FIRST_LIGHT_ID};
use crate::dispatch::{Dispatch, IdentityView};
use crate::error::ProtocolError;
use crate::frame::FrameView;
use crate::handshake::{handshake_next, Handshake, ReadingView};
use crate::light_id::LightId;

verus! {

/// No open local channel has an identifier in the reserved range, and each
/// is filed under its own identifier.
pub proof fn lemma_local_ids_not_reserved(c: ConnectionView, k: u32)
    requires
        c.wf(),
        c.client_cons.contains_key(k),
    ensures
        !LightId(k).is_reserved(),
        c.client_cons[k].id == LightId(k),
{
}

/// Neither way of choosing an identifier for a local channel yields one in
/// the reserved range: not the counter, and not the search for the first
/// free identifier.
pub proof fn lemma_chosen_ids_not_reserved(c: ConnectionView)
    requires
        c.wf(),
    ensures
        !c.next_light_id.is_reserved(),
        c.has_free_id(FIRST_LIGHT_ID) ==> !LightId(c.first_free_id()).is_reserved()
            && !c.client_cons.contains_key(c.first_free_id()),
{
    if c.has_free_id(FIRST_LIGHT_ID) {
        lemma_first_free_id(c);
    }
}

/// Where some identifier is free, the first free identifier is free, is not
/// below the first identifier, and every identifier between the two is in use.
pub proof fn lemma_first_free_id(c: ConnectionView)
    requires
        c.has_free_id(FIRST_LIGHT_ID),
    ensures
        c.first_free_id() >= FIRST_LIGHT_ID,
        !c.client_cons.contains_key(c.first_free_id()),
        forall|j: u32| FIRST_LIGHT_ID <= j < c.first_free_id() ==> #[trigger] c.client_cons.contains_key(j),
{
    let free = choose|k: u32| k >= FIRST_LIGHT_ID && !#[trigger] c.client_cons.contains_key(k);
    let p = |k: u32| k >= FIRST_LIGHT_ID && !c.client_cons.contains_key(k);
    assert(p(free));
    lemma_least(p, free, free);
    let least = choose|m: u32| #[trigger] is_least(p, m);
    assert(!c.client_cons.contains_key(least));
    assert forall|j: u32| FIRST_LIGHT_ID <= j < least implies #[trigger] c.client_cons.contains_key(
        j,
    ) by {
        if !c.client_cons.contains_key(j) {
            assert(p(j));
        }
    }
}

/// Whether `m` is the least number of which `p` holds.
spec fn is_least(p: spec_fn(u32) -> bool, m: u32) -> bool {
    p(m) && forall|j: u32| #[trigger] p(j) ==> m <= j
}

/// Where a property holds of some number, it holds of a least one.
proof fn lemma_least(p: spec_fn(u32) -> bool, k: u32, bound: u32)
    requires
        p(k),
        bound <= k,
        forall|j: u32| bound <= j < k ==> !#[trigger] p(j),
    ensures
        exists|m: u32| #[trigger] is_least(p, m),
    decreases bound,
{
    if bound == 0 {
        assert(is_least(p, k));
    } else {
        let below = (bound - 1) as u32;
        if p(below) {
            lemma_least(p, below, below);
        } else {
            lemma_least(p, k, below);
        }
    }
}

/// After `n` identifiers were handed out, the counter stands `n` further.
/// Nothing else has changed.
pub proof fn lemma_allocated_times(c: ConnectionView, n: nat)
    requires
        c.next_light_id.0 + n <= u32::MAX,
    ensures
        c.allocated_times(n) == (ConnectionView {
            next_light_id: LightId((c.next_light_id.0 + n) as u32),
            ..c
        }),
    decreases n,
{
    if n > 0 {
        lemma_allocated_times(c, (n - 1) as nat);
    }
}

/// Identifiers handed out by the counter are strictly increasing: of two
/// allocations, the later one yields the larger identifier. So none repeats.
/// The identifier that the allocation after `n` others yields is the
/// counter's value after those `n`.
pub proof fn lemma_allocations_increase(c: ConnectionView, earlier: nat, later: nat)
    requires
        earlier < later,
        c.next_light_id.0 + later <= u32::MAX,
    ensures
        c.allocated_times(earlier).next_light_id.0 < c.allocated_times(later).next_light_id.0,
{
    lemma_allocated_times(c, earlier);
    lemma_allocated_times(c, later);
}

/// Only the counter's own step moves the counter: frames from the peer,
/// the handshake, opening and closing channels, sending and reading all
/// leave it where it is. So an identifier, once handed out, is handed out
/// to no later channel.
pub proof fn lemma_counter_moves_only_by_allocation(
    c: ConnectionView,
    frame: FrameView,
    identity: Option<IdentityView>,
    state: Handshake,
    reading: ReadingView,
    id: LightId,
    bytes: Seq<u8>,
)
    ensures
        c.dispatched(frame, identity).next_light_id == c.next_light_id,
        c.handshake_sent(bytes, bytes).next_light_id == c.next_light_id,
        c.handshake_stepped(state, frame, reading).next_light_id == c.next_light_id,
        c.opened(id, bytes).next_light_id == c.next_light_id,
        c.closed(id).next_light_id == c.next_light_id,
        c.queued(crate::frame::OutgoingView::Data(id.0, bytes)).next_light_id == c.next_light_id,
        c.delivered(id, bytes).next_light_id == c.next_light_id,
        c.consumed(id).next_light_id == c.next_light_id,
        c.next_light_id.0 < u32::MAX ==> c.allocated().next_light_id.0 == c.next_light_id.0 + 1,
{
}

/// A local channel that is opened and closed at once leaves no trace: it
/// is not among the local channels, the peer's channels are as before, and
/// the index is as before, also between the two steps.
pub proof fn lemma_open_then_close(c: ConnectionView, id: LightId, node_id: Seq<u8>)
    ensures
        !c.opened(id, node_id).closed(id).client_cons.contains_key(id.0),
        c.opened(id, node_id).closed(id).client_cons == c.client_cons.remove(id.0),
        c.opened(id, node_id).closed(id).server_cons == c.server_cons,
        c.opened(id, node_id).map_to_client == c.map_to_client,
        c.opened(id, node_id).closed(id).map_to_client == c.map_to_client,
        c.opened(id, node_id).closed(id).next_light_id == c.next_light_id,
{
    assert(c.opened(id, node_id).closed(id).client_cons =~= c.client_cons.remove(id.0));
}

/// Where `k` is an open local channel that `acked` names, and no such
/// channel has a smaller identifier, `k` is the first acknowledged channel.
pub proof fn lemma_first_acked_is(c: ConnectionView, acked: Seq<LightId>, k: u32)
    requires
        c.acks(acked, k),
        forall|j: u32| #[trigger] c.acks(acked, j) ==> k <= j,
    ensures
        c.first_acked(acked) == Some(LightId(k)),
{
    let chosen = choose|m: u32| #[trigger]
        c.acks(acked, m) && forall|j: u32| #[trigger] c.acks(acked, j) ==> m <= j;
    assert(c.acks(acked, chosen));
    assert(chosen == k);
}

/// There is a first acknowledged channel exactly where `acked` names an
/// open local channel; and the first one is open, named, and smallest.
pub proof fn lemma_first_acked(c: ConnectionView, acked: Seq<LightId>)
    ensures
        match c.first_acked(acked) {
            Some(z) => c.acks(acked, z.0) && forall|j: u32| #[trigger]
                c.acks(acked, j) ==> z.0 <= j,
            None => forall|j: u32| !#[trigger] c.acks(acked, j),
        },
{
    if exists|k: u32| #[trigger] c.acks(acked, k) {
        let k = choose|k: u32| #[trigger] c.acks(acked, k);
        let p = |k: u32| c.acks(acked, k);
        assert(p(k));
        lemma_least(p, k, k);
        let least = choose|m: u32| #[trigger] is_least(p, m);
        assert(c.acks(acked, least));
        assert forall|j: u32| #[trigger] c.acks(acked, j) implies least <= j by {
            assert(p(j));
        }
    }
}

/// The library draws no match of its own between tokens. Where the token
/// check names no open local channel, establishing a channel of the peer
/// records nothing in the index, whatever the peer's token is: also where
/// it is, byte for byte, the token of a local channel.
pub proof fn lemma_no_correlation_without_ack(c: ConnectionView, id: u32, identity: IdentityView)
    requires
        forall|k: u32| !#[trigger] c.acks(identity.acked, k),
    ensures
        c.first_acked(identity.acked).is_none(),
        c.established(id, identity).map_to_client == c.map_to_client,
        c.established(id, identity).server_cons == c.server_cons.insert(id, Some(identity.node_id)),
{
}

/// The dispatcher opens and closes no local channel, moves no counter and
/// sends nothing: whatever the frame, the set of local channels, the
/// counter and the queue are as before.
pub proof fn lemma_dispatch_keeps_local_side(
    c: ConnectionView,
    frame: FrameView,
    identity: Option<IdentityView>,
)
    ensures
        c.dispatched(frame, identity).client_cons.dom() == c.client_cons.dom(),
        c.dispatched(frame, identity).next_light_id == c.next_light_id,
        c.dispatched(frame, identity).outgoing == c.outgoing,
{
    assert(c.dispatched(frame, identity).client_cons.dom() =~= c.client_cons.dom());
}

/// A frame that the dispatcher cannot route, and one that violates the
/// protocol, change nothing.
pub proof fn lemma_miss_changes_nothing(
    c: ConnectionView,
    frame: FrameView,
    identity: Option<IdentityView>,
)
    requires
        match c.dispatch_outcome(frame, identity) {
            Ok(Dispatch::UnknownChannel(_)) => true,
            Ok(Dispatch::NotCorrelated(_)) => true,
            Ok(Dispatch::ClientGone(_, _)) => true,
            Ok(Dispatch::CloseUntracked(_)) => true,
            Ok(Dispatch::Unsupported(_)) => true,
            Ok(_) => false,
            Err(_) => true,
        },
    ensures
        c.dispatched(frame, identity) == c,
{
}

/// Data for a channel of the peer that is not tracked is never a
/// violation, and changes nothing.
pub proof fn lemma_unknown_channel(
    c: ConnectionView,
    id: u32,
    payload: Seq<u8>,
    identity: Option<IdentityView>,
)
    requires
        !c.server_cons.contains_key(id),
    ensures
        c.dispatch_outcome(FrameView::Data(id, payload), identity) == Ok::<Dispatch, ProtocolError>(
            Dispatch::UnknownChannel(LightId(id)),
        ),
        c.dispatched(FrameView::Data(id, payload), identity) == c,
{
}

/// Every step keeps the connection's invariant.
pub proof fn lemma_steps_keep_invariant(
    c: ConnectionView,
    frame: FrameView,
    identity: Option<IdentityView>,
    state: Handshake,
    reading: ReadingView,
    id: LightId,
    node_id: Seq<u8>,
)
    requires
        c.wf(),
    ensures
        c.dispatched(frame, identity).wf(),
        c.handshake_stepped(state, frame, reading).wf(),
        c.closed(id).wf(),
        !id.is_reserved() ==> c.opened(id, node_id).wf(),
        c.next_light_id.0 < u32::MAX ==> c.allocated().wf(),
        c.has_free_id(FIRST_LIGHT_ID) ==> c.handshake_sent(node_id, node_id).wf(),
{
    if c.has_free_id(FIRST_LIGHT_ID) {
        lemma_first_free_id(c);
    }
    lemma_first_acked(c, if identity.is_some() { identity.unwrap().acked } else { Seq::empty() });
}

/// The index only grows: no step removes what it holds for a token. A
/// frame from the peer adds at most the entry for the token it carries;
/// opening or closing a local channel, and the handshake, leave the index
/// as it is.
pub proof fn lemma_index_never_shrinks(
    c: ConnectionView,
    frame: FrameView,
    identity: Option<IdentityView>,
    state: Handshake,
    reading: ReadingView,
    id: LightId,
    node_id: Seq<u8>,
    token: Seq<u8>,
)
    requires
        c.map_to_client.contains_key(token),
    ensures
        c.dispatched(frame, identity).map_to_client.contains_key(token),
        !(identity matches Some(i) && i.node_id == token) ==> c.dispatched(
            frame,
            identity,
        ).map_to_client[token] == c.map_to_client[token],
        c.closed(id).map_to_client == c.map_to_client,
        c.opened(id, node_id).map_to_client == c.map_to_client,
        c.handshake_sent(node_id, node_id).map_to_client == c.map_to_client,
        c.handshake_stepped(state, frame, reading).map_to_client == c.map_to_client,
{
}

/// The handshake, when the peer answers as it should: after the peer
/// opened its channel, sent a handshake payload and then its token, the
/// handshake is over and the peer's channel is established under that
/// token. Nothing else has changed.
pub proof fn lemma_handshake_completes(
    c: ConnectionView,
    peer: u32,
    hello: Seq<u8>,
    raw_token: Seq<u8>,
    token: Seq<u8>,
)
    ensures
        ({
            let created = FrameView::Control(crate::frame::ControlHeader::CreatedNewConnection, peer);
            let first = handshake_next(Handshake::AwaitCreation, created, ReadingView::Opaque);
            let c1 = c.handshake_stepped(Handshake::AwaitCreation, created, ReadingView::Opaque);
            let second = handshake_next(first->Ok_0, FrameView::Data(peer, hello), ReadingView::Handshake);
            let c2 = c1.handshake_stepped(
                first->Ok_0,
                FrameView::Data(peer, hello),
                ReadingView::Handshake,
            );
            let third = handshake_next(
                second->Ok_0,
                FrameView::Data(peer, raw_token),
                ReadingView::NodeId(token),
            );
            let c3 = c2.handshake_stepped(
                second->Ok_0,
                FrameView::Data(peer, raw_token),
                ReadingView::NodeId(token),
            );
            &&& first == Ok::<Handshake, ProtocolError>(Handshake::AwaitHandshake(LightId(peer)))
            &&& second == Ok::<Handshake, ProtocolError>(Handshake::AwaitNodeId(LightId(peer)))
            &&& third == Ok::<Handshake, ProtocolError>(Handshake::Done(LightId(peer)))
            &&& c1 == c && c2 == c
            &&& c3 == (ConnectionView { server_cons: c.server_cons.insert(peer, Some(token)), ..c })
        }),
{
}

/// Data on an established channel of the peer whose token answers an
/// open local channel is appended to what that channel holds, and to
/// nothing else; once consumed, the channel holds nothing.
pub proof fn lemma_routed_data_is_read_once(
    c: ConnectionView,
    peer: u32,
    token: Seq<u8>,
    client: LightId,
    payload: Seq<u8>,
    identity: Option<IdentityView>,
)
    requires
        c.server_cons.contains_key(peer),
        c.server_cons[peer] == Some(token),
        c.map_to_client.contains_key(token),
        c.map_to_client[token] == client,
        c.client_cons.contains_key(client.0),
    ensures
        ({
            let after = c.dispatched(FrameView::Data(peer, payload), identity);
            let held = match c.client_cons[client.0].received {
                Some(v) => v + payload,
                None => payload,
            };
            &&& c.dispatch_outcome(FrameView::Data(peer, payload), identity) == Ok::<
                Dispatch,
                ProtocolError,
            >(Dispatch::Received(LightId(peer), client))
            &&& after.client_cons[client.0].received == Some(held)
            &&& forall|k: u32|
                k != client.0 && c.client_cons.contains_key(k) ==> #[trigger] after.client_cons[k]
                    == c.client_cons[k]
            &&& after.server_cons == c.server_cons
            &&& after.map_to_client == c.map_to_client
            &&& after.has_bytes_to_read(client) == (held.len() > 0)
            &&& after.consumed(client).client_cons[client.0].received.is_none()
            &&& !after.consumed(client).has_bytes_to_read(client)
        }),
{
}

} // verus!
