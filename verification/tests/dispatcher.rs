use protocol::connection::Connection;
use protocol::dispatch::{Dispatch, Identity};
use protocol::error::ProtocolError;
use protocol::frame::{ControlHeader, Frame, FrameHeader, Outgoing};
use protocol::light_connection::ServerLightConnection;
use protocol::light_id::LightId;
use protocol::node_id::NodeId;

fn syn() -> NodeId {
    NodeId::new(vec![0x53, 0, 0, 0, 0, 0, 0, 0, 7])
}

fn ack() -> NodeId {
    NodeId::new(vec![0x41, 0, 0, 0, 0, 0, 0, 0, 7])
}

fn created(id: u32) -> Frame {
    Frame::Control(ControlHeader::CreatedNewConnection, id)
}

fn closed(id: u32) -> Frame {
    Frame::Control(ControlHeader::CloseConnection, id)
}

/// A connection with the local channels 0x401 and 0x402 open, and the peer's
/// channel 7 established and answering 0x402.
fn routed() -> Connection {
    let mut c = Connection::new();
    let first = c.get_free_light_id();
    let second = c.get_free_light_id();
    c.new_light_connection(first, NodeId::new(vec![0x53, 1]));
    c.new_light_connection(second, syn());
    assert_eq!(c.broadcast(created(7), None), Ok(Dispatch::Created(LightId(7))));
    let found = Identity { node_id: ack(), acked: vec![LightId(0x402)] };
    assert_eq!(
        c.broadcast(Frame::Data(7, vec![0x41, 0, 0, 0, 0, 0, 0, 0, 7]), Some(found)),
        Ok(Dispatch::Established(LightId(7), Some(LightId(0x402))))
    );
    c.take_outgoing();
    c
}

#[test]
fn header_tells_how_many_bytes_follow() {
    assert_eq!(FrameHeader::Data(99, 5).payload_len(), 5);
    assert_eq!(FrameHeader::Data(7, 0).payload_len(), 0);
    assert_eq!(FrameHeader::Data(7, u32::MAX).payload_len(), u32::MAX);
    assert_eq!(FrameHeader::Control(ControlHeader::CreatedNewConnection, 7).payload_len(), 0);
    assert_eq!(FrameHeader::Control(ControlHeader::CloseConnection, 7).payload_len(), 0);
    assert_eq!(FrameHeader::Control(ControlHeader::Unsupported, 7).payload_len(), 0);
}

#[test]
fn frame_is_assembled_from_header_and_payload() {
    assert_eq!(
        Frame::assemble(FrameHeader::Data(7, 3), vec![1, 2, 3]),
        Frame::Data(7, vec![1, 2, 3])
    );
    assert_eq!(
        Frame::assemble(FrameHeader::Control(ControlHeader::CloseConnection, 9), Vec::new()),
        Frame::Control(ControlHeader::CloseConnection, 9)
    );
}

#[test]
fn created_frame_tracks_the_channel_as_establishing() {
    let mut c = Connection::new();
    assert!(!c.is_establishing(LightId(7)));
    assert_eq!(c.broadcast(created(7), None), Ok(Dispatch::Created(LightId(7))));
    assert_eq!(c.server_state(LightId(7)), Some(ServerLightConnection::Establishing));
    assert!(c.is_establishing(LightId(7)));
    assert_eq!(c.server_state(LightId(8)), None);
}

#[test]
fn duplicate_channel_creation_is_a_violation() {
    let mut c = Connection::new();
    assert_eq!(c.broadcast(created(7), None), Ok(Dispatch::Created(LightId(7))));
    assert_eq!(c.broadcast(created(7), None), Err(ProtocolError::CreatedTwice(LightId(7))));
    assert_eq!(c.server_state(LightId(7)), Some(ServerLightConnection::Establishing));
}

#[test]
fn creation_of_an_established_channel_is_a_violation() {
    let mut c = routed();
    assert_eq!(c.broadcast(created(7), None), Err(ProtocolError::CreatedTwice(LightId(7))));
    assert_eq!(c.server_state(LightId(7)), Some(ServerLightConnection::Established(ack())));
}

#[test]
fn close_frame_drops_the_channel_in_any_state() {
    let mut c = routed();
    assert_eq!(c.broadcast(created(8), None), Ok(Dispatch::Created(LightId(8))));
    assert_eq!(c.broadcast(closed(8), None), Ok(Dispatch::Closed(LightId(8))));
    assert_eq!(c.broadcast(closed(7), None), Ok(Dispatch::Closed(LightId(7))));
    assert_eq!(c.server_state(LightId(7)), None);
    assert_eq!(c.server_state(LightId(8)), None);
    // the identifier can be used again
    assert_eq!(c.broadcast(created(7), None), Ok(Dispatch::Created(LightId(7))));
}

#[test]
fn close_frame_for_an_untracked_channel_is_not_fatal() {
    let mut c = Connection::new();
    assert_eq!(c.broadcast(closed(7), None), Ok(Dispatch::CloseUntracked(LightId(7))));
    assert_eq!(c.server_state(LightId(7)), None);
}

#[test]
fn other_control_frames_are_ignored() {
    let mut c = routed();
    assert_eq!(
        c.broadcast(Frame::Control(ControlHeader::Unsupported, 7), None),
        Ok(Dispatch::Unsupported(LightId(7)))
    );
    assert_eq!(c.server_state(LightId(7)), Some(ServerLightConnection::Established(ack())));
    assert_eq!(c.client_ids(), vec![LightId(0x401), LightId(0x402)]);
}

#[test]
fn first_data_frame_establishes_and_correlates() {
    let c = routed();
    assert_eq!(c.server_state(LightId(7)), Some(ServerLightConnection::Established(ack())));
    assert!(!c.is_establishing(LightId(7)));
    assert_eq!(c.correlated(&ack()), Some(LightId(0x402)));
    assert_eq!(c.correlated(&syn()), None);
    assert!(!c.has_bytes_to_read(LightId(0x402)));
}

#[test]
fn data_is_routed_to_the_correlated_channel_and_read_once() {
    let mut c = routed();
    assert_eq!(
        c.broadcast(Frame::Data(7, vec![10, 20, 30, 40, 50]), None),
        Ok(Dispatch::Received(LightId(7), LightId(0x402)))
    );
    assert!(c.has_bytes_to_read(LightId(0x402)));
    assert!(!c.has_bytes_to_read(LightId(0x401)));
    assert_eq!(c.wait_msg(LightId(0x402)), Some(vec![10, 20, 30, 40, 50]));
    assert!(!c.has_bytes_to_read(LightId(0x402)));
    assert_eq!(c.wait_msg(LightId(0x402)), None);
    assert!(c.has_client(LightId(0x402)));
}

#[test]
fn successive_payloads_are_appended() {
    let mut c = routed();
    assert_eq!(c.broadcast(Frame::Data(7, vec![1, 2]), None), Ok(Dispatch::Received(LightId(7), LightId(0x402))));
    assert_eq!(c.broadcast(Frame::Data(7, vec![]), None), Ok(Dispatch::Received(LightId(7), LightId(0x402))));
    assert_eq!(c.broadcast(Frame::Data(7, vec![3]), None), Ok(Dispatch::Received(LightId(7), LightId(0x402))));
    assert_eq!(c.wait_msg(LightId(0x402)), Some(vec![1, 2, 3]));
}

#[test]
fn empty_payload_alone_does_not_end_a_wait() {
    let mut c = routed();
    assert_eq!(c.broadcast(Frame::Data(7, vec![]), None), Ok(Dispatch::Received(LightId(7), LightId(0x402))));
    assert!(!c.has_bytes_to_read(LightId(0x402)));
    assert_eq!(c.wait_msg(LightId(0x402)), None);
}

#[test]
fn identity_is_not_read_on_an_established_channel() {
    let mut c = routed();
    let stray = Identity { node_id: NodeId::new(vec![1]), acked: vec![LightId(0x401)] };
    assert_eq!(
        c.broadcast(Frame::Data(7, vec![5]), Some(stray)),
        Ok(Dispatch::Received(LightId(7), LightId(0x402)))
    );
    assert_eq!(c.server_state(LightId(7)), Some(ServerLightConnection::Established(ack())));
    assert_eq!(c.correlated(&NodeId::new(vec![1])), None);
}

#[test]
fn data_for_an_unknown_channel_is_dropped() {
    let mut c = routed();
    assert_eq!(
        c.broadcast(Frame::Data(99, vec![1, 2, 3]), None),
        Ok(Dispatch::UnknownChannel(LightId(99)))
    );
    assert_eq!(c.server_state(LightId(99)), None);
    assert!(!c.has_bytes_to_read(LightId(0x401)));
    assert!(!c.has_bytes_to_read(LightId(0x402)));
    // the next frame is handled as if nothing had happened
    assert_eq!(
        c.broadcast(Frame::Data(7, vec![4]), None),
        Ok(Dispatch::Received(LightId(7), LightId(0x402)))
    );
    assert_eq!(c.take_outgoing(), Vec::<Outgoing>::new());
}

#[test]
fn token_that_acknowledges_nothing_is_not_correlated() {
    let mut c = Connection::new();
    let id = c.get_free_light_id();
    c.new_light_connection(id, syn());
    assert_eq!(c.broadcast(created(7), None), Ok(Dispatch::Created(LightId(7))));
    let found = Identity { node_id: ack(), acked: Vec::new() };
    assert_eq!(
        c.broadcast(Frame::Data(7, vec![0x41]), Some(found)),
        Ok(Dispatch::Established(LightId(7), None))
    );
    assert_eq!(c.server_state(LightId(7)), Some(ServerLightConnection::Established(ack())));
    assert_eq!(c.correlated(&ack()), None);
    assert_eq!(c.broadcast(Frame::Data(7, vec![1]), None), Ok(Dispatch::NotCorrelated(LightId(7))));
    assert!(!c.has_bytes_to_read(id));
}

#[test]
fn a_token_does_not_acknowledge_itself() {
    // the peer echoes the very bytes of the local token; the token check
    // names no channel, so the library records nothing
    let mut c = Connection::new();
    let id = c.get_free_light_id();
    c.new_light_connection(id, syn());
    c.broadcast(created(7), None).unwrap();
    let found = Identity { node_id: syn(), acked: Vec::new() };
    assert_eq!(
        c.broadcast(Frame::Data(7, vec![0x53]), Some(found)),
        Ok(Dispatch::Established(LightId(7), None))
    );
    assert_eq!(c.correlated(&syn()), None);
}

#[test]
fn first_open_channel_among_the_acknowledged_is_taken() {
    let mut c = Connection::new();
    c.new_light_connection(LightId::new(0x402), NodeId::new(vec![2]));
    c.new_light_connection(LightId::new(0x405), NodeId::new(vec![5]));
    c.new_light_connection(LightId::new(0x403), NodeId::new(vec![3]));
    let acked = vec![LightId(0x405), LightId(0x999), LightId(0x403), LightId(0x401)];
    assert_eq!(c.find_acked(&acked), Some(LightId(0x403)));
    assert_eq!(c.find_acked(&vec![LightId(0x999), LightId(7)]), None);
    assert_eq!(c.find_acked(&Vec::new()), None);
    assert_eq!(c.find_acked(&vec![LightId(0x405), LightId(0x405)]), Some(LightId(0x405)));

    c.broadcast(created(7), None).unwrap();
    assert_eq!(
        c.broadcast(Frame::Data(7, vec![]), Some(Identity { node_id: ack(), acked })),
        Ok(Dispatch::Established(LightId(7), Some(LightId(0x403))))
    );
    assert_eq!(c.correlated(&ack()), Some(LightId(0x403)));
}

#[test]
fn payload_that_is_no_token_is_a_violation() {
    let mut c = Connection::new();
    c.broadcast(created(7), None).unwrap();
    assert_eq!(
        c.broadcast(Frame::Data(7, vec![1, 2, 3]), None),
        Err(ProtocolError::ExpectedNodeId(LightId(7)))
    );
    assert_eq!(c.server_state(LightId(7)), Some(ServerLightConnection::Establishing));
}

#[test]
fn data_for_a_closed_local_channel_is_dropped() {
    let mut c = routed();
    c.close_light_connection(LightId(0x402));
    // the index still names the closed channel
    assert_eq!(c.correlated(&ack()), Some(LightId(0x402)));
    assert_eq!(
        c.broadcast(Frame::Data(7, vec![1]), None),
        Ok(Dispatch::ClientGone(LightId(7), LightId(0x402)))
    );
    assert!(!c.has_client(LightId(0x402)));
    assert_eq!(c.client_ids(), vec![LightId(0x401)]);
}

#[test]
fn a_later_token_replaces_the_index_entry() {
    let mut c = routed();
    c.broadcast(created(8), None).unwrap();
    let found = Identity { node_id: ack(), acked: vec![LightId(0x401)] };
    assert_eq!(
        c.broadcast(Frame::Data(8, vec![]), Some(found)),
        Ok(Dispatch::Established(LightId(8), Some(LightId(0x401))))
    );
    assert_eq!(c.correlated(&ack()), Some(LightId(0x401)));
    assert_eq!(c.broadcast(Frame::Data(7, vec![6]), None), Ok(Dispatch::Received(LightId(7), LightId(0x401))));
    assert_eq!(c.wait_msg(LightId(0x401)), Some(vec![6]));
}

#[test]
fn waiting_for_one_channel_fills_the_others() {
    let mut c = routed();
    c.broadcast(created(8), None).unwrap();
    let other = NodeId::new(vec![0x41, 9]);
    let found = Identity { node_id: other, acked: vec![LightId(0x401)] };
    c.broadcast(Frame::Data(8, vec![]), Some(found)).unwrap();
    let frames = vec![Frame::Data(8, vec![1]), Frame::Data(8, vec![2]), Frame::Data(7, vec![3])];
    let mut got = None;
    for frame in frames {
        assert_eq!(got, None);
        c.broadcast(frame, None).unwrap();
        got = c.wait_msg(LightId(0x402));
    }
    assert_eq!(got, Some(vec![3]));
    assert_eq!(c.wait_msg(LightId(0x401)), Some(vec![1, 2]));
}

#[test]
fn protocol_errors_have_messages() {
    assert_eq!(ProtocolError::CreatedTwice(LightId(7)).message(), "light id created twice");
    assert_eq!(
        ProtocolError::ExpectedNodeId(LightId(7)).message(),
        "expecting nodeid but received something else"
    );
    assert_eq!(
        ProtocolError::ExpectedHandshake(LightId(7)).message(),
        "expecting handshake but received something else"
    );
    assert_eq!(ProtocolError::UnexpectedFrame.message(), "unexpected frame during handshake");
}
