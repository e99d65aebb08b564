//! What travels between the library and the transport, as plain values.

use vstd::prelude::*;

verus! {

/// The kind of a control frame, as far as this layer tells kinds apart.
#[derive(Debug, PartialEq, Eq, Copy, Clone, Structural)]
pub enum ControlHeader {
    /// The peer opened a channel.
    CreatedNewConnection,
    /// The peer closed a channel.
    CloseConnection,
    /// Any other control frame.
    Unsupported,
}

/// The header of one frame, as the transport reads it off the stream.
#[derive(Debug, PartialEq, Eq, Copy, Clone, Structural)]
pub enum FrameHeader {
    /// A control frame of a kind, for a channel.
    Control(ControlHeader, u32),
    /// A data frame for a channel, with the length of the payload that follows.
    Data(u32, u32),
}

impl FrameHeader {
    /// How many bytes follow the header on the stream.
    pub open spec fn spec_payload_len(self) -> u32 {
        match self {
            FrameHeader::Control(_, _) => 0,
            FrameHeader::Data(_, len) => len,
        }
    }

    /// How many bytes the transport has to read after this header so that
    /// the next header starts where the next read begins. The answer rests
    /// on the header alone, whatever the channel tables hold.
    pub fn payload_len(&self) -> (r: u32)
        ensures
            r == self.spec_payload_len(),
    {
        match self {
            FrameHeader::Control(_, _) => 0,
            FrameHeader::Data(_, len) => *len,
        }
    }
}

/// What a [`Frame`] is, as plain values.
pub enum FrameView {
    Control(ControlHeader, u32),
    Data(u32, Seq<u8>),
}

/// One frame received from the peer: a header together with its payload.
#[derive(Debug, PartialEq, Eq)]
pub enum Frame {
    /// A control frame of a kind, for a channel.
    Control(ControlHeader, u32),
    /// The payload of a data frame for a channel.
    Data(u32, Vec<u8>),
}

impl View for Frame {
    type V = FrameView;

    open spec fn view(&self) -> FrameView {
        match self {
            Frame::Control(kind, id) => FrameView::Control(*kind, *id),
            Frame::Data(id, bytes) => FrameView::Data(*id, bytes@),
        }
    }
}

impl Frame {
    /// The frame made of `header` and of the `payload` read after it. A
    /// control frame has no payload: what is handed in for one is dropped.
    pub fn assemble(header: FrameHeader, payload: Vec<u8>) -> (r: Frame)
        ensures
            r@ == match header {
                FrameHeader::Control(kind, id) => FrameView::Control(kind, id),
                FrameHeader::Data(id, _) => FrameView::Data(id, payload@),
            },
    {
        match header {
            FrameHeader::Control(kind, id) => Frame::Control(kind, id),
            FrameHeader::Data(id, _) => Frame::Data(id, payload),
        }
    }
}

/// What an [`Outgoing`] is, as plain values.
pub enum OutgoingView {
    CreateLight(u32),
    Data(u32, Seq<u8>),
}

/// One request to the transport, queued by the library for the driver to perform.
#[derive(Debug, PartialEq, Eq)]
pub enum Outgoing {
    /// Announce a new light channel to the peer.
    CreateLight(u32),
    /// Send bytes on a light channel.
    Data(u32, Vec<u8>),
}

impl View for Outgoing {
    type V = OutgoingView;

    open spec fn view(&self) -> OutgoingView {
        match self {
            Outgoing::CreateLight(id) => OutgoingView::CreateLight(*id),
            Outgoing::Data(id, bytes) => OutgoingView::Data(*id, bytes@),
        }
    }
}

/// The views of a queue of requests, in order.
pub open spec fn outgoing_view(queue: Seq<Outgoing>) -> Seq<OutgoingView> {
    queue.map_values(|o: Outgoing| o@)
}

} // verus!
