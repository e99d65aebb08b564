//! Commands: one request and its answer on a channel of its own.
//!
//! A command opens a fresh channel, sends its request, takes the answer and
//! closes the channel. The driver encodes the request, carries the frames,
//! and decodes the answer; what the command makes of the decoded answer is
//! decided here.

use vstd::prelude::*;
use crate::connection::Connection;
use crate::light_id::LightId;
use crate::node_id::{copy_bytes, NodeId};

verus! {

/// The hash that names a block header, as its bytes.
#[derive(Debug, PartialEq, Eq)]
pub struct HeaderHash {
    bytes: Vec<u8>,
}

impl View for HeaderHash {
    type V = Seq<u8>;

    closed spec fn view(&self) -> Seq<u8> {
        self.bytes@
    }
}

impl Clone for HeaderHash {
    fn clone(&self) -> (r: HeaderHash)
        ensures
            r@ == self@,
    {
        HeaderHash { bytes: copy_bytes(&self.bytes) }
    }
}

impl HeaderHash {
    /// The hash with these bytes.
    pub fn new(bytes: Vec<u8>) -> (r: HeaderHash)
        ensures
            r@ == bytes@,
    {
        HeaderHash { bytes }
    }

    /// The bytes of the hash.
    pub fn as_bytes(&self) -> (r: &Vec<u8>)
        ensures
            r@ == self@,
    {
        &self.bytes
    }
}

/// The decoded answer to a request for headers: the headers asked for,
/// first one first, or anything else. The headers are opaque to this layer.
#[derive(Debug)]
pub enum BlockHeaderResponse<H> {
    /// The answer is good and holds these headers.
    Headers(Vec<H>),
    /// Any other answer.
    Other,
}

/// The error of a request for headers that brought no header.
pub open spec fn no_header() -> &'static str {
    "No first main block header"
}

/// A command, run on a channel of its own. `R` is the command's answer as
/// the driver decoded it.
pub trait Command<R> {
    /// What the command yields when it succeeds.
    type Output;

    /// What the command makes of the answer `response`.
    spec fn outcome(&self, response: R) -> Result<Self::Output, &'static str>;

    /// Draws the command's result from the decoded answer.
    fn cmd(&self, response: R) -> (r: Result<Self::Output, &'static str>)
        ensures
            r == self.outcome(response),
    ;

    /// Starts the command: takes the next identifier off the counter and
    /// opens a channel under it, with the token `node_id`. The driver then
    /// lets the peer's acknowledgement in and sends the request.
    fn open(&self, connection: &mut Connection, node_id: NodeId) -> (id: LightId)
        requires
            old(connection).wf(),
            old(connection)@.next_light_id.0 < u32::MAX,
        ensures
            final(connection).wf(),
            id == old(connection)@.next_light_id,
            !id.is_reserved(),
            final(connection)@ == old(connection)@.allocated().opened(id, node_id@),
    {
        let id = connection.get_free_light_id();
        connection.new_light_connection(id, node_id);
        id
    }

    /// Ends the command: draws the result from the decoded answer and
    /// closes the command's channel, whether the command succeeded or not.
    fn execute(&self, connection: &mut Connection, id: LightId, response: R) -> (r: Result<
        Self::Output,
        &'static str,
    >)
        requires
            old(connection).wf(),
        ensures
            final(connection).wf(),
            r == self.outcome(response),
            final(connection)@ == old(connection)@.closed(id),
    {
        let ret = self.cmd(response);
        connection.close_light_connection(id);
        ret
    }
}

/// The request for the header that follows a given one, or for the first
/// header of the chain.
#[derive(Debug)]
pub struct GetBlockHeader(Option<HeaderHash>);

impl GetBlockHeader {
    /// The hash that the request names, if it names one.
    pub closed spec fn anchor(&self) -> Option<Seq<u8>> {
        match self.0 {
            Some(hh) => Some(hh@),
            None => None,
        }
    }

    /// The request for the first header of the chain.
    pub fn first() -> (r: GetBlockHeader)
        ensures
            r.anchor().is_none(),
    {
        GetBlockHeader(None)
    }

    /// The request anchored at the header with hash `hh`.
    pub fn some(hh: HeaderHash) -> (r: GetBlockHeader)
        ensures
            r.anchor() == Some(hh@),
    {
        GetBlockHeader(Some(hh))
    }

    /// The hash that the request names, if it names one.
    pub fn get_anchor(&self) -> (r: &Option<HeaderHash>)
        ensures
            match r {
                Some(hh) => self.anchor() == Some(hh@),
                None => self.anchor().is_none(),
            },
    {
        &self.0
    }
}

impl<H> Command<BlockHeaderResponse<H>> for GetBlockHeader {
    type Output = H;

    /// The first header of a list that is not empty; an error for an empty
    /// list and for any other answer.
    open spec fn outcome(&self, response: BlockHeaderResponse<H>) -> Result<H, &'static str> {
        match response {
            BlockHeaderResponse::Headers(headers) => if headers@.len() > 0 {
                Ok(headers@[0])
            } else {
                Err(no_header())
            },
            BlockHeaderResponse::Other => Err(no_header()),
        }
    }

    fn cmd(&self, response: BlockHeaderResponse<H>) -> (r: Result<H, &'static str>) {
        match response {
            BlockHeaderResponse::Headers(mut headers) => {
                if headers.len() > 0 {
                    Ok(headers.remove(0))
                } else {
                    Err("No first main block header")
                }
            },
            BlockHeaderResponse::Other => Err("No first main block header"),
        }
    }
}

/// The request for the blocks from one header to another.
#[derive(Debug)]
pub struct GetBlock {
    from: HeaderHash,
    to: HeaderHash,
}

impl GetBlock {
    /// The hashes that bound the request: first and last.
    pub closed spec fn bounds(&self) -> (Seq<u8>, Seq<u8>) {
        (self.from@, self.to@)
    }

    /// The request for the one block whose header has hash `hh`.
    pub fn only(hh: HeaderHash) -> (r: GetBlock)
        ensures
            r.bounds() == (hh@, hh@),
    {
        GetBlock::from(hh.clone(), hh)
    }

    /// The request for the blocks from `from` to `to`.
    pub fn from(from: HeaderHash, to: HeaderHash) -> (r: GetBlock)
        ensures
            r.bounds() == (from@, to@),
    {
        GetBlock { from, to }
    }

    /// The hash of the first header of the range.
    pub fn get_from(&self) -> (r: &HeaderHash)
        ensures
            r@ == self.bounds().0,
    {
        &self.from
    }

    /// The hash of the last header of the range.
    pub fn get_to(&self) -> (r: &HeaderHash)
        ensures
            r@ == self.bounds().1,
    {
        &self.to
    }
}

impl Command<Vec<u8>> for GetBlock {
    type Output = Vec<u8>;

    /// The answer as it came, undecoded.
    open spec fn outcome(&self, response: Vec<u8>) -> Result<Vec<u8>, &'static str> {
        Ok(response)
    }

    fn cmd(&self, response: Vec<u8>) -> (r: Result<Vec<u8>, &'static str>) {
        Ok(response)
    }
}

} // verus!
