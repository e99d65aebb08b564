//! Identity tokens.
//!
//! A token is opaque to this layer: it is held as the bytes that travel on
//! the wire, and two tokens are the same token when their bytes are equal.
//! Which byte strings are tokens, and which token acknowledges which, is
//! decided by the transport; the library takes those answers as values.

use vstd::prelude::*;

verus! {

/// Copies a byte string.
pub fn copy_bytes(bytes: &Vec<u8>) -> (r: Vec<u8>)
    ensures
        r@ == bytes@,
{
    let mut out: Vec<u8> = Vec::new();
    let mut i: usize = 0;
    while i < bytes.len()
        invariant
            i <= bytes.len(),
            out@ == bytes@.take(i as int),
        decreases bytes.len() - i,
    {
        out.push(bytes[i]);
        i = i + 1;
        assert(out@ =~= bytes@.take(i as int));
    }
    assert(bytes@.take(bytes.len() as int) =~= bytes@);
    out
}

/// Whether two byte strings hold the same bytes.
pub fn same_bytes(a: &Vec<u8>, b: &Vec<u8>) -> (r: bool)
    ensures
        r == (a@ == b@),
{
    if a.len() != b.len() {
        return false;
    }
    let mut i: usize = 0;
    while i < a.len()
        invariant
            i <= a.len(),
            a.len() == b.len(),
            forall|j: int| 0 <= j < i ==> a@[j] == b@[j],
        decreases a.len() - i,
    {
        if a[i] != b[i] {
            return false;
        }
        i = i + 1;
    }
    assert(a@ =~= b@);
    true
}

/// The identity token of one end of a light channel.
#[derive(Debug, PartialEq, Eq)]
pub struct NodeId {
    bytes: Vec<u8>,
}

impl View for NodeId {
    type V = Seq<u8>;

    closed spec fn view(&self) -> Seq<u8> {
        self.bytes@
    }
}

impl Clone for NodeId {
    fn clone(&self) -> (r: NodeId)
        ensures
            r@ == self@,
    {
        NodeId { bytes: copy_bytes(&self.bytes) }
    }
}

impl NodeId {
    /// The token that travels as `bytes`.
    pub fn new(bytes: Vec<u8>) -> (r: NodeId)
        ensures
            r@ == bytes@,
    {
        NodeId { bytes }
    }

    /// The bytes of the token, as they are sent.
    pub fn as_bytes(&self) -> (r: &Vec<u8>)
        ensures
            r@ == self@,
    {
        &self.bytes
    }

    /// Whether this is the same token as `other`.
    pub fn same(&self, other: &NodeId) -> (r: bool)
        ensures
            r == (self@ == other@),
    {
        same_bytes(&self.bytes, &other.bytes)
    }
}

} // verus!
