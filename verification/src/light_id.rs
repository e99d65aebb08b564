//! Channel identifiers.

use vstd::prelude::*;

verus! {

/// The smallest identifier outside the reserved range.
pub const LIGHT_ID_MIN: u32 = 1024;

/// The identifier of one light channel. Identifiers below [`LIGHT_ID_MIN`]
/// are reserved for the protocol and are never handed to a local channel.
#[derive(Debug, PartialEq, Eq, PartialOrd, Ord, Copy, Clone, Structural)]
pub struct LightId(pub u32);

impl LightId {
    /// Whether the identifier lies in the reserved range.
    pub open spec fn is_reserved(self) -> bool {
        self.0 < LIGHT_ID_MIN
    }

    /// An identifier for a local channel, from a number outside the reserved range.
    pub fn new(id: u32) -> (r: LightId)
        requires
            id >= LIGHT_ID_MIN,
        ensures
            r.0 == id,
            !r.is_reserved(),
    {
        LightId(id)
    }

    /// The identifier that follows this one.
    pub fn next(self) -> (r: LightId)
        requires
            self.0 < u32::MAX,
        ensures
            r.0 == self.0 + 1,
    {
        LightId(self.0 + 1)
    }
}

} // verus!
