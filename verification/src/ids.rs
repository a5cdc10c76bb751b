//! Typed identifiers addressing the entities of the channel handshake, and
//! the height at which a proof is rooted.
use vstd::prelude::*;

verus! {

/// Identifier of a port: the application-level namespace a module binds to.
#[derive(Clone, Copy, PartialEq, Eq, Structural, Debug)]
pub struct PortId(pub u64);

/// Identifier of one end of a logical channel.
#[derive(Clone, Copy, PartialEq, Eq, Structural, Debug)]
pub struct ChannelId(pub u64);

/// Identifier of a connection end on the local chain.
#[derive(Clone, Copy, PartialEq, Eq, Structural, Debug)]
pub struct ConnectionId(pub u64);

/// Identifier of a light client tracking a counterparty chain.
#[derive(Clone, Copy, PartialEq, Eq, Structural, Debug)]
pub struct ClientId(pub u64);

/// A counterparty-chain height: a revision number and a height within it.
#[derive(Clone, Copy, PartialEq, Eq, Structural, Debug)]
pub struct Height {
    pub revision_number: u64,
    pub revision_height: u64,
}

impl Height {
    pub fn new(revision_number: u64, revision_height: u64) -> (r: Height)
        ensures
            r.revision_number == revision_number,
            r.revision_height == revision_height,
    {
        Height { revision_number, revision_height }
    }
}

/// The account claimed to have signed a handshake message; accepted or
/// rejected by the context's signer policy alone.
#[derive(Clone, PartialEq, Eq, Debug)]
pub struct Signer {
    pub account: String,
}

} // verus!
