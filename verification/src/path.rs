//! Typed store paths: the keys under which entities live, both in the local
//! store and, symbolically, in the counterparty's Merkleized state.
use vstd::prelude::*;

use crate::ids::{ChannelId, ClientId, Height, PortId};

verus! {

/// The key of a channel end: its port and channel identifiers.
#[derive(Clone, Copy, PartialEq, Eq, Structural, Debug)]
pub struct ChannelEndPath {
    pub port_id: PortId,
    pub channel_id: ChannelId,
}

impl ChannelEndPath {
    pub fn new(port_id: PortId, channel_id: ChannelId) -> (r: ChannelEndPath)
        ensures
            r.port_id == port_id,
            r.channel_id == channel_id,
    {
        ChannelEndPath { port_id, channel_id }
    }
}

/// The key of a consensus state: the client that recorded it and the height
/// it was recorded at.
#[derive(Clone, Copy, PartialEq, Eq, Structural, Debug)]
pub struct ClientConsensusStatePath {
    pub client_id: ClientId,
    pub height: Height,
}

impl ClientConsensusStatePath {
    pub fn new(client_id: ClientId, height: Height) -> (r: ClientConsensusStatePath)
        ensures
            r.client_id == client_id,
            r.height == height,
    {
        ClientConsensusStatePath { client_id, height }
    }
}

/// A typed key into the (local or counterparty) store; the proof verifier
/// targets a counterparty channel end through it.
#[derive(Clone, Copy, PartialEq, Eq, Structural, Debug)]
pub enum StorePath {
    ChannelEnd(ChannelEndPath),
    ClientConsensusState(ClientConsensusStatePath),
}

} // verus!
