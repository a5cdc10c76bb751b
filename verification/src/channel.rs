//! The channel-end data model: lifecycle states, ordering, counterparty and
//! the channel end itself.
use vstd::prelude::*;

use crate::error::ChannelError;
use crate::ids::{ChannelId, ConnectionId, PortId};

verus! {

/// Lifecycle state of a channel end. Transitions are strictly forward
/// (`Uninitialized -> Init -> TryOpen -> Open`), except that `Closed` is
/// reachable from `Init`, `TryOpen` and `Open`.
#[derive(Clone, Copy, PartialEq, Eq, Structural, Debug)]
pub enum ChannelState {
    Uninitialized,
    Init,
    TryOpen,
    Open,
    Closed,
}

/// Whether packets on the channel are relayed in order.
#[derive(Clone, Copy, PartialEq, Eq, Structural, Debug)]
pub enum Order {
    Unordered,
    Ordered,
}

/// The remote end of a channel: its port, and its channel identifier once
/// the remote side has assigned one (unset only while the handshake is at
/// `Init` on that side).
#[derive(Clone, Copy, PartialEq, Eq, Structural, Debug)]
pub struct Counterparty {
    pub port_id: PortId,
    pub channel_id: Option<ChannelId>,
}

impl Counterparty {
    pub fn new(port_id: PortId, channel_id: Option<ChannelId>) -> (r: Counterparty)
        ensures
            r.port_id == port_id,
            r.channel_id == channel_id,
    {
        Counterparty { port_id, channel_id }
    }
}

/// One endpoint of a logical channel.
#[derive(Clone, PartialEq, Eq, Debug)]
pub struct ChannelEnd {
    pub state: ChannelState,
    pub ordering: Order,
    pub counterparty: Counterparty,
    pub connection_hops: Vec<ConnectionId>,
    pub version: String,
}

/// Two channel ends agree on every field, comparing the connection hops and
/// the version by their mathematical views.
pub open spec fn channel_end_eq(a: ChannelEnd, b: ChannelEnd) -> bool {
    &&& a.state == b.state
    &&& a.ordering == b.ordering
    &&& a.counterparty == b.counterparty
    &&& a.connection_hops@ == b.connection_hops@
    &&& a.version@ == b.version@
}

impl ChannelEnd {
    pub fn new(
        state: ChannelState,
        ordering: Order,
        counterparty: Counterparty,
        connection_hops: Vec<ConnectionId>,
        version: String,
    ) -> (r: ChannelEnd)
        ensures
            r.state == state,
            r.ordering == ordering,
            r.counterparty == counterparty,
            r.connection_hops@ == connection_hops@,
            r.version@ == version@,
    {
        ChannelEnd { state, ordering, counterparty, connection_hops, version }
    }

    /// A copy of this end, equal to it field for field.
    pub fn clone_end(&self) -> (r: ChannelEnd)
        ensures
            channel_end_eq(r, *self),
    {
        ChannelEnd {
            state: self.state,
            ordering: self.ordering,
            counterparty: self.counterparty,
            connection_hops: crate::commitment::copy_vec(&self.connection_hops),
            version: self.version.clone(),
        }
    }

    /// Succeeds exactly when the end is in the given lifecycle state; the
    /// error carries both the expected and the observed state.
    pub fn verify_state_matches(&self, expected: ChannelState) -> (r: Result<(), ChannelError>)
        ensures
            r == (if self.state == expected {
                Result::<(), ChannelError>::Ok(())
            } else {
                Result::<(), ChannelError>::Err(ChannelError::InvalidState {
                    expected: expected,
                    actual: self.state,
                })
            }),
    {
        if self.state == expected {
            Ok(())
        } else {
            Err(ChannelError::InvalidState { expected, actual: self.state })
        }
    }

    /// Succeeds exactly when the end routes over exactly one connection, as
    /// the protocol currently requires.
    pub fn verify_connection_hops_length(&self) -> (r: Result<(), ChannelError>)
        ensures
            r == (if self.connection_hops@.len() == 1 {
                Result::<(), ChannelError>::Ok(())
            } else {
                Result::<(), ChannelError>::Err(ChannelError::InvalidConnectionHopsLength {
                    expected_length: 1,
                    actual_length: self.connection_hops@.len() as usize,
                })
            }),
    {
        if self.connection_hops.len() == 1 {
            Ok(())
        } else {
            Err(ChannelError::InvalidConnectionHopsLength {
                expected_length: 1,
                actual_length: self.connection_hops.len(),
            })
        }
    }
}

} // verus!
