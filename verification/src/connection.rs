//! The connection end: a read-only dependency of the channel handshake,
//! owned by the connection subsystem.
use vstd::prelude::*;

use crate::commitment::CommitmentPrefix;
use crate::error::ConnectionError;
use crate::ids::{ClientId, ConnectionId};

verus! {

/// Lifecycle state of a connection end. The channel handshake only ever
/// requires `Open`.
#[derive(Clone, Copy, PartialEq, Eq, Structural, Debug)]
pub enum ConnectionState {
    Uninitialized,
    Init,
    TryOpen,
    Open,
}

/// The remote end of a connection: its commitment-store prefix and its
/// connection identifier once assigned.
#[derive(Clone, PartialEq, Eq, Debug)]
pub struct ConnectionCounterparty {
    pub connection_id: Option<ConnectionId>,
    pub prefix: CommitmentPrefix,
}

/// One endpoint of a connection, read by the channel core to find the light
/// client and the counterparty prefix for proof verification.
#[derive(Clone, PartialEq, Eq, Debug)]
pub struct ConnectionEnd {
    pub state: ConnectionState,
    pub client_id: ClientId,
    pub counterparty: ConnectionCounterparty,
}

/// Two connection ends agree on every field, comparing the counterparty
/// prefix by its view.
pub open spec fn connection_end_eq(a: ConnectionEnd, b: ConnectionEnd) -> bool {
    &&& a.state == b.state
    &&& a.client_id == b.client_id
    &&& a.counterparty.connection_id == b.counterparty.connection_id
    &&& a.counterparty.prefix.bytes@ == b.counterparty.prefix.bytes@
}

impl ConnectionEnd {
    pub fn new(
        state: ConnectionState,
        client_id: ClientId,
        counterparty: ConnectionCounterparty,
    ) -> (r: ConnectionEnd)
        ensures
            r.state == state,
            r.client_id == client_id,
            r.counterparty.connection_id == counterparty.connection_id,
            r.counterparty.prefix.bytes@ == counterparty.prefix.bytes@,
    {
        ConnectionEnd { state, client_id, counterparty }
    }

    /// A copy of this end, equal to it field for field.
    pub fn clone_end(&self) -> (r: ConnectionEnd)
        ensures
            connection_end_eq(r, *self),
    {
        ConnectionEnd {
            state: self.state,
            client_id: self.client_id,
            counterparty: ConnectionCounterparty {
                connection_id: self.counterparty.connection_id,
                prefix: CommitmentPrefix {
                    bytes: crate::commitment::copy_vec(&self.counterparty.prefix.bytes),
                },
            },
        }
    }

    /// Succeeds exactly when the connection is in the given state; the error
    /// carries both the expected and the observed state.
    pub fn verify_state_matches(&self, expected: ConnectionState) -> (r: Result<
        (),
        ConnectionError,
    >)
        ensures
            r == (if self.state == expected {
                Result::<(), ConnectionError>::Ok(())
            } else {
                Result::<(), ConnectionError>::Err(ConnectionError::InvalidState {
                    expected: expected,
                    actual: self.state,
                })
            }),
    {
        if self.state == expected {
            Ok(())
        } else {
            Err(ConnectionError::InvalidState { expected, actual: self.state })
        }
    }
}

} // verus!
