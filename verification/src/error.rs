//! The error taxonomy of the handshake core: lookup failures, state
//! mismatches, proof failures, internal-consistency violations and module
//! rejections. Every error carries the observed values a caller needs to
//! diagnose the failure.
use vstd::prelude::*;

use crate::channel::ChannelState;
use crate::client::Status;
use crate::connection::ConnectionState;
use crate::ids::{ChannelId, ClientId, ConnectionId, Height, PortId};

verus! {

/// Failures of the light-client capability, or of lookups addressed to it.
#[derive(Clone, Copy, PartialEq, Eq, Structural, Debug)]
pub enum ClientError {
    /// No client state is stored under the client identifier.
    ClientStateNotFound { client_id: ClientId },
    /// No consensus state is stored for the client at the height.
    ConsensusStateNotFound { client_id: ClientId, height: Height },
    /// The client exists but its status forbids any use.
    ClientNotActive { status: Status },
    /// The claimed proof height is not one the client can verify against.
    InvalidProofHeight { height: Height },
    /// The membership proof did not verify against the trusted root.
    FailedProofVerification,
}

/// Failures while reading the connection end the channel routes over.
#[derive(Clone, Copy, PartialEq, Eq, Structural, Debug)]
pub enum ConnectionError {
    /// No connection end is stored under the identifier.
    ConnectionNotFound { connection_id: ConnectionId },
    /// The connection exists but is not in the required state.
    InvalidState { expected: ConnectionState, actual: ConnectionState },
}

/// Failures of the channel state machine itself, and of the module hooks
/// guarding it.
#[derive(Clone, Copy, PartialEq, Eq, Structural, Debug)]
pub enum ChannelError {
    /// No channel end is stored under the port and channel identifiers.
    ChannelNotFound { port_id: PortId, channel_id: ChannelId },
    /// The channel exists but is not in the required predecessor state.
    InvalidState { expected: ChannelState, actual: ChannelState },
    /// The channel does not route over exactly one connection.
    InvalidConnectionHopsLength { expected_length: usize, actual_length: usize },
    /// The counterparty channel identifier is unset where the handshake
    /// requires it to be known.
    MissingCounterparty,
    /// The connection the channel routes over has no counterparty
    /// connection identifier.
    UndefinedConnectionCounterparty { connection_id: ConnectionId },
    /// The membership proof for the counterparty channel end failed; wraps
    /// the light-client error unchanged.
    VerifyChannelFailed(ClientError),
    /// An invariant the protocol guarantees was found violated: the stored
    /// channel end lost its counterparty channel identifier between
    /// validation and execution.
    MissingCounterpartyChannelId,
    /// The application module declined the operation, for a reason of its
    /// own choosing.
    AppModule { reason: u64 },
}

/// Any failure a handshake step can report, by subsystem.
#[derive(Clone, Copy, PartialEq, Eq, Structural, Debug)]
pub enum ContextError {
    Channel(ChannelError),
    Connection(ConnectionError),
    Client(ClientError),
    /// The message's claimed signer is not acceptable to the context.
    InvalidSigner,
}

} // verus!
