//! The two capabilities that bound the core — a read-only validation
//! context and a read-write execution context — and the application-module
//! capability invoked around state changes.
//!
//! Each capability is a trait whose abstract state is given by spec
//! functions; every executable method is contracted against them, so a
//! conforming host is held to exactly the behaviour the handshake logic
//! relies on. The light client is consumed through the context, addressed
//! by client identifier: its status, its accepted proof heights, and its
//! membership verdicts.
use vstd::prelude::*;

use crate::channel::ChannelEnd;
use crate::channel::channel_end_eq;
use crate::client::Status;
use crate::commitment::{CommitmentPrefix, CommitmentProofBytes, CommitmentRoot, ConsensusState};
use crate::connection::ConnectionEnd;
use crate::connection::connection_end_eq;
use crate::error::{ChannelError, ClientError, ContextError};
use crate::events::{IbcEvent, ModuleEvent, ModuleExtras};
use crate::ids::{ChannelId, ClientId, ConnectionId, Height, PortId, Signer};
use crate::path::{ChannelEndPath, ClientConsensusStatePath, StorePath};

verus! {

/// Read-only access to the store and to the light-client capability.
/// Validation-phase code holds a context only through a shared borrow, so
/// it can perform no store write under any outcome.
pub trait ValidationContext: Sized {
    /// The channel end stored under a port and channel identifier, if any.
    spec fn channel_end_spec(&self, port_id: PortId, channel_id: ChannelId) -> Option<ChannelEnd>;

    /// The connection end stored under a connection identifier, if any.
    spec fn connection_end_spec(&self, connection_id: ConnectionId) -> Option<ConnectionEnd>;

    /// The status the light client of this identifier reports, or `None`
    /// when no client state is stored for it.
    spec fn client_status_spec(&self, client_id: ClientId) -> Option<Status>;

    /// Whether the client accepts the given height as a proof height.
    spec fn proof_height_ok_spec(&self, client_id: ClientId, height: Height) -> bool;

    /// The consensus state the client recorded at a height, if any.
    spec fn consensus_state_spec(&self, client_id: ClientId, height: Height) -> Option<
        ConsensusState,
    >;

    /// The light client's verdict on a membership proof: whether `value`
    /// lives at `path` under `prefix` in the state committed to by `root`.
    spec fn membership_ok_spec(
        &self,
        client_id: ClientId,
        prefix: Seq<u8>,
        proof: Seq<u8>,
        root: Seq<u8>,
        path: StorePath,
        value: Seq<u8>,
    ) -> bool;

    /// The context's signer policy.
    spec fn signer_ok_spec(&self, signer: Seq<char>) -> bool;

    /// Load a channel end; fails exactly when none is stored.
    fn channel_end(&self, path: &ChannelEndPath) -> (r: Result<ChannelEnd, ContextError>)
        ensures
            (r matches Ok(got) ==> self.channel_end_spec(path.port_id, path.channel_id)
                matches Some(ch) && channel_end_eq(got, ch)),
            (r matches Err(e) ==> self.channel_end_spec(path.port_id, path.channel_id) is None
                && e == ContextError::Channel(ChannelError::ChannelNotFound {
                port_id: path.port_id,
                channel_id: path.channel_id,
            })),
    ;

    /// Load a connection end; fails exactly when none is stored.
    fn connection_end(&self, connection_id: &ConnectionId) -> (r: Result<
        ConnectionEnd,
        ContextError,
    >)
        ensures
            (r matches Ok(got) ==> self.connection_end_spec(*connection_id) matches Some(conn)
                && connection_end_eq(got, conn)),
            (r matches Err(e) ==> self.connection_end_spec(*connection_id) is None && e
                == ContextError::Connection(crate::error::ConnectionError::ConnectionNotFound {
                connection_id: *connection_id,
            })),
    ;

    /// Ask the client of this identifier for its status; fails exactly when
    /// no client state is stored.
    fn client_status(&self, client_id: &ClientId) -> (r: Result<Status, ContextError>)
        ensures
            r == (match self.client_status_spec(*client_id) {
                Some(s) => Result::<Status, ContextError>::Ok(s),
                None => Result::<Status, ContextError>::Err(ContextError::Client(
                    ClientError::ClientStateNotFound { client_id: *client_id },
                )),
            }),
    ;

    /// Ask the client whether it can verify proofs rooted at this height;
    /// the error carries the rejected height.
    fn validate_proof_height(&self, client_id: &ClientId, height: &Height) -> (r: Result<
        (),
        ContextError,
    >)
        ensures
            r == (if self.proof_height_ok_spec(*client_id, *height) {
                Result::<(), ContextError>::Ok(())
            } else {
                Result::<(), ContextError>::Err(ContextError::Client(
                    ClientError::InvalidProofHeight { height: *height },
                ))
            }),
    ;

    /// Load the consensus state recorded at a height; fails exactly when
    /// none is stored.
    fn consensus_state(&self, path: &ClientConsensusStatePath) -> (r: Result<
        ConsensusState,
        ContextError,
    >)
        ensures
            (r matches Ok(got) ==> self.consensus_state_spec(path.client_id, path.height)
                matches Some(cs) && got.root.bytes@ == cs.root.bytes@),
            (r matches Err(e) ==> self.consensus_state_spec(path.client_id, path.height) is None
                && e == ContextError::Client(ClientError::ConsensusStateNotFound {
                client_id: path.client_id,
                height: path.height,
            })),
    ;

    /// Hand a membership proof to the light client; succeeds exactly when
    /// the client's verdict on these bytes, path and root is positive.
    fn verify_membership(
        &self,
        client_id: &ClientId,
        prefix: &CommitmentPrefix,
        proof: &CommitmentProofBytes,
        root: &CommitmentRoot,
        path: &StorePath,
        value: &Vec<u8>,
    ) -> (r: Result<(), ClientError>)
        ensures
            r == (if self.membership_ok_spec(
                *client_id,
                prefix.bytes@,
                proof.bytes@,
                root.bytes@,
                *path,
                value@,
            ) {
                Result::<(), ClientError>::Ok(())
            } else {
                Result::<(), ClientError>::Err(ClientError::FailedProofVerification)
            }),
    ;

    /// Check the message's claimed signer against the context's policy.
    fn validate_message_signer(&self, signer: &Signer) -> (r: Result<(), ContextError>)
        ensures
            r == (if self.signer_ok_spec(signer.account@) {
                Result::<(), ContextError>::Ok(())
            } else {
                Result::<(), ContextError>::Err(ContextError::InvalidSigner)
            }),
    ;
}

/// Every channel end of `post` is the one `pre` stores.
pub open spec fn channels_preserved<Ctx: ValidationContext>(pre: Ctx, post: Ctx) -> bool {
    forall|p: PortId, c: ChannelId|
        #[trigger] post.channel_end_spec(p, c) == pre.channel_end_spec(p, c)
}

/// Every channel end of `post` but the one at `(port_id, channel_id)` is
/// the one `pre` stores.
pub open spec fn channels_preserved_except<Ctx: ValidationContext>(
    pre: Ctx,
    post: Ctx,
    port_id: PortId,
    channel_id: ChannelId,
) -> bool {
    forall|p: PortId, c: ChannelId|
        !(p == port_id && c == channel_id) ==> #[trigger] post.channel_end_spec(p, c)
            == pre.channel_end_spec(p, c)
}

/// Everything the validation phase can read, apart from channel ends, is
/// the same in `pre` and `post`: connections, client statuses, accepted
/// proof heights, consensus states, membership verdicts and signer policy.
pub open spec fn read_deps_preserved<Ctx: ValidationContext>(pre: Ctx, post: Ctx) -> bool {
    &&& forall|cid: ConnectionId|
        #[trigger] post.connection_end_spec(cid) == pre.connection_end_spec(cid)
    &&& forall|cl: ClientId| #[trigger] post.client_status_spec(cl) == pre.client_status_spec(cl)
    &&& forall|cl: ClientId, h: Height|
        #[trigger] post.proof_height_ok_spec(cl, h) == pre.proof_height_ok_spec(cl, h)
    &&& forall|cl: ClientId, h: Height|
        #[trigger] post.consensus_state_spec(cl, h) == pre.consensus_state_spec(cl, h)
    &&& forall|cl: ClientId, prefix: Seq<u8>, proof: Seq<u8>, root: Seq<u8>, path: StorePath, value: Seq<u8>|
        #[trigger] post.membership_ok_spec(cl, prefix, proof, root, path, value)
            == pre.membership_ok_spec(cl, prefix, proof, root, path, value)
    &&& forall|s: Seq<char>| #[trigger] post.signer_ok_spec(s) == pre.signer_ok_spec(s)
}

/// Nothing observable of the context changed: no store write, no event, no
/// log line.
pub open spec fn context_unchanged<Ctx: ExecutionContext>(pre: Ctx, post: Ctx) -> bool {
    &&& channels_preserved(pre, post)
    &&& read_deps_preserved(pre, post)
    &&& post.events_spec() == pre.events_spec()
    &&& post.logs_spec() == pre.logs_spec()
}

/// Read-write access: everything a validation context reads, plus storing
/// a channel end and appending events and log lines.
pub trait ExecutionContext: ValidationContext {
    /// The events recorded so far, in insertion order.
    spec fn events_spec(&self) -> Seq<IbcEvent>;

    /// The log lines recorded so far, in insertion order.
    spec fn logs_spec(&self) -> Seq<Seq<char>>;

    /// Store a channel end under its path, replacing what was there; no
    /// other entity, event or log line is touched.
    fn store_channel(&mut self, path: &ChannelEndPath, channel_end: ChannelEnd)
        ensures
            final(self).channel_end_spec(path.port_id, path.channel_id) == Some(channel_end),
            channels_preserved_except(*old(self), *final(self), path.port_id, path.channel_id),
            read_deps_preserved(*old(self), *final(self)),
            final(self).events_spec() == old(self).events_spec(),
            final(self).logs_spec() == old(self).logs_spec(),
    ;

    /// Append one event; nothing else is touched.
    fn emit_ibc_event(&mut self, event: IbcEvent)
        ensures
            final(self).events_spec() == old(self).events_spec().push(event),
            channels_preserved(*old(self), *final(self)),
            read_deps_preserved(*old(self), *final(self)),
            final(self).logs_spec() == old(self).logs_spec(),
    ;

    /// Append one log line; nothing else is touched.
    fn log_message(&mut self, message: String)
        ensures
            final(self).logs_spec() == old(self).logs_spec().push(message@),
            channels_preserved(*old(self), *final(self)),
            read_deps_preserved(*old(self), *final(self)),
            final(self).events_spec() == old(self).events_spec(),
    ;
}

/// The application capability bound to a port: the hooks the OPEN_CONFIRM
/// step fires. A module's decisions are its own spec functions; the core
/// only relays them.
pub trait Module: Sized {
    /// Whether the module lets an OPEN_CONFIRM at this endpoint validate.
    spec fn confirm_validate_ok(&self, port_id: PortId, channel_id: ChannelId) -> bool;

    /// The module's rejection, when it declines validation.
    spec fn confirm_validate_err(&self, port_id: PortId, channel_id: ChannelId) -> ChannelError;

    /// Whether the module's execute hook succeeds at this endpoint.
    spec fn confirm_execute_ok(&self, port_id: PortId, channel_id: ChannelId) -> bool;

    /// The module's failure, when its execute hook fails.
    spec fn confirm_execute_err(&self, port_id: PortId, channel_id: ChannelId) -> ChannelError;

    /// The events the module's execute hook hands back on success.
    spec fn confirm_events(&self, port_id: PortId, channel_id: ChannelId) -> Seq<ModuleEvent>;

    /// The log lines the module's execute hook hands back on success.
    spec fn confirm_logs(&self, port_id: PortId, channel_id: ChannelId) -> Seq<Seq<char>>;

    /// The validate-side hook: may reject the handshake (port policy)
    /// without consulting on-chain state.
    fn on_chan_open_confirm_validate(&self, port_id: &PortId, channel_id: &ChannelId) -> (r:
        Result<(), ChannelError>)
        ensures
            r == (if self.confirm_validate_ok(*port_id, *channel_id) {
                Result::<(), ChannelError>::Ok(())
            } else {
                Result::<(), ChannelError>::Err(self.confirm_validate_err(*port_id, *channel_id))
            }),
    ;

    /// The execute-side hook: may fail, aborting the whole step; on success
    /// hands back events and log lines the core relays verbatim.
    fn on_chan_open_confirm_execute(&mut self, port_id: &PortId, channel_id: &ChannelId) -> (r:
        Result<ModuleExtras, ChannelError>)
        ensures
            (r matches Ok(ex) ==> old(self).confirm_execute_ok(*port_id, *channel_id)
                && ex.events@ == old(self).confirm_events(*port_id, *channel_id)
                && ex.log.deep_view() == old(self).confirm_logs(*port_id, *channel_id)),
            (r matches Err(e) ==> !old(self).confirm_execute_ok(*port_id, *channel_id) && e
                == old(self).confirm_execute_err(*port_id, *channel_id)),
    ;
}

} // verus!
