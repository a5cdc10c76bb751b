//! A self-contained host: an in-memory context whose store, light-client
//! verdicts and membership records are plain data, and a module whose
//! hook decisions are fixed fields. Both implement the capability traits
//! with their full contracts, so the handshake handlers can be exercised
//! end to end against them.
use vstd::prelude::*;

use crate::channel::ChannelEnd;
use crate::client::Status;
use crate::commitment::{copy_vec, bytes_eq, CommitmentPrefix, CommitmentProofBytes, CommitmentRoot,
    ConsensusState};
use crate::connection::ConnectionEnd;
use crate::context::{channels_preserved_except, ExecutionContext, Module, ValidationContext};
use crate::error::{ChannelError, ClientError, ConnectionError, ContextError};
use crate::events::{IbcEvent, ModuleEvent, ModuleExtras};
use crate::ids::{ChannelId, ClientId, ConnectionId, Height, PortId, Signer};
use crate::path::{ChannelEndPath, ClientConsensusStatePath, StorePath};

verus! {

/// A stored channel end, keyed by port and channel identifiers.
pub struct ChannelRecord {
    pub port_id: PortId,
    pub channel_id: ChannelId,
    pub end: ChannelEnd,
}

/// A stored connection end, keyed by its identifier.
pub struct ConnectionRecord {
    pub connection_id: ConnectionId,
    pub end: ConnectionEnd,
}

/// A stored light client: its status and the newest height it has
/// verified, which bounds the proof heights it accepts.
pub struct ClientRecord {
    pub client_id: ClientId,
    pub status: Status,
    pub latest_height: Height,
}

/// A consensus state the client recorded, keyed by client and height.
pub struct ConsensusRecord {
    pub client_id: ClientId,
    pub height: Height,
    pub state: ConsensusState,
}

/// One membership verdict the light client will answer positively: the
/// exact prefix, proof, root, path and value it accepts together.
pub struct MembershipRecord {
    pub client_id: ClientId,
    pub prefix: Vec<u8>,
    pub proof: Vec<u8>,
    pub root: Vec<u8>,
    pub path: StorePath,
    pub value: Vec<u8>,
}

/// The channel end stored first under the identifiers, scanning from the
/// front; later records with the same key are shadowed.
pub open spec fn lookup_channel(s: Seq<ChannelRecord>, p: PortId, c: ChannelId) -> Option<
    ChannelEnd,
>
    decreases s.len(),
{
    if s.len() == 0 {
        None
    } else if s[0].port_id == p && s[0].channel_id == c {
        Some(s[0].end)
    } else {
        lookup_channel(s.drop_first(), p, c)
    }
}

/// The connection end stored first under the identifier.
pub open spec fn lookup_connection(s: Seq<ConnectionRecord>, id: ConnectionId) -> Option<
    ConnectionEnd,
>
    decreases s.len(),
{
    if s.len() == 0 {
        None
    } else if s[0].connection_id == id {
        Some(s[0].end)
    } else {
        lookup_connection(s.drop_first(), id)
    }
}

/// The client record stored first under the identifier.
pub open spec fn lookup_client(s: Seq<ClientRecord>, id: ClientId) -> Option<ClientRecord>
    decreases s.len(),
{
    if s.len() == 0 {
        None
    } else if s[0].client_id == id {
        Some(s[0])
    } else {
        lookup_client(s.drop_first(), id)
    }
}

/// The consensus state stored first under the client and height.
pub open spec fn lookup_consensus(s: Seq<ConsensusRecord>, id: ClientId, h: Height) -> Option<
    ConsensusState,
>
    decreases s.len(),
{
    if s.len() == 0 {
        None
    } else if s[0].client_id == id && s[0].height == h {
        Some(s[0].state)
    } else {
        lookup_consensus(s.drop_first(), id, h)
    }
}

/// Whether a membership record matches the queried verdict exactly.
pub open spec fn membership_matches(
    rec: MembershipRecord,
    client_id: ClientId,
    prefix: Seq<u8>,
    proof: Seq<u8>,
    root: Seq<u8>,
    path: StorePath,
    value: Seq<u8>,
) -> bool {
    &&& rec.client_id == client_id
    &&& rec.prefix@ == prefix
    &&& rec.proof@ == proof
    &&& rec.root@ == root
    &&& rec.path == path
    &&& rec.value@ == value
}

/// Whether some record answers the queried verdict positively.
pub open spec fn has_membership(
    s: Seq<MembershipRecord>,
    client_id: ClientId,
    prefix: Seq<u8>,
    proof: Seq<u8>,
    root: Seq<u8>,
    path: StorePath,
    value: Seq<u8>,
) -> bool {
    exists|k: int|
        0 <= k < s.len() && membership_matches(#[trigger] s[k], client_id, prefix, proof, root, path, value)
}

/// An in-memory host context: entities, light-client data and membership
/// verdicts held as plain records, events and log lines appended in order.
/// Its signer policy accepts every signer.
pub struct MemoryContext {
    pub channels: Vec<ChannelRecord>,
    pub connections: Vec<ConnectionRecord>,
    pub clients: Vec<ClientRecord>,
    pub consensus_states: Vec<ConsensusRecord>,
    pub memberships: Vec<MembershipRecord>,
    pub events: Vec<IbcEvent>,
    pub log: Vec<String>,
}

impl MemoryContext {
    /// A context with nothing stored and nothing recorded.
    pub fn new() -> (r: MemoryContext)
        ensures
            r.channels@ =~= Seq::<ChannelRecord>::empty(),
            r.connections@ =~= Seq::<ConnectionRecord>::empty(),
            r.clients@ =~= Seq::<ClientRecord>::empty(),
            r.consensus_states@ =~= Seq::<ConsensusRecord>::empty(),
            r.memberships@ =~= Seq::<MembershipRecord>::empty(),
            r.events@ =~= Seq::<IbcEvent>::empty(),
            r.log@ =~= Seq::<String>::empty(),
    {
        MemoryContext {
            channels: Vec::new(),
            connections: Vec::new(),
            clients: Vec::new(),
            consensus_states: Vec::new(),
            memberships: Vec::new(),
            events: Vec::new(),
            log: Vec::new(),
        }
    }

    /// The context with a channel end stored under the identifiers,
    /// shadowing any earlier record with the same key.
    pub fn with_channel(self, port_id: PortId, channel_id: ChannelId, end: ChannelEnd) -> (r:
        MemoryContext)
        ensures
            r.channel_end_spec(port_id, channel_id) == Some(end),
            channels_preserved_except(self, r, port_id, channel_id),
            r.connections@ == self.connections@,
            r.clients@ == self.clients@,
            r.consensus_states@ == self.consensus_states@,
            r.memberships@ == self.memberships@,
            r.events@ == self.events@,
            r.log@ == self.log@,
    {
        let mut channels = self.channels;
        channels.insert(0, ChannelRecord { port_id, channel_id, end });
        let r = MemoryContext { channels, ..self };
        proof {
            assert(r.channels@.drop_first() =~= self.channels@);
            assert forall|p: PortId, c: ChannelId| !(p == port_id && c == channel_id)
                implies #[trigger] r.channel_end_spec(p, c) == self.channel_end_spec(p, c) by {
                assert(lookup_channel(r.channels@, p, c) == lookup_channel(
                    r.channels@.drop_first(),
                    p,
                    c,
                ));
            }
        }
        r
    }

    /// The context with a connection end stored under the identifier.
    pub fn with_connection(self, connection_id: ConnectionId, end: ConnectionEnd) -> (r:
        MemoryContext)
        ensures
            r.connection_end_spec(connection_id) == Some(end),
            forall|id: ConnectionId| id != connection_id ==> #[trigger] r.connection_end_spec(id)
                == self.connection_end_spec(id),
            r.channels@ == self.channels@,
            r.clients@ == self.clients@,
            r.consensus_states@ == self.consensus_states@,
            r.memberships@ == self.memberships@,
            r.events@ == self.events@,
            r.log@ == self.log@,
    {
        let mut connections = self.connections;
        connections.insert(0, ConnectionRecord { connection_id, end });
        let r = MemoryContext { connections, ..self };
        proof {
            assert(r.connections@.drop_first() =~= self.connections@);
            assert forall|id: ConnectionId| id != connection_id implies #[trigger] r
                .connection_end_spec(id) == self.connection_end_spec(id) by {
                assert(lookup_connection(r.connections@, id) == lookup_connection(
                    r.connections@.drop_first(),
                    id,
                ));
            }
        }
        r
    }

    /// The context with a light client of the given status whose newest
    /// verified height is `latest_height`.
    pub fn with_client(self, client_id: ClientId, status: Status, latest_height: Height) -> (r:
        MemoryContext)
        ensures
            r.client_status_spec(client_id) == Some(status),
            forall|h: Height| #[trigger] r.proof_height_ok_spec(client_id, h) == (h.revision_number
                == latest_height.revision_number && h.revision_height
                <= latest_height.revision_height),
            forall|id: ClientId| id != client_id ==> #[trigger] r.client_status_spec(id)
                == self.client_status_spec(id),
            forall|id: ClientId, h: Height| id != client_id ==> #[trigger] r.proof_height_ok_spec(
                id,
                h,
            ) == self.proof_height_ok_spec(id, h),
            r.channels@ == self.channels@,
            r.connections@ == self.connections@,
            r.consensus_states@ == self.consensus_states@,
            r.memberships@ == self.memberships@,
            r.events@ == self.events@,
            r.log@ == self.log@,
    {
        let mut clients = self.clients;
        clients.insert(0, ClientRecord { client_id, status, latest_height });
        let r = MemoryContext { clients, ..self };
        proof {
            assert(r.clients@.drop_first() =~= self.clients@);
            assert forall|id: ClientId| id != client_id implies #[trigger] r.client_status_spec(id)
                == self.client_status_spec(id) by {
                assert(lookup_client(r.clients@, id) == lookup_client(r.clients@.drop_first(), id));
            }
            assert forall|id: ClientId, h: Height| id != client_id implies #[trigger] r
                .proof_height_ok_spec(id, h) == self.proof_height_ok_spec(id, h) by {
                assert(lookup_client(r.clients@, id) == lookup_client(r.clients@.drop_first(), id));
            }
        }
        r
    }

    /// The context with a consensus state recorded for the client at the
    /// height, its commitment root being `root`.
    pub fn with_consensus_state(self, client_id: ClientId, height: Height, root: Vec<u8>) -> (r:
        MemoryContext)
        ensures
            r.consensus_state_spec(client_id, height) matches Some(cs) && cs.root.bytes@ == root@,
            forall|id: ClientId, h: Height| !(id == client_id && h == height)
                ==> #[trigger] r.consensus_state_spec(id, h) == self.consensus_state_spec(id, h),
            r.channels@ == self.channels@,
            r.connections@ == self.connections@,
            r.clients@ == self.clients@,
            r.memberships@ == self.memberships@,
            r.events@ == self.events@,
            r.log@ == self.log@,
    {
        let mut consensus_states = self.consensus_states;
        consensus_states.insert(
            0,
            ConsensusRecord {
                client_id,
                height,
                state: ConsensusState { root: CommitmentRoot { bytes: root } },
            },
        );
        let r = MemoryContext { consensus_states, ..self };
        proof {
            assert(r.consensus_states@.drop_first() =~= self.consensus_states@);
            assert forall|id: ClientId, h: Height| !(id == client_id && h == height)
                implies #[trigger] r.consensus_state_spec(id, h) == self.consensus_state_spec(
                id,
                h,
            ) by {
                assert(lookup_consensus(r.consensus_states@, id, h) == lookup_consensus(
                    r.consensus_states@.drop_first(),
                    id,
                    h,
                ));
            }
        }
        r
    }

    /// The context whose light client will also answer this membership
    /// query positively.
    pub fn with_membership(
        self,
        client_id: ClientId,
        prefix: Vec<u8>,
        proof: Vec<u8>,
        root: Vec<u8>,
        path: StorePath,
        value: Vec<u8>,
    ) -> (r: MemoryContext)
        ensures
            r.membership_ok_spec(client_id, prefix@, proof@, root@, path, value@),
            forall|cl: ClientId, pre: Seq<u8>, pr: Seq<u8>, ro: Seq<u8>, pa: StorePath, va: Seq<u8>|
                self.membership_ok_spec(cl, pre, pr, ro, pa, va)
                    ==> #[trigger] r.membership_ok_spec(cl, pre, pr, ro, pa, va),
            r.channels@ == self.channels@,
            r.connections@ == self.connections@,
            r.clients@ == self.clients@,
            r.consensus_states@ == self.consensus_states@,
            r.events@ == self.events@,
            r.log@ == self.log@,
    {
        let mut memberships = self.memberships;
        memberships.push(MembershipRecord { client_id, prefix, proof, root, path, value });
        let r = MemoryContext { memberships, ..self };
        proof {
            let s = self.memberships@;
            let t = r.memberships@;
            assert(t[s.len() as int].client_id == client_id);
            assert forall|cl: ClientId, pre: Seq<u8>, pr: Seq<u8>, ro: Seq<u8>, pa: StorePath, va: Seq<u8>|
                self.membership_ok_spec(cl, pre, pr, ro, pa, va) implies #[trigger] r
                .membership_ok_spec(cl, pre, pr, ro, pa, va) by {
                let k = choose|k: int|
                    0 <= k < s.len() && membership_matches(#[trigger] s[k], cl, pre, pr, ro, pa, va);
                assert(t[k] == s[k]);
                assert(membership_matches(t[k], cl, pre, pr, ro, pa, va));
            }
        }
        r
    }
}

impl ValidationContext for MemoryContext {
    open spec fn channel_end_spec(&self, port_id: PortId, channel_id: ChannelId) -> Option<
        ChannelEnd,
    > {
        lookup_channel(self.channels@, port_id, channel_id)
    }

    open spec fn connection_end_spec(&self, connection_id: ConnectionId) -> Option<ConnectionEnd> {
        lookup_connection(self.connections@, connection_id)
    }

    open spec fn client_status_spec(&self, client_id: ClientId) -> Option<Status> {
        match lookup_client(self.clients@, client_id) {
            Some(rec) => Some(rec.status),
            None => None,
        }
    }

    open spec fn proof_height_ok_spec(&self, client_id: ClientId, height: Height) -> bool {
        match lookup_client(self.clients@, client_id) {
            Some(rec) => height.revision_number == rec.latest_height.revision_number
                && height.revision_height <= rec.latest_height.revision_height,
            None => false,
        }
    }

    open spec fn consensus_state_spec(&self, client_id: ClientId, height: Height) -> Option<
        ConsensusState,
    > {
        lookup_consensus(self.consensus_states@, client_id, height)
    }

    open spec fn membership_ok_spec(
        &self,
        client_id: ClientId,
        prefix: Seq<u8>,
        proof: Seq<u8>,
        root: Seq<u8>,
        path: StorePath,
        value: Seq<u8>,
    ) -> bool {
        has_membership(self.memberships@, client_id, prefix, proof, root, path, value)
    }

    open spec fn signer_ok_spec(&self, signer: Seq<char>) -> bool {
        true
    }

    fn channel_end(&self, path: &ChannelEndPath) -> (r: Result<ChannelEnd, ContextError>) {
        proof {
            assert(self.channels@.skip(0) =~= self.channels@);
        }
        let mut i: usize = 0;
        while i < self.channels.len()
            invariant
                i <= self.channels@.len(),
                lookup_channel(self.channels@, path.port_id, path.channel_id) == lookup_channel(
                    self.channels@.skip(i as int),
                    path.port_id,
                    path.channel_id,
                ),
            decreases self.channels@.len() - i,
        {
            proof {
                assert(self.channels@.skip(i as int)[0] == self.channels@[i as int]);
                assert(self.channels@.skip(i as int).drop_first() =~= self.channels@.skip(
                    i + 1 as int,
                ));
            }
            let rec = &self.channels[i];
            if rec.port_id == path.port_id && rec.channel_id == path.channel_id {
                return Ok(rec.end.clone_end());
            }
            i = i + 1;
        }
        proof {
            assert(self.channels@.skip(self.channels@.len() as int) =~= Seq::<
                ChannelRecord,
            >::empty());
        }
        Err(
            ContextError::Channel(
                ChannelError::ChannelNotFound {
                    port_id: path.port_id,
                    channel_id: path.channel_id,
                },
            ),
        )
    }

    fn connection_end(&self, connection_id: &ConnectionId) -> (r: Result<
        ConnectionEnd,
        ContextError,
    >) {
        proof {
            assert(self.connections@.skip(0) =~= self.connections@);
        }
        let mut i: usize = 0;
        while i < self.connections.len()
            invariant
                i <= self.connections@.len(),
                lookup_connection(self.connections@, *connection_id) == lookup_connection(
                    self.connections@.skip(i as int),
                    *connection_id,
                ),
            decreases self.connections@.len() - i,
        {
            proof {
                assert(self.connections@.skip(i as int)[0] == self.connections@[i as int]);
                assert(self.connections@.skip(i as int).drop_first() =~= self.connections@.skip(
                    i + 1 as int,
                ));
            }
            let rec = &self.connections[i];
            if rec.connection_id == *connection_id {
                return Ok(rec.end.clone_end());
            }
            i = i + 1;
        }
        proof {
            assert(self.connections@.skip(self.connections@.len() as int) =~= Seq::<
                ConnectionRecord,
            >::empty());
        }
        Err(
            ContextError::Connection(
                ConnectionError::ConnectionNotFound { connection_id: *connection_id },
            ),
        )
    }

    fn client_status(&self, client_id: &ClientId) -> (r: Result<Status, ContextError>) {
        proof {
            assert(self.clients@.skip(0) =~= self.clients@);
        }
        let mut i: usize = 0;
        while i < self.clients.len()
            invariant
                i <= self.clients@.len(),
                lookup_client(self.clients@, *client_id) == lookup_client(
                    self.clients@.skip(i as int),
                    *client_id,
                ),
            decreases self.clients@.len() - i,
        {
            proof {
                assert(self.clients@.skip(i as int)[0] == self.clients@[i as int]);
                assert(self.clients@.skip(i as int).drop_first() =~= self.clients@.skip(
                    i + 1 as int,
                ));
            }
            let rec = &self.clients[i];
            if rec.client_id == *client_id {
                return Ok(rec.status);
            }
            i = i + 1;
        }
        proof {
            assert(self.clients@.skip(self.clients@.len() as int) =~= Seq::<ClientRecord>::empty());
        }
        Err(ContextError::Client(ClientError::ClientStateNotFound { client_id: *client_id }))
    }

    fn validate_proof_height(&self, client_id: &ClientId, height: &Height) -> (r: Result<
        (),
        ContextError,
    >) {
        proof {
            assert(self.clients@.skip(0) =~= self.clients@);
        }
        let mut i: usize = 0;
        while i < self.clients.len()
            invariant
                i <= self.clients@.len(),
                lookup_client(self.clients@, *client_id) == lookup_client(
                    self.clients@.skip(i as int),
                    *client_id,
                ),
            decreases self.clients@.len() - i,
        {
            proof {
                assert(self.clients@.skip(i as int)[0] == self.clients@[i as int]);
                assert(self.clients@.skip(i as int).drop_first() =~= self.clients@.skip(
                    i + 1 as int,
                ));
            }
            let rec = &self.clients[i];
            if rec.client_id == *client_id {
                if height.revision_number == rec.latest_height.revision_number
                    && height.revision_height <= rec.latest_height.revision_height {
                    return Ok(());
                } else {
                    return Err(
                        ContextError::Client(ClientError::InvalidProofHeight { height: *height }),
                    );
                }
            }
            i = i + 1;
        }
        proof {
            assert(self.clients@.skip(self.clients@.len() as int) =~= Seq::<ClientRecord>::empty());
        }
        Err(ContextError::Client(ClientError::InvalidProofHeight { height: *height }))
    }

    fn consensus_state(&self, path: &ClientConsensusStatePath) -> (r: Result<
        ConsensusState,
        ContextError,
    >) {
        proof {
            assert(self.consensus_states@.skip(0) =~= self.consensus_states@);
        }
        let mut i: usize = 0;
        while i < self.consensus_states.len()
            invariant
                i <= self.consensus_states@.len(),
                lookup_consensus(self.consensus_states@, path.client_id, path.height)
                    == lookup_consensus(
                    self.consensus_states@.skip(i as int),
                    path.client_id,
                    path.height,
                ),
            decreases self.consensus_states@.len() - i,
        {
            proof {
                assert(self.consensus_states@.skip(i as int)[0] == self.consensus_states@[
                    i as int
                ]);
                assert(self.consensus_states@.skip(i as int).drop_first()
                    =~= self.consensus_states@.skip(i + 1 as int));
            }
            let rec = &self.consensus_states[i];
            if rec.client_id == path.client_id && rec.height == path.height {
                return Ok(
                    ConsensusState {
                        root: CommitmentRoot { bytes: copy_vec(&rec.state.root.bytes) },
                    },
                );
            }
            i = i + 1;
        }
        proof {
            assert(self.consensus_states@.skip(self.consensus_states@.len() as int) =~= Seq::<
                ConsensusRecord,
            >::empty());
        }
        Err(
            ContextError::Client(
                ClientError::ConsensusStateNotFound {
                    client_id: path.client_id,
                    height: path.height,
                },
            ),
        )
    }

    fn verify_membership(
        &self,
        client_id: &ClientId,
        prefix: &CommitmentPrefix,
        proof: &CommitmentProofBytes,
        root: &CommitmentRoot,
        path: &StorePath,
        value: &Vec<u8>,
    ) -> (r: Result<(), ClientError>) {
        let mut i: usize = 0;
        while i < self.memberships.len()
            invariant
                i <= self.memberships@.len(),
                forall|k: int| 0 <= k < i ==> !membership_matches(
                    #[trigger] self.memberships@[k],
                    *client_id,
                    prefix.bytes@,
                    proof.bytes@,
                    root.bytes@,
                    *path,
                    value@,
                ),
            decreases self.memberships@.len() - i,
        {
            let rec = &self.memberships[i];
            if rec.client_id == *client_id && bytes_eq(&rec.prefix, &prefix.bytes) && bytes_eq(
                &rec.proof,
                &proof.bytes,
            ) && bytes_eq(&rec.root, &root.bytes) && rec.path == *path && bytes_eq(
                &rec.value,
                value,
            ) {
                return Ok(());
            }
            i = i + 1;
        }
        Err(ClientError::FailedProofVerification)
    }

    fn validate_message_signer(&self, signer: &Signer) -> (r: Result<(), ContextError>) {
        Ok(())
    }
}

impl ExecutionContext for MemoryContext {
    open spec fn events_spec(&self) -> Seq<IbcEvent> {
        self.events@
    }

    open spec fn logs_spec(&self) -> Seq<Seq<char>> {
        self.log.deep_view()
    }

    fn store_channel(&mut self, path: &ChannelEndPath, channel_end: ChannelEnd) {
        self.channels.insert(
            0,
            ChannelRecord { port_id: path.port_id, channel_id: path.channel_id, end: channel_end },
        );
        proof {
            assert(self.channels@.drop_first() =~= old(self).channels@);
            assert forall|p: PortId, c: ChannelId| !(p == path.port_id && c == path.channel_id)
                implies #[trigger] self.channel_end_spec(p, c) == old(self).channel_end_spec(
                p,
                c,
            ) by {
                assert(lookup_channel(self.channels@, p, c) == lookup_channel(
                    self.channels@.drop_first(),
                    p,
                    c,
                ));
            }
        }
    }

    fn emit_ibc_event(&mut self, event: IbcEvent) {
        self.events.push(event);
    }

    fn log_message(&mut self, message: String) {
        let ghost message_view = message@;
        self.log.push(message);
        proof {
            assert(self.log.deep_view() =~= old(self).log.deep_view().push(message_view));
        }
    }
}

/// A module whose hook decisions are fixed by its fields: whether each
/// hook accepts, the rejection reason when it does not, and the events and
/// log lines its execute hook hands back.
pub struct StaticModule {
    pub accept_validate: bool,
    pub accept_execute: bool,
    pub reason: u64,
    pub events: Vec<ModuleEvent>,
    pub log: Vec<String>,
}

impl StaticModule {
    /// A module that accepts everything and contributes nothing.
    pub fn accepting() -> (r: StaticModule)
        ensures
            r.accept_validate,
            r.accept_execute,
            r.events@ =~= Seq::<ModuleEvent>::empty(),
            r.log@ =~= Seq::<String>::empty(),
    {
        StaticModule {
            accept_validate: true,
            accept_execute: true,
            reason: 0,
            events: Vec::new(),
            log: Vec::new(),
        }
    }
}

/// A copy of a vector of strings, equal to it view for view.
fn copy_strings(v: &Vec<String>) -> (r: Vec<String>)
    ensures
        r@ == v@,
{
    let mut r: Vec<String> = Vec::new();
    let mut i: usize = 0;
    while i < v.len()
        invariant
            i <= v@.len(),
            r@ == v@.subrange(0, i as int),
        decreases v@.len() - i,
    {
        r.push(v[i].clone());
        proof {
            assert(r@ =~= v@.subrange(0, i + 1 as int));
        }
        i = i + 1;
    }
    proof {
        assert(r@ =~= v@);
    }
    r
}

impl Module for StaticModule {
    open spec fn confirm_validate_ok(&self, port_id: PortId, channel_id: ChannelId) -> bool {
        self.accept_validate
    }

    open spec fn confirm_validate_err(&self, port_id: PortId, channel_id: ChannelId) -> ChannelError {
        ChannelError::AppModule { reason: self.reason }
    }

    open spec fn confirm_execute_ok(&self, port_id: PortId, channel_id: ChannelId) -> bool {
        self.accept_execute
    }

    open spec fn confirm_execute_err(&self, port_id: PortId, channel_id: ChannelId) -> ChannelError {
        ChannelError::AppModule { reason: self.reason }
    }

    open spec fn confirm_events(&self, port_id: PortId, channel_id: ChannelId) -> Seq<ModuleEvent> {
        self.events@
    }

    open spec fn confirm_logs(&self, port_id: PortId, channel_id: ChannelId) -> Seq<Seq<char>> {
        self.log.deep_view()
    }

    fn on_chan_open_confirm_validate(&self, port_id: &PortId, channel_id: &ChannelId) -> (r:
        Result<(), ChannelError>) {
        if self.accept_validate {
            Ok(())
        } else {
            Err(ChannelError::AppModule { reason: self.reason })
        }
    }

    fn on_chan_open_confirm_execute(&mut self, port_id: &PortId, channel_id: &ChannelId) -> (r:
        Result<ModuleExtras, ChannelError>) {
        if self.accept_execute {
            let events = copy_vec(&self.events);
            let log = copy_strings(&self.log);
            proof {
                assert(log.deep_view() =~= self.log.deep_view());
            }
            Ok(ModuleExtras { events, log })
        } else {
            Err(ChannelError::AppModule { reason: self.reason })
        }
    }
}

} // verus!
