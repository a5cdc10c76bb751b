//! End-to-end exercises of the OPEN_CONFIRM step against the in-memory
//! host: the happy path, every rejection, and the event discipline.
use channel_handshake::channel::{ChannelEnd, ChannelState, Counterparty, Order};
use channel_handshake::client::Status;
use channel_handshake::commitment::{CommitmentPrefix, CommitmentProofBytes};
use channel_handshake::connection::{ConnectionCounterparty, ConnectionEnd, ConnectionState};
use channel_handshake::error::{ChannelError, ClientError, ConnectionError, ContextError};
use channel_handshake::events::{IbcEvent, MessageEvent, ModuleEvent};
use channel_handshake::handler::{chan_open_confirm_execute, chan_open_confirm_validate, validate};
use channel_handshake::ids::{ChannelId, ClientId, ConnectionId, Height, PortId, Signer};
use channel_handshake::msgs::MsgChannelOpenConfirm;
use channel_handshake::path::{ChannelEndPath, StorePath};
use channel_handshake::proto::expected_counterparty_channel_value;
use channel_handshake::store::{MemoryContext, StaticModule};

const PROOF_HEIGHT: u64 = 10;

fn port_b() -> PortId {
    PortId(1)
}

fn chan_b() -> ChannelId {
    ChannelId(0)
}

fn chan_a() -> ChannelId {
    ChannelId(0)
}

fn client_b() -> ClientId {
    ClientId(45)
}

fn conn_b() -> ConnectionId {
    ConnectionId(2)
}

fn conn_a() -> ConnectionId {
    ConnectionId(0)
}

fn version() -> String {
    String::from("1")
}

fn msg() -> MsgChannelOpenConfirm {
    MsgChannelOpenConfirm {
        port_id_on_b: port_b(),
        chan_id_on_b: chan_b(),
        proof_chan_end_on_a: CommitmentProofBytes { bytes: vec![0xAA, 0xBB, 0xCC] },
        proof_height_on_a: Height::new(0, PROOF_HEIGHT),
        signer: Signer { account: String::from("relayer") },
    }
}

fn conn_end_on_b(state: ConnectionState) -> ConnectionEnd {
    ConnectionEnd::new(
        state,
        client_b(),
        ConnectionCounterparty {
            connection_id: Some(conn_a()),
            prefix: CommitmentPrefix { bytes: b"ibc".to_vec() },
        },
    )
}

fn chan_end_on_b(state: ChannelState) -> ChannelEnd {
    ChannelEnd::new(
        state,
        Order::Unordered,
        Counterparty::new(port_b(), Some(chan_a())),
        vec![conn_b()],
        version(),
    )
}

/// A context with client, connection and consensus state in place, but no
/// channel and no membership record yet.
fn base_context() -> MemoryContext {
    MemoryContext::new()
        .with_client(client_b(), Status::Active, Height::new(0, PROOF_HEIGHT))
        .with_connection(conn_b(), conn_end_on_b(ConnectionState::Open))
        .with_consensus_state(client_b(), Height::new(0, PROOF_HEIGHT), b"root".to_vec())
}

/// The membership record that makes the happy-path proof verify: the
/// expected counterparty channel end at the counterparty path, under the
/// counterparty prefix, against the stored root.
fn with_valid_proof(ctx: MemoryContext, m: &MsgChannelOpenConfirm) -> MemoryContext {
    let value = expected_counterparty_channel_value(
        Order::Unordered,
        m.port_id_on_b,
        m.chan_id_on_b,
        conn_a(),
        &version(),
    );
    ctx.with_membership(
        client_b(),
        b"ibc".to_vec(),
        m.proof_chan_end_on_a.bytes.clone(),
        b"root".to_vec(),
        StorePath::ChannelEnd(ChannelEndPath::new(port_b(), chan_a())),
        value,
    )
}

fn happy_context() -> MemoryContext {
    let m = msg();
    with_valid_proof(
        base_context().with_channel(port_b(), chan_b(), chan_end_on_b(ChannelState::TryOpen)),
        &m,
    )
}

#[test]
fn chan_open_confirm_fail_no_channel() {
    let ctx = base_context();
    let res = validate(&ctx, &msg());
    assert_eq!(
        res,
        Err(ContextError::Channel(ChannelError::ChannelNotFound {
            port_id: port_b(),
            channel_id: chan_b(),
        }))
    );
}

#[test]
fn chan_open_confirm_fail_channel_wrong_state() {
    let ctx = base_context().with_channel(port_b(), chan_b(), chan_end_on_b(ChannelState::Init));
    let res = validate(&ctx, &msg());
    assert_eq!(
        res,
        Err(ContextError::Channel(ChannelError::InvalidState {
            expected: ChannelState::TryOpen,
            actual: ChannelState::Init,
        }))
    );
}

#[test]
fn chan_open_confirm_validate_happy_path() {
    let ctx = happy_context();
    let res = validate(&ctx, &msg());
    assert_eq!(res, Ok(()));
}

#[test]
fn chan_open_confirm_execute_happy_path() {
    let mut ctx = happy_context();
    let mut module = StaticModule::accepting();
    let res = chan_open_confirm_execute(&mut ctx, &mut module, msg());
    assert_eq!(res, Ok(()));
    assert_eq!(ctx.events.len(), 2);
    assert!(matches!(ctx.events[0], IbcEvent::Message(MessageEvent::Channel)));
    match ctx.events[1] {
        IbcEvent::OpenConfirmChannel(e) => {
            assert_eq!(e.port_id_on_b, port_b());
            assert_eq!(e.chan_id_on_b, chan_b());
            assert_eq!(e.port_id_on_a, port_b());
            assert_eq!(e.chan_id_on_a, chan_a());
            assert_eq!(e.conn_id_on_b, conn_b());
        },
        ref other => panic!("expected the OPEN_CONFIRM domain event, got {:?}", other),
    }
}

#[test]
fn chan_open_confirm_fail_proof_does_not_verify() {
    // Same as the happy path, but the supplied proof bytes are not the
    // ones the light client accepts.
    let ctx = happy_context();
    let mut bad = msg();
    bad.proof_chan_end_on_a = CommitmentProofBytes { bytes: vec![0x01] };
    let res = validate(&ctx, &bad);
    assert_eq!(
        res,
        Err(ContextError::Channel(ChannelError::VerifyChannelFailed(
            ClientError::FailedProofVerification,
        )))
    );
}

#[test]
fn chan_open_confirm_fail_connection_not_open() {
    let m = msg();
    let ctx = with_valid_proof(
        MemoryContext::new()
            .with_client(client_b(), Status::Active, Height::new(0, PROOF_HEIGHT))
            .with_connection(conn_b(), conn_end_on_b(ConnectionState::Init))
            .with_consensus_state(client_b(), Height::new(0, PROOF_HEIGHT), b"root".to_vec())
            .with_channel(port_b(), chan_b(), chan_end_on_b(ChannelState::TryOpen)),
        &m,
    );
    let res = validate(&ctx, &m);
    assert_eq!(
        res,
        Err(ContextError::Connection(ConnectionError::InvalidState {
            expected: ConnectionState::Open,
            actual: ConnectionState::Init,
        }))
    );
}

#[test]
fn chan_open_confirm_fail_client_not_active() {
    let m = msg();
    let ctx = with_valid_proof(
        MemoryContext::new()
            .with_client(client_b(), Status::Frozen, Height::new(0, PROOF_HEIGHT))
            .with_connection(conn_b(), conn_end_on_b(ConnectionState::Open))
            .with_consensus_state(client_b(), Height::new(0, PROOF_HEIGHT), b"root".to_vec())
            .with_channel(port_b(), chan_b(), chan_end_on_b(ChannelState::TryOpen)),
        &m,
    );
    let res = validate(&ctx, &m);
    // The error carries the observed status.
    assert_eq!(
        res,
        Err(ContextError::Client(ClientError::ClientNotActive { status: Status::Frozen }))
    );
}

#[test]
fn chan_open_confirm_fail_proof_height_too_new() {
    let ctx = happy_context();
    let mut m = msg();
    m.proof_height_on_a = Height::new(0, PROOF_HEIGHT + 1);
    let res = validate(&ctx, &m);
    assert_eq!(
        res,
        Err(ContextError::Client(ClientError::InvalidProofHeight {
            height: Height::new(0, PROOF_HEIGHT + 1),
        }))
    );
}

#[test]
fn chan_open_confirm_fail_consensus_state_missing() {
    let m = msg();
    let ctx = with_valid_proof(
        MemoryContext::new()
            .with_client(client_b(), Status::Active, Height::new(0, PROOF_HEIGHT + 5))
            .with_connection(conn_b(), conn_end_on_b(ConnectionState::Open))
            .with_consensus_state(client_b(), Height::new(0, PROOF_HEIGHT + 5), b"root".to_vec())
            .with_channel(port_b(), chan_b(), chan_end_on_b(ChannelState::TryOpen)),
        &m,
    );
    let res = validate(&ctx, &m);
    assert_eq!(
        res,
        Err(ContextError::Client(ClientError::ConsensusStateNotFound {
            client_id: client_b(),
            height: Height::new(0, PROOF_HEIGHT),
        }))
    );
}

#[test]
fn chan_open_confirm_fail_missing_counterparty_channel_id() {
    let end = ChannelEnd::new(
        ChannelState::TryOpen,
        Order::Unordered,
        Counterparty::new(port_b(), None),
        vec![conn_b()],
        version(),
    );
    let m = msg();
    let ctx = with_valid_proof(base_context().with_channel(port_b(), chan_b(), end), &m);
    let res = validate(&ctx, &m);
    assert_eq!(res, Err(ContextError::Channel(ChannelError::MissingCounterparty)));
}

#[test]
fn chan_open_confirm_fail_undefined_connection_counterparty() {
    let conn_end = ConnectionEnd::new(
        ConnectionState::Open,
        client_b(),
        ConnectionCounterparty {
            connection_id: None,
            prefix: CommitmentPrefix { bytes: b"ibc".to_vec() },
        },
    );
    let m = msg();
    let ctx = with_valid_proof(
        MemoryContext::new()
            .with_client(client_b(), Status::Active, Height::new(0, PROOF_HEIGHT))
            .with_connection(conn_b(), conn_end)
            .with_consensus_state(client_b(), Height::new(0, PROOF_HEIGHT), b"root".to_vec())
            .with_channel(port_b(), chan_b(), chan_end_on_b(ChannelState::TryOpen)),
        &m,
    );
    let res = validate(&ctx, &m);
    assert_eq!(
        res,
        Err(ContextError::Channel(ChannelError::UndefinedConnectionCounterparty {
            connection_id: conn_b(),
        }))
    );
}

#[test]
fn chan_open_confirm_validate_writes_nothing() {
    // Validation only holds a shared borrow; diffing the observable store
    // confirms no write happened, on success and on failure alike.
    let ctx = happy_context();
    let channels_before = ctx.channels.len();
    assert_eq!(validate(&ctx, &msg()), Ok(()));
    let mut bad = msg();
    bad.proof_chan_end_on_a = CommitmentProofBytes { bytes: vec![0x01] };
    assert!(validate(&ctx, &bad).is_err());
    assert_eq!(ctx.channels.len(), channels_before);
    assert_eq!(ctx.channels[0].end.state, ChannelState::TryOpen);
    assert_eq!(ctx.events.len(), 0);
    assert_eq!(ctx.log.len(), 0);
}

#[test]
fn chan_open_confirm_execute_round_trip_preserves_fields() {
    let mut ctx = happy_context();
    let mut module = StaticModule::accepting();
    assert_eq!(chan_open_confirm_execute(&mut ctx, &mut module, msg()), Ok(()));
    let stored = &ctx.channels[0];
    assert_eq!(stored.port_id, port_b());
    assert_eq!(stored.channel_id, chan_b());
    assert_eq!(stored.end.state, ChannelState::Open);
    assert_eq!(stored.end.ordering, Order::Unordered);
    assert_eq!(stored.end.counterparty, Counterparty::new(port_b(), Some(chan_a())));
    assert_eq!(stored.end.connection_hops, vec![conn_b()]);
    assert_eq!(stored.end.version, version());
    assert_eq!(ctx.log.len(), 1);
    assert_eq!(ctx.log[0], "success: channel open confirm");
}

#[test]
fn chan_open_confirm_execute_relays_module_events_in_order() {
    let mut ctx = happy_context();
    let mut module = StaticModule {
        accept_validate: true,
        accept_execute: true,
        reason: 0,
        events: vec![ModuleEvent { kind: 7 }, ModuleEvent { kind: 9 }],
        log: vec![String::from("module line one"), String::from("module line two")],
    };
    assert_eq!(chan_open_confirm_execute(&mut ctx, &mut module, msg()), Ok(()));
    // Exactly one routing event, one domain event, then the module's
    // events: 2 + 2 in all.
    assert_eq!(ctx.events.len(), 4);
    assert!(matches!(ctx.events[0], IbcEvent::Message(MessageEvent::Channel)));
    assert!(matches!(ctx.events[1], IbcEvent::OpenConfirmChannel(_)));
    assert_eq!(ctx.events[2], IbcEvent::Module(ModuleEvent { kind: 7 }));
    assert_eq!(ctx.events[3], IbcEvent::Module(ModuleEvent { kind: 9 }));
    assert_eq!(ctx.log.len(), 3);
    assert_eq!(ctx.log[0], "success: channel open confirm");
    assert_eq!(ctx.log[1], "module line one");
    assert_eq!(ctx.log[2], "module line two");
}

#[test]
fn chan_open_confirm_module_rejects_validation() {
    let ctx = happy_context();
    let module = StaticModule {
        accept_validate: false,
        accept_execute: true,
        reason: 13,
        events: Vec::new(),
        log: Vec::new(),
    };
    let res = chan_open_confirm_validate(&ctx, &module, msg());
    assert_eq!(res, Err(ContextError::Channel(ChannelError::AppModule { reason: 13 })));
}

#[test]
fn chan_open_confirm_module_rejects_execution() {
    let mut ctx = happy_context();
    let mut module = StaticModule {
        accept_validate: true,
        accept_execute: false,
        reason: 21,
        events: Vec::new(),
        log: Vec::new(),
    };
    let res = chan_open_confirm_execute(&mut ctx, &mut module, msg());
    assert_eq!(res, Err(ContextError::Channel(ChannelError::AppModule { reason: 21 })));
    // A module failure aborts the whole step with no mutation.
    assert_eq!(ctx.channels[0].end.state, ChannelState::TryOpen);
    assert_eq!(ctx.events.len(), 0);
    assert_eq!(ctx.log.len(), 0);
}

#[test]
fn chan_open_confirm_full_validate_happy_path() {
    let ctx = happy_context();
    let module = StaticModule::accepting();
    assert_eq!(chan_open_confirm_validate(&ctx, &module, msg()), Ok(()));
}

#[test]
fn expected_value_is_a_real_encoding() {
    // The serialized expected channel end is not any argument handed back
    // unchanged, is deterministic, and depends on its inputs.
    let v = expected_counterparty_channel_value(
        Order::Unordered,
        port_b(),
        chan_b(),
        conn_a(),
        &version(),
    );
    let again = expected_counterparty_channel_value(
        Order::Unordered,
        port_b(),
        chan_b(),
        conn_a(),
        &version(),
    );
    assert_eq!(v, again);
    assert_ne!(v, version().into_bytes());
    assert!(!v.is_empty());
    let other_hop = expected_counterparty_channel_value(
        Order::Unordered,
        port_b(),
        chan_b(),
        ConnectionId(conn_a().0 + 1),
        &version(),
    );
    assert_ne!(v, other_hop);
    let other_ordering = expected_counterparty_channel_value(
        Order::Ordered,
        port_b(),
        chan_b(),
        conn_a(),
        &version(),
    );
    assert_ne!(v, other_ordering);
}
