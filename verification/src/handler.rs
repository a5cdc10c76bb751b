//! The OPEN_CONFIRM step handlers: a read-only `validate` that checks state
//! legality and one membership proof, and an `execute` that performs the
//! store write, fires the module hook and emits the events.
//!
//! The outcome of each handler is pinned, for every context, module and
//! message, by a spec function that restates the decision sequence; the
//! executable handlers are proved equal to it.
use vstd::prelude::*;

use crate::channel::{ChannelEnd, ChannelState};
use crate::commitment::copy_vec;
use crate::context::{
    channels_preserved_except, context_unchanged, read_deps_preserved, ExecutionContext, Module,
    ValidationContext,
};
use crate::error::{ChannelError, ClientError, ContextError};
use crate::events::{IbcEvent, MessageEvent, ModuleEvent, OpenConfirm};
use crate::msgs::MsgChannelOpenConfirm;
use crate::path::{ChannelEndPath, ClientConsensusStatePath, StorePath};
use crate::proto::{expected_confirm_value, expected_counterparty_channel_value};

verus! {

/// The exact outcome of the proof-and-state validation of OPEN_CONFIRM,
/// following the decision sequence of the protocol: signer policy, channel
/// lookup, channel state, hop count, connection lookup, connection state,
/// client status, proof height, consensus state, counterparty identifiers,
/// and finally the membership proof for the expected counterparty channel
/// end.
pub open spec fn confirm_validate_outcome<Ctx: ValidationContext>(
    ctx_b: &Ctx,
    msg: &MsgChannelOpenConfirm,
) -> Result<(), ContextError> {
    if !ctx_b.signer_ok_spec(msg.signer.account@) {
        Err(ContextError::InvalidSigner)
    } else {
        match ctx_b.channel_end_spec(msg.port_id_on_b, msg.chan_id_on_b) {
            None => Err(
                ContextError::Channel(
                    ChannelError::ChannelNotFound {
                        port_id: msg.port_id_on_b,
                        channel_id: msg.chan_id_on_b,
                    },
                ),
            ),
            Some(chan_end_on_b) => {
                if chan_end_on_b.state != ChannelState::TryOpen {
                    Err(
                        ContextError::Channel(
                            ChannelError::InvalidState {
                                expected: ChannelState::TryOpen,
                                actual: chan_end_on_b.state,
                            },
                        ),
                    )
                } else if chan_end_on_b.connection_hops@.len() != 1 {
                    Err(
                        ContextError::Channel(
                            ChannelError::InvalidConnectionHopsLength {
                                expected_length: 1,
                                actual_length: chan_end_on_b.connection_hops@.len() as usize,
                            },
                        ),
                    )
                } else {
                    confirm_validate_proof_outcome(
                        ctx_b,
                        msg,
                        chan_end_on_b,
                        chan_end_on_b.connection_hops@[0],
                    )
                }
            },
        }
    }
}

/// The tail of [`confirm_validate_outcome`] once the local channel end has
/// passed its state checks: everything that involves the connection and the
/// light client.
pub open spec fn confirm_validate_proof_outcome<Ctx: ValidationContext>(
    ctx_b: &Ctx,
    msg: &MsgChannelOpenConfirm,
    chan_end_on_b: ChannelEnd,
    conn_id_on_b: crate::ids::ConnectionId,
) -> Result<(), ContextError> {
    match ctx_b.connection_end_spec(conn_id_on_b) {
        None => Err(
            ContextError::Connection(
                crate::error::ConnectionError::ConnectionNotFound { connection_id: conn_id_on_b },
            ),
        ),
        Some(conn_end_on_b) => {
            if conn_end_on_b.state != crate::connection::ConnectionState::Open {
                Err(
                    ContextError::Connection(
                        crate::error::ConnectionError::InvalidState {
                            expected: crate::connection::ConnectionState::Open,
                            actual: conn_end_on_b.state,
                        },
                    ),
                )
            } else {
                match ctx_b.client_status_spec(conn_end_on_b.client_id) {
                    None => Err(
                        ContextError::Client(
                            ClientError::ClientStateNotFound { client_id: conn_end_on_b.client_id },
                        ),
                    ),
                    Some(status) => {
                        if status != crate::client::Status::Active {
                            Err(ContextError::Client(ClientError::ClientNotActive { status }))
                        } else if !ctx_b.proof_height_ok_spec(
                            conn_end_on_b.client_id,
                            msg.proof_height_on_a,
                        ) {
                            Err(
                                ContextError::Client(
                                    ClientError::InvalidProofHeight { height: msg.proof_height_on_a },
                                ),
                            )
                        } else {
                            match ctx_b.consensus_state_spec(
                                conn_end_on_b.client_id,
                                msg.proof_height_on_a,
                            ) {
                                None => Err(
                                    ContextError::Client(
                                        ClientError::ConsensusStateNotFound {
                                            client_id: conn_end_on_b.client_id,
                                            height: msg.proof_height_on_a,
                                        },
                                    ),
                                ),
                                Some(consensus_state_of_a_on_b) => {
                                    match chan_end_on_b.counterparty.channel_id {
                                        None => Err(
                                            ContextError::Channel(ChannelError::MissingCounterparty),
                                        ),
                                        Some(chan_id_on_a) => {
                                            match conn_end_on_b.counterparty.connection_id {
                                                None => Err(
                                                    ContextError::Channel(
                                                        ChannelError::UndefinedConnectionCounterparty {
                                                            connection_id: conn_id_on_b,
                                                        },
                                                    ),
                                                ),
                                                Some(conn_id_on_a) => {
                                                    if ctx_b.membership_ok_spec(
                                                        conn_end_on_b.client_id,
                                                        conn_end_on_b.counterparty.prefix.bytes@,
                                                        msg.proof_chan_end_on_a.bytes@,
                                                        consensus_state_of_a_on_b.root.bytes@,
                                                        StorePath::ChannelEnd(
                                                            ChannelEndPath {
                                                                port_id: chan_end_on_b.counterparty.port_id,
                                                                channel_id: chan_id_on_a,
                                                            },
                                                        ),
                                                        expected_confirm_value(
                                                            chan_end_on_b.ordering,
                                                            msg.port_id_on_b,
                                                            msg.chan_id_on_b,
                                                            conn_id_on_a,
                                                            chan_end_on_b.version@,
                                                        ),
                                                    ) {
                                                        Ok(())
                                                    } else {
                                                        Err(
                                                            ContextError::Channel(
                                                                ChannelError::VerifyChannelFailed(
                                                                    ClientError::FailedProofVerification,
                                                                ),
                                                            ),
                                                        )
                                                    }
                                                },
                                            }
                                        },
                                    }
                                },
                            }
                        }
                    },
                }
            }
        },
    }
}

/// Validation of an OPEN_CONFIRM message: read-only — the context is held
/// through a shared borrow, so no store write can occur under any outcome —
/// and equal, for every context and message, to the outcome spec.
pub fn validate<Ctx: ValidationContext>(ctx_b: &Ctx, msg: &MsgChannelOpenConfirm) -> (r: Result<
    (),
    ContextError,
>)
    ensures
        r == confirm_validate_outcome(ctx_b, msg),
{
    if let Err(e) = ctx_b.validate_message_signer(&msg.signer) {
        return Err(e);
    }
    // Unwrap the old channel end and validate it against the message.
    let chan_end_path_on_b = ChannelEndPath::new(msg.port_id_on_b, msg.chan_id_on_b);
    let chan_end_on_b = match ctx_b.channel_end(&chan_end_path_on_b) {
        Ok(c) => c,
        Err(e) => {
            return Err(e);
        },
    };
    // Validate that the channel end is in a state where it can be confirmed.
    if let Err(e) = chan_end_on_b.verify_state_matches(ChannelState::TryOpen) {
        return Err(ContextError::Channel(e));
    }
    // An OPEN connection running on the local (host) chain should exist.
    if let Err(e) = chan_end_on_b.verify_connection_hops_length() {
        return Err(ContextError::Channel(e));
    }
    let conn_id_on_b = chan_end_on_b.connection_hops[0];
    let conn_end_on_b = match ctx_b.connection_end(&conn_id_on_b) {
        Ok(c) => c,
        Err(e) => {
            return Err(e);
        },
    };
    if let Err(e) = conn_end_on_b.verify_state_matches(crate::connection::ConnectionState::Open) {
        return Err(ContextError::Connection(e));
    }
    // Verify proofs
    let client_id_on_b = conn_end_on_b.client_id;
    let status = match ctx_b.client_status(&client_id_on_b) {
        Ok(s) => s,
        Err(e) => {
            return Err(e);
        },
    };
    if !status.is_active() {
        return Err(ContextError::Client(ClientError::ClientNotActive { status }));
    }
    if let Err(e) = ctx_b.validate_proof_height(&client_id_on_b, &msg.proof_height_on_a) {
        return Err(e);
    }
    let client_cons_state_path_on_b = ClientConsensusStatePath::new(
        client_id_on_b,
        msg.proof_height_on_a,
    );
    let consensus_state_of_a_on_b = match ctx_b.consensus_state(&client_cons_state_path_on_b) {
        Ok(cs) => cs,
        Err(e) => {
            return Err(e);
        },
    };
    let port_id_on_a = chan_end_on_b.counterparty.port_id;
    let chan_id_on_a = match chan_end_on_b.counterparty.channel_id {
        Some(c) => c,
        None => {
            return Err(ContextError::Channel(ChannelError::MissingCounterparty));
        },
    };
    let conn_id_on_a = match conn_end_on_b.counterparty.connection_id {
        Some(c) => c,
        None => {
            return Err(
                ContextError::Channel(
                    ChannelError::UndefinedConnectionCounterparty { connection_id: conn_id_on_b },
                ),
            );
        },
    };
    // The expected value is built from locally trusted data substituted
    // into the counterparty's shoes, never from unchecked message fields.
    let expected_value = expected_counterparty_channel_value(
        chan_end_on_b.ordering,
        msg.port_id_on_b,
        msg.chan_id_on_b,
        conn_id_on_a,
        &chan_end_on_b.version,
    );
    let chan_end_path_on_a = StorePath::ChannelEnd(ChannelEndPath::new(port_id_on_a, chan_id_on_a));
    // Verify the proof for the channel state against the expected channel
    // end; the proof alone is definitive from here on.
    match ctx_b.verify_membership(
        &client_id_on_b,
        &conn_end_on_b.counterparty.prefix,
        &msg.proof_chan_end_on_a,
        &consensus_state_of_a_on_b.root,
        &chan_end_path_on_a,
        &expected_value,
    ) {
        Ok(()) => Ok(()),
        Err(e) => Err(ContextError::Channel(ChannelError::VerifyChannelFailed(e))),
    }
}

/// The exact outcome of the full OPEN_CONFIRM validation: the proof-side
/// checks first, then the module's validate hook.
pub open spec fn confirm_full_validate_outcome<Ctx: ValidationContext, M: Module>(
    ctx_b: &Ctx,
    module: &M,
    msg: &MsgChannelOpenConfirm,
) -> Result<(), ContextError> {
    match confirm_validate_outcome(ctx_b, msg) {
        Err(e) => Err(e),
        Ok(()) => if module.confirm_validate_ok(msg.port_id_on_b, msg.chan_id_on_b) {
            Ok(())
        } else {
            Err(
                ContextError::Channel(
                    module.confirm_validate_err(msg.port_id_on_b, msg.chan_id_on_b),
                ),
            )
        },
    }
}

/// The validate entry point of the OPEN_CONFIRM step: the proof-side
/// validation, then the module's validate hook.
pub fn chan_open_confirm_validate<Ctx: ValidationContext, M: Module>(
    ctx_b: &Ctx,
    module: &M,
    msg: MsgChannelOpenConfirm,
) -> (r: Result<(), ContextError>)
    ensures
        r == confirm_full_validate_outcome(ctx_b, module, &msg),
{
    if let Err(e) = validate(ctx_b, &msg) {
        return Err(e);
    }
    match module.on_chan_open_confirm_validate(&msg.port_id_on_b, &msg.chan_id_on_b) {
        Ok(()) => Ok(()),
        Err(e) => Err(ContextError::Channel(e)),
    }
}

/// When no channel end is stored under the message's identifiers, the
/// validation of OPEN_CONFIRM rejects, whatever else the context holds.
pub proof fn confirm_rejects_absent_channel<Ctx: ValidationContext>(
    ctx_b: &Ctx,
    msg: &MsgChannelOpenConfirm,
)
    requires
        ctx_b.channel_end_spec(msg.port_id_on_b, msg.chan_id_on_b) is None,
    ensures
        confirm_validate_outcome(ctx_b, msg) is Err,
{
}

/// When the stored channel end is not in the required predecessor state
/// `TryOpen`, the validation of OPEN_CONFIRM rejects.
pub proof fn confirm_rejects_wrong_channel_state<Ctx: ValidationContext>(
    ctx_b: &Ctx,
    msg: &MsgChannelOpenConfirm,
)
    requires
        ctx_b.channel_end_spec(msg.port_id_on_b, msg.chan_id_on_b) matches Some(ch)
            && ch.state != ChannelState::TryOpen,
    ensures
        confirm_validate_outcome(ctx_b, msg) is Err,
{
}

/// When the connection the channel routes over is not Open, the
/// validation of OPEN_CONFIRM rejects.
pub proof fn confirm_rejects_connection_not_open<Ctx: ValidationContext>(
    ctx_b: &Ctx,
    msg: &MsgChannelOpenConfirm,
)
    requires
        ctx_b.channel_end_spec(msg.port_id_on_b, msg.chan_id_on_b) matches Some(ch)
            && ch.connection_hops@.len() == 1 && (ctx_b.connection_end_spec(
            ch.connection_hops@[0],
        ) matches Some(conn) && conn.state != crate::connection::ConnectionState::Open),
    ensures
        confirm_validate_outcome(ctx_b, msg) is Err,
{
}

/// When the light client behind the channel's connection reports a status
/// other than `Active`, and every earlier check passes, the validation of
/// OPEN_CONFIRM rejects with exactly the client-not-active error carrying
/// the observed status.
pub proof fn confirm_rejects_inactive_client<Ctx: ValidationContext>(
    ctx_b: &Ctx,
    msg: &MsgChannelOpenConfirm,
)
    requires
        ctx_b.signer_ok_spec(msg.signer.account@),
        ctx_b.channel_end_spec(msg.port_id_on_b, msg.chan_id_on_b) matches Some(ch) && ch.state
            == ChannelState::TryOpen && ch.connection_hops@.len() == 1 && (ctx_b.connection_end_spec(
            ch.connection_hops@[0],
        ) matches Some(conn) && conn.state == crate::connection::ConnectionState::Open && (
        ctx_b.client_status_spec(conn.client_id) matches Some(status) && status
            != crate::client::Status::Active)),
    ensures
        (ctx_b.channel_end_spec(msg.port_id_on_b, msg.chan_id_on_b) matches Some(ch) && (
        ctx_b.connection_end_spec(ch.connection_hops@[0]) matches Some(conn) && (
        ctx_b.client_status_spec(conn.client_id) matches Some(status)
            && confirm_validate_outcome(ctx_b, msg) == Err::<(), ContextError>(
            ContextError::Client(ClientError::ClientNotActive { status }),
        )))),
{
}

/// How one OPEN_CONFIRM execute call relates the context and module before
/// the call (`pre`, `module`) to the context after it (`post`) and to its
/// result.
///
/// On success the stored channel end keeps every field of the old one and
/// only its state moves to `Open`; exactly one routing event, then exactly
/// one domain event, then the module's events are appended, in that order,
/// and one log line, then the module's log lines. A module failure leaves
/// the context untouched. A channel end that lost its counterparty channel
/// identifier since validation is reported as an internal-consistency
/// error after the store write, which the caller's transaction discards.
pub open spec fn confirm_execute_transition<Ctx: ExecutionContext, M: Module>(
    pre: Ctx,
    post: Ctx,
    module: M,
    msg: &MsgChannelOpenConfirm,
    r: Result<(), ContextError>,
) -> bool {
    let p = msg.port_id_on_b;
    let c = msg.chan_id_on_b;
    if !module.confirm_execute_ok(p, c) {
        &&& r == Err::<(), ContextError>(
            ContextError::Channel(module.confirm_execute_err(p, c)),
        )
        &&& context_unchanged(pre, post)
    } else {
        match pre.channel_end_spec(p, c) {
            None => {
                &&& r == Err::<(), ContextError>(
                    ContextError::Channel(
                        ChannelError::ChannelNotFound { port_id: p, channel_id: c },
                    ),
                )
                &&& context_unchanged(pre, post)
            },
            Some(ch) => {
                &&& (post.channel_end_spec(p, c) matches Some(ch2) && ch2.state
                    == ChannelState::Open && ch2.ordering == ch.ordering && ch2.counterparty
                    == ch.counterparty && ch2.connection_hops@ == ch.connection_hops@
                    && ch2.version@ == ch.version@)
                &&& channels_preserved_except(pre, post, p, c)
                &&& read_deps_preserved(pre, post)
                &&& match ch.counterparty.channel_id {
                    None => {
                        &&& r == Err::<(), ContextError>(
                            ContextError::Channel(ChannelError::MissingCounterpartyChannelId),
                        )
                        &&& post.events_spec() == pre.events_spec()
                        &&& post.logs_spec() == pre.logs_spec().push(
                            "success: channel open confirm"@,
                        )
                    },
                    Some(chan_id_on_a) => {
                        &&& r == Ok::<(), ContextError>(())
                        &&& post.events_spec() == pre.events_spec() + seq![
                            IbcEvent::Message(MessageEvent::Channel),
                            IbcEvent::OpenConfirmChannel(
                                (OpenConfirm {
                                    port_id_on_b: p,
                                    chan_id_on_b: c,
                                    port_id_on_a: ch.counterparty.port_id,
                                    chan_id_on_a: chan_id_on_a,
                                    conn_id_on_b: ch.connection_hops@[0],
                                }),
                            ),
                        ] + module.confirm_events(p, c).map_values(
                            |e: ModuleEvent| IbcEvent::Module(e),
                        )
                        &&& post.logs_spec() == pre.logs_spec().push(
                            "success: channel open confirm"@,
                        ) + module.confirm_logs(p, c)
                    },
                }
            },
        }
    }
}

/// The execute entry point of the OPEN_CONFIRM step: fire the module's
/// execute hook, advance the stored channel end to `Open`, and emit the
/// events and log lines in their fixed order.
///
/// The caller runs this only after a successful validation, so a stored
/// channel end is required to still route over at least one connection;
/// the other invariant validation established — a counterparty channel
/// identifier — is re-checked and reported as an internal-consistency
/// error, since the store may in principle have been mutated in between.
pub fn chan_open_confirm_execute<Ctx: ExecutionContext, M: Module>(
    ctx_b: &mut Ctx,
    module: &mut M,
    msg: MsgChannelOpenConfirm,
) -> (r: Result<(), ContextError>)
    requires
        (match old(ctx_b).channel_end_spec(msg.port_id_on_b, msg.chan_id_on_b) {
            Some(ch) => ch.connection_hops@.len() >= 1,
            None => true,
        }),
    ensures
        confirm_execute_transition(*old(ctx_b), *final(ctx_b), *old(module), &msg, r),
{
    let extras = match module.on_chan_open_confirm_execute(&msg.port_id_on_b, &msg.chan_id_on_b) {
        Ok(ex) => ex,
        Err(e) => {
            return Err(ContextError::Channel(e));
        },
    };
    let chan_end_path_on_b = ChannelEndPath::new(msg.port_id_on_b, msg.chan_id_on_b);
    let chan_end_on_b = match ctx_b.channel_end(&chan_end_path_on_b) {
        Ok(c) => c,
        Err(e) => {
            return Err(e);
        },
    };
    // state changes: the channel end moves to Open, every other field kept
    let chan_end_updated = ChannelEnd {
        state: ChannelState::Open,
        ordering: chan_end_on_b.ordering,
        counterparty: chan_end_on_b.counterparty,
        connection_hops: copy_vec(&chan_end_on_b.connection_hops),
        version: chan_end_on_b.version.clone(),
    };
    let ghost stored_end = chan_end_updated;
    ctx_b.store_channel(&chan_end_path_on_b, chan_end_updated);
    // emit events and logs
    ctx_b.log_message(String::from_str("success: channel open confirm"));
    let conn_id_on_b = chan_end_on_b.connection_hops[0];
    let port_id_on_a = chan_end_on_b.counterparty.port_id;
    let chan_id_on_a = match chan_end_on_b.counterparty.channel_id {
        Some(c) => c,
        None => {
            return Err(ContextError::Channel(ChannelError::MissingCounterpartyChannelId));
        },
    };
    let core_event = IbcEvent::OpenConfirmChannel(
        OpenConfirm {
            port_id_on_b: msg.port_id_on_b,
            chan_id_on_b: msg.chan_id_on_b,
            port_id_on_a,
            chan_id_on_a,
            conn_id_on_b,
        },
    );
    let ghost core_ev = core_event;
    ctx_b.emit_ibc_event(IbcEvent::Message(MessageEvent::Channel));
    ctx_b.emit_ibc_event(core_event);
    proof {
        assert(ctx_b.events_spec() =~= old(ctx_b).events_spec() + seq![
            IbcEvent::Message(MessageEvent::Channel),
            core_ev,
        ]);
    }
    let ghost events_base = ctx_b.events_spec();
    let ghost logs_base = ctx_b.logs_spec();
    let mut i: usize = 0;
    while i < extras.events.len()
        invariant
            i <= extras.events@.len(),
            ctx_b.events_spec() == events_base + extras.events@.subrange(0, i as int).map_values(
                |e: ModuleEvent| IbcEvent::Module(e),
            ),
            ctx_b.logs_spec() == logs_base,
            channels_preserved_except(*old(ctx_b), *ctx_b, msg.port_id_on_b, msg.chan_id_on_b),
            read_deps_preserved(*old(ctx_b), *ctx_b),
            ctx_b.channel_end_spec(msg.port_id_on_b, msg.chan_id_on_b) == Some(stored_end),
        decreases extras.events@.len() - i,
    {
        ctx_b.emit_ibc_event(IbcEvent::Module(extras.events[i]));
        proof {
            assert(ctx_b.events_spec() =~= events_base + extras.events@.subrange(
                0,
                i + 1 as int,
            ).map_values(|e: ModuleEvent| IbcEvent::Module(e)));
        }
        i = i + 1;
    }
    proof {
        assert(extras.events@.subrange(0, extras.events@.len() as int) =~= extras.events@);
        assert(ctx_b.events_spec() =~= old(ctx_b).events_spec() + seq![
            IbcEvent::Message(MessageEvent::Channel),
            core_ev,
        ] + extras.events@.map_values(|e: ModuleEvent| IbcEvent::Module(e)));
    }
    let ghost events_done = ctx_b.events_spec();
    let mut j: usize = 0;
    while j < extras.log.len()
        invariant
            j <= extras.log@.len(),
            extras.log.deep_view().len() == extras.log@.len(),
            ctx_b.logs_spec() == logs_base + extras.log.deep_view().subrange(0, j as int),
            ctx_b.events_spec() == events_done,
            channels_preserved_except(*old(ctx_b), *ctx_b, msg.port_id_on_b, msg.chan_id_on_b),
            read_deps_preserved(*old(ctx_b), *ctx_b),
            ctx_b.channel_end_spec(msg.port_id_on_b, msg.chan_id_on_b) == Some(stored_end),
        decreases extras.log@.len() - j,
    {
        let line = extras.log[j].clone();
        proof {
            assert(line@ == extras.log.deep_view()[j as int]);
        }
        ctx_b.log_message(line);
        proof {
            assert(ctx_b.logs_spec() =~= logs_base + extras.log.deep_view().subrange(
                0,
                j + 1 as int,
            ));
        }
        j = j + 1;
    }
    proof {
        assert(extras.log.deep_view().subrange(0, extras.log@.len() as int) =~= extras.log.deep_view());
        assert(ctx_b.logs_spec() =~= logs_base + extras.log.deep_view());
    }
    Ok(())
}

/// Round trip of a successful OPEN_CONFIRM: the channel end that was at
/// `TryOpen` before the call is at `Open` after it, with its ordering,
/// counterparty, connection hops and version unchanged.
pub proof fn confirm_execute_round_trip<Ctx: ExecutionContext, M: Module>(
    pre: Ctx,
    post: Ctx,
    module: M,
    msg: &MsgChannelOpenConfirm,
)
    requires
        confirm_execute_transition(pre, post, module, msg, Ok(())),
        pre.channel_end_spec(msg.port_id_on_b, msg.chan_id_on_b) matches Some(ch) && ch.state
            == ChannelState::TryOpen,
    ensures
        (pre.channel_end_spec(msg.port_id_on_b, msg.chan_id_on_b) matches Some(ch) && (
        post.channel_end_spec(msg.port_id_on_b, msg.chan_id_on_b) matches Some(ch2) && ch2.state
            == ChannelState::Open && ch2.ordering == ch.ordering && ch2.counterparty
            == ch.counterparty && ch2.connection_hops@ == ch.connection_hops@ && ch2.version@
            == ch.version@)),
{
}

/// On a successful execute, the events appended are exactly one routing
/// event, then exactly one OPEN_CONFIRM domain event, then the module's
/// events in their order: 2 + the module's count in all.
pub proof fn confirm_execute_event_order<Ctx: ExecutionContext, M: Module>(
    pre: Ctx,
    post: Ctx,
    module: M,
    msg: &MsgChannelOpenConfirm,
)
    requires
        confirm_execute_transition(pre, post, module, msg, Ok(())),
    ensures
        post.events_spec().len() == pre.events_spec().len() + 2 + module.confirm_events(
            msg.port_id_on_b,
            msg.chan_id_on_b,
        ).len(),
        forall|k: int| 0 <= k < pre.events_spec().len() ==> post.events_spec()[k]
            == pre.events_spec()[k],
        post.events_spec()[pre.events_spec().len() as int] == IbcEvent::Message(
            MessageEvent::Channel,
        ),
        post.events_spec()[pre.events_spec().len() as int + 1] is OpenConfirmChannel,
        forall|k: int| 0 <= k < module.confirm_events(msg.port_id_on_b, msg.chan_id_on_b).len()
            ==> post.events_spec()[pre.events_spec().len() + 2 + k] == IbcEvent::Module(
            module.confirm_events(msg.port_id_on_b, msg.chan_id_on_b)[k],
        ),
{
    let p = msg.port_id_on_b;
    let c = msg.chan_id_on_b;
    let mapped = module.confirm_events(p, c).map_values(|e: ModuleEvent| IbcEvent::Module(e));
    assert(mapped.len() == module.confirm_events(p, c).len());
    assert forall|k: int| 0 <= k < module.confirm_events(p, c).len() implies post.events_spec()[
        pre.events_spec().len() + 2 + k
    ] == IbcEvent::Module(module.confirm_events(p, c)[k]) by {
        assert(mapped[k] == IbcEvent::Module(module.confirm_events(p, c)[k]));
    }
}

} // verus!
