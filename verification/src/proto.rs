//! Wire serialization of the expected counterparty channel end.
//!
//! The proof verifier never compares channel ends structurally: it hands
//! the light client the protobuf encoding of the channel end it expects the
//! counterparty to store, and the client checks that encoding against the
//! commitment root. The encoding itself is done by the protobuf library;
//! this core only fixes which fields go into it.
use vstd::prelude::*;

use crate::channel::{ChannelState, Order};
use crate::ids::{ChannelId, ConnectionId, PortId};

verus! {

/// The protobuf bytes of a `ibc.core.channel.v1.Channel` message with the
/// given state and ordering codes, remote counterparty identifiers, single
/// connection hop and version.
pub uninterp spec fn proto_channel_bytes(
    state: int,
    ordering: int,
    remote_port: int,
    remote_channel: int,
    hop: int,
    version: Seq<char>,
) -> Seq<u8>;

/// The wire code of a channel lifecycle state, as the protobuf schema
/// assigns them.
pub open spec fn channel_state_code(s: ChannelState) -> int {
    match s {
        ChannelState::Uninitialized => 0,
        ChannelState::Init => 1,
        ChannelState::TryOpen => 2,
        ChannelState::Open => 3,
        ChannelState::Closed => 4,
    }
}

/// The wire code of a channel ordering, as the protobuf schema assigns
/// them.
pub open spec fn order_code(o: Order) -> int {
    match o {
        Order::Unordered => 1,
        Order::Ordered => 2,
    }
}

pub fn channel_state_proto_code(s: ChannelState) -> (r: i32)
    ensures
        r as int == channel_state_code(s),
{
    match s {
        ChannelState::Uninitialized => 0,
        ChannelState::Init => 1,
        ChannelState::TryOpen => 2,
        ChannelState::Open => 3,
        ChannelState::Closed => 4,
    }
}

pub fn order_proto_code(o: Order) -> (r: i32)
    ensures
        r as int == order_code(o),
{
    match o {
        Order::Unordered => 1,
        Order::Ordered => 2,
    }
}

/// Relies on prost's `Message::encode_to_vec` over ibc-proto's generated
/// `ibc.core.channel.v1.Channel` struct: the encoding is a pure function of
/// the message fields.
#[verifier::external_body]
fn encode_raw_channel(
    state: i32,
    ordering: i32,
    remote_port: u64,
    remote_channel: u64,
    hop: u64,
    version: &String,
) -> (r: Vec<u8>)
    ensures
        r@ == proto_channel_bytes(
            state as int,
            ordering as int,
            remote_port as int,
            remote_channel as int,
            hop as int,
            version@,
        ),
{
    let raw = ibc_proto::ibc::core::channel::v1::Channel {
        state,
        ordering,
        counterparty: Some(ibc_proto::ibc::core::channel::v1::Counterparty {
            port_id: format!("port-{}", remote_port),
            channel_id: format!("channel-{}", remote_channel),
        }),
        connection_hops: vec![format!("connection-{}", hop)],
        version: version.clone(),
        upgrade_sequence: 0,
    };
    prost::Message::encode_to_vec(&raw)
}

/// The serialized channel end the CONFIRM step expects the counterparty to
/// store: state `Open`, the local ordering, the local endpoint as remote
/// counterparty, the counterparty's connection as sole hop, and the local
/// version.
pub open spec fn expected_confirm_value(
    ordering: Order,
    local_port: PortId,
    local_channel: ChannelId,
    counterparty_connection: ConnectionId,
    version: Seq<char>,
) -> Seq<u8> {
    proto_channel_bytes(
        channel_state_code(ChannelState::Open),
        order_code(ordering),
        local_port.0 as int,
        local_channel.0 as int,
        counterparty_connection.0 as int,
        version,
    )
}

/// Build the bytes of [`expected_confirm_value`]: what a CONFIRM proof must
/// show as a member of the counterparty's state.
pub fn expected_counterparty_channel_value(
    ordering: Order,
    local_port: PortId,
    local_channel: ChannelId,
    counterparty_connection: ConnectionId,
    version: &String,
) -> (r: Vec<u8>)
    ensures
        r@ == expected_confirm_value(
            ordering,
            local_port,
            local_channel,
            counterparty_connection,
            version@,
        ),
{
    encode_raw_channel(
        channel_state_proto_code(ChannelState::Open),
        order_proto_code(ordering),
        local_port.0,
        local_channel.0,
        counterparty_connection.0,
        version,
    )
}

} // verus!
