//! Protocol and application events appended, in a fixed order, by every
//! successful execute step.
use vstd::prelude::*;

use crate::ids::{ChannelId, ConnectionId, PortId};

verus! {

/// The routing-level "message processed" event, tagged with the subsystem
/// that handled the message.
#[derive(Clone, Copy, PartialEq, Eq, Structural, Debug)]
pub enum MessageEvent {
    Channel,
}

/// The step-specific domain event of a successful OPEN_CONFIRM: the local
/// endpoint, the counterparty endpoint, and the connection routed over.
#[derive(Clone, Copy, PartialEq, Eq, Structural, Debug)]
pub struct OpenConfirm {
    pub port_id_on_b: PortId,
    pub chan_id_on_b: ChannelId,
    pub port_id_on_a: PortId,
    pub chan_id_on_a: ChannelId,
    pub conn_id_on_b: ConnectionId,
}

/// An application-level event, attributed to the module that produced it;
/// its meaning is the module's own.
#[derive(Clone, Copy, PartialEq, Eq, Structural, Debug)]
pub struct ModuleEvent {
    pub kind: u64,
}

/// Any event the execution context records.
#[derive(Clone, Copy, PartialEq, Eq, Structural, Debug)]
pub enum IbcEvent {
    Message(MessageEvent),
    OpenConfirmChannel(OpenConfirm),
    Module(ModuleEvent),
}

/// What a module's execute hook hands back on success: events and log lines
/// the core relays verbatim, in the module's order.
#[derive(Clone, PartialEq, Eq, Debug)]
pub struct ModuleExtras {
    pub events: Vec<ModuleEvent>,
    pub log: Vec<String>,
}

} // verus!
