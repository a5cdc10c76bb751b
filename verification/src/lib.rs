//! The OPEN_CONFIRM step of the channel handshake of a cross-chain
//! communication protocol: a validate/execute pair that decides, against a
//! light-client capability, whether the counterparty's channel end is Open,
//! and only then advances the local channel end from TryOpen to Open.
pub mod channel;
pub mod client;
pub mod commitment;
pub mod connection;
pub mod context;
pub mod error;
pub mod events;
pub mod handler;
pub mod ids;
pub mod msgs;
pub mod path;
pub mod proto;
pub mod store;
