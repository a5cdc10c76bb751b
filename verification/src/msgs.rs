//! The OPEN_CONFIRM handshake message as this core receives it: local
//! identifiers, an opaque proof, the height it is rooted at, and a signer.
use vstd::prelude::*;

use crate::commitment::CommitmentProofBytes;
use crate::ids::{ChannelId, Height, PortId, Signer};

verus! {

/// Per the handshake protocol, chain A is the side that opened the channel
/// first and chain B the side that confirms; this message is addressed to
/// chain B and proves chain A's channel end.
#[derive(Clone, PartialEq, Eq, Debug)]
pub struct MsgChannelOpenConfirm {
    pub port_id_on_b: PortId,
    pub chan_id_on_b: ChannelId,
    pub proof_chan_end_on_a: CommitmentProofBytes,
    pub proof_height_on_a: Height,
    pub signer: Signer,
}

} // verus!
