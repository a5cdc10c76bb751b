//! The observable status of a light client. The client's consensus
//! algorithm is opaque to this core; only its status, its accepted proof
//! heights and its membership verdicts are consumed.
use vstd::prelude::*;

verus! {

/// What a light client reports of itself; any status but `Active` forbids
/// using it for proof verification.
#[derive(Clone, Copy, PartialEq, Eq, Structural, Debug)]
pub enum Status {
    Active,
    Frozen,
    Expired,
}

impl Status {
    pub fn is_active(&self) -> (r: bool)
        ensures
            r == (*self == Status::Active),
    {
        match self {
            Status::Active => true,
            Status::Frozen => false,
            Status::Expired => false,
        }
    }
}

} // verus!
