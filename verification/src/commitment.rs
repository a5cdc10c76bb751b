//! Opaque commitment material: the byte strings that proofs are made of,
//! and the consensus state that anchors them.
use vstd::prelude::*;

verus! {

/// The counterparty's commitment-store prefix, opaque to this core.
#[derive(Clone, PartialEq, Eq, Debug)]
pub struct CommitmentPrefix {
    pub bytes: Vec<u8>,
}

/// A membership proof as it arrives from the wire; never parsed here, only
/// handed to the light client.
#[derive(Clone, PartialEq, Eq, Debug)]
pub struct CommitmentProofBytes {
    pub bytes: Vec<u8>,
}

/// A commitment root captured from the counterparty chain at some height.
#[derive(Clone, PartialEq, Eq, Debug)]
pub struct CommitmentRoot {
    pub bytes: Vec<u8>,
}

/// The consensus state a light client recorded for a counterparty height:
/// the trusted root that membership proofs are checked against.
#[derive(Clone, PartialEq, Eq, Debug)]
pub struct ConsensusState {
    pub root: CommitmentRoot,
}

/// Byte-wise equality of two byte vectors, decided by their views.
pub fn bytes_eq(a: &Vec<u8>, b: &Vec<u8>) -> (r: bool)
    ensures
        r == (a@ == b@),
{
    if a.len() != b.len() {
        return false;
    }
    let mut i: usize = 0;
    while i < a.len()
        invariant
            i <= a@.len(),
            a@.len() == b@.len(),
            forall|j: int| 0 <= j < i ==> a@[j] == b@[j],
        decreases a@.len() - i,
    {
        if a[i] != b[i] {
            return false;
        }
        i = i + 1;
    }
    proof {
        assert(a@ =~= b@);
    }
    true
}

/// A copy of a vector of plainly copyable values, equal to it view for view.
pub fn copy_vec<T: Copy>(v: &Vec<T>) -> (r: Vec<T>)
    ensures
        r@ == v@,
{
    let mut r: Vec<T> = Vec::new();
    let mut i: usize = 0;
    while i < v.len()
        invariant
            i <= v@.len(),
            r@ == v@.subrange(0, i as int),
        decreases v@.len() - i,
    {
        r.push(v[i]);
        proof {
            assert(r@ =~= v@.subrange(0, i + 1 as int));
        }
        i = i + 1;
    }
    proof {
        assert(r@ =~= v@);
    }
    r
}

} // verus!
