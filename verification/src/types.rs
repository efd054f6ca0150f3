//! The two proof representations that a conversion bridges.

use ibc_core_commitment_types::merkle::MerkleProof;
use ibc_core_commitment_types::proto::ics23::CommitmentProof;
use tendermint::merkle::proof::{ProofOp, ProofOps};
use vstd::prelude::*;

verus! {

/// One step of a consensus-layer Merkle proof: a name, a key and an encoded
/// payload.
#[verifier::external_type_specification]
pub struct ExProofOp(ProofOp);

/// A consensus-layer Merkle proof: its steps, in path order.
#[verifier::external_type_specification]
pub struct ExProofOps(ProofOps);

/// A Merkle proof as the verification layer takes it: decoded commitment
/// proofs, in path order.
#[verifier::external_type_specification]
pub struct ExMerkleProof(MerkleProof);

/// A decoded commitment proof: one of the proof shapes, or none.
#[verifier::external_type_specification]
pub struct ExCommitmentProof(CommitmentProof);

/// The shape held by a commitment proof. Nothing here looks inside it.
#[verifier::external_type_specification]
#[verifier::external_body]
pub struct ExCommitmentProofShape(
    ibc_core_commitment_types::proto::ics23::commitment_proof::Proof,
);

/// The payloads of a proof's steps, in order: all that a conversion reads.
pub open spec fn payloads(ops: Seq<ProofOp>) -> Seq<Seq<u8>> {
    Seq::new(ops.len(), |i: int| ops[i].data@)
}

/// The default commitment proof: the one with no shape set.
pub open spec fn default_proof() -> CommitmentProof {
    CommitmentProof { proof: None }
}

} // verus!
