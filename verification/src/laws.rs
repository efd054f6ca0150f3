//! Laws of the conversion, stated over the contract of
//! [`convert_tm_to_ics_merkle_proof`](crate::convert::convert_tm_to_ics_merkle_proof):
//! `outcome` below is any value that the conversion may return for the steps
//! `ops`.

use crate::convert::{all_decode, converts_to, first_malformed};
use crate::decode::{decoded, decodes, rejection, ProofDecodeError};
use crate::types::payloads;
use ibc_core_commitment_types::merkle::MerkleProof;
use tendermint::merkle::proof::ProofOp;
use vstd::prelude::*;

verus! {

/// Whether two outcomes of a conversion are the same: the same proofs in
/// the same order, or the same decoder error.
pub open spec fn same_outcome(
    first: Result<MerkleProof, ProofDecodeError>,
    second: Result<MerkleProof, ProofDecodeError>,
) -> bool {
    match (first, second) {
        (Ok(a), Ok(b)) => a.proofs@ == b.proofs@,
        (Err(a), Err(b)) => a.cause == b.cause,
        _ => false,
    }
}

/// At most one position is the first malformed one.
pub proof fn first_malformed_is_unique(payloads: Seq<Seq<u8>>, at: int, other: int)
    requires
        first_malformed(payloads, at),
        first_malformed(payloads, other),
    ensures
        at == other,
{
    if at < other {
        assert(payloads.take(other)[at] == payloads[at]);
    } else if other < at {
        assert(payloads.take(at)[other] == payloads[other]);
    }
}

/// A conversion succeeds exactly when every payload decodes.
pub proof fn conversion_succeeds_iff_all_decode(
    ops: Seq<ProofOp>,
    outcome: Result<MerkleProof, ProofDecodeError>,
)
    requires
        converts_to(payloads(ops), outcome),
    ensures
        outcome is Ok <==> all_decode(payloads(ops)),
{
}

/// A successful conversion yields as many proofs as there are steps.
pub proof fn conversion_preserves_length(
    ops: Seq<ProofOp>,
    outcome: Result<MerkleProof, ProofDecodeError>,
)
    requires
        converts_to(payloads(ops), outcome),
        outcome is Ok,
    ensures
        outcome->Ok_0.proofs@.len() == ops.len(),
{
}

/// A successful conversion keeps the order: the proof at each position is
/// the one decoded from the payload of the step at that position.
pub proof fn conversion_preserves_order(
    ops: Seq<ProofOp>,
    outcome: Result<MerkleProof, ProofDecodeError>,
    i: int,
)
    requires
        converts_to(payloads(ops), outcome),
        outcome is Ok,
        0 <= i < ops.len(),
    ensures
        decodes(ops[i].data@),
        outcome->Ok_0.proofs@[i] == decoded(ops[i].data@),
{
    assert(payloads(ops)[i] == ops[i].data@);
}

/// A proof in the result depends on the payload at its own position and on
/// nothing else: not on the step's name or key, not on its neighbours, not
/// on where in the list it stands.
pub proof fn converted_proof_depends_on_own_payload(
    ops: Seq<ProofOp>,
    outcome: Result<MerkleProof, ProofDecodeError>,
    i: int,
    other_ops: Seq<ProofOp>,
    other_outcome: Result<MerkleProof, ProofDecodeError>,
    j: int,
)
    requires
        converts_to(payloads(ops), outcome),
        converts_to(payloads(other_ops), other_outcome),
        outcome is Ok,
        other_outcome is Ok,
        0 <= i < ops.len(),
        0 <= j < other_ops.len(),
        ops[i].data@ == other_ops[j].data@,
    ensures
        outcome->Ok_0.proofs@[i] == other_outcome->Ok_0.proofs@[j],
{
    conversion_preserves_order(ops, outcome, i);
    conversion_preserves_order(other_ops, other_outcome, j);
}

/// A proof without steps converts, to a Merkle proof without proofs.
pub proof fn empty_proof_converts(
    ops: Seq<ProofOp>,
    outcome: Result<MerkleProof, ProofDecodeError>,
)
    requires
        converts_to(payloads(ops), outcome),
        ops.len() == 0,
    ensures
        outcome is Ok,
        outcome->Ok_0.proofs@.len() == 0,
{
}

/// One payload that does not decode fails the whole conversion, and the
/// error is the decoder's for the first such payload, which stands at that
/// position or before it.
pub proof fn malformed_payload_fails(
    ops: Seq<ProofOp>,
    outcome: Result<MerkleProof, ProofDecodeError>,
    i: int,
)
    requires
        converts_to(payloads(ops), outcome),
        0 <= i < ops.len(),
        !decodes(ops[i].data@),
    ensures
        outcome is Err,
        exists|at: int|
            0 <= at <= i && #[trigger] first_malformed(payloads(ops), at)
                && outcome->Err_0.cause == rejection(ops[at].data@),
{
    let input = payloads(ops);
    assert(input[i] == ops[i].data@);
    let at = choose|at: int| #[trigger]
        first_malformed(input, at) && outcome->Err_0.cause == rejection(input[at]);
    assert(input[at] == ops[at].data@);
    if i < at {
        assert(input.take(at)[i] == input[i]);
    }
}

/// The outcome of a conversion is a function of the payloads alone: two
/// lists of steps with the same payloads convert alike, whatever their
/// names and keys.
pub proof fn conversion_reads_payloads_only(
    ops: Seq<ProofOp>,
    outcome: Result<MerkleProof, ProofDecodeError>,
    other_ops: Seq<ProofOp>,
    other_outcome: Result<MerkleProof, ProofDecodeError>,
)
    requires
        converts_to(payloads(ops), outcome),
        converts_to(payloads(other_ops), other_outcome),
        payloads(ops) == payloads(other_ops),
    ensures
        same_outcome(outcome, other_outcome),
{
    let input = payloads(ops);
    match (outcome, other_outcome) {
        (Ok(a), Ok(b)) => {
            assert(a.proofs@ =~= b.proofs@);
        },
        (Err(a), Err(b)) => {
            let at = choose|at: int| #[trigger]
                first_malformed(input, at) && a.cause == rejection(input[at]);
            let other = choose|at: int| #[trigger]
                first_malformed(input, at) && b.cause == rejection(input[at]);
            first_malformed_is_unique(input, at, other);
        },
        _ => {},
    }
}

/// Converting the same steps twice gives the same outcome.
pub proof fn conversion_is_deterministic(
    ops: Seq<ProofOp>,
    outcome: Result<MerkleProof, ProofDecodeError>,
    again: Result<MerkleProof, ProofDecodeError>,
)
    requires
        converts_to(payloads(ops), outcome),
        converts_to(payloads(ops), again),
    ensures
        same_outcome(outcome, again),
{
    conversion_reads_payloads_only(ops, outcome, ops, again);
}

} // verus!
