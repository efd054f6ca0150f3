//! The conversion itself.

use crate::decode::{decode_commitment_proof, decoded, decodes, rejection, ProofDecodeError};
use crate::types::{default_proof, payloads};
use ibc_core_commitment_types::merkle::MerkleProof;
use ibc_core_commitment_types::proto::ics23::CommitmentProof;
use tendermint::merkle::proof::ProofOps;
use vstd::prelude::*;

verus! {

/// Whether every payload decodes.
pub open spec fn all_decode(payloads: Seq<Seq<u8>>) -> bool {
    forall|i: int| 0 <= i < payloads.len() ==> decodes(#[trigger] payloads[i])
}

/// Whether `at` is the position of the first payload that does not decode.
pub open spec fn first_malformed(payloads: Seq<Seq<u8>>, at: int) -> bool {
    &&& 0 <= at < payloads.len()
    &&& !decodes(payloads[at])
    &&& all_decode(payloads.take(at))
}

/// Whether `proofs` is the list of decoded `payloads`, position by position.
pub open spec fn decoded_as(payloads: Seq<Seq<u8>>, proofs: Seq<CommitmentProof>) -> bool {
    &&& all_decode(payloads)
    &&& proofs.len() == payloads.len()
    &&& forall|i: int| 0 <= i < proofs.len() ==> #[trigger] proofs[i] == decoded(payloads[i])
}

/// Whether `proofs` holds the default proof wherever `payloads` holds no
/// bytes.
pub open spec fn empty_payloads_give_default(
    payloads: Seq<Seq<u8>>,
    proofs: Seq<CommitmentProof>,
) -> bool {
    forall|i: int|
        0 <= i < payloads.len() && i < proofs.len() && payloads[i].len() == 0
            ==> #[trigger] proofs[i] == default_proof()
}

/// Whether `outcome` is what converting `payloads` gives: the decoded list
/// if every payload decodes, and otherwise the decoder's error for the first
/// one that does not.
pub open spec fn converts_to(
    payloads: Seq<Seq<u8>>,
    outcome: Result<MerkleProof, ProofDecodeError>,
) -> bool {
    match outcome {
        Ok(proof) => decoded_as(payloads, proof.proofs@),
        Err(error) => exists|at: int| #[trigger]
            first_malformed(payloads, at) && error.cause == rejection(payloads[at]),
    }
}

/// Takes the outcome of decoding one payload into a list under construction:
/// a decoded proof is appended, an error is handed on and the list is left
/// as it was.
pub fn append_decoded(
    proofs: &mut Vec<CommitmentProof>,
    outcome: Result<CommitmentProof, prost::DecodeError>,
) -> (result: Result<(), ProofDecodeError>)
    ensures
        match outcome {
            Ok(proof) => result is Ok && final(proofs)@ == old(proofs)@.push(proof),
            Err(cause) => result is Err && result->Err_0.cause == cause
                && final(proofs)@ == old(proofs)@,
        },
{
    match outcome {
        Ok(proof) => {
            proofs.push(proof);
            Ok(())
        },
        Err(cause) => Err(ProofDecodeError { cause }),
    }
}

/// Converts a consensus-layer proof into a Merkle proof of decoded
/// commitment proofs.
///
/// Each payload is decoded on its own; names and keys of the steps are not
/// read. The result has one proof per step, in the same order. The first
/// payload that does not decode ends the conversion with the decoder's
/// error, and nothing else is returned. A proof without steps converts to a
/// Merkle proof without proofs. A payload without bytes gives the default
/// proof and is never the reason for a failure.
pub fn convert_tm_to_ics_merkle_proof(tm_proof: &ProofOps) -> (result: Result<
    MerkleProof,
    ProofDecodeError,
>)
    ensures
        converts_to(payloads(tm_proof.ops@), result),
        result is Ok <==> all_decode(payloads(tm_proof.ops@)),
        result matches Ok(proof) ==> proof.proofs@.len() == tm_proof.ops@.len(),
        result matches Ok(proof) ==> empty_payloads_give_default(
            payloads(tm_proof.ops@),
            proof.proofs@,
        ),
        result is Err ==> exists|at: int| #[trigger]
            first_malformed(payloads(tm_proof.ops@), at) && tm_proof.ops@[at].data@.len() > 0,
{
    let ghost input = payloads(tm_proof.ops@);
    let mut proofs: Vec<CommitmentProof> = Vec::with_capacity(tm_proof.ops.len());
    let mut i: usize = 0;
    while i < tm_proof.ops.len()
        invariant
            i <= tm_proof.ops.len(),
            input == payloads(tm_proof.ops@),
            decoded_as(input.take(i as int), proofs@),
            empty_payloads_give_default(input, proofs@),
        decreases tm_proof.ops.len() - i,
    {
        let outcome = decode_commitment_proof(tm_proof.ops[i].data.as_slice());
        assert(input.take(i + 1) == input.take(i as int).push(input[i as int]));
        match append_decoded(&mut proofs, outcome) {
            Ok(()) => {},
            Err(error) => {
                assert(first_malformed(input, i as int));
                return Err(error);
            },
        }
        i += 1;
    }
    assert(input.take(i as int) == input);
    Ok(MerkleProof { proofs })
}

} // verus!
