//! The boundary to the protobuf decoder.

use crate::types::default_proof;
use ibc_core_commitment_types::proto::ics23::CommitmentProof;
use vstd::prelude::*;

verus! {

/// The decoder's own account of why a payload was rejected.
#[verifier::external_type_specification]
#[verifier::external_body]
pub struct ExPayloadRejection(prost::DecodeError);

/// What `prost::Message::decode` returns for `CommitmentProof` on the
/// bytes `data`: the proof obtained by merging the encoded fields onto a
/// default-initialised proof, or the decoder's error. Decoding reads
/// nothing but the bytes, so equal bytes give equal outcomes.
pub uninterp spec fn decoding(data: Seq<u8>) -> Result<CommitmentProof, prost::DecodeError>;

/// Whether `data` is a well-formed encoding of a commitment proof.
pub open spec fn decodes(data: Seq<u8>) -> bool {
    decoding(data) is Ok
}

/// The proof that `data` encodes.
pub open spec fn decoded(data: Seq<u8>) -> CommitmentProof
    recommends
        decodes(data),
{
    decoding(data)->Ok_0
}

/// The decoder's error for `data`.
pub open spec fn rejection(data: Seq<u8>) -> prost::DecodeError
    recommends
        !decodes(data),
{
    decoding(data)->Err_0
}

/// Calls `prost::Message::decode` for `CommitmentProof` on the whole of
/// `data`.
///
/// Trusted: the outcome is `decoding(data@)`, and an empty buffer gives the
/// default proof (the decoder starts from the default value and its loop
/// over the remaining bytes does not run).
#[verifier::external_body]
pub(crate) fn decode_commitment_proof(data: &[u8]) -> (outcome: Result<
    CommitmentProof,
    prost::DecodeError,
>)
    ensures
        outcome == decoding(data@),
        data@.len() == 0 ==> outcome is Ok,
        data@.len() == 0 ==> outcome->Ok_0 == default_proof(),
{
    prost::Message::decode(data)
}

/// Failure of a conversion: a payload was not a well-formed encoding.
#[derive(Debug, PartialEq, Eq)]
pub struct ProofDecodeError {
    /// The decoder's error for the offending payload.
    pub cause: prost::DecodeError,
}

} // verus!
