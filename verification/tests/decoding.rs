use ibc_core_commitment_types::proto::ics23::commitment_proof::Proof;
use ibc_core_commitment_types::proto::ics23::{CommitmentProof, ExistenceProof, InnerOp};
use proof_convert::{append_decoded, convert_tm_to_ics_merkle_proof, ProofDecodeError};
use prost::Message;
use tendermint::merkle::proof::{ProofOp, ProofOps};

fn exist(key: &[u8], value: &[u8], path: Vec<InnerOp>) -> CommitmentProof {
    CommitmentProof {
        proof: Some(Proof::Exist(ExistenceProof {
            key: key.to_vec(),
            value: value.to_vec(),
            leaf: None,
            path,
        })),
    }
}

fn convert_one(data: Vec<u8>) -> Result<CommitmentProof, ProofDecodeError> {
    let tm_proof = ProofOps {
        ops: vec![ProofOp {
            field_type: "ics23:iavl".to_string(),
            key: vec![],
            data,
        }],
    };
    let mut converted = convert_tm_to_ics_merkle_proof(&tm_proof)?;
    assert_eq!(converted.proofs.len(), 1);
    Ok(converted.proofs.remove(0))
}

#[test]
fn hand_written_bytes_decode_to_the_proof_they_encode() {
    // Field 1 (existence proof), six bytes: field 1 = "k", field 2 = "v".
    let payload = vec![0x0A, 0x06, 0x0A, 0x01, b'k', 0x12, 0x01, b'v'];
    assert_eq!(convert_one(payload), Ok(exist(b"k", b"v", vec![])));
}

#[test]
fn encoded_proof_has_the_expected_bytes() {
    assert_eq!(
        exist(b"k", b"v", vec![]).encode_to_vec(),
        vec![0x0A, 0x06, 0x0A, 0x01, b'k', 0x12, 0x01, b'v']
    );
}

#[test]
fn same_shape_given_twice_is_merged_field_by_field() {
    // Two existence proofs in one payload: the first sets the key, the
    // second the value.
    let payload = vec![
        0x0A, 0x03, 0x0A, 0x01, b'k', // exist { key: "k" }
        0x0A, 0x03, 0x12, 0x01, b'v', // exist { value: "v" }
    ];
    assert_eq!(convert_one(payload), Ok(exist(b"k", b"v", vec![])));
}

#[test]
fn repeated_field_accumulates() {
    let first = InnerOp {
        hash: 1,
        prefix: vec![7],
        suffix: vec![],
    };
    let second = InnerOp {
        hash: 2,
        prefix: vec![],
        suffix: vec![9],
    };
    let mut payload = exist(b"", b"", vec![first.clone()]).encode_to_vec();
    payload.extend(exist(b"", b"", vec![second.clone()]).encode_to_vec());
    assert_eq!(convert_one(payload), Ok(exist(b"", b"", vec![first, second])));
}

#[test]
fn later_shape_replaces_an_earlier_different_one() {
    let mut payload = exist(b"k", b"v", vec![]).encode_to_vec();
    // Field 3 (batch proof) of length zero.
    payload.extend([0x1A, 0x00]);
    let decoded = convert_one(payload).unwrap();
    assert!(matches!(decoded.proof, Some(Proof::Batch(_))));
}

#[test]
fn unknown_field_is_skipped() {
    // Field 15 as a varint of value 1: no such field in a commitment proof.
    assert_eq!(convert_one(vec![0x78, 0x01]), Ok(CommitmentProof::default()));
}

#[test]
fn no_bytes_decode_to_the_default_proof() {
    assert_eq!(convert_one(vec![]), Ok(CommitmentProof::default()));
}

#[test]
fn length_beyond_the_payload_is_rejected() {
    // Field 1 announces five bytes, one follows.
    let error = convert_one(vec![0x0A, 0x05, 0x00]).unwrap_err();
    assert_eq!(
        error.cause.to_string(),
        "failed to decode Protobuf message: CommitmentProof.proof: buffer underflow"
    );
}

#[test]
fn error_inside_a_nested_message_names_its_place() {
    // Field 1 (existence proof) of one byte, which is a varint cut short.
    let error = convert_one(vec![0x0A, 0x01, 0xFF]).unwrap_err();
    assert_eq!(
        error.cause.to_string(),
        "failed to decode Protobuf message: CommitmentProof.proof: invalid varint"
    );
}

#[test]
fn append_decoded_appends_a_proof() {
    let first = exist(b"a", b"1", vec![]);
    let second = exist(b"b", b"2", vec![]);
    let mut proofs = vec![first.clone()];
    assert_eq!(append_decoded(&mut proofs, Ok(second.clone())), Ok(()));
    assert_eq!(proofs, vec![first, second]);
}

#[test]
fn append_decoded_starts_an_empty_list() {
    let mut proofs = Vec::new();
    assert_eq!(
        append_decoded(&mut proofs, Ok(CommitmentProof::default())),
        Ok(())
    );
    assert_eq!(proofs, vec![CommitmentProof::default()]);
}

#[test]
fn append_decoded_hands_an_error_on_and_keeps_the_list() {
    let kept = exist(b"a", b"1", vec![]);
    let cause = CommitmentProof::decode(&[0xFF][..]).unwrap_err();
    let mut proofs = vec![kept.clone()];
    assert_eq!(
        append_decoded(&mut proofs, Err(cause.clone())),
        Err(ProofDecodeError { cause })
    );
    assert_eq!(proofs, vec![kept]);
}
