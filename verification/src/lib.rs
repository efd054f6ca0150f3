//! Conversion of consensus-layer Merkle proofs into commitment proofs.
//!
//! A consensus node answers a state query with an ordered list of proof
//! operations, each an opaque byte payload. The verification layer expects
//! the same path as a list of decoded commitment proofs. This crate turns
//! one into the other, payload by payload, and states exactly which list
//! comes out and when the conversion fails.

pub mod convert;
pub mod decode;
pub mod laws;
pub mod types;

pub use convert::{append_decoded, convert_tm_to_ics_merkle_proof};
pub use decode::ProofDecodeError;
