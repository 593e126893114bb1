//! Validation pipeline for email-authenticated name claims: it decodes a
//! hex-encoded claim command, range-checks the embedded zero-knowledge proof
//! coordinates, matches the masked email against its dot-separated parts, and
//! builds the public-signal byte buffer handed to an external proof verifier.

pub mod numeric;
pub mod field;
pub mod pack;
pub mod email;
pub mod codec;
pub mod signals;
pub mod claim;

pub use claim::{_check_if_less_than_q, is_valid_proof, ProofVerifier, VerifierError};
pub use codec::{
    _convert_proof, decode_data, decode_proof, decode_proof_bytes, ClaimCommand, CommandModel,
    DecodeError, Proof,
};
pub use email::_verify_email;
pub use field::{q_field_element, FieldElement};
pub use pack::pack_bytes_to_fields;
pub use signals::{_build_pub_signals, get_expected_command};
