use std::cell::RefCell;

use alloy::primitives::{hex, Address, Bytes, B256, U256};
use alloy::sol_types::SolValue;

use claimcheck::{is_valid_proof, q_field_element, ProofVerifier, VerifierError};

type CmdTuple = (
    String,
    String,
    String,
    Vec<String>,
    Address,
    B256,
    B256,
    U256,
    B256,
    bool,
    Bytes,
    Bytes,
);

fn proof_payload(a0: U256) -> Vec<u8> {
    let pa = [a0, U256::from(2u8)];
    let pb = [[U256::from(3u8), U256::from(4u8)], [U256::from(5u8), U256::from(6u8)]];
    let pc = [U256::from(7u8), U256::from(8u8)];
    (pa, pb, pc).abi_encode()
}

fn pubkey_payload() -> Vec<u8> {
    let mut vals = [U256::ZERO; 17];
    for (i, v) in vals.iter_mut().enumerate() {
        *v = U256::from((i + 1) as u64);
    }
    (vals,).abi_encode()
}

fn sample_command(a0: U256, parts: &[&str]) -> CmdTuple {
    (
        "example.com".to_string(),
        "alice@example.com".to_string(),
        "resolver.eth".to_string(),
        parts.iter().map(|s| s.to_string()).collect(),
        Address::repeat_byte(0x11),
        B256::repeat_byte(0x22),
        B256::repeat_byte(0x33),
        U256::from(1234u64),
        B256::repeat_byte(0x44),
        true,
        Bytes::from(pubkey_payload()),
        Bytes::from(proof_payload(a0)),
    )
}

fn command_hex(a0: U256, parts: &[&str]) -> String {
    hex::encode(sample_command(a0, parts).abi_encode())
}

fn q_value() -> U256 {
    U256::from_be_slice(&q_field_element().bytes)
}

/// Accepts everything it is shown.
struct AcceptAll;

impl ProofVerifier for AcceptAll {
    fn verify(&self, _proof_bytes: &Vec<u8>, _signals: &Vec<u8>) -> Result<bool, VerifierError> {
        Ok(true)
    }
}

/// Rejects everything it is shown.
struct RejectAll;

impl ProofVerifier for RejectAll {
    fn verify(&self, _proof_bytes: &Vec<u8>, _signals: &Vec<u8>) -> Result<bool, VerifierError> {
        Ok(false)
    }
}

/// Fails as a capability.
struct AlwaysErr;

impl ProofVerifier for AlwaysErr {
    fn verify(&self, _proof_bytes: &Vec<u8>, _signals: &Vec<u8>) -> Result<bool, VerifierError> {
        Err(VerifierError::Failure)
    }
}

/// Panics when consulted: proves the pipeline exited before verification.
struct MustNotBeCalled;

impl ProofVerifier for MustNotBeCalled {
    fn verify(&self, _proof_bytes: &Vec<u8>, _signals: &Vec<u8>) -> Result<bool, VerifierError> {
        panic!("the verifier must not be consulted");
    }
}

/// Records what it is shown, then accepts.
struct Recording {
    seen: RefCell<Vec<(Vec<u8>, Vec<u8>)>>,
}

impl ProofVerifier for Recording {
    fn verify(&self, proof_bytes: &Vec<u8>, signals: &Vec<u8>) -> Result<bool, VerifierError> {
        self.seen.borrow_mut().push((proof_bytes.clone(), signals.clone()));
        Ok(true)
    }
}

/// End to end: a well-formed command with in-range coordinates and matching
/// masked email reaches the verifier with the proof bytes and a 1920-byte
/// signal buffer, and a verifier stubbed to accept yields acceptance.
#[test]
fn end_to_end_accepts_with_stubbed_verifier() {
    let text = command_hex(U256::from(1u8), &["alice$example", "com"]);
    let recorder = Recording { seen: RefCell::new(Vec::new()) };
    assert!(is_valid_proof(&text, &recorder));
    let seen = recorder.seen.borrow();
    assert_eq!(seen.len(), 1);
    assert_eq!(seen[0].0, proof_payload(U256::from(1u8)));
    assert_eq!(seen[0].1.len(), 1920);
    // The same command always shows the verifier the same buffer.
    let recorder2 = Recording { seen: RefCell::new(Vec::new()) };
    assert!(is_valid_proof(&text, &recorder2));
    assert_eq!(seen[0].1, recorder2.seen.borrow()[0].1);
}

/// The verifier's verdict is propagated, and its failure rejects.
#[test]
fn verifier_verdict_propagates() {
    let text = command_hex(U256::from(1u8), &["alice$example", "com"]);
    assert!(is_valid_proof(&text, &AcceptAll));
    assert!(!is_valid_proof(&text, &RejectAll));
    assert!(!is_valid_proof(&text, &AlwaysErr));
}

/// Early exit: a proof coordinate at the modulus rejects before the external
/// verifier is ever consulted.
#[test]
fn out_of_range_coordinate_exits_early() {
    let text = command_hex(q_value(), &["alice$example", "com"]);
    assert!(!is_valid_proof(&text, &MustNotBeCalled));
}

/// A mismatching masked email rejects before the external verifier.
#[test]
fn email_mismatch_exits_early() {
    let text = command_hex(U256::from(1u8), &["alice", "example", "com"]);
    assert!(!is_valid_proof(&text, &MustNotBeCalled));
}

/// Undecodable input rejects before the external verifier.
#[test]
fn undecodable_input_rejected() {
    assert!(!is_valid_proof("not hex at all", &MustNotBeCalled));
    assert!(!is_valid_proof("00aa", &MustNotBeCalled));
}

/// Embedded proof bytes that do not fit the proof schema reject before the
/// external verifier.
#[test]
fn malformed_embedded_proof_rejected() {
    let mut cmd = sample_command(U256::from(1u8), &["alice$example", "com"]);
    cmd.11 = Bytes::from(vec![1u8, 2, 3]);
    let text = hex::encode(cmd.abi_encode());
    assert!(!is_valid_proof(&text, &MustNotBeCalled));
}

/// A public-key payload that does not decode is a soft failure: the claim
/// still reaches the verifier, with that slot range zeroed.
#[test]
fn malformed_pubkey_is_soft_failure() {
    let mut cmd = sample_command(U256::from(1u8), &["alice$example", "com"]);
    cmd.10 = Bytes::from(vec![0xdeu8, 0xad]);
    let text = hex::encode(cmd.abi_encode());
    let recorder = Recording { seen: RefCell::new(Vec::new()) };
    assert!(is_valid_proof(&text, &recorder));
    let seen = recorder.seen.borrow();
    let signals = &seen[0].1;
    for i in 0..17 {
        assert_eq!(&signals[(34 + i) * 32..(35 + i) * 32], &[0u8; 32], "pubkey slot {}", i);
    }
}
