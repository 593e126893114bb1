use alloy::primitives::{hex, Address, Bytes, B256, U256};
use alloy::sol_types::SolValue;

use claimcheck::{_convert_proof, decode_data, decode_proof, DecodeError};

type CmdTuple = (
    String,
    String,
    String,
    Vec<String>,
    Address,
    B256,
    B256,
    U256,
    B256,
    bool,
    Bytes,
    Bytes,
);

fn proof_payload() -> Vec<u8> {
    let pa = [U256::from(1u8), U256::from(2u8)];
    let pb = [[U256::from(3u8), U256::from(4u8)], [U256::from(5u8), U256::from(6u8)]];
    let pc = [U256::from(7u8), U256::from(8u8)];
    (pa, pb, pc).abi_encode()
}

fn sample_command() -> CmdTuple {
    (
        "example.com".to_string(),
        "alice@example.com".to_string(),
        "resolver.eth".to_string(),
        vec!["alice$example".to_string(), "com".to_string()],
        Address::repeat_byte(0x11),
        B256::repeat_byte(0x22),
        B256::repeat_byte(0x33),
        U256::from(1234u64),
        B256::repeat_byte(0x44),
        true,
        Bytes::from(vec![0xaau8, 0xbb, 0xcc]),
        Bytes::from(proof_payload()),
    )
}

/// Text that is not hexadecimal is a hex error.
#[test]
fn decode_data_rejects_bad_hex() {
    assert_eq!(decode_data("zz").unwrap_err(), DecodeError::Hex);
    assert_eq!(decode_data("abc").unwrap_err(), DecodeError::Hex);
}

/// Hexadecimal bytes that do not fit the command schema are a schema error.
#[test]
fn decode_data_rejects_bad_schema() {
    assert_eq!(decode_data("00").unwrap_err(), DecodeError::Schema);
    assert_eq!(decode_data("").unwrap_err(), DecodeError::Schema);
}

/// A well-formed encoding decodes into the expected record, field by field.
#[test]
fn decode_data_reads_all_fields() {
    let encoded = sample_command().abi_encode();
    let cmd = decode_data(&hex::encode(encoded)).unwrap();
    assert_eq!(cmd.domain, b"example.com".to_vec());
    assert_eq!(cmd.email, b"alice@example.com".to_vec());
    assert_eq!(cmd.resolver, b"resolver.eth".to_vec());
    assert_eq!(cmd.email_parts, vec![b"alice$example".to_vec(), b"com".to_vec()]);
    assert_eq!(cmd.owner, vec![0x11u8; 20]);
    assert_eq!(cmd.dkim_signer_hash, vec![0x22u8; 32]);
    assert_eq!(cmd.nullifier, vec![0x33u8; 32]);
    let mut ts = vec![0u8; 32];
    ts[30] = 0x04;
    ts[31] = 0xd2;
    assert_eq!(cmd.timestamp, ts);
    assert_eq!(cmd.account_salt, vec![0x44u8; 32]);
    assert!(cmd.is_code_embedded);
    assert_eq!(cmd.miscellaneous_data, vec![0xaau8, 0xbb, 0xcc]);
    assert_eq!(cmd.proof_bytes, proof_payload());
}

/// A hex prefix is accepted and stripped.
#[test]
fn decode_data_accepts_prefixed_hex() {
    let encoded = sample_command().abi_encode();
    let mut text = String::from("0x");
    text.push_str(&hex::encode(encoded));
    let cmd = decode_data(&text).unwrap();
    assert_eq!(cmd.domain, b"example.com".to_vec());
}

/// Proof decoding yields the eight coordinates, big-endian, in order.
#[test]
fn decode_proof_reads_coordinates() {
    let prf = decode_proof(&hex::encode(proof_payload())).unwrap();
    let mut expected_first = vec![0u8; 32];
    expected_first[31] = 1;
    assert_eq!(prf.p_a[0].bytes, expected_first);
    let mut expected_b10 = vec![0u8; 32];
    expected_b10[31] = 5;
    assert_eq!(prf.p_b[1][0].bytes, expected_b10);
    let mut expected_c1 = vec![0u8; 32];
    expected_c1[31] = 8;
    assert_eq!(prf.p_c[1].bytes, expected_c1);
}

/// Proof decoding distinguishes hex errors from schema errors.
#[test]
fn decode_proof_error_kinds() {
    assert_eq!(decode_proof("xy").unwrap_err(), DecodeError::Hex);
    assert_eq!(decode_proof("1234").unwrap_err(), DecodeError::Schema);
}

/// Converting a proof text yields its raw bytes.
#[test]
fn convert_proof_decodes_hex() {
    assert_eq!(_convert_proof("0a0b").unwrap(), vec![0x0au8, 0x0b]);
    assert_eq!(_convert_proof("0x0A0B").unwrap(), vec![0x0au8, 0x0b]);
    assert_eq!(_convert_proof("0a0").unwrap_err(), DecodeError::Hex);
    assert_eq!(_convert_proof("0g").unwrap_err(), DecodeError::Hex);
}
