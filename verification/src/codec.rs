//! Decoding of externally supplied payloads: hex text to bytes, and
//! ABI-encoded bytes to the typed claim command, proof coordinates and
//! public-key array. The ABI decoding itself is the outside codec's work,
//! reached through trusted wrappers; everything around it is verified.

use vstd::prelude::*;

use alloy::primitives::{Address, Bytes, B256, U256};
use alloy::sol_types::SolValue;

use crate::field::FieldElement;

verus! {

/// Why a payload failed to decode: the text was not valid hexadecimal, or
/// the bytes did not satisfy the expected record schema.
#[derive(Clone, Copy, Debug, PartialEq, Eq, Structural)]
pub enum DecodeError {
    Hex,
    Schema,
}

/// The numeric value of one hexadecimal digit, or 16 for any other character.
pub open spec fn hex_digit_value(c: char) -> nat {
    if '0' <= c && c <= '9' {
        ((c as int) - ('0' as int)) as nat
    } else if 'a' <= c && c <= 'f' {
        ((c as int) - ('a' as int) + 10) as nat
    } else if 'A' <= c && c <= 'F' {
        ((c as int) - ('A' as int) + 10) as nat
    } else {
        16
    }
}

/// Whether a character is a hexadecimal digit.
pub open spec fn is_hex_digit(c: char) -> bool {
    hex_digit_value(c) < 16
}

/// The text with one leading `0x` or `0X` removed, if present.
pub open spec fn strip_hex_prefix(s: Seq<char>) -> Seq<char> {
    if s.len() >= 2 && s[0] == '0' && (s[1] == 'x' || s[1] == 'X') {
        s.skip(2)
    } else {
        s
    }
}

/// What decoding a hex text yields: after removing an optional `0x` prefix,
/// an even number of hex digits, two digits a byte, high digit first; any
/// other text yields nothing.
pub open spec fn hex_decoding(s: Seq<char>) -> Option<Seq<u8>> {
    let t = strip_hex_prefix(s);
    if t.len() % 2 == 0 && (forall|i: int| 0 <= i < t.len() ==> is_hex_digit(#[trigger] t[i])) {
        Some(
            Seq::new(
                t.len() / 2,
                |i: int| (hex_digit_value(t[2 * i]) * 16 + hex_digit_value(t[2 * i + 1])) as u8,
            ),
        )
    } else {
        None
    }
}

/// Relies on `alloy::primitives::hex::decode` (const-hex): it strips one
/// optional `0x`/`0X` prefix, demands an even number of characters, accepts
/// upper- and lowercase digits, and turns each digit pair into one byte,
/// high digit first; any other input is an error.
#[verifier::external_body]
fn hex_decode_text(s: &str) -> (r: Result<Vec<u8>, DecodeError>)
    ensures
        r matches Ok(b) ==> hex_decoding(s@) == Some(b@),
        r matches Err(e) ==> e == DecodeError::Hex && hex_decoding(s@) is None,
{
    match alloy::primitives::hex::decode(s) {
        Ok(v) => Ok(v),
        Err(_) => Err(DecodeError::Hex),
    }
}

/// The mathematical shape of a decoded claim command.
pub ghost struct CommandModel {
    pub domain: Seq<u8>,
    pub email: Seq<u8>,
    pub resolver: Seq<u8>,
    pub email_parts: Seq<Seq<u8>>,
    pub owner: Seq<u8>,
    pub dkim_signer_hash: Seq<u8>,
    pub nullifier: Seq<u8>,
    pub timestamp: Seq<u8>,
    pub account_salt: Seq<u8>,
    pub is_code_embedded: bool,
    pub miscellaneous_data: Seq<u8>,
    pub proof_bytes: Seq<u8>,
}

/// A decoded claim command. Text fields are held as their bytes; the 32-byte
/// words (DKIM-signer hash, nullifier, timestamp, account salt) as big-endian
/// byte vectors; the embedded proof and the miscellaneous data as raw bytes.
#[derive(Debug)]
pub struct ClaimCommand {
    pub domain: Vec<u8>,
    pub email: Vec<u8>,
    pub resolver: Vec<u8>,
    pub email_parts: Vec<Vec<u8>>,
    pub owner: Vec<u8>,
    pub dkim_signer_hash: Vec<u8>,
    pub nullifier: Vec<u8>,
    pub timestamp: Vec<u8>,
    pub account_salt: Vec<u8>,
    pub is_code_embedded: bool,
    pub miscellaneous_data: Vec<u8>,
    pub proof_bytes: Vec<u8>,
}

impl View for ClaimCommand {
    type V = CommandModel;

    open spec fn view(&self) -> CommandModel {
        CommandModel {
            domain: self.domain@,
            email: self.email@,
            resolver: self.resolver@,
            email_parts: self.email_parts.deep_view(),
            owner: self.owner@,
            dkim_signer_hash: self.dkim_signer_hash@,
            nullifier: self.nullifier@,
            timestamp: self.timestamp@,
            account_salt: self.account_salt@,
            is_code_embedded: self.is_code_embedded,
            miscellaneous_data: self.miscellaneous_data@,
            proof_bytes: self.proof_bytes@,
        }
    }
}

impl ClaimCommand {
    /// The fixed widths the record schema guarantees: a 20-byte owner
    /// address and 32-byte words.
    pub open spec fn wf(&self) -> bool {
        &&& self.owner@.len() == 20
        &&& self.dkim_signer_hash@.len() == 32
        &&& self.nullifier@.len() == 32
        &&& self.timestamp@.len() == 32
        &&& self.account_salt@.len() == 32
    }
}

/// What the outside ABI codec yields for claim-command bytes: a function of
/// the bytes alone.
pub uninterp spec fn abi_command_of(b: Seq<u8>) -> Option<CommandModel>;

/// What the outside ABI codec yields for proof bytes: the eight coordinates
/// as 32-byte big-endian strings, in the order pA[0], pA[1], pB[0][0],
/// pB[0][1], pB[1][0], pB[1][1], pC[0], pC[1]; a function of the bytes alone.
pub uninterp spec fn abi_proof_of(b: Seq<u8>) -> Option<Seq<Seq<u8>>>;

/// What the outside ABI codec yields for public-key-array bytes: seventeen
/// 32-byte big-endian strings in array order; a function of the bytes alone.
pub uninterp spec fn abi_pubkey_of(b: Seq<u8>) -> Option<Seq<Seq<u8>>>;

/// Relies on `alloy::sol_types::SolValue::abi_decode` at the claim-command
/// schema (string, string, string, string[], address, bytes32, bytes32,
/// uint256, bytes32, bool, bytes, bytes), fields in declaration order; the
/// result is a function of the bytes alone, here named `abi_command_of`.
#[verifier::external_body]
fn abi_decode_command(b: &Vec<u8>) -> (r: Option<ClaimCommand>)
    ensures
        r matches Some(c) ==> abi_command_of(b@) == Some(c@) && c.wf(),
        r is None ==> abi_command_of(b@) is None,
{
    let (d, e, rs, ps, ow, dk, nu, ts, sa, is_code_embedded, mi, pr) = <(String, String, String,
        Vec<String>, Address, B256, B256, U256, B256, bool, Bytes, Bytes) as SolValue>::abi_decode(
        b,
    ).ok()?;
    Some(ClaimCommand {
        domain: d.into_bytes(), email: e.into_bytes(), resolver: rs.into_bytes(),
        email_parts: ps.into_iter().map(String::into_bytes).collect(),
        owner: ow.to_vec(), dkim_signer_hash: dk.to_vec(), nullifier: nu.to_vec(),
        timestamp: ts.to_be_bytes_vec(), account_salt: sa.to_vec(), is_code_embedded,
        miscellaneous_data: mi.to_vec(), proof_bytes: pr.to_vec(),
    })
}

/// Relies on `alloy::sol_types::SolValue::abi_decode` at the proof schema
/// (uint256[2], uint256[2][2], uint256[2]); each coordinate is rendered as
/// its 32 big-endian bytes, flattened in the order named by `abi_proof_of`.
#[verifier::external_body]
fn abi_decode_proof(b: &Vec<u8>) -> (r: Result<Vec<Vec<u8>>, DecodeError>)
    ensures
        r matches Ok(v) ==> abi_proof_of(b@) == Some(v.deep_view()) && v@.len() == 8 && (forall|i: int|
            0 <= i < 8 ==> (#[trigger] v@[i])@.len() == 32),
        r matches Err(e) ==> e == DecodeError::Schema && abi_proof_of(b@) is None,
{
    match <([U256; 2], [[U256; 2]; 2], [U256; 2]) as SolValue>::abi_decode(b) {
        Ok((a, p, c)) => Ok(vec![
            a[0].to_be_bytes_vec(), a[1].to_be_bytes_vec(),
            p[0][0].to_be_bytes_vec(), p[0][1].to_be_bytes_vec(),
            p[1][0].to_be_bytes_vec(), p[1][1].to_be_bytes_vec(),
            c[0].to_be_bytes_vec(), c[1].to_be_bytes_vec(),
        ]),
        Err(_) => Err(DecodeError::Schema),
    }
}

/// Relies on `alloy::sol_types::SolValue::abi_decode` at the public-key
/// schema (uint256[17]); each element is rendered as its 32 big-endian
/// bytes, in array order, as named by `abi_pubkey_of`.
#[verifier::external_body]
pub(crate) fn abi_decode_pubkey(b: &Vec<u8>) -> (r: Result<Vec<Vec<u8>>, DecodeError>)
    ensures
        r matches Ok(v) ==> abi_pubkey_of(b@) == Some(v.deep_view()) && v@.len() == 17 && (forall|i: int|
            0 <= i < 17 ==> (#[trigger] v@[i])@.len() == 32),
        r matches Err(e) ==> e == DecodeError::Schema && abi_pubkey_of(b@) is None,
{
    match <([U256; 17],) as SolValue>::abi_decode(b) {
        Ok((a,)) => Ok(a.iter().map(|u| u.to_be_bytes_vec()).collect()),
        Err(_) => Err(DecodeError::Schema),
    }
}

/// The deep view of a vector of byte vectors is its element views.
pub proof fn lemma_deep_view_bytes(v: Seq<Vec<u8>>)
    ensures
        forall|i: int| 0 <= i < v.len() ==> (#[trigger] v[i]).deep_view() == v[i]@,
{
    assert forall|i: int| 0 <= i < v.len() implies (#[trigger] v[i]).deep_view() == v[i]@ by {
        assert(v[i].deep_view() =~= v[i]@);
    }
}

/// Decodes a hex-encoded claim command: hex text to bytes, bytes to the
/// typed record through the ABI codec. Fails with `DecodeError::Hex` exactly
/// when the text is not hexadecimal, and with `DecodeError::Schema` exactly
/// when the bytes do not satisfy the command schema.
pub fn decode_data(data: &str) -> (r: Result<ClaimCommand, DecodeError>)
    ensures
        r matches Ok(c) ==> hex_decoding(data@) matches Some(b) && abi_command_of(b) == Some(c@)
            && c.wf(),
        r == Err::<ClaimCommand, DecodeError>(DecodeError::Hex) <==> hex_decoding(data@) is None,
        r == Err::<ClaimCommand, DecodeError>(DecodeError::Schema) <==> (hex_decoding(data@)
            matches Some(b) && abi_command_of(b) is None),
{
    match hex_decode_text(data) {
        Ok(input) => match abi_decode_command(&input) {
            Some(c) => Ok(c),
            None => Err(DecodeError::Schema),
        },
        Err(_) => Err(DecodeError::Hex),
    }
}

/// A decoded proof: three coordinate groups pA (2 elements), pB (2 by 2) and
/// pC (2 elements), each coordinate one field element.
#[derive(Debug)]
pub struct Proof {
    pub p_a: Vec<FieldElement>,
    pub p_b: Vec<Vec<FieldElement>>,
    pub p_c: Vec<FieldElement>,
}

impl Proof {
    /// The eight coordinates in verification order.
    pub open spec fn coords(&self) -> Seq<Seq<u8>> {
        seq![
            self.p_a@[0]@,
            self.p_a@[1]@,
            self.p_b@[0]@[0]@,
            self.p_b@[0]@[1]@,
            self.p_b@[1]@[0]@,
            self.p_b@[1]@[1]@,
            self.p_c@[0]@,
            self.p_c@[1]@,
        ]
    }

    /// The shape the proof schema guarantees: two, two-by-two and two
    /// coordinates, each of 32 bytes.
    pub open spec fn wf(&self) -> bool {
        &&& self.p_a@.len() == 2
        &&& self.p_b@.len() == 2
        &&& self.p_b@[0]@.len() == 2
        &&& self.p_b@[1]@.len() == 2
        &&& self.p_c@.len() == 2
        &&& forall|i: int| 0 <= i < 8 ==> (#[trigger] self.coords()[i]).len() == 32
    }
}

/// Builds the typed proof from the eight decoded coordinates.
fn proof_from_coords(v: &Vec<Vec<u8>>) -> (r: Proof)
    requires
        v@.len() == 8,
        forall|i: int| 0 <= i < 8 ==> (#[trigger] v@[i])@.len() == 32,
    ensures
        r.wf(),
        r.coords() == v.deep_view(),
{
    proof {
        lemma_deep_view_bytes(v@);
    }
    let pa0 = FieldElement { bytes: crate::field::copy_bytes(&v[0]) };
    let pa1 = FieldElement { bytes: crate::field::copy_bytes(&v[1]) };
    let pb00 = FieldElement { bytes: crate::field::copy_bytes(&v[2]) };
    let pb01 = FieldElement { bytes: crate::field::copy_bytes(&v[3]) };
    let pb10 = FieldElement { bytes: crate::field::copy_bytes(&v[4]) };
    let pb11 = FieldElement { bytes: crate::field::copy_bytes(&v[5]) };
    let pc0 = FieldElement { bytes: crate::field::copy_bytes(&v[6]) };
    let pc1 = FieldElement { bytes: crate::field::copy_bytes(&v[7]) };
    let r = Proof {
        p_a: vec![pa0, pa1],
        p_b: vec![vec![pb00, pb01], vec![pb10, pb11]],
        p_c: vec![pc0, pc1],
    };
    proof {
        assert(r.coords() =~= v.deep_view());
    }
    r
}

/// Decodes proof bytes through the ABI codec into the typed proof.
pub fn decode_proof_bytes(b: &Vec<u8>) -> (r: Result<Proof, DecodeError>)
    ensures
        r matches Ok(p) ==> abi_proof_of(b@) == Some(p.coords()) && p.wf(),
        r matches Err(e) ==> e == DecodeError::Schema,
        r is Err <==> abi_proof_of(b@) is None,
{
    match abi_decode_proof(b) {
        Ok(v) => Ok(proof_from_coords(&v)),
        Err(e) => Err(e),
    }
}

/// Decodes a hex-encoded proof: hex text to bytes, bytes to the typed proof.
/// Fails with `DecodeError::Hex` exactly when the text is not hexadecimal,
/// and with `DecodeError::Schema` exactly when the bytes do not satisfy the
/// proof schema.
pub fn decode_proof(proof_text: &str) -> (r: Result<Proof, DecodeError>)
    ensures
        r matches Ok(p) ==> hex_decoding(proof_text@) matches Some(b) && abi_proof_of(b) == Some(
            p.coords(),
        ) && p.wf(),
        r == Err::<Proof, DecodeError>(DecodeError::Hex) <==> hex_decoding(proof_text@) is None,
        r == Err::<Proof, DecodeError>(DecodeError::Schema) <==> (hex_decoding(proof_text@)
            matches Some(b) && abi_proof_of(b) is None),
{
    match hex_decode_text(proof_text) {
        Ok(input) => decode_proof_bytes(&input),
        Err(_) => Err(DecodeError::Hex),
    }
}

/// Converts a hex-encoded proof text to its raw bytes, for transport to the
/// external verifier.
pub fn _convert_proof(proof_text: &str) -> (r: Result<Vec<u8>, DecodeError>)
    ensures
        r matches Ok(b) ==> hex_decoding(proof_text@) == Some(b@),
        r is Err <==> hex_decoding(proof_text@) is None,
{
    hex_decode_text(proof_text)
}

} // verus!
