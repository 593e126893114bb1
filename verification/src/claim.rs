//! The claim-validation pipeline: decode the command, decode the embedded
//! proof, range-check its coordinates, match the masked email, build the
//! public-signal buffer, and hand proof and signals to the external verifier.
//! Any stage failure rejects the claim; the public result never says why.

use vstd::prelude::*;

use crate::codec::{abi_command_of, abi_proof_of, decode_data, decode_proof_bytes, hex_decoding, Proof};
use crate::email::email_matches;
use crate::field::{fe_lt, q_field_element, q_nat};
use crate::numeric::be_nat;
use crate::signals::_build_pub_signals;

verus! {

/// The external verification capability itself failed, as opposed to
/// reporting an invalid proof.
#[derive(Clone, Copy, Debug, PartialEq, Eq, Structural)]
pub enum VerifierError {
    Failure,
}

/// The external proof verifier: an opaque pairing-based checker of a proof
/// against a public-signal buffer under a fixed verification key. Nothing is
/// assumed of it; the pipeline propagates whatever it reports.
pub trait ProofVerifier {
    /// Checks `proof_bytes` against `public_signal_bytes`; `Ok(true)` means
    /// the proof is valid for those public inputs.
    fn verify(&self, proof_bytes: &Vec<u8>, public_signal_bytes: &Vec<u8>) -> Result<
        bool,
        VerifierError,
    >;
}

/// All eight proof coordinates lie strictly below the scalar-field modulus.
pub open spec fn proof_coords_in_range(coords: Seq<Seq<u8>>) -> bool {
    forall|i: int| 0 <= i < 8 ==> be_nat(#[trigger] coords[i]) < q_nat()
}

/// Range monotonicity, the flip side: replacing any single coordinate of a
/// proof by a value at or above the modulus makes the range check reject,
/// whatever the other coordinates hold.
pub proof fn lemma_range_flip(coords: Seq<Seq<u8>>, i: int, bad: Seq<u8>)
    requires
        coords.len() == 8,
        0 <= i < 8,
        be_nat(bad) >= q_nat(),
    ensures
        !proof_coords_in_range(coords.update(i, bad)),
{
    assert(coords.update(i, bad)[i] == bad);
}

/// Accepts a proof exactly when all eight scalar coordinates (pA[0..2],
/// pB[0][0..2], pB[1][0..2], pC[0..2]) are strictly below the fixed field
/// modulus Q; any out-of-range coordinate marks a malformed or adversarial
/// proof.
pub fn _check_if_less_than_q(prf: &Proof) -> (r: bool)
    requires
        prf.wf(),
    ensures
        r == proof_coords_in_range(prf.coords()),
{
    let q = q_field_element();
    proof {
        assert(prf.coords()[0] == prf.p_a@[0]@);
        assert(prf.coords()[1] == prf.p_a@[1]@);
        assert(prf.coords()[2] == prf.p_b@[0]@[0]@);
        assert(prf.coords()[3] == prf.p_b@[0]@[1]@);
        assert(prf.coords()[4] == prf.p_b@[1]@[0]@);
        assert(prf.coords()[5] == prf.p_b@[1]@[1]@);
        assert(prf.coords()[6] == prf.p_c@[0]@);
        assert(prf.coords()[7] == prf.p_c@[1]@);
    }
    let r = fe_lt(&prf.p_a[0], &q) && fe_lt(&prf.p_a[1], &q) && fe_lt(&prf.p_b[0][0], &q) && fe_lt(
        &prf.p_b[0][1],
        &q,
    ) && fe_lt(&prf.p_b[1][0], &q) && fe_lt(&prf.p_b[1][1], &q) && fe_lt(&prf.p_c[0], &q) && fe_lt(
        &prf.p_c[1],
        &q,
    );
    proof {
        if r {
            assert forall|i: int| 0 <= i < 8 implies be_nat(#[trigger] prf.coords()[i])
                < q_nat() by {
                assert(prf.coords()[0] == prf.p_a@[0]@);
            }
        }
    }
    r
}

/// Every check of the pipeline short of external verification passes: the
/// hex text decodes, the bytes decode as a claim command, the embedded proof
/// bytes decode, the coordinates are in range, and the email parts match the
/// email under the masking rule.
pub open spec fn claim_checks_pass(data: Seq<char>) -> bool {
    match hex_decoding(data) {
        Some(bytes) => match abi_command_of(bytes) {
            Some(c) => match abi_proof_of(c.proof_bytes) {
                Some(coords) => proof_coords_in_range(coords) && email_matches(
                    c.email_parts,
                    c.email,
                ),
                None => false,
            },
            None => false,
        },
        None => false,
    }
}

/// Validates a hex-encoded claim command end to end: decode, range-check,
/// email-check, build the public signals, and submit proof and signals to
/// the verifier. Rejects without consulting the verifier whenever any
/// earlier stage fails, so acceptance owes every check to have passed; an
/// accepted claim also carries the verifier's own approval, and a verifier
/// error rejects.
pub fn is_valid_proof<V: ProofVerifier>(data: &str, verifier: &V) -> (r: bool)
    ensures
        r ==> claim_checks_pass(data@),
{
    let command = match decode_data(data) {
        Ok(value) => value,
        Err(_) => {
            return false;
        },
    };
    let prf = match decode_proof_bytes(&command.proof_bytes) {
        Ok(value) => value,
        Err(_) => {
            return false;
        },
    };
    if !_check_if_less_than_q(&prf) {
        return false;
    }
    if !crate::email::_verify_email(&command.email_parts, &command.email) {
        return false;
    }
    let pub_signal = _build_pub_signals(&command);
    match verifier.verify(&command.proof_bytes, &pub_signal) {
        Ok(val) => val,
        Err(_) => false,
    }
}

} // verus!
