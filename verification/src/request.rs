//! The wire form of requests and responses.

use crate::error::ProofError;
use vstd::prelude::*;

verus! {

/// A request for a spend proof.
pub struct SpendProofRequest {
    /// The spend authorizing scalar `ask`, 32 bytes.
    pub spending_key: Vec<u8>,
    /// The nullifier scalar `nsk`, 32 bytes.
    pub nsk: Vec<u8>,
    /// The note's value, in decimal.
    pub value: String,
    /// The randomness from which the note's commitment trapdoor is taken,
    /// 32 bytes.
    pub rcv: Vec<u8>,
    /// The randomizer of the spend authorization key, 32 bytes.
    pub alpha: Vec<u8>,
    /// The root of the commitment tree, 32 bytes.
    pub anchor: Vec<u8>,
    /// The siblings on the way from the note's leaf to the root, 32 bytes
    /// each, leaf end first.
    pub merkle_path: Vec<Vec<u8>>,
    /// The position of the note's leaf, in decimal.
    pub position: String,
}

/// A request for an output proof.
pub struct OutputProofRequest {
    /// The note's value, in decimal.
    pub value: String,
    /// Value commitment randomness, 32 bytes.
    pub rcv: Vec<u8>,
    /// The note's randomness, 32 bytes.
    pub rcm: Vec<u8>,
    /// The recipient's diversifier, 11 bytes.
    pub diversifier: Vec<u8>,
    /// The recipient's transmission key, 32 bytes.
    pub pk_d: Vec<u8>,
    /// The ephemeral secret key, 32 bytes; drawn at random when absent.
    pub esk: Option<Vec<u8>>,
}

/// The answer to either request. A spend proof comes with `rk` and without
/// `cmu`; an output proof comes with `cmu` and without `rk`.
pub struct ProofResponse {
    /// The encoded Groth16 proof, 192 bytes.
    pub proof: Vec<u8>,
    /// The encoded value commitment, 32 bytes.
    pub cv: Vec<u8>,
    /// The encoded randomized spend validating key, 32 bytes.
    pub rk: Option<Vec<u8>>,
    /// The encoded note commitment, 32 bytes.
    pub cmu: Option<Vec<u8>>,
}

/// The response to a spend request: the proof, the value commitment and the
/// randomized key, and no note commitment.
pub fn spend_response(proof: &[u8; 192], cv: &[u8; 32], rk: &[u8; 32]) -> (r: ProofResponse)
    ensures
        r.proof@ == proof@,
        r.cv@ == cv@,
        r.rk matches Some(k) && k@ == rk@,
        r.cmu is None,
{
    ProofResponse {
        proof: vstd::slice::slice_to_vec(proof.as_slice()),
        cv: vstd::slice::slice_to_vec(cv.as_slice()),
        rk: Some(vstd::slice::slice_to_vec(rk.as_slice())),
        cmu: None,
    }
}

/// The answer to a spend request once its proof has been made and judged:
/// the response where the proof was accepted, the proving error where it was
/// not.
pub fn spend_answer(proof: &[u8; 192], cv: &[u8; 32], rk: &[u8; 32], accepted: bool) -> (r: Result<
    ProofResponse,
    ProofError,
>)
    ensures
        match r {
            Ok(resp) => accepted && resp.proof@ == proof@ && resp.cv@ == cv@ && resp.cmu is None
                && (resp.rk matches Some(k) && k@ == rk@),
            Err(e) => !accepted && e == ProofError::Proving,
        },
{
    if accepted {
        Ok(spend_response(proof, cv, rk))
    } else {
        Err(ProofError::Proving)
    }
}

/// The response to an output request: the proof, the value commitment and
/// the note commitment, and no randomized key.
pub fn output_response(proof: &[u8; 192], cv: &[u8; 32], cmu: &[u8; 32]) -> (r: ProofResponse)
    ensures
        r.proof@ == proof@,
        r.cv@ == cv@,
        r.rk is None,
        r.cmu matches Some(c) && c@ == cmu@,
{
    ProofResponse {
        proof: vstd::slice::slice_to_vec(proof.as_slice()),
        cv: vstd::slice::slice_to_vec(cv.as_slice()),
        rk: None,
        cmu: Some(vstd::slice::slice_to_vec(cmu.as_slice())),
    }
}

} // verus!
