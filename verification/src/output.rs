//! Output proofs: from a wire request to the witness of the output circuit,
//! and from the witness to a proof and the note's commitment.
//!
//! A request passes a sequence of steps, and the first one that fails decides
//! the error: the decimal value, then the lengths of all byte fields, then
//! the decoding of the address, of the note's randomness and of the ephemeral
//! key.

use crate::backend::{
    commits_to, create_output_proof, note_commitment, note_commitment_bytes, output_circuit,
    payment_address, payment_address_from_bytes, prepared_output, random_fr, random_trapdoor,
    value_commitment, value_commitment_bytes,
};
use crate::codec::{
    bytes_to_fr, fr_encoding, fr_to_array, fr_value, is_canonical_fr, le_value,
    lemma_le_encode_inverse,
};
use crate::decimal::{parse_u64, parsed};
use crate::error::{required_length, Field, ProofError};
use crate::request::{output_response, OutputProofRequest, ProofResponse};
use sapling_crypto::value::ValueCommitTrapdoor;
use sapling_crypto::PaymentAddress;
use vstd::prelude::*;
use zcash_proofs::prover::LocalTxProver;

verus! {

/// What a valid output request decodes to.
pub struct OutputFields {
    /// The note's value.
    pub value: u64,
    /// The recipient's address.
    pub address: PaymentAddress,
    /// The note's randomness.
    pub rcm: jubjub::Fr,
    /// The ephemeral secret key, where the request supplies one.
    pub esk: Option<jubjub::Fr>,
}

/// Everything that the output circuit is given.
pub struct OutputWitness {
    /// The recipient's address.
    pub address: PaymentAddress,
    /// The note's randomness.
    pub rcm: jubjub::Fr,
    /// The ephemeral secret key.
    pub esk: jubjub::Fr,
    /// The note's value.
    pub value: u64,
}

/// An output circuit that is ready to be proved, with what goes out beside
/// the proof.
pub struct PreparedOutput {
    /// The circuit with its witness filled in.
    pub circuit: sapling_crypto::circuit::Output,
    /// The encoded value commitment.
    pub cv: [u8; 32],
    /// The encoded note commitment.
    pub cmu: [u8; 32],
}

/// The 43-byte encoding of the address that a request names: the diversifier
/// followed by the transmission key.
pub open spec fn address_encoding(req: OutputProofRequest) -> Seq<u8> {
    req.diversifier@ + req.pk_d@
}

/// The step at which an output request fails, if it fails at one.
pub open spec fn output_fault(req: OutputProofRequest) -> Option<ProofError> {
    if parsed(req.value) is None {
        Some(ProofError::Parse(Field::Value))
    } else if req.rcv@.len() != 32 {
        Some(ProofError::Length(Field::Rcv))
    } else if req.rcm@.len() != 32 {
        Some(ProofError::Length(Field::Rcm))
    } else if req.diversifier@.len() != 11 {
        Some(ProofError::Length(Field::Diversifier))
    } else if req.pk_d@.len() != 32 {
        Some(ProofError::Length(Field::PkD))
    } else if req.esk matches Some(e) && e@.len() != 32 {
        Some(ProofError::Length(Field::Esk))
    } else if payment_address(address_encoding(req)) is None {
        Some(ProofError::InvalidEncoding(Field::Address))
    } else if !is_canonical_fr(req.rcm@) {
        Some(ProofError::InvalidEncoding(Field::Rcm))
    } else if req.esk matches Some(e) && !is_canonical_fr(e@) {
        Some(ProofError::InvalidEncoding(Field::Esk))
    } else {
        None
    }
}

/// The fields hold what the request's fields decode to.
pub open spec fn are_fields_of(f: OutputFields, req: OutputProofRequest) -> bool {
    &&& parsed(req.value) == Some(f.value)
    &&& payment_address(address_encoding(req)) == Some(f.address)
    &&& fr_value(f.rcm) == le_value(req.rcm@)
    &&& match req.esk {
        Some(e) => f.esk matches Some(k) && fr_value(k) == le_value(e@),
        None => f.esk is None,
    }
}

/// The witness holds what the request's fields decode to. Where the request
/// supplies no ephemeral key, the witness may hold any.
pub open spec fn is_output_witness_of(w: OutputWitness, req: OutputProofRequest) -> bool {
    &&& parsed(req.value) == Some(w.value)
    &&& payment_address(address_encoding(req)) == Some(w.address)
    &&& fr_value(w.rcm) == le_value(req.rcm@)
    &&& req.esk matches Some(e) ==> fr_value(w.esk) == le_value(e@)
}

/// The encoding of the commitment to the note that a valid request
/// describes. It depends on the address, the value and the note's randomness
/// alone.
pub open spec fn request_cmu(req: OutputProofRequest) -> Seq<u8> {
    note_commitment(
        payment_address(address_encoding(req)).unwrap(),
        parsed(req.value).unwrap(),
        req.rcm@,
    )
}

/// A response to an output request carries a proof of the fixed size, a
/// commitment to the given value, the given note commitment and no
/// randomized key.
pub open spec fn is_output_response(resp: ProofResponse, value: u64, cmu: Seq<u8>) -> bool {
    &&& resp.proof@.len() == 192
    &&& resp.cv@.len() == 32
    &&& commits_to(resp.cv@, value)
    &&& resp.rk is None
    &&& resp.cmu matches Some(c) && c@ == cmu && c@.len() == 32
}

/// The prepared output is made from the witness and the trapdoor: the
/// circuit holds the witness, the value commitment is blinded by the same
/// trapdoor, and the note commitment is that of the note which pays the
/// witness's value to its address, with the encoding of the witness's
/// randomness as the seed.
pub open spec fn is_prepared_output(
    p: PreparedOutput,
    w: OutputWitness,
    rcv: ValueCommitTrapdoor,
) -> bool {
    &&& p.circuit == prepared_output(w.esk, w.address, w.rcm, w.value, rcv)
    &&& p.cv@ == value_commitment(w.value, rcv)
    &&& p.cmu@ == note_commitment(w.address, w.value, fr_encoding(w.rcm))
}

/// Lays a diversifier of 11 bytes and a transmission key of 32 bytes end to
/// end. There is no encoding for parts of other lengths.
pub fn address_bytes(diversifier: &[u8], pk_d: &[u8]) -> (r: Option<[u8; 43]>)
    ensures
        match r {
            Some(bytes) => diversifier@.len() == 11 && pk_d@.len() == 32 && bytes@ == diversifier@
                + pk_d@,
            None => diversifier@.len() != 11 || pk_d@.len() != 32,
        },
{
    if diversifier.len() != 11 || pk_d.len() != 32 {
        return None;
    }
    let mut bytes = [0u8; 43];
    let mut i: usize = 0;
    while i < 11
        invariant
            i <= 11,
            diversifier@.len() == 11,
            forall|j: int| 0 <= j < i ==> bytes@[j] == diversifier@[j],
        decreases 11 - i,
    {
        bytes[i] = diversifier[i];
        i += 1;
    }
    let mut k: usize = 0;
    while k < 32
        invariant
            k <= 32,
            pk_d@.len() == 32,
            diversifier@.len() == 11,
            forall|j: int| 0 <= j < 11 ==> bytes@[j] == diversifier@[j],
            forall|j: int| 0 <= j < k ==> bytes@[11 + j] == pk_d@[j],
        decreases 32 - k,
    {
        bytes[11 + k] = pk_d[k];
        k += 1;
    }
    assert(bytes@ =~= diversifier@ + pk_d@);
    Some(bytes)
}

/// Validates an output request and decodes its fields. The request is turned
/// down at the first step it fails.
pub fn decode_output_request(req: &OutputProofRequest) -> (r: Result<OutputFields, ProofError>)
    ensures
        match output_fault(*req) {
            Some(e) => r matches Err(x) && x == e,
            None => r matches Ok(f) && are_fields_of(f, *req),
        },
{
    let value = match parse_u64(req.value.as_str()) {
        Some(v) => v,
        None => {
            return Err(ProofError::Parse(Field::Value));
        },
    };
    if req.rcv.len() != 32 {
        return Err(ProofError::Length(Field::Rcv));
    }
    if req.rcm.len() != 32 {
        return Err(ProofError::Length(Field::Rcm));
    }
    if req.diversifier.len() != 11 {
        return Err(ProofError::Length(Field::Diversifier));
    }
    let encoding = match address_bytes(req.diversifier.as_slice(), req.pk_d.as_slice()) {
        Some(bytes) => bytes,
        None => {
            return Err(ProofError::Length(Field::PkD));
        },
    };
    if let Some(e) = &req.esk {
        if e.len() != 32 {
            return Err(ProofError::Length(Field::Esk));
        }
    }
    let address = match payment_address_from_bytes(&encoding) {
        Some(a) => a,
        None => {
            return Err(ProofError::InvalidEncoding(Field::Address));
        },
    };
    let rcm = match bytes_to_fr(req.rcm.as_slice()) {
        Ok(f) => f,
        Err(_) => {
            return Err(ProofError::InvalidEncoding(Field::Rcm));
        },
    };
    let esk = match &req.esk {
        Some(e) => match bytes_to_fr(e.as_slice()) {
            Ok(f) => Some(f),
            Err(_) => {
                return Err(ProofError::InvalidEncoding(Field::Esk));
            },
        },
        None => None,
    };
    Ok(OutputFields { value, address, rcm, esk })
}

/// Makes the witness of the output circuit from the decoded fields of a
/// request and an ephemeral key to fall back on. The witness holds the
/// request's ephemeral key where it supplies one, and `fresh` where it does
/// not.
pub fn output_witness_from(f: OutputFields, fresh: jubjub::Fr) -> (w: OutputWitness)
    ensures
        w.address == f.address,
        w.rcm == f.rcm,
        w.value == f.value,
        w.esk == (match f.esk {
            Some(k) => k,
            None => fresh,
        }),
{
    let esk = match f.esk {
        Some(k) => k,
        None => fresh,
    };
    OutputWitness { address: f.address, rcm: f.rcm, esk, value: f.value }
}

/// Builds the witness of the output circuit from a request and an ephemeral
/// key to fall back on. The witness holds the request's ephemeral key where
/// it supplies one, and `fresh` where it does not.
pub fn build_output_witness_with(req: &OutputProofRequest, fresh: jubjub::Fr) -> (r: Result<
    OutputWitness,
    ProofError,
>)
    ensures
        match output_fault(*req) {
            Some(e) => r matches Err(x) && x == e,
            None => r matches Ok(w) && is_output_witness_of(w, *req) && (req.esk is None ==> w.esk
                == fresh),
        },
{
    match decode_output_request(req) {
        Err(e) => Err(e),
        Ok(f) => Ok(output_witness_from(f, fresh)),
    }
}

/// Builds the witness of the output circuit from a request. Where the
/// request supplies no ephemeral key, one is drawn at random for this call;
/// where it supplies one, none is drawn.
pub fn build_output_witness(req: &OutputProofRequest) -> (r: Result<OutputWitness, ProofError>)
    ensures
        match output_fault(*req) {
            Some(e) => r matches Err(x) && x == e,
            None => r matches Ok(w) && is_output_witness_of(w, *req),
        },
{
    match decode_output_request(req) {
        Err(e) => Err(e),
        Ok(f) => {
            let fallback = match f.esk {
                Some(k) => k,
                None => random_fr(),
            };
            Ok(output_witness_from(f, fallback))
        },
    }
}

/// Prepares the output circuit from a witness and a trapdoor for the value
/// commitment, together with the value commitment and the note commitment
/// that go out with the proof.
///
/// The note commitment is computed here from the note's own fields, not
/// taken from the circuit.
pub fn prepare_output_with(w: OutputWitness, rcv: ValueCommitTrapdoor) -> (r: PreparedOutput)
    ensures
        is_prepared_output(r, w, rcv),
{
    let cv = value_commitment_bytes(w.value, &rcv);
    let seed = fr_to_array(&w.rcm);
    let cmu = note_commitment_bytes(&w.address, w.value, &seed);
    let circuit = output_circuit(w.esk, w.address, w.rcm, w.value, &rcv);
    PreparedOutput { circuit, cv, cmu }
}

/// Prepares the output circuit from a witness, with a trapdoor for the value
/// commitment that is drawn at random for this call.
pub fn prepare_output(w: OutputWitness) -> (r: PreparedOutput)
    ensures
        exists|rcv: ValueCommitTrapdoor| is_prepared_output(r, w, rcv),
{
    prepare_output_with(w, random_trapdoor())
}

/// Proves an output from its witness.
///
/// The response carries a commitment to the witness's value and the
/// commitment of the note that the witness describes. The proof and the
/// value commitment are freshly randomized in every call.
pub fn output_proof(w: OutputWitness, prover: &LocalTxProver) -> (r: ProofResponse)
    ensures
        is_output_response(r, w.value, note_commitment(w.address, w.value, fr_encoding(w.rcm))),
{
    let p = prepare_output(w);
    let proof = create_output_proof(prover, p.circuit);
    output_response(&proof, &p.cv, &p.cmu)
}

/// Answers an output request: validates it, builds the witness and proves.
///
/// A request that fails a step is turned down with that step's error and
/// never reaches the backend. Every valid request gets a response, whose
/// note commitment is determined by the address, the value and the note's
/// randomness.
pub fn generate_output_proof_internal(req: OutputProofRequest, prover: &LocalTxProver) -> (r:
    Result<ProofResponse, ProofError>)
    ensures
        match output_fault(req) {
            Some(e) => r matches Err(x) && x == e,
            None => r matches Ok(resp) && is_output_response(
                resp,
                parsed(req.value).unwrap(),
                request_cmu(req),
            ),
        },
{
    match build_output_witness(&req) {
        Err(e) => Err(e),
        Ok(w) => {
            proof {
                lemma_le_encode_inverse(req.rcm@);
            }
            Ok(output_proof(w, prover))
        },
    }
}

/// The note commitment in the response to a valid output request does not
/// depend on the ephemeral key, nor on anything but the address, the value
/// and the note's randomness: two requests that agree on these have the same
/// commitment.
pub proof fn lemma_commitment_ignores_esk(a: OutputProofRequest, b: OutputProofRequest)
    requires
        a.value@ == b.value@,
        a.rcm@ == b.rcm@,
        a.diversifier@ == b.diversifier@,
        a.pk_d@ == b.pk_d@,
    ensures
        request_cmu(a) == request_cmu(b),
{
}

/// The bytes of a byte field of an output request. A field that the request
/// does not have has no bytes.
pub open spec fn output_field(req: OutputProofRequest, field: Field) -> Option<Seq<u8>> {
    match field {
        Field::Rcv => Some(req.rcv@),
        Field::Rcm => Some(req.rcm@),
        Field::Diversifier => Some(req.diversifier@),
        Field::PkD => Some(req.pk_d@),
        Field::Esk => match req.esk {
            Some(e) => Some(e@),
            None => None,
        },
        _ => None,
    }
}

/// The field is a byte field of the request and does not have the length
/// that its kind requires.
pub open spec fn has_wrong_length(req: OutputProofRequest, field: Field) -> bool {
    output_field(req, field) matches Some(bytes) && bytes.len() != required_length(field)
}

/// An output request whose value parses and in which some byte field has the
/// wrong length fails with a length error, and the error names a field that
/// has the wrong length. No decoding error can come before it.
pub proof fn lemma_wrong_length_is_reported(req: OutputProofRequest, field: Field)
    requires
        parsed(req.value) is Some,
        has_wrong_length(req, field),
    ensures
        output_fault(req) matches Some(ProofError::Length(named)) && has_wrong_length(req, named),
{
}

/// An output request whose value parses and in which exactly one byte field
/// has the wrong length fails with the length error that names this field.
pub proof fn lemma_sole_wrong_length_is_named(req: OutputProofRequest, field: Field)
    requires
        parsed(req.value) is Some,
        has_wrong_length(req, field),
        forall|other: Field| other != field ==> !has_wrong_length(req, other),
    ensures
        output_fault(req) == Some(ProofError::Length(field)),
{
    lemma_wrong_length_is_reported(req, field);
}

/// A value that is not a decimal number of at most 64 bits is a parse error,
/// whatever the other fields hold.
pub proof fn lemma_bad_value_is_a_parse_fault(req: OutputProofRequest)
    requires
        parsed(req.value) is None,
    ensures
        output_fault(req) == Some(ProofError::Parse(Field::Value)),
{
}

} // verus!
