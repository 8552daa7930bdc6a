//! Spend proofs: from a wire request to the witness of the spend circuit,
//! and from the witness to a proof.
//!
//! A request passes a sequence of steps, and the first one that fails decides
//! the error: the two decimal fields, then the lengths of all byte fields,
//! then the decoding of the key scalars, of the randomizer and the anchor, of
//! the Merkle path, and last of the note's randomness.

use crate::backend::{
    commits_to, create_spend_proof, has_address, merkle_path_from_parts, merkle_path_position,
    node_from_bytes, node_value, node_values, path_position, path_siblings, prepared_spend,
    proof_generation_key, proof_key, random_trapdoor, randomized_key, randomized_key_bytes,
    spend_accepted, spend_auth_signature, spend_circuit, spend_nullifier,
    spend_nullifier_bytes, spend_proof_verifies, value_commitment, value_commitment_bytes,
};
use crate::codec::{
    bytes_to_fr, bytes_to_scalar, fr_encoding, fr_to_array, fr_value, is_canonical_fr,
    is_canonical_scalar, le_value, lemma_le_encode_inverse, scalar_value, to_array_32, zeros,
};
use crate::decimal::{parse_u64, parsed};
use crate::error::{Field, ProofError};
use crate::request::{spend_answer, ProofResponse, SpendProofRequest};
use sapling_crypto::value::ValueCommitTrapdoor;
use sapling_crypto::Node;
use vstd::prelude::*;
use zcash_proofs::prover::LocalTxProver;

verus! {

/// Everything that the spend circuit is given.
pub struct SpendWitness {
    /// The spend authorizing scalar.
    pub ask: jubjub::Fr,
    /// The nullifier scalar.
    pub nsk: jubjub::Fr,
    /// The outgoing viewing key. Proving does not read it; it is all zero.
    pub ovk: [u8; 32],
    /// The diversifier of the note's address. Proving does not depend on the
    /// real one; it is all zero.
    pub diversifier: [u8; 11],
    /// The note's commitment trapdoor, used as it is (the scheme from before
    /// ZIP 212).
    pub rcm: jubjub::Fr,
    /// The randomizer of the spend authorization key.
    pub ar: jubjub::Fr,
    /// The note's value.
    pub value: u64,
    /// The root of the commitment tree.
    pub anchor: bls12_381::Scalar,
    /// The way from the note's leaf to the root.
    pub merkle_path: sapling_crypto::MerklePath,
}

/// A spend circuit that is ready to be proved, with what goes out beside the
/// proof.
pub struct PreparedSpend {
    /// The circuit with its witness filled in.
    pub circuit: sapling_crypto::circuit::Spend,
    /// The encoded value commitment.
    pub cv: [u8; 32],
    /// The encoded randomized spend validating key.
    pub rk: [u8; 32],
    /// The note's nullifier, which the proof shows beside the value
    /// commitment, the randomized key and the anchor.
    pub nullifier: [u8; 32],
    /// The root of the commitment tree.
    pub anchor: bls12_381::Scalar,
    /// A signature by the randomized spend authorizing key over 32 zero
    /// bytes. The backend's verifier asks for one beside the proof; it is
    /// part of no response.
    pub signature: [u8; 64],
}

/// The entries of a list of byte strings.
pub open spec fn entries(list: Vec<Vec<u8>>) -> Seq<Seq<u8>> {
    Seq::new(list@.len(), |i: int| list@[i]@)
}

/// The numbers that the entries of a list spell.
pub open spec fn entry_values(list: Seq<Seq<u8>>) -> Seq<nat> {
    Seq::new(list.len(), |i: int| le_value(list[i]))
}

/// For each entry of the list, whether it is not 32 bytes long.
pub open spec fn wrong_lengths(list: Seq<Seq<u8>>) -> Seq<bool> {
    Seq::new(list.len(), |i: int| list[i].len() != 32)
}

/// For each entry of the list, whether it does not encode a tree node.
pub open spec fn non_canonicals(list: Seq<Seq<u8>>) -> Seq<bool> {
    Seq::new(list.len(), |i: int| !is_canonical_scalar(list[i]))
}

/// The least index at which the flag is set.
pub open spec fn first_set(flags: Seq<bool>) -> Option<int>
    decreases flags.len(),
{
    if flags.len() == 0 {
        None
    } else if let Some(i) = first_set(flags.drop_last()) {
        Some(i)
    } else if flags.last() {
        Some(flags.len() - 1)
    } else {
        None
    }
}

/// `first_set` finds a set flag before which none is set, and finds none
/// only where none is set.
pub proof fn lemma_first_set(flags: Seq<bool>)
    ensures
        match first_set(flags) {
            Some(k) => 0 <= k < flags.len() && flags[k] && forall|j: int| 0 <= j < k ==> !flags[j],
            None => forall|j: int| 0 <= j < flags.len() ==> !flags[j],
        },
    decreases flags.len(),
{
    if flags.len() > 0 {
        let front = flags.drop_last();
        lemma_first_set(front);
        assert(forall|j: int| 0 <= j < front.len() ==> front[j] == flags[j]);
    }
}

/// The index of the first entry that is not 32 bytes long.
pub open spec fn first_wrong_length(list: Seq<Seq<u8>>) -> Option<int> {
    first_set(wrong_lengths(list))
}

/// The index of the first entry that does not encode a tree node.
pub open spec fn first_non_canonical(list: Seq<Seq<u8>>) -> Option<int> {
    first_set(non_canonicals(list))
}

/// The step at which a spend request fails, if it fails at one.
pub open spec fn spend_fault(req: SpendProofRequest) -> Option<ProofError> {
    let path = entries(req.merkle_path);
    if parsed(req.value) is None {
        Some(ProofError::Parse(Field::Value))
    } else if parsed(req.position) is None {
        Some(ProofError::Parse(Field::Position))
    } else if req.spending_key@.len() != 32 {
        Some(ProofError::Length(Field::SpendingKey))
    } else if req.nsk@.len() != 32 {
        Some(ProofError::Length(Field::Nsk))
    } else if req.rcv@.len() != 32 {
        Some(ProofError::Length(Field::Rcv))
    } else if req.alpha@.len() != 32 {
        Some(ProofError::Length(Field::Alpha))
    } else if req.anchor@.len() != 32 {
        Some(ProofError::Length(Field::Anchor))
    } else if let Some(i) = first_wrong_length(path) {
        Some(ProofError::Length(Field::MerklePathElement(i as usize)))
    } else if !is_canonical_fr(req.spending_key@) {
        Some(ProofError::InvalidEncoding(Field::SpendingKey))
    } else if !is_canonical_fr(req.nsk@) {
        Some(ProofError::InvalidEncoding(Field::Nsk))
    } else if !is_canonical_fr(req.alpha@) {
        Some(ProofError::InvalidEncoding(Field::Alpha))
    } else if !is_canonical_scalar(req.anchor@) {
        Some(ProofError::InvalidEncoding(Field::Anchor))
    } else if let Some(i) = first_non_canonical(path) {
        Some(ProofError::InvalidEncoding(Field::MerklePathElement(i as usize)))
    } else if path.len() != 32 {
        Some(ProofError::PathConstruction)
    } else if !is_canonical_fr(req.rcv@) {
        Some(ProofError::InvalidEncoding(Field::Rcv))
    } else {
        None
    }
}

/// The witness holds what the request's fields decode to, and the two fixed
/// all-zero fields.
pub open spec fn is_spend_witness_of(w: SpendWitness, req: SpendProofRequest) -> bool {
    &&& fr_value(w.ask) == le_value(req.spending_key@)
    &&& fr_value(w.nsk) == le_value(req.nsk@)
    &&& w.ovk@ == zeros(32)
    &&& w.diversifier@ == zeros(11)
    &&& fr_value(w.rcm) == le_value(req.rcv@)
    &&& fr_value(w.ar) == le_value(req.alpha@)
    &&& parsed(req.value) == Some(w.value)
    &&& scalar_value(w.anchor) == le_value(req.anchor@)
    &&& path_siblings(w.merkle_path) == entry_values(entries(req.merkle_path))
    &&& parsed(req.position) == Some(path_position(w.merkle_path))
}

/// The encoding of the expanded spending key that a witness holds: `ask`,
/// `nsk` and `ovk` laid end to end.
pub open spec fn witness_key(w: SpendWitness) -> Seq<u8> {
    fr_encoding(w.ask) + fr_encoding(w.nsk) + w.ovk@
}

/// The backend takes the witness: its key material makes a proof generation
/// key, and that key has an address at the witness's diversifier.
pub open spec fn is_provable(w: SpendWitness) -> bool {
    proof_key(witness_key(w)) matches Some(pgk) && has_address(pgk, w.diversifier@)
}

/// The encoding of the expanded spending key that a request describes.
pub open spec fn request_key(req: SpendProofRequest) -> Seq<u8> {
    req.spending_key@ + req.nsk@ + zeros(32)
}

/// The backend takes the witness that a valid request describes.
pub open spec fn is_provable_request(req: SpendProofRequest) -> bool {
    proof_key(request_key(req)) matches Some(pgk) && has_address(pgk, zeros(11))
}

/// The randomized key that belongs to a request which the backend takes.
pub open spec fn request_rk(req: SpendProofRequest) -> Seq<u8> {
    randomized_key(proof_key(request_key(req)).unwrap(), le_value(req.alpha@))
}

/// A response to a spend request carries a proof of the fixed size, a
/// commitment to the given value, the given randomized key and no note
/// commitment.
pub open spec fn is_spend_response(resp: ProofResponse, value: u64, rk: Seq<u8>) -> bool {
    &&& resp.proof@.len() == 192
    &&& resp.cv@.len() == 32
    &&& commits_to(resp.cv@, value)
    &&& resp.rk matches Some(k) && k@ == rk && k@.len() == 32
    &&& resp.cmu is None
}

/// The prepared spend is made from the witness and the trapdoor: the circuit
/// is the one that the backend prepares from them, the value commitment is
/// blinded by the same trapdoor, and the randomized key belongs to the
/// witness's key material and randomizer.
pub open spec fn is_prepared_spend(
    p: PreparedSpend,
    w: SpendWitness,
    rcv: ValueCommitTrapdoor,
) -> bool {
    &&& proof_key(witness_key(w)) matches Some(pgk) && prepared_spend(
        pgk,
        w.diversifier@,
        w.rcm,
        w.value,
        w.ar,
        rcv,
        w.anchor,
        w.merkle_path,
    ) == Some(p.circuit) && p.rk@ == randomized_key(pgk, fr_value(w.ar)) && spend_nullifier(
        pgk,
        w.diversifier@,
        w.rcm,
        w.value,
        path_position(w.merkle_path),
    ) == Some(p.nullifier@)
    &&& p.cv@ == value_commitment(w.value, rcv)
    &&& p.anchor == w.anchor
}

/// Finds the first entry of the list that is not 32 bytes long.
pub fn find_wrong_length(list: &Vec<Vec<u8>>) -> (r: Option<usize>)
    ensures
        match r {
            Some(i) => first_wrong_length(entries(*list)) == Some(i as int),
            None => first_wrong_length(entries(*list)) is None,
        },
{
    let ghost flags = wrong_lengths(entries(*list));
    let mut i: usize = 0;
    while i < list.len()
        invariant
            i <= list@.len(),
            flags == wrong_lengths(entries(*list)),
            forall|j: int| 0 <= j < i ==> !flags[j],
        decreases list@.len() - i,
    {
        if list[i].len() != 32 {
            proof {
                lemma_first_set(flags);
                assert(flags[i as int]);
            }
            return Some(i);
        }
        i += 1;
    }
    proof {
        lemma_first_set(flags);
    }
    None
}

/// Decodes every entry of the list as a tree node, or finds the first entry
/// that does not encode one.
pub fn decode_siblings(list: &Vec<Vec<u8>>) -> (r: Result<Vec<Node>, usize>)
    ensures
        match r {
            Ok(nodes) => first_non_canonical(entries(*list)) is None && nodes@.len()
                == list@.len() && node_values(nodes@) == entry_values(entries(*list)),
            Err(i) => first_non_canonical(entries(*list)) == Some(i as int),
        },
{
    let ghost all = entries(*list);
    let ghost flags = non_canonicals(all);
    let mut nodes: Vec<Node> = Vec::new();
    let mut i: usize = 0;
    while i < list.len()
        invariant
            i <= list@.len(),
            all == entries(*list),
            flags == non_canonicals(all),
            forall|j: int| 0 <= j < i ==> !flags[j],
            nodes@.len() == i,
            forall|j: int| 0 <= j < i ==> node_value(#[trigger] nodes@[j]) == le_value(all[j]),
        decreases list@.len() - i,
    {
        let decoded = match to_array_32(list[i].as_slice()) {
            Some(bytes) => node_from_bytes(&bytes),
            None => None,
        };
        match decoded {
            Some(node) => {
                nodes.push(node);
            },
            None => {
                proof {
                    lemma_first_set(flags);
                    assert(flags[i as int]);
                }
                return Err(i);
            },
        }
        i += 1;
    }
    proof {
        lemma_first_set(flags);
        assert(node_values(nodes@) =~= entry_values(all));
    }
    Ok(nodes)
}

/// Validates a spend request and decodes it into the witness of the spend
/// circuit. The request is turned down at the first step it fails; otherwise
/// the witness holds what its fields decode to.
pub fn build_spend_witness(req: &SpendProofRequest) -> (r: Result<SpendWitness, ProofError>)
    ensures
        match spend_fault(*req) {
            Some(e) => r matches Err(x) && x == e,
            None => r matches Ok(w) && is_spend_witness_of(w, *req),
        },
{
    let value = match parse_u64(req.value.as_str()) {
        Some(v) => v,
        None => {
            return Err(ProofError::Parse(Field::Value));
        },
    };
    let position = match parse_u64(req.position.as_str()) {
        Some(p) => p,
        None => {
            return Err(ProofError::Parse(Field::Position));
        },
    };
    if req.spending_key.len() != 32 {
        return Err(ProofError::Length(Field::SpendingKey));
    }
    if req.nsk.len() != 32 {
        return Err(ProofError::Length(Field::Nsk));
    }
    if req.rcv.len() != 32 {
        return Err(ProofError::Length(Field::Rcv));
    }
    if req.alpha.len() != 32 {
        return Err(ProofError::Length(Field::Alpha));
    }
    if req.anchor.len() != 32 {
        return Err(ProofError::Length(Field::Anchor));
    }
    if let Some(i) = find_wrong_length(&req.merkle_path) {
        return Err(ProofError::Length(Field::MerklePathElement(i)));
    }
    let ask = match bytes_to_fr(req.spending_key.as_slice()) {
        Ok(f) => f,
        Err(_) => {
            return Err(ProofError::InvalidEncoding(Field::SpendingKey));
        },
    };
    let nsk = match bytes_to_fr(req.nsk.as_slice()) {
        Ok(f) => f,
        Err(_) => {
            return Err(ProofError::InvalidEncoding(Field::Nsk));
        },
    };
    let ar = match bytes_to_fr(req.alpha.as_slice()) {
        Ok(f) => f,
        Err(_) => {
            return Err(ProofError::InvalidEncoding(Field::Alpha));
        },
    };
    let anchor = match bytes_to_scalar(req.anchor.as_slice()) {
        Ok(s) => s,
        Err(_) => {
            return Err(ProofError::InvalidEncoding(Field::Anchor));
        },
    };
    let siblings = match decode_siblings(&req.merkle_path) {
        Ok(nodes) => nodes,
        Err(i) => {
            return Err(ProofError::InvalidEncoding(Field::MerklePathElement(i)));
        },
    };
    let merkle_path = match merkle_path_from_parts(siblings, position) {
        Some(p) => p,
        None => {
            return Err(ProofError::PathConstruction);
        },
    };
    let rcm = match bytes_to_fr(req.rcv.as_slice()) {
        Ok(f) => f,
        Err(_) => {
            return Err(ProofError::InvalidEncoding(Field::Rcv));
        },
    };
    let ovk = [0u8; 32];
    let diversifier = [0u8; 11];
    assert(ovk@ =~= zeros(32));
    assert(diversifier@ =~= zeros(11));
    Ok(SpendWitness { ask, nsk, ovk, diversifier, rcm, ar, value, anchor, merkle_path })
}

/// Lays the three parts of an expanded spending key end to end.
pub fn expanded_key_bytes(ask: &[u8; 32], nsk: &[u8; 32], ovk: &[u8; 32]) -> (r: [u8; 96])
    ensures
        r@ == ask@ + nsk@ + ovk@,
{
    let mut key = [0u8; 96];
    let mut i: usize = 0;
    while i < 32
        invariant
            i <= 32,
            forall|j: int| 0 <= j < i ==> key@[j] == ask@[j],
            forall|j: int| 0 <= j < i ==> key@[32 + j] == nsk@[j],
            forall|j: int| 0 <= j < i ==> key@[64 + j] == ovk@[j],
        decreases 32 - i,
    {
        key[i] = ask[i];
        key[32 + i] = nsk[i];
        key[64 + i] = ovk[i];
        i += 1;
    }
    assert(key@ =~= ask@ + nsk@ + ovk@);
    key
}

/// Encodes the expanded spending key that a witness holds.
pub fn witness_key_bytes(w: &SpendWitness) -> (r: [u8; 96])
    ensures
        r@ == witness_key(*w),
        is_canonical_fr(r@.subrange(0, 32)),
{
    let ask = fr_to_array(&w.ask);
    let nsk = fr_to_array(&w.nsk);
    let key = expanded_key_bytes(&ask, &nsk, &w.ovk);
    assert(key@.subrange(0, 32) =~= ask@);
    key
}

/// Prepares the spend circuit from a witness and a trapdoor for the value
/// commitment, together with the value commitment and the randomized key
/// that go out with the proof, and with what the proof is judged by.
///
/// The backend prepares the circuit exactly when it takes the witness; else
/// the result is the `Proving` error.
pub fn prepare_spend_with(w: SpendWitness, rcv: ValueCommitTrapdoor) -> (r: Result<
    PreparedSpend,
    ProofError,
>)
    ensures
        if is_provable(w) {
            r matches Ok(p) && is_prepared_spend(p, w, rcv)
        } else {
            r matches Err(e) && e == ProofError::Proving
        },
{
    let key = witness_key_bytes(&w);
    let pgk = match proof_generation_key(&key) {
        Some(k) => k,
        None => {
            return Err(ProofError::Proving);
        },
    };
    let position = merkle_path_position(&w.merkle_path);
    let nullifier = match spend_nullifier_bytes(&pgk, &w.diversifier, w.rcm, w.value, position) {
        Some(nf) => nf,
        None => {
            return Err(ProofError::Proving);
        },
    };
    let rk = randomized_key_bytes(&pgk, &w.ar);
    let message = [0u8; 32];
    let signature = spend_auth_signature(&key, &w.ar, &message);
    let cv = value_commitment_bytes(w.value, &rcv);
    let anchor = w.anchor;
    match spend_circuit(
        pgk,
        &w.diversifier,
        w.rcm,
        w.value,
        w.ar,
        rcv,
        w.anchor,
        w.merkle_path,
    ) {
        Some(circuit) => Ok(PreparedSpend { circuit, cv, rk, nullifier, anchor, signature }),
        None => Err(ProofError::Proving),
    }
}

/// Prepares the spend circuit from a witness, with a trapdoor for the value
/// commitment that is drawn at random for this call.
pub fn prepare_spend(w: SpendWitness) -> (r: Result<PreparedSpend, ProofError>)
    ensures
        if is_provable(w) {
            r matches Ok(p) && exists|rcv: ValueCommitTrapdoor| is_prepared_spend(p, w, rcv)
        } else {
            r matches Err(e) && e == ProofError::Proving
        },
{
    prepare_spend_with(w, random_trapdoor())
}

/// Judges a spend proof by the backend's own verifier and answers: the
/// response with the proof, the value commitment and the randomized key
/// where the verifier accepts the proof beside its public values and the
/// signature over 32 zero bytes, and the `Proving` error where it does not.
pub fn judge_spend_proof(
    prover: &LocalTxProver,
    proof: &[u8; 192],
    cv: &[u8; 32],
    rk: &[u8; 32],
    nullifier: &[u8; 32],
    anchor: bls12_381::Scalar,
    signature: &[u8; 64],
) -> (r: Result<ProofResponse, ProofError>)
    ensures
        match r {
            Ok(resp) => spend_accepted(
                *prover,
                proof@,
                cv@,
                anchor,
                nullifier@,
                rk@,
                zeros(32),
                signature@,
            ) && resp.proof@ == proof@ && resp.cv@ == cv@ && resp.cmu is None && (resp.rk matches Some(
                k,
            ) && k@ == rk@),
            Err(e) => !spend_accepted(
                *prover,
                proof@,
                cv@,
                anchor,
                nullifier@,
                rk@,
                zeros(32),
                signature@,
            ) && e == ProofError::Proving,
        },
{
    let message = [0u8; 32];
    assert(message@ =~= zeros(32));
    let accepted = spend_proof_verifies(prover, proof, cv, anchor, nullifier, rk, &message, signature);
    spend_answer(proof, cv, rk, accepted)
}

/// Proves a spend from its witness.
///
/// Where the backend does not take the witness, the result is the `Proving`
/// error and no proof is asked for. Where it does, the proof is made and
/// then judged by the backend's own verifier: a proof that is accepted goes
/// out in a response that carries a commitment to the witness's value and
/// the randomized key of the witness's key material and randomizer; a proof
/// that is not, as where the anchor is not the root that the path leads to,
/// gives the `Proving` error. The proof and the value commitment are freshly
/// randomized in every call.
pub fn spend_proof(w: SpendWitness, prover: &LocalTxProver) -> (r: Result<
    ProofResponse,
    ProofError,
>)
    ensures
        match r {
            Ok(resp) => is_provable(w) && is_spend_response(
                resp,
                w.value,
                randomized_key(proof_key(witness_key(w)).unwrap(), fr_value(w.ar)),
            ),
            Err(e) => e == ProofError::Proving,
        },
{
    match prepare_spend(w) {
        Err(e) => Err(e),
        Ok(p) => {
            let proof = create_spend_proof(prover, p.circuit);
            judge_spend_proof(prover, &proof, &p.cv, &p.rk, &p.nullifier, p.anchor, &p.signature)
        },
    }
}

/// Answers a spend request: validates it, builds the witness and proves.
///
/// A request that fails a step is turned down with that step's error and
/// never reaches the backend. A valid request whose witness the backend
/// does not take gets the `Proving` error. Any other valid request gets a
/// response, or the `Proving` error where the backend's verifier does not
/// accept the proof that was made.
pub fn generate_spend_proof_internal(req: SpendProofRequest, prover: &LocalTxProver) -> (r: Result<
    ProofResponse,
    ProofError,
>)
    ensures
        match spend_fault(req) {
            Some(e) => r matches Err(x) && x == e,
            None => match r {
                Ok(resp) => is_provable_request(req) && is_spend_response(
                    resp,
                    parsed(req.value).unwrap(),
                    request_rk(req),
                ),
                Err(x) => x == ProofError::Proving,
            },
        },
{
    match build_spend_witness(&req) {
        Err(e) => Err(e),
        Ok(w) => {
            proof {
                lemma_le_encode_inverse(req.spending_key@);
                lemma_le_encode_inverse(req.nsk@);
                assert(witness_key(w) == request_key(req));
            }
            spend_proof(w, prover)
        },
    }
}

/// The bytes of a byte field of a spend request. A sibling is named by its
/// index; a field that the request does not have has no bytes.
pub open spec fn spend_field(req: SpendProofRequest, field: Field) -> Option<Seq<u8>> {
    match field {
        Field::SpendingKey => Some(req.spending_key@),
        Field::Nsk => Some(req.nsk@),
        Field::Rcv => Some(req.rcv@),
        Field::Alpha => Some(req.alpha@),
        Field::Anchor => Some(req.anchor@),
        Field::MerklePathElement(i) => if i < req.merkle_path@.len() {
            Some(req.merkle_path@[i as int]@)
        } else {
            None
        },
        _ => None,
    }
}

/// The field is a byte field of the request and is not 32 bytes long.
pub open spec fn has_wrong_length(req: SpendProofRequest, field: Field) -> bool {
    spend_field(req, field) matches Some(bytes) && bytes.len() != 32
}

/// A spend request whose numbers parse and in which some byte field is not
/// 32 bytes long fails with a length error, and the error names a field that
/// is not 32 bytes long. No decoding error can come before it.
pub proof fn lemma_wrong_length_is_reported(req: SpendProofRequest, field: Field)
    requires
        parsed(req.value) is Some,
        parsed(req.position) is Some,
        has_wrong_length(req, field),
    ensures
        spend_fault(req) matches Some(ProofError::Length(named)) && has_wrong_length(req, named),
{
    let flags = wrong_lengths(entries(req.merkle_path));
    lemma_first_set(flags);
    if let Field::MerklePathElement(i) = field {
        assert(flags[i as int]);
    }
}

/// A spend request whose numbers parse and in which exactly one byte field
/// is not 32 bytes long fails with the length error that names this field.
pub proof fn lemma_sole_wrong_length_is_named(req: SpendProofRequest, field: Field)
    requires
        parsed(req.value) is Some,
        parsed(req.position) is Some,
        has_wrong_length(req, field),
        forall|other: Field| other != field ==> !has_wrong_length(req, other),
    ensures
        spend_fault(req) == Some(ProofError::Length(field)),
{
    lemma_wrong_length_is_reported(req, field);
}

/// A Merkle path that does not have 32 siblings is turned down with the path
/// construction error, whatever the leaf position and whatever the note's
/// randomness, once the request has passed the steps before: its numbers
/// parse, its byte fields have 32 bytes, and its key scalars, randomizer,
/// anchor and siblings decode.
pub proof fn lemma_wrong_depth_is_reported(req: SpendProofRequest)
    requires
        parsed(req.value) is Some,
        parsed(req.position) is Some,
        forall|field: Field| !has_wrong_length(req, field),
        is_canonical_fr(req.spending_key@),
        is_canonical_fr(req.nsk@),
        is_canonical_fr(req.alpha@),
        is_canonical_scalar(req.anchor@),
        forall|i: int|
            0 <= i < req.merkle_path@.len() ==> is_canonical_scalar(
                #[trigger] req.merkle_path@[i]@,
            ),
        req.merkle_path@.len() != 32,
    ensures
        spend_fault(req) == Some(ProofError::PathConstruction),
{
    let path = entries(req.merkle_path);
    assert(!has_wrong_length(req, Field::SpendingKey));
    assert(!has_wrong_length(req, Field::Nsk));
    assert(!has_wrong_length(req, Field::Rcv));
    assert(!has_wrong_length(req, Field::Alpha));
    assert(!has_wrong_length(req, Field::Anchor));
    lemma_first_set(wrong_lengths(path));
    lemma_first_set(non_canonicals(path));
    if let Some(k) = first_wrong_length(path) {
        assert(has_wrong_length(req, Field::MerklePathElement(k as usize)));
    }
    if let Some(k) = first_non_canonical(path) {
        assert(!is_canonical_scalar(req.merkle_path@[k]@));
    }
}

/// Whether a spend request is turned down and with which error, whether the
/// backend takes its witness, and the randomized key in its response are
/// determined by what the request's fields hold.
pub proof fn lemma_spend_outcome_is_determined(a: SpendProofRequest, b: SpendProofRequest)
    requires
        a.spending_key@ == b.spending_key@,
        a.nsk@ == b.nsk@,
        a.value@ == b.value@,
        a.rcv@ == b.rcv@,
        a.alpha@ == b.alpha@,
        a.anchor@ == b.anchor@,
        entries(a.merkle_path) == entries(b.merkle_path),
        a.position@ == b.position@,
    ensures
        spend_fault(a) == spend_fault(b),
        is_provable_request(a) == is_provable_request(b),
        request_rk(a) == request_rk(b),
{
}

} // verus!
