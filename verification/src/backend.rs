//! The Sapling objects and operations that the witness builders and the
//! provers rely on. Everything here is taken on trust from the Sapling
//! libraries: the types are opaque, and each function states what its
//! library call is documented to do.

use crate::codec::{fr_value, is_canonical_fr, le_value, scalar_modulus};
use sapling_crypto::circuit::ValueCommitmentOpening;
use sapling_crypto::keys::{Diversifier, ExpandedSpendingKey};
use sapling_crypto::note::ExtractedNoteCommitment;
use sapling_crypto::prover::{OutputProver, SpendProver};
use sapling_crypto::value::{NoteValue, ValueCommitTrapdoor, ValueCommitment};
use sapling_crypto::{
    Node, Note, PaymentAddress, ProofGenerationKey, Rseed, SaplingVerificationContext,
};
use vstd::prelude::*;
use zcash_proofs::prover::LocalTxProver;

verus! {

#[verifier::external_type_specification]
#[verifier::external_body]
pub struct ExNode(sapling_crypto::Node);

#[verifier::external_type_specification]
#[verifier::external_body]
#[verifier::reject_recursive_types(H)]
pub struct ExMerklePath<H, const DEPTH: u8>(incrementalmerkletree::MerklePath<H, DEPTH>);

#[verifier::external_type_specification]
#[verifier::external_body]
pub struct ExPaymentAddress(sapling_crypto::PaymentAddress);

#[verifier::external_type_specification]
#[verifier::external_body]
pub struct ExProofGenerationKey(sapling_crypto::ProofGenerationKey);

#[verifier::external_type_specification]
#[verifier::external_body]
pub struct ExValueCommitTrapdoor(sapling_crypto::value::ValueCommitTrapdoor);

#[verifier::external_type_specification]
#[verifier::external_body]
pub struct ExSpendCircuit(sapling_crypto::circuit::Spend);

#[verifier::external_type_specification]
#[verifier::external_body]
pub struct ExOutputCircuit(sapling_crypto::circuit::Output);

#[verifier::external_type_specification]
#[verifier::external_body]
pub struct ExLocalTxProver(zcash_proofs::prover::LocalTxProver);

/// The number below the BLS12-381 scalar field's order that a tree node
/// stands for.
pub uninterp spec fn node_value(n: sapling_crypto::Node) -> nat;

/// The siblings that a Merkle path holds, leaf end first, each as the number
/// it stands for.
pub uninterp spec fn path_siblings(p: sapling_crypto::MerklePath) -> Seq<nat>;

/// The leaf position that a Merkle path holds.
pub uninterp spec fn path_position(p: sapling_crypto::MerklePath) -> u64;

/// The payment address that 43 bytes decode to, if they decode to one.
pub uninterp spec fn payment_address(bytes: Seq<u8>) -> Option<sapling_crypto::PaymentAddress>;

/// The proof generation key of the expanded spending key that 96 bytes
/// decode to, if they decode to one.
pub uninterp spec fn proof_key(bytes: Seq<u8>) -> Option<sapling_crypto::ProofGenerationKey>;

/// The encoding of the spend validating key of `pgk` after it has been
/// randomized by the scalar that stands for `alpha`.
pub uninterp spec fn randomized_key(pgk: sapling_crypto::ProofGenerationKey, alpha: nat) -> Seq<u8>;

/// Whether the viewing key of `pgk` has a payment address at `diversifier`.
pub uninterp spec fn has_address(pgk: sapling_crypto::ProofGenerationKey, diversifier: Seq<u8>) -> bool;

/// The encoding of the commitment to the note that pays `value` to `address`
/// and whose randomness is the 32-byte seed `rseed`.
pub uninterp spec fn note_commitment(
    address: sapling_crypto::PaymentAddress,
    value: u64,
    rseed: Seq<u8>,
) -> Seq<u8>;

/// The encoding of the commitment to `value` that is blinded by `rcv`.
pub uninterp spec fn value_commitment(
    value: u64,
    rcv: sapling_crypto::value::ValueCommitTrapdoor,
) -> Seq<u8>;

/// The spend circuit that the backend prepares for a note of the scheme from
/// before ZIP 212, if it prepares one.
pub uninterp spec fn prepared_spend(
    pgk: sapling_crypto::ProofGenerationKey,
    diversifier: Seq<u8>,
    rcm: jubjub::Fr,
    value: u64,
    alpha: jubjub::Fr,
    rcv: sapling_crypto::value::ValueCommitTrapdoor,
    anchor: bls12_381::Scalar,
    path: sapling_crypto::MerklePath,
) -> Option<sapling_crypto::circuit::Spend>;

/// The output circuit whose witness is made of the given parts.
pub uninterp spec fn prepared_output(
    esk: jubjub::Fr,
    address: sapling_crypto::PaymentAddress,
    rcm: jubjub::Fr,
    value: u64,
    rcv: sapling_crypto::value::ValueCommitTrapdoor,
) -> sapling_crypto::circuit::Output;

/// The nullifier of the note of the scheme from before ZIP 212 that sits at
/// `position` and is paid to the address of `pgk` at `diversifier`, if there
/// is such an address.
pub uninterp spec fn spend_nullifier(
    pgk: sapling_crypto::ProofGenerationKey,
    diversifier: Seq<u8>,
    rcm: jubjub::Fr,
    value: u64,
    position: u64,
) -> Option<Seq<u8>>;

/// Whether the backend's verifier accepts a spend proof beside the public
/// values that it shows and a signature over `message`.
pub uninterp spec fn spend_accepted(
    prover: zcash_proofs::prover::LocalTxProver,
    proof: Seq<u8>,
    cv: Seq<u8>,
    anchor: bls12_381::Scalar,
    nullifier: Seq<u8>,
    rk: Seq<u8>,
    message: Seq<u8>,
    signature: Seq<u8>,
) -> bool;

/// The circuit is one that the backend has prepared for a spend.
pub open spec fn is_spend_circuit(circuit: sapling_crypto::circuit::Spend) -> bool {
    exists|
        pgk: sapling_crypto::ProofGenerationKey,
        diversifier: Seq<u8>,
        rcm: jubjub::Fr,
        value: u64,
        alpha: jubjub::Fr,
        rcv: sapling_crypto::value::ValueCommitTrapdoor,
        anchor: bls12_381::Scalar,
        path: sapling_crypto::MerklePath,
    |
        #[trigger] prepared_spend(pgk, diversifier, rcm, value, alpha, rcv, anchor, path) == Some(
            circuit,
        )
}

/// The circuit is one that has been filled in for an output.
pub open spec fn is_output_circuit(circuit: sapling_crypto::circuit::Output) -> bool {
    exists|
        esk: jubjub::Fr,
        address: sapling_crypto::PaymentAddress,
        rcm: jubjub::Fr,
        value: u64,
        rcv: sapling_crypto::value::ValueCommitTrapdoor,
    |
        #[trigger] prepared_output(esk, address, rcm, value, rcv) == circuit
}

/// The bytes encode a commitment to `value`, under some trapdoor.
pub open spec fn commits_to(cv: Seq<u8>, value: u64) -> bool {
    exists|rcv: sapling_crypto::value::ValueCommitTrapdoor|
        cv == #[trigger] value_commitment(value, rcv)
}

/// The numbers that a list of nodes stands for.
pub open spec fn node_values(nodes: Seq<sapling_crypto::Node>) -> Seq<nat> {
    Seq::new(nodes.len(), |i: int| node_value(nodes[i]))
}

/// Calls `ExtractedNoteCommitment::from_bytes` and turns the commitment into
/// a tree leaf with `Node::from_cmu`. The bytes are read as a little-endian
/// number and accepted exactly when it is below the order of the BLS12-381
/// scalar field; the leaf then stands for that number.
#[verifier::external_body]
pub(crate) fn node_from_bytes(bytes: &[u8; 32]) -> (r: Option<Node>)
    ensures
        r.is_some() <==> le_value(bytes@) < scalar_modulus(),
        r matches Some(n) ==> node_value(n) == le_value(bytes@),
{
    match Option::<ExtractedNoteCommitment>::from(ExtractedNoteCommitment::from_bytes(bytes)) {
        Some(cmu) => Some(Node::from_cmu(&cmu)),
        None => None,
    }
}

/// Calls `MerklePath::from_parts` for the Sapling tree, whose depth is 32.
/// It accepts exactly the lists of 32 siblings, whatever the position, and
/// keeps both as given.
#[verifier::external_body]
pub(crate) fn merkle_path_from_parts(siblings: Vec<Node>, position: u64) -> (r: Option<
    sapling_crypto::MerklePath,
>)
    ensures
        r.is_some() <==> siblings@.len() == 32,
        r matches Some(p) ==> path_siblings(p) == node_values(siblings@) && path_position(p)
            == position,
{
    sapling_crypto::MerklePath::from_parts(
        siblings,
        incrementalmerkletree::Position::from(position),
    ).ok()
}

/// Calls `PaymentAddress::from_bytes` on a diversifier followed by a
/// transmission key.
#[verifier::external_body]
pub(crate) fn payment_address_from_bytes(bytes: &[u8; 43]) -> (r: Option<PaymentAddress>)
    ensures
        r == payment_address(bytes@),
{
    PaymentAddress::from_bytes(bytes)
}

/// Calls `ExpandedSpendingKey::from_bytes` on `ask`, `nsk` and `ovk` laid end
/// to end, and `proof_generation_key` on the key that comes out. The first
/// 32 bytes must encode a Jubjub scalar: the call does not return on an
/// `ask` that spells a number at or above the field's order.
#[verifier::external_body]
pub(crate) fn proof_generation_key(key: &[u8; 96]) -> (r: Option<ProofGenerationKey>)
    requires
        is_canonical_fr(key@.subrange(0, 32)),
    ensures
        r == proof_key(key@),
{
    match ExpandedSpendingKey::from_bytes(key) {
        Ok(expanded) => Some(expanded.proof_generation_key()),
        Err(_) => None,
    }
}

/// Calls `SpendValidatingKey::randomize` on the validating key of `pgk` and
/// encodes the randomized key.
#[verifier::external_body]
pub(crate) fn randomized_key_bytes(pgk: &ProofGenerationKey, alpha: &jubjub::Fr) -> (r: [u8; 32])
    ensures
        r@ == randomized_key(*pgk, fr_value(*alpha)),
{
    <[u8; 32]>::from(pgk.ak().randomize(alpha))
}

/// Calls `Note::cmu` on the note that pays `value` to `address` with the
/// randomness seed `rseed`, in the scheme that ZIP 212 introduced, and
/// encodes the commitment.
#[verifier::external_body]
pub(crate) fn note_commitment_bytes(address: &PaymentAddress, value: u64, rseed: &[u8; 32]) -> (r:
    [u8; 32])
    ensures
        r@ == note_commitment(*address, value, rseed@),
{
    let note = Note::from_parts(*address, NoteValue::from_raw(value), Rseed::AfterZip212(*rseed));
    note.cmu().to_bytes()
}

/// Calls `MerklePath::position` and gives the position as a number.
#[verifier::external_body]
pub(crate) fn merkle_path_position(path: &sapling_crypto::MerklePath) -> (r: u64)
    ensures
        r == path_position(*path),
{
    u64::from(path.position())
}

/// Calls `Note::nf` on the note of the scheme from before ZIP 212 that is
/// paid to the address of `pgk` at `diversifier`, with the nullifier
/// deriving key of `pgk`. There is a nullifier exactly when there is such an
/// address.
#[verifier::external_body]
pub(crate) fn spend_nullifier_bytes(
    pgk: &ProofGenerationKey,
    diversifier: &[u8; 11],
    rcm: jubjub::Fr,
    value: u64,
    position: u64,
) -> (r: Option<[u8; 32]>)
    ensures
        r.is_some() == has_address(*pgk, diversifier@),
        match r {
            Some(nf) => spend_nullifier(*pgk, diversifier@, rcm, value, position) == Some(nf@),
            None => spend_nullifier(*pgk, diversifier@, rcm, value, position) is None,
        },
{
    let vk = pgk.to_viewing_key();
    match vk.to_payment_address(Diversifier(*diversifier)) {
        Some(to) => {
            let note = Note::from_parts(to, NoteValue::from_raw(value), Rseed::BeforeZip212(rcm));
            Some(note.nf(vk.nk(), position).0)
        },
        None => None,
    }
}

/// Calls `SpendAuthorizingKey::randomize` on the `ask` of the expanded
/// spending key that `key` encodes, and `SigningKey::sign` on the message
/// with the operating system's random source. The key must be one that
/// decodes. The signature is randomized, so nothing is stated of its bytes.
/// The call ends the process where the system has no randomness to give.
#[verifier::external_body]
pub(crate) fn spend_auth_signature(key: &[u8; 96], alpha: &jubjub::Fr, message: &[u8; 32]) -> [u8;
    64]
    requires
        is_canonical_fr(key@.subrange(0, 32)),
        proof_key(key@) is Some,
{
    let expanded = ExpandedSpendingKey::from_bytes(key).unwrap();
    let rsk = expanded.ask().randomize(alpha);
    <[u8; 64]>::from(rsk.sign(rand_core::UnwrapErr(getrandom::SysRng), message))
}

/// Calls `SaplingVerificationContext::check_spend` with the prepared spend
/// verifying key of `LocalTxProver::verifying_keys`. The answer is no where
/// the commitment, the randomized key or the proof does not decode, where
/// the commitment or the randomized key is a point of small order, where
/// the signature is not one by the randomized key over the message, and
/// where the proof does not show the public values: the randomized key, the
/// value commitment, the anchor and the nullifier.
#[verifier::external_body]
pub(crate) fn spend_proof_verifies(
    prover: &LocalTxProver,
    proof: &[u8; 192],
    cv: &[u8; 32],
    anchor: bls12_381::Scalar,
    nullifier: &[u8; 32],
    rk: &[u8; 32],
    message: &[u8; 32],
    signature: &[u8; 64],
) -> (r: bool)
    ensures
        r == spend_accepted(*prover, proof@, cv@, anchor, nullifier@, rk@, message@, signature@),
{
    let key = prover.verifying_keys().0.prepare();
    let cv = Option::<ValueCommitment>::from(ValueCommitment::from_bytes_not_small_order(cv));
    let proof = <<LocalTxProver as SpendProver>::Proof>::read(&proof[..]);
    match (cv, (*rk).try_into(), proof) {
        (Some(cv), Ok(rk), Ok(proof)) => {
            let sig = (*signature).into();
            SaplingVerificationContext::new()
                .check_spend(&cv, anchor, nullifier, rk, message, sig, proof, &key)
        },
        _ => false,
    }
}

/// Calls `ValueCommitTrapdoor::random` with the operating system's random
/// source. Nothing is known of the outcome. The call ends the process where
/// the system has no randomness to give.
#[verifier::external_body]
pub(crate) fn random_trapdoor() -> ValueCommitTrapdoor {
    ValueCommitTrapdoor::random(rand_core::UnwrapErr(getrandom::SysRng))
}

/// Calls `jubjub::Fr::random` with the operating system's random source.
/// Nothing is known of the outcome. The call ends the process where the
/// system has no randomness to give.
#[verifier::external_body]
pub(crate) fn random_fr() -> jubjub::Fr {
    <jubjub::Fr as group::ff::Field>::random(&mut rand_core::UnwrapErr(getrandom::SysRng))
}

/// Calls `ValueCommitment::derive` and encodes the commitment.
#[verifier::external_body]
pub(crate) fn value_commitment_bytes(value: u64, rcv: &ValueCommitTrapdoor) -> (r: [u8; 32])
    ensures
        r@ == value_commitment(value, *rcv),
{
    ValueCommitment::derive(NoteValue::from_raw(value), rcv.clone()).to_bytes()
}

/// Calls `SpendProver::prepare_circuit` for a note whose commitment trapdoor
/// is `rcm` itself, the scheme from before ZIP 212. The circuit is prepared
/// exactly when the viewing key of `pgk` has an address at `diversifier`.
#[verifier::external_body]
pub(crate) fn spend_circuit(
    pgk: ProofGenerationKey,
    diversifier: &[u8; 11],
    rcm: jubjub::Fr,
    value: u64,
    alpha: jubjub::Fr,
    rcv: ValueCommitTrapdoor,
    anchor: bls12_381::Scalar,
    path: sapling_crypto::MerklePath,
) -> (r: Option<sapling_crypto::circuit::Spend>)
    ensures
        r == prepared_spend(pgk, diversifier@, rcm, value, alpha, rcv, anchor, path),
        r.is_some() == has_address(pgk, diversifier@),
{
    <LocalTxProver as SpendProver>::prepare_circuit(
        pgk,
        Diversifier(*diversifier),
        Rseed::BeforeZip212(rcm),
        NoteValue::from_raw(value),
        alpha,
        rcv,
        anchor,
        path,
    )
}

/// Fills in the output circuit as `OutputProver::prepare_circuit` does. That
/// function takes an ephemeral key type which cannot be made from a chosen
/// scalar, so the circuit's public fields are set directly.
#[verifier::external_body]
pub(crate) fn output_circuit(
    esk: jubjub::Fr,
    address: PaymentAddress,
    rcm: jubjub::Fr,
    value: u64,
    rcv: &ValueCommitTrapdoor,
) -> (r: sapling_crypto::circuit::Output)
    ensures
        r == prepared_output(esk, address, rcm, value, *rcv),
{
    sapling_crypto::circuit::Output {
        value_commitment_opening: Some(
            ValueCommitmentOpening { value: NoteValue::from_raw(value), randomness: rcv.inner() },
        ),
        payment_address: Some(address),
        commitment_randomness: Some(rcm),
        esk: Some(esk),
    }
}

/// Calls `SpendProver::create_proof` with the operating system's random
/// source and encodes the proof with `SpendProver::encode_proof`. The
/// circuit must be one that the backend has prepared: the call does not
/// return on a circuit with an empty field. The proof is randomized, so
/// nothing is stated of its bytes. The backend does not judge the witness
/// here: where the anchor is not the root that the path leads to, a proof
/// still comes out, and no verifier will take it.
#[verifier::external_body]
pub(crate) fn create_spend_proof(
    prover: &LocalTxProver,
    circuit: sapling_crypto::circuit::Spend,
) -> [u8; 192]
    requires
        is_spend_circuit(circuit),
{
    let mut rng = rand_core::UnwrapErr(getrandom::SysRng);
    let proof = SpendProver::create_proof(prover, circuit, &mut rng);
    <LocalTxProver as SpendProver>::encode_proof(proof)
}

/// Calls `OutputProver::create_proof` with the operating system's random
/// source and encodes the proof with `OutputProver::encode_proof`. The
/// circuit must be one that has been filled in: the call does not return on
/// a circuit with an empty field. The proof is randomized, so nothing is
/// stated of its bytes.
#[verifier::external_body]
pub(crate) fn create_output_proof(
    prover: &LocalTxProver,
    circuit: sapling_crypto::circuit::Output,
) -> [u8; 192]
    requires
        is_output_circuit(circuit),
{
    let mut rng = rand_core::UnwrapErr(getrandom::SysRng);
    let proof = OutputProver::create_proof(prover, circuit, &mut rng);
    <LocalTxProver as OutputProver>::encode_proof(proof)
}

} // verus!
