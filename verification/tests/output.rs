use proving_service::error::{Field, ProofError};
use proving_service::output::{
    address_bytes, build_output_witness, build_output_witness_with, decode_output_request,
    output_witness_from, prepare_output, prepare_output_with,
};
use proving_service::request::OutputProofRequest;

const DIVERSIFIER: [u8; 11] = [0xf1, 0x9d, 0x9b, 0x79, 0x7e, 0x39, 0xf3, 0x37, 0x44, 0x58, 0x39];

const PK_D: [u8; 32] = [
    0xdb, 0x4c, 0xd2, 0xb0, 0xaa, 0xc4, 0xf7, 0xeb, 0x8c, 0xa1, 0x31, 0xf1, 0x65, 0x67, 0xc4, 0x45,
    0xa9, 0x55, 0x51, 0x26, 0xd3, 0xc2, 0x9f, 0x14, 0xe3, 0xd7, 0x76, 0xe8, 0x41, 0xae, 0x74, 0x15,
];

fn rcm() -> Vec<u8> {
    let mut v = vec![0u8; 32];
    v[0] = 0x39;
    v[1] = 0x17;
    v
}

fn valid_request() -> OutputProofRequest {
    OutputProofRequest {
        value: "100".to_string(),
        rcv: vec![0u8; 32],
        rcm: rcm(),
        diversifier: DIVERSIFIER.to_vec(),
        pk_d: PK_D.to_vec(),
        esk: None,
    }
}

fn fault(req: &OutputProofRequest) -> ProofError {
    match build_output_witness(req) {
        Ok(_) => panic!("the request was accepted"),
        Err(e) => e,
    }
}

fn reference_cmu(value: u64, seed: [u8; 32]) -> [u8; 32] {
    let mut encoding = [0u8; 43];
    encoding[..11].copy_from_slice(&DIVERSIFIER);
    encoding[11..].copy_from_slice(&PK_D);
    let address = sapling_crypto::PaymentAddress::from_bytes(&encoding).unwrap();
    let note = sapling_crypto::Note::from_parts(
        address,
        sapling_crypto::value::NoteValue::from_raw(value),
        sapling_crypto::Rseed::AfterZip212(seed),
    );
    note.cmu().to_bytes()
}

#[test]
fn valid_output_request_decodes_field_by_field() {
    let w = build_output_witness(&valid_request()).ok().unwrap();
    assert_eq!(w.value, 100);
    assert_eq!(w.rcm, jubjub::Fr::from(0x1739u64));
    let encoding = w.address.to_bytes();
    assert_eq!(&encoding[..11], &DIVERSIFIER);
    assert_eq!(&encoding[11..], &PK_D);
}

#[test]
fn supplied_ephemeral_key_is_used() {
    let mut req = valid_request();
    let mut esk = vec![0u8; 32];
    esk[0] = 77;
    req.esk = Some(esk);
    let w = build_output_witness(&req).ok().unwrap();
    assert_eq!(w.esk, jubjub::Fr::from(77u64));
    let w = build_output_witness_with(&req, jubjub::Fr::from(5u64)).ok().unwrap();
    assert_eq!(w.esk, jubjub::Fr::from(77u64));
}

#[test]
fn fallback_ephemeral_key_is_used_when_none_is_supplied() {
    let w = build_output_witness_with(&valid_request(), jubjub::Fr::from(5u64)).ok().unwrap();
    assert_eq!(w.esk, jubjub::Fr::from(5u64));
}

#[test]
fn ephemeral_key_is_fresh_in_every_call() {
    let first = build_output_witness(&valid_request()).ok().unwrap();
    let second = build_output_witness(&valid_request()).ok().unwrap();
    assert_ne!(first.esk, second.esk);
}

#[test]
fn decoded_fields_keep_the_absence_of_an_ephemeral_key() {
    let f = decode_output_request(&valid_request()).ok().unwrap();
    assert!(f.esk.is_none());
    assert_eq!(f.value, 100);
}

#[test]
fn output_value_above_64_bits_is_a_parse_fault() {
    for bad in ["18446744073709551616", "340282366920938463463374607431768211456", "", "ten"] {
        let mut req = valid_request();
        req.value = bad.to_string();
        assert_eq!(fault(&req), ProofError::Parse(Field::Value));
    }
    let mut req = valid_request();
    req.value = "18446744073709551615".to_string();
    assert_eq!(build_output_witness(&req).ok().unwrap().value, u64::MAX);
}

#[test]
fn output_field_of_wrong_length_is_named() {
    for len in [0usize, 31, 33] {
        let mut req = valid_request();
        req.rcv = vec![0u8; len];
        assert_eq!(fault(&req), ProofError::Length(Field::Rcv));
        let mut req = valid_request();
        req.rcm = vec![0u8; len];
        assert_eq!(fault(&req), ProofError::Length(Field::Rcm));
        let mut req = valid_request();
        req.pk_d = vec![0u8; len];
        assert_eq!(fault(&req), ProofError::Length(Field::PkD));
        let mut req = valid_request();
        req.esk = Some(vec![0u8; len]);
        assert_eq!(fault(&req), ProofError::Length(Field::Esk));
    }
    for len in [0usize, 10, 12, 32] {
        let mut req = valid_request();
        req.diversifier = vec![0u8; len];
        assert_eq!(fault(&req), ProofError::Length(Field::Diversifier));
    }
}

#[test]
fn output_lengths_are_judged_before_any_decoding() {
    let mut req = valid_request();
    req.pk_d = vec![0xffu8; 32];
    req.rcm = vec![0xffu8; 32];
    req.esk = Some(vec![0u8; 3]);
    assert_eq!(fault(&req), ProofError::Length(Field::Esk));
}

#[test]
fn address_that_does_not_decode_is_rejected() {
    // Not a point of the curve.
    let mut req = valid_request();
    req.pk_d = vec![0xffu8; 32];
    assert_eq!(fault(&req), ProofError::InvalidEncoding(Field::Address));
    // The identity.
    let mut req = valid_request();
    let mut identity = vec![0u8; 32];
    identity[0] = 1;
    req.pk_d = identity;
    assert_eq!(fault(&req), ProofError::InvalidEncoding(Field::Address));
    // A diversifier that has no base point.
    let mut req = valid_request();
    req.diversifier = vec![1, 0, 0, 0, 0, 0, 0, 0, 0, 0, 0];
    assert_eq!(fault(&req), ProofError::InvalidEncoding(Field::Address));
}

#[test]
fn output_scalar_that_does_not_decode_is_named() {
    let mut req = valid_request();
    req.rcm = vec![0xffu8; 32];
    assert_eq!(fault(&req), ProofError::InvalidEncoding(Field::Rcm));
    let mut req = valid_request();
    req.esk = Some(vec![0xffu8; 32]);
    assert_eq!(fault(&req), ProofError::InvalidEncoding(Field::Esk));
    let mut req = valid_request();
    req.pk_d = vec![0xffu8; 32];
    req.rcm = vec![0xffu8; 32];
    assert_eq!(fault(&req), ProofError::InvalidEncoding(Field::Address));
    let mut req = valid_request();
    req.rcm = vec![0xffu8; 32];
    req.esk = Some(vec![0xffu8; 32]);
    assert_eq!(fault(&req), ProofError::InvalidEncoding(Field::Rcm));
}

#[test]
fn unused_value_commitment_randomness_need_not_decode() {
    let mut req = valid_request();
    req.rcv = vec![0xffu8; 32];
    assert!(build_output_witness(&req).is_ok());
}

#[test]
fn address_is_the_diversifier_followed_by_the_key() {
    let encoding = address_bytes(&DIVERSIFIER, &PK_D).unwrap();
    assert_eq!(&encoding[..11], &DIVERSIFIER);
    assert_eq!(&encoding[11..], &PK_D);
    assert_eq!(address_bytes(&DIVERSIFIER[..10], &PK_D), None);
    assert_eq!(address_bytes(&DIVERSIFIER, &PK_D[..31]), None);
    assert_eq!(address_bytes(&PK_D, &DIVERSIFIER), None);
}

#[test]
fn note_commitment_matches_the_reference() {
    let w = build_output_witness(&valid_request()).ok().unwrap();
    let p = prepare_output(w);
    let expected: [u8; 32] = [
        225, 34, 211, 62, 56, 66, 168, 120, 155, 14, 216, 28, 64, 198, 50, 237, 253, 184, 75, 183,
        42, 212, 26, 85, 182, 74, 96, 125, 201, 147, 27, 95,
    ];
    assert_eq!(p.cmu, expected);
    let mut seed = [0u8; 32];
    seed.copy_from_slice(&rcm());
    assert_eq!(p.cmu, reference_cmu(100, seed));
}

#[test]
fn note_commitment_does_not_depend_on_the_ephemeral_key() {
    let first = prepare_output(build_output_witness(&valid_request()).ok().unwrap());
    let second = prepare_output(build_output_witness(&valid_request()).ok().unwrap());
    assert_eq!(first.cmu, second.cmu);
    let mut req = valid_request();
    let mut esk = vec![0u8; 32];
    esk[0] = 77;
    req.esk = Some(esk);
    req.rcv = vec![9u8; 32];
    let third = prepare_output(build_output_witness(&req).ok().unwrap());
    assert_eq!(first.cmu, third.cmu);
}

#[test]
fn note_commitment_follows_value_and_randomness() {
    let base = prepare_output(build_output_witness(&valid_request()).ok().unwrap());
    let mut req = valid_request();
    req.value = "101".to_string();
    let other_value = prepare_output(build_output_witness(&req).ok().unwrap());
    assert_ne!(base.cmu, other_value.cmu);
    assert_eq!(other_value.cmu, reference_cmu(101, {
        let mut seed = [0u8; 32];
        seed.copy_from_slice(&rcm());
        seed
    }));
    let mut req = valid_request();
    req.rcm = vec![0u8; 32];
    let other_seed = prepare_output(build_output_witness(&req).ok().unwrap());
    assert_ne!(base.cmu, other_seed.cmu);
    assert_eq!(other_seed.cmu, reference_cmu(100, [0u8; 32]));
}

#[test]
fn output_value_commitment_is_a_fresh_valid_point() {
    let first = prepare_output(build_output_witness(&valid_request()).ok().unwrap());
    let second = prepare_output(build_output_witness(&valid_request()).ok().unwrap());
    assert_ne!(first.cv, second.cv);
    let decoded = sapling_crypto::value::ValueCommitment::from_bytes_not_small_order(&first.cv);
    assert!(bool::from(decoded.is_some()));
}

#[test]
fn prepared_output_circuit_holds_the_witness() {
    let w = build_output_witness_with(&valid_request(), jubjub::Fr::from(5u64)).ok().unwrap();
    let p = prepare_output(w);
    assert_eq!(p.circuit.esk, Some(jubjub::Fr::from(5u64)));
    assert_eq!(p.circuit.commitment_randomness, Some(jubjub::Fr::from(0x1739u64)));
    let address = p.circuit.payment_address.unwrap();
    assert_eq!(&address.to_bytes()[..11], &DIVERSIFIER);
    assert_eq!(&address.to_bytes()[11..], &PK_D);
    let opening = p.circuit.value_commitment_opening.as_ref().unwrap();
    assert_eq!(opening.value.inner(), 100);
}

#[test]
fn output_value_commitment_follows_value_and_trapdoor() {
    let mut bytes = [0u8; 32];
    bytes[0] = 9;
    let rcv = sapling_crypto::value::ValueCommitTrapdoor::from_bytes(bytes).unwrap();
    let w = build_output_witness(&valid_request()).ok().unwrap();
    let p = prepare_output_with(w, rcv.clone());
    let expected: [u8; 32] = [
        247, 14, 114, 77, 7, 186, 111, 171, 245, 115, 82, 243, 212, 137, 39, 112, 249, 6, 129, 211,
        252, 19, 102, 224, 255, 121, 92, 216, 60, 225, 235, 172,
    ];
    assert_eq!(p.cv, expected);
    let opening = p.circuit.value_commitment_opening.as_ref().unwrap();
    assert_eq!(opening.randomness, rcv.inner());
    assert_eq!(opening.value.inner(), 100);
}

#[test]
fn witness_takes_the_fallback_only_where_no_key_was_decoded() {
    let f = decode_output_request(&valid_request()).ok().unwrap();
    let w = output_witness_from(f, jubjub::Fr::from(8u64));
    assert_eq!(w.esk, jubjub::Fr::from(8u64));
    assert_eq!(w.value, 100);
    let mut req = valid_request();
    let mut esk = vec![0u8; 32];
    esk[0] = 77;
    req.esk = Some(esk);
    let f = decode_output_request(&req).ok().unwrap();
    let w = output_witness_from(f, jubjub::Fr::from(8u64));
    assert_eq!(w.esk, jubjub::Fr::from(77u64));
}
