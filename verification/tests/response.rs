use proving_service::error::ProofError;
use proving_service::request::{output_response, spend_answer, spend_response};

#[test]
fn spend_response_has_a_key_and_no_commitment() {
    let mut proof = [0u8; 192];
    proof[0] = 1;
    proof[191] = 2;
    let r = spend_response(&proof, &[3u8; 32], &[4u8; 32]);
    assert_eq!(r.proof, proof.to_vec());
    assert_eq!(r.cv, vec![3u8; 32]);
    assert_eq!(r.rk, Some(vec![4u8; 32]));
    assert_eq!(r.cmu, None);
}

#[test]
fn output_response_has_a_commitment_and_no_key() {
    let mut proof = [0u8; 192];
    proof[0] = 1;
    proof[191] = 2;
    let r = output_response(&proof, &[3u8; 32], &[4u8; 32]);
    assert_eq!(r.proof, proof.to_vec());
    assert_eq!(r.cv, vec![3u8; 32]);
    assert_eq!(r.rk, None);
    assert_eq!(r.cmu, Some(vec![4u8; 32]));
}

#[test]
fn accepted_spend_proof_is_answered_with_the_response() {
    let proof = [5u8; 192];
    let r = spend_answer(&proof, &[3u8; 32], &[4u8; 32], true).ok().unwrap();
    assert_eq!(r.proof, proof.to_vec());
    assert_eq!(r.cv, vec![3u8; 32]);
    assert_eq!(r.rk, Some(vec![4u8; 32]));
    assert_eq!(r.cmu, None);
}

#[test]
fn rejected_spend_proof_is_answered_with_the_proving_error() {
    match spend_answer(&[5u8; 192], &[3u8; 32], &[4u8; 32], false) {
        Ok(_) => panic!("a rejected proof went out"),
        Err(e) => assert_eq!(e, ProofError::Proving),
    }
}
