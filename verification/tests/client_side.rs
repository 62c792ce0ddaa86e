//! The client's four steps, driven by hand.

use act_core::capability::{is_scalar_of_byte, refusal, Refusal};
use act_core::client::{
    finalize_credits, issuance_outcome, pending_request, pending_spend, refund_outcome,
    request_credits, spend_tokens, token_balance, token_marker, update_refund, PreReqCbor,
    PreSpendCbor,
};
use act_core::error::{Error, PolicyError, ProtocolError};
use act_core::issuer::{
    fetch_private_key, get_public_key, issue, issue_outcome, spend, spend_outcome, IssuerKey,
};
use act_core::params::get_params;
use act_core::keygen::generate_key;
use act_core::nullifier::NullifierStore;

fn fresh_issuer() -> IssuerKey {
    fetch_private_key(&generate_key().expect("a key is generated")).expect("and read back")
}

#[test]
fn the_deployment_is_the_one_both_sides_are_built_for() {
    let params = get_params();
    assert_eq!(params.organization, "example-org");
    assert_eq!(params.service, "payment-api");
    assert_eq!(params.environment, "production");
    assert_eq!(params.batch_date, "2024-01-15");
}

#[test]
fn every_request_is_fresh() {
    let one = request_credits().expect("a request is made");
    let other = request_credits().expect("a request is made");
    assert_ne!(one.preissuance, other.preissuance);
    assert_ne!(one.issuance_request, other.issuance_request);
    assert_eq!(one.preissuance.len(), 71);
    assert_eq!(one.issuance_request.len(), 141);
}

#[test]
fn the_four_steps_make_a_cycle() {
    let key = fresh_issuer();
    let public_key = get_public_key(&key);
    let mut store = NullifierStore::new();

    let pre = request_credits().expect("a request is made");
    let response = issue(&key, 255, 3, &pre.issuance_request).expect("credits are issued");
    let mut token = finalize_credits(&public_key, pre, response).expect("the response verifies");
    for _ in 0..3 {
        let spent = spend_tokens(1, token).expect("a proof is made");
        let refund = spend(&key, &mut store, &spent.spend_proof).expect("the proof verifies");
        token = update_refund(spent, refund, public_key.clone()).expect("the refund verifies");
    }
    let spent = spend_tokens(1, token).expect("a proof is made all the same");
    assert_eq!(
        spend(&key, &mut store, &spent.spend_proof),
        Err(Error::Policy(PolicyError::InsufficientBalance))
    );
    assert_eq!(store.len(), 4);
}

#[test]
fn a_response_is_good_for_its_own_request_only() {
    let key = fresh_issuer();
    let public_key = get_public_key(&key);
    let one = request_credits().expect("a request is made");
    let other = request_credits().expect("a request is made");
    let response = issue(&key, 255, 3, &one.issuance_request).expect("credits are issued");

    // another request altogether
    assert_eq!(
        finalize_credits(&public_key, other, response.clone()),
        Err(Error::Protocol(ProtocolError::InvalidIssuance))
    );
    // the right one
    assert!(finalize_credits(&public_key, one, response).is_ok());
}

#[test]
fn a_response_that_was_touched_is_invalid() {
    let key = fresh_issuer();
    let public_key = get_public_key(&key);
    let invalid = Err(Error::Protocol(ProtocolError::InvalidIssuance));

    // the amount: field 5 of the response holds it, lowest byte first
    let pre = request_credits().expect("a request is made");
    let mut response = issue(&key, 255, 3, &pre.issuance_request).expect("credits are issued");
    assert_eq!(response.len(), 1 + 6 * 35);
    assert_eq!(response[1 + 4 * 35 + 3], 3);
    response[1 + 4 * 35 + 3] = 200;
    assert_eq!(finalize_credits(&public_key, pre, response), invalid);

    // bytes that do not decode
    let pre = request_credits().expect("a request is made");
    assert_eq!(finalize_credits(&public_key, pre, vec![0x00, 0x01]), invalid);
    let pre = request_credits().expect("a request is made");
    let response = issue(&key, 255, 3, &pre.issuance_request).expect("credits are issued");
    assert_eq!(finalize_credits(&vec![0x58, 0x01, 0x00], pre, response), invalid);

    // a pending request that does not decode
    let pre = request_credits().expect("a request is made");
    let response = issue(&key, 255, 3, &pre.issuance_request).expect("credits are issued");
    let broken = PreReqCbor { preissuance: vec![], issuance_request: pre.issuance_request };
    assert_eq!(finalize_credits(&public_key, broken, response), invalid);
}

#[test]
fn a_token_that_does_not_decode_cannot_be_spent() {
    assert_eq!(spend_tokens(1, vec![]).err(), Some(Error::Serialization));
    assert_eq!(spend_tokens(1, vec![0xa6, 0x01]).err(), Some(Error::Serialization));
    assert_eq!(spend_tokens(0, b"token".to_vec()).err(), Some(Error::Serialization));
}

#[test]
fn a_proof_carries_the_marker_of_its_token_and_the_charge_it_was_made_for() {
    let key = fresh_issuer();
    let pre = request_credits().expect("a request is made");
    let response = issue(&key, 255, 9, &pre.issuance_request).expect("credits are issued");
    let token = finalize_credits(&get_public_key(&key), pre, response).expect("it verifies");
    // the token is a map of six entries of 35 bytes; the marker is the third
    assert_eq!(token.len(), 1 + 6 * 35);
    let marker = token[1 + 2 * 35 + 3..1 + 3 * 35].to_vec();
    for charge in [0u8, 1, 7, 9, 200] {
        let spent = spend_tokens(charge, token.clone()).expect("a proof is made");
        // the proof is a map whose first two entries are the marker and the charge
        assert_eq!(&spent.spend_proof[4..36], &marker[..]);
        let mut scalar = [0u8; 32];
        scalar[0] = charge;
        assert_eq!(&spent.spend_proof[39..71], &scalar[..]);
    }
}

#[test]
fn a_token_tells_its_balance_and_its_marker() {
    let key = fresh_issuer();
    let public_key = get_public_key(&key);
    let mut store = NullifierStore::new();
    let pre = request_credits().expect("a request is made");
    let response = issue(&key, 255, 9, &pre.issuance_request).expect("credits are issued");
    let token = finalize_credits(&public_key, pre, response).expect("it verifies");

    let credits = token_balance(&token).expect("the token decodes");
    assert!(is_scalar_of_byte(&credits, 9));
    assert!(!is_scalar_of_byte(&credits, 8));
    let marker = token_marker(&token).expect("the token decodes");
    assert_eq!(&marker.bytes[..], &token[1 + 2 * 35 + 3..1 + 3 * 35]);

    // the refund secret holds what the spend leaves, and the new token has it
    let spent = spend_tokens(4, token).expect("a proof is made");
    assert_eq!(&spent.spend_proof[4..36], &marker.bytes[..]);
    let refund = spend(&key, &mut store, &spent.spend_proof).expect("the proof verifies");
    let rest = update_refund(spent, refund, public_key).expect("the refund verifies");
    assert!(is_scalar_of_byte(&token_balance(&rest).expect("the token decodes"), 5));
    assert_ne!(token_marker(&rest).expect("the token decodes").bytes, marker.bytes);

    assert_eq!(token_balance(&[0xa6, 0x01]).err(), Some(Error::Serialization));
    assert_eq!(token_marker(b"token").err(), Some(Error::Serialization));
}

#[test]
fn a_scalar_of_a_byte_is_the_byte_and_then_zeros() {
    let mut bytes = [0u8; 32];
    assert!(is_scalar_of_byte(&bytes, 0));
    assert!(!is_scalar_of_byte(&bytes, 1));
    bytes[0] = 200;
    assert!(is_scalar_of_byte(&bytes, 200));
    assert!(!is_scalar_of_byte(&bytes, 0));
    for i in 1..32 {
        let mut other = bytes;
        other[i] = 1;
        assert!(!is_scalar_of_byte(&other, 200));
    }
}

#[test]
fn every_proof_is_fresh() {
    let key = fresh_issuer();
    let pre = request_credits().expect("a request is made");
    let response = issue(&key, 255, 3, &pre.issuance_request).expect("credits are issued");
    let token = finalize_credits(&get_public_key(&key), pre, response).expect("it verifies");
    let one = spend_tokens(1, token.clone()).expect("a proof is made");
    let other = spend_tokens(1, token).expect("a proof is made");
    assert_ne!(one.spend_proof, other.spend_proof);
    assert_ne!(one.prerefund, other.prerefund);
    // two proofs against one token carry one marker
    assert_eq!(one.spend_proof[..36], other.spend_proof[..36]);
}

#[test]
fn a_refund_is_good_for_its_own_spend_only() {
    let key = fresh_issuer();
    let public_key = get_public_key(&key);
    let mut store = NullifierStore::new();
    let invalid = Err(Error::Protocol(ProtocolError::InvalidRefund));
    let token = |amount: u8| {
        let pre = request_credits().expect("a request is made");
        let response = issue(&key, 255, amount, &pre.issuance_request).expect("issued");
        finalize_credits(&public_key, pre, response).expect("it verifies")
    };

    let one = spend_tokens(1, token(3)).expect("a proof is made");
    let other = spend_tokens(1, token(3)).expect("a proof is made");
    let refund = spend(&key, &mut store, &one.spend_proof).expect("the proof verifies");

    assert_eq!(update_refund(other, refund.clone(), public_key.clone()), invalid);
    let crossed = PreSpendCbor {
        spend_proof: one.spend_proof.clone(),
        prerefund: vec![0xa4],
    };
    assert_eq!(update_refund(crossed, refund.clone(), public_key.clone()), invalid);
    let stranger = get_public_key(&fresh_issuer());
    let again = PreSpendCbor {
        spend_proof: one.spend_proof.clone(),
        prerefund: one.prerefund.clone(),
    };
    assert_eq!(update_refund(again, refund.clone(), stranger), invalid);
    let again = PreSpendCbor {
        spend_proof: one.spend_proof.clone(),
        prerefund: one.prerefund.clone(),
    };
    assert_eq!(update_refund(again, b"err: no".to_vec(), public_key.clone()), invalid);
    assert!(update_refund(one, refund, public_key).is_ok());
}

#[test]
fn what_is_pending_is_what_the_capability_answered() {
    let pending = pending_request(vec![1, 2], Ok(vec![3, 4, 5])).expect("a request came back");
    assert_eq!(pending.preissuance, vec![1, 2]);
    assert_eq!(pending.issuance_request, vec![3, 4, 5]);
    let pending = pending_spend(Ok((vec![6], vec![7, 8]))).expect("a proof came back");
    assert_eq!(pending.spend_proof, vec![6]);
    assert_eq!(pending.prerefund, vec![7, 8]);
    for code in 0..6u32 {
        assert_eq!(pending_request(vec![1, 2], Err(code)).err(), Some(Error::Serialization));
        assert_eq!(pending_spend(Err(code)).err(), Some(Error::Serialization));
    }
}

#[test]
fn failure_codes_read_as_the_refusals_they_stand_for() {
    assert_eq!(refusal(1), Refusal::InvalidProof);
    assert_eq!(refusal(2), Refusal::NullifierReuse);
    assert_eq!(refusal(3), Refusal::Malformed);
    assert_eq!(refusal(4), Refusal::InvalidAmount);
    assert_eq!(refusal(0), Refusal::Malformed);
    assert_eq!(refusal(5), Refusal::Malformed);
    assert_eq!(refusal(u32::MAX), Refusal::Malformed);
}

#[test]
fn the_answers_of_the_capability_are_turned_into_outcomes() {
    let bytes = vec![7u8, 8, 9];
    assert_eq!(issuance_outcome(Ok(bytes.clone())), Ok(bytes.clone()));
    assert_eq!(refund_outcome(Ok(bytes.clone())), Ok(bytes.clone()));
    assert_eq!(issue_outcome(Ok(bytes.clone())), Ok(bytes.clone()));
    assert_eq!(spend_outcome(Ok(bytes.clone())), Ok(bytes.clone()));
    for code in 0..6u32 {
        assert_eq!(
            issuance_outcome(Err(code)),
            Err(Error::Protocol(ProtocolError::InvalidIssuance))
        );
        assert_eq!(refund_outcome(Err(code)), Err(Error::Protocol(ProtocolError::InvalidRefund)));
    }
    assert_eq!(issue_outcome(Err(1)), Err(Error::Protocol(ProtocolError::InvalidProof)));
    assert_eq!(issue_outcome(Err(2)), Err(Error::Protocol(ProtocolError::InvalidProof)));
    assert_eq!(issue_outcome(Err(3)), Err(Error::Serialization));
    assert_eq!(issue_outcome(Err(4)), Err(Error::Policy(PolicyError::AmountExceedsPolicy)));
    // every refusal of an admitted proof is answered alike
    for code in [1u32, 2, 4] {
        assert_eq!(spend_outcome(Err(code)), Err(Error::Policy(PolicyError::InsufficientBalance)));
    }
    for code in [0u32, 3, 5, u32::MAX] {
        assert_eq!(spend_outcome(Err(code)), Err(Error::IssuerFault));
    }
}
