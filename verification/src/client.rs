//! The client's four protocol steps. Each takes and gives encodings; the
//! secrets of a step are handed over by value, so that a step consumes them.

use crate::capability::{
    commitment_of_secret, credit_token_credits, credit_token_nullifier, issuance_request_for,
    pre_issuance_decodes, pre_refund_balance, prove_spend, random_pre_issuance, read_credits,
    read_token_nullifier, request_commitment, response_amount, scalar_of_byte, spend_proof_charge,
    spend_proof_nullifier, token_from_issuance, token_from_refund, token_of_issuance,
    token_of_refund,
};
use crate::error::{Error, ProtocolError};
use crate::nullifier::Nullifier;
use crate::params::{deployment, get_params};
use vstd::prelude::*;

verus! {

/// What the client keeps and sends when it asks for credits: the issuance
/// secret, and the blinded request derived from it.
#[derive(Debug)]
pub struct PreReqCbor {
    pub preissuance: Vec<u8>,
    pub issuance_request: Vec<u8>,
}

/// What the client sends and keeps when it spends: the spend proof, and the
/// refund secret paired with it.
#[derive(Debug)]
pub struct PreSpendCbor {
    pub spend_proof: Vec<u8>,
    pub prerefund: Vec<u8>,
}

/// Pairs a fresh issuance secret with the capability's answer to it: the
/// request derived from the secret, or `Serialization` where none could be
/// derived.
pub fn pending_request(preissuance: Vec<u8>, request: Result<Vec<u8>, u32>) -> (r: Result<
    PreReqCbor,
    Error,
>)
    ensures
        match r {
            Ok(pending) => request matches Ok(req) && pending.preissuance@ == preissuance@
                && pending.issuance_request@ == req@,
            Err(e) => request is Err && e == Error::Serialization,
        },
{
    match request {
        Ok(issuance_request) => Ok(PreReqCbor { preissuance, issuance_request }),
        Err(_) => Err(Error::Serialization),
    }
}

/// Whether a request is one made from an issuance secret under the
/// deployment: the secret decodes, and the request carries the commitment of
/// that secret. The two halves of what [`request_credits`] returns belong
/// together in this sense.
pub open spec fn request_is_of(request: Seq<u8>, preissuance: Seq<u8>) -> bool {
    &&& pre_issuance_decodes(preissuance)
    &&& request_commitment(request) is Ok
    &&& request_commitment(request) == commitment_of_secret(deployment(), preissuance)
}

/// Starts an issuance: draws a fresh issuance secret and derives the request
/// to send. The secret must be kept until the issuer's response is finalized
/// or the attempt is given up; nothing of it is predictable. What comes back
/// is a secret that decodes, with a request that carries the commitment of
/// that very secret; the only failure is `Serialization`.
pub fn request_credits() -> (r: Result<PreReqCbor, Error>)
    ensures
        match r {
            Ok(pending) => request_is_of(pending.issuance_request@, pending.preissuance@),
            Err(e) => e == Error::Serialization,
        },
{
    let params = get_params();
    match random_pre_issuance() {
        Ok(preissuance) => {
            let request = issuance_request_for(&params, preissuance.as_slice());
            pending_request(preissuance, request)
        },
        Err(_) => Err(Error::Serialization),
    }
}

/// What finalizing makes of the capability's answer: the token, or
/// `InvalidIssuance` whatever went wrong.
pub open spec fn issuance_outcome_of(token: Result<Seq<u8>, u32>) -> Result<Seq<u8>, Error> {
    match token {
        Ok(t) => Ok(t),
        Err(_) => Err(Error::Protocol(ProtocolError::InvalidIssuance)),
    }
}

/// Turns the capability's answer to an issuance response into the outcome of
/// finalizing.
pub fn issuance_outcome(token: Result<Vec<u8>, u32>) -> (r: Result<Vec<u8>, Error>)
    ensures
        match r {
            Ok(t) => token matches Ok(t0) && t@ == t0@,
            Err(e) => token is Err && e == Error::Protocol(ProtocolError::InvalidIssuance),
        },
{
    match token {
        Ok(t) => Ok(t),
        Err(_) => Err(Error::Protocol(ProtocolError::InvalidIssuance)),
    }
}

/// Finishes an issuance: verifies the issuer's response against the pending
/// request and the issuer's public key, and yields the credit token. The
/// pending request is consumed whatever the outcome. Every failure, be it a
/// wrong key, a tampered amount or bytes that do not decode, is
/// `InvalidIssuance`. The token that comes back holds the amount that the
/// response binds.
pub fn finalize_credits(
    public_key_cbor: &Vec<u8>,
    pre_req: PreReqCbor,
    issuance_response_cbor: Vec<u8>,
) -> (r: Result<Vec<u8>, Error>)
    ensures
        match r {
            Ok(t) => Ok::<Seq<u8>, Error>(t@),
            Err(e) => Err::<Seq<u8>, Error>(e),
        } == issuance_outcome_of(
            token_of_issuance(
                deployment(),
                pre_req.preissuance@,
                public_key_cbor@,
                pre_req.issuance_request@,
                issuance_response_cbor@,
            ),
        ),
        r matches Ok(token) ==> credit_token_credits(token@) is Ok && credit_token_credits(token@)
            == response_amount(issuance_response_cbor@),
{
    let params = get_params();
    let token = token_from_issuance(
        &params,
        pre_req.preissuance.as_slice(),
        public_key_cbor.as_slice(),
        pre_req.issuance_request.as_slice(),
        issuance_response_cbor.as_slice(),
    );
    issuance_outcome(token)
}

/// Names the two halves of the capability's answer to a spend: the proof to
/// send and the refund secret to keep, or `Serialization` where the token
/// did not decode.
pub fn pending_spend(proved: Result<(Vec<u8>, Vec<u8>), u32>) -> (r: Result<PreSpendCbor, Error>)
    ensures
        match r {
            Ok(pending) => proved matches Ok((proof, secret)) && pending.spend_proof@ == proof@
                && pending.prerefund@ == secret@,
            Err(e) => proved is Err && e == Error::Serialization,
        },
{
    match proved {
        Ok((spend_proof, prerefund)) => Ok(PreSpendCbor { spend_proof, prerefund }),
        Err(_) => Err(Error::Serialization),
    }
}

/// Whether a spend proof is one for `charge` credits against `token`: the
/// token decodes, the proof carries the token's marker, and the charge it
/// carries is `charge`.
pub open spec fn proof_is_for(proof: Seq<u8>, token: Seq<u8>, charge: u8) -> bool {
    &&& credit_token_nullifier(token) is Ok
    &&& spend_proof_nullifier(proof) == credit_token_nullifier(token)
    &&& spend_proof_charge(proof) == Ok::<Seq<u8>, u32>(scalar_of_byte(charge))
}

/// Whether a refund secret holds what a spend of `charge` credits leaves of
/// `token`: for a token of `b` credits and a charge of no more than `b`, the
/// balance it holds for the token to come is `b` less the charge.
pub open spec fn secret_holds_the_rest(prerefund: Seq<u8>, token: Seq<u8>, charge: u8) -> bool {
    forall|b: u8|
        charge <= b && credit_token_credits(token) == Ok::<Seq<u8>, u32>(
            #[trigger] scalar_of_byte(b),
        ) ==> pre_refund_balance(prerefund) == Ok::<Seq<u8>, u32>(
            scalar_of_byte((b - charge) as u8),
        )
}

/// Starts a spend of `n` credits from a token: yields the proof to send and
/// the refund secret to keep. Whether the token covers the charge is not
/// looked at: a proof for too large a charge is made all the same, and the
/// issuer refuses it. The proof that comes back is one for `n` credits
/// against this token, and the refund secret holds what the spend leaves of
/// the token. A token that does not decode always fails, and the only
/// failure is `Serialization`.
pub fn spend_tokens(n: u8, credit_token_cbor: Vec<u8>) -> (r: Result<PreSpendCbor, Error>)
    ensures
        match r {
            Ok(pending) => proof_is_for(pending.spend_proof@, credit_token_cbor@, n)
                && secret_holds_the_rest(pending.prerefund@, credit_token_cbor@, n),
            Err(e) => e == Error::Serialization,
        },
{
    let params = get_params();
    pending_spend(prove_spend(&params, credit_token_cbor.as_slice(), n))
}

/// The credits that a token holds, as the 32 bytes of the scalar. Fails with
/// `Serialization` where the token does not decode.
pub fn token_balance(credit_token_cbor: &[u8]) -> (r: Result<[u8; 32], Error>)
    ensures
        match r {
            Ok(credits) => credit_token_credits(credit_token_cbor@) == Ok::<Seq<u8>, u32>(credits@),
            Err(e) => credit_token_credits(credit_token_cbor@) is Err && e == Error::Serialization,
        },
{
    match read_credits(credit_token_cbor) {
        Ok(credits) => Ok(credits),
        Err(_) => Err(Error::Serialization),
    }
}

/// The marker that a token will show when it is spent. Fails with
/// `Serialization` where the token does not decode.
pub fn token_marker(credit_token_cbor: &[u8]) -> (r: Result<Nullifier, Error>)
    ensures
        match r {
            Ok(marker) => credit_token_nullifier(credit_token_cbor@) == Ok::<Seq<u8>, u32>(marker@),
            Err(e) => credit_token_nullifier(credit_token_cbor@) is Err && e
                == Error::Serialization,
        },
{
    match read_token_nullifier(credit_token_cbor) {
        Ok(bytes) => Ok(Nullifier { bytes }),
        Err(_) => Err(Error::Serialization),
    }
}

/// What the client makes of the capability's answer to a refund: the new
/// token, or `InvalidRefund` whatever went wrong.
pub open spec fn refund_outcome_of(token: Result<Seq<u8>, u32>) -> Result<Seq<u8>, Error> {
    match token {
        Ok(t) => Ok(t),
        Err(_) => Err(Error::Protocol(ProtocolError::InvalidRefund)),
    }
}

/// Turns the capability's answer to a refund into the outcome of the update.
pub fn refund_outcome(token: Result<Vec<u8>, u32>) -> (r: Result<Vec<u8>, Error>)
    ensures
        match r {
            Ok(t) => token matches Ok(t0) && t@ == t0@,
            Err(e) => token is Err && e == Error::Protocol(ProtocolError::InvalidRefund),
        },
{
    match token {
        Ok(t) => Ok(t),
        Err(_) => Err(Error::Protocol(ProtocolError::InvalidRefund)),
    }
}

/// Finishes a spend: verifies the issuer's refund against the pending proof
/// and the issuer's public key, and yields the token that supersedes the
/// spent one. The pending spend is consumed whatever the outcome. Every
/// failure of the refund itself is `InvalidRefund`; a refusal by the issuer
/// is no refund and must not be handed to this function. The token that
/// comes back holds the balance that the refund secret held for it.
pub fn update_refund(pre_spend: PreSpendCbor, refund_cbor: Vec<u8>, public_key_cbor: Vec<u8>) -> (r:
    Result<Vec<u8>, Error>)
    ensures
        match r {
            Ok(t) => Ok::<Seq<u8>, Error>(t@),
            Err(e) => Err::<Seq<u8>, Error>(e),
        } == refund_outcome_of(
            token_of_refund(
                deployment(),
                pre_spend.prerefund@,
                pre_spend.spend_proof@,
                refund_cbor@,
                public_key_cbor@,
            ),
        ),
        r matches Ok(token) ==> credit_token_credits(token@) is Ok && credit_token_credits(token@)
            == pre_refund_balance(pre_spend.prerefund@),
{
    let params = get_params();
    let token = token_from_refund(
        &params,
        pre_spend.prerefund.as_slice(),
        pre_spend.spend_proof.as_slice(),
        refund_cbor.as_slice(),
        public_key_cbor.as_slice(),
    );
    refund_outcome(token)
}

/// A spend and its refund leave the rest: where a token holds `b` credits,
/// a spend of no more than `b` makes a refund secret for it, and a token
/// comes of that secret, the new token holds `b` less the charge.
pub proof fn law_a_refund_leaves_the_rest(
    token: Seq<u8>,
    prerefund: Seq<u8>,
    refunded: Seq<u8>,
    b: u8,
    charge: u8,
)
    requires
        credit_token_credits(token) == Ok::<Seq<u8>, u32>(scalar_of_byte(b)),
        charge <= b,
        secret_holds_the_rest(prerefund, token, charge),
        credit_token_credits(refunded) == pre_refund_balance(prerefund),
    ensures
        credit_token_credits(refunded) == Ok::<Seq<u8>, u32>(scalar_of_byte((b - charge) as u8)),
{
}

} // verus!
