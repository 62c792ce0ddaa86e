//! The cryptographic capability: blind issuance, spend proofs and refunds of
//! the `anonymous-credit-tokens` crate, reached through functions from bytes
//! to bytes.
//!
//! The functions at the end of this file, from `random_private_key` on, are
//! not proved. Each makes one call into the outside crate, decoding what it
//! is handed and encoding what comes back. A failure comes back as the
//! crate's own protocol error code; bytes that do not decode come back as its
//! code for a malformed request. Where the outcome is a function of the
//! arguments alone it is given a name, and the function's contract is the
//! claim that it computes what the name stands for. Where fresh randomness
//! enters, what is claimed of the value that comes back is the part that no
//! randomness touches: with which code an issuance or a refund is refused,
//! which commitment a request carries, which amount a response binds, which
//! marker and charge a spend proof carries and which balance its refund
//! secret holds. These claims take it that what the crate encodes it decodes
//! again to the same fields.

use crate::params::Params;
use anonymous_credit_tokens::{
    CreditToken, ErrorCode, IssuanceRequest, IssuanceResponse, PreIssuance, PreRefund, PrivateKey,
    PublicKey, Refund, SpendProof,
};
use curve25519_dalek::Scalar;
use rand_core::OsRng;
use vstd::prelude::*;

verus! {

/// Width in bits of the range proof inside a spend proof. Amounts and charges
/// travel in one byte, so eight bits cover every balance. Issuance, spending
/// and refunds of one token chain must agree on the width.
pub const RANGE_BITS: usize = 8;

/// Why the capability produced no value. The numbers are the outside crate's
/// own protocol error codes.
#[derive(Clone, Copy, Debug, PartialEq, Eq, Structural)]
pub enum Refusal {
    /// Code 1: a proof or signature does not verify.
    InvalidProof,
    /// Code 2: a spend marker was seen before.
    NullifierReuse,
    /// Code 3: some bytes do not decode as the object they stand for.
    Malformed,
    /// Code 4: an amount is zero where it may not be, or too wide.
    InvalidAmount,
}

/// The refusal that a failure code stands for. The outside crate has no
/// codes but 1 to 4; any other number reads as `Malformed`.
pub open spec fn refusal_of(code: u32) -> Refusal {
    if code == 1 {
        Refusal::InvalidProof
    } else if code == 2 {
        Refusal::NullifierReuse
    } else if code == 4 {
        Refusal::InvalidAmount
    } else {
        Refusal::Malformed
    }
}

/// Exec counterpart of [`refusal_of`].
pub fn refusal(code: u32) -> (r: Refusal)
    ensures
        r == refusal_of(code),
{
    if code == 1 {
        Refusal::InvalidProof
    } else if code == 2 {
        Refusal::NullifierReuse
    } else if code == 4 {
        Refusal::InvalidAmount
    } else {
        Refusal::Malformed
    }
}

/// The encoded public key that an encoded private key carries, or the
/// failure code where the private key does not decode. The encoding of a
/// private key holds the public point beside the secret scalar; decoding
/// takes the point as it stands.
pub uninterp spec fn issuer_public_key(private_key: Seq<u8>) -> Result<Seq<u8>, u32>;

/// The spend marker carried by an encoded spend proof, as the 32 bytes of the
/// scalar, or the failure code where the proof does not decode.
pub uninterp spec fn spend_proof_nullifier(proof: Seq<u8>) -> Result<Seq<u8>, u32>;

/// The encoded credit token that an issuance response yields for the pending
/// request it answers, or the failure code where an input does not decode or
/// the response does not verify.
pub uninterp spec fn issued_token(
    organization: Seq<char>,
    service: Seq<char>,
    environment: Seq<char>,
    batch_date: Seq<char>,
    pre_issuance: Seq<u8>,
    public_key: Seq<u8>,
    request: Seq<u8>,
    response: Seq<u8>,
) -> Result<Seq<u8>, u32>;

/// The encoded credit token that a refund yields for the pending spend it
/// answers, or the failure code where an input does not decode or the refund
/// does not verify.
pub uninterp spec fn refunded_token(
    organization: Seq<char>,
    service: Seq<char>,
    environment: Seq<char>,
    batch_date: Seq<char>,
    pre_refund: Seq<u8>,
    spend_proof: Seq<u8>,
    refund: Seq<u8>,
    public_key: Seq<u8>,
) -> Result<Seq<u8>, u32>;

/// Whether bytes decode as an issuance secret.
pub uninterp spec fn pre_issuance_decodes(pre_issuance: Seq<u8>) -> bool;

/// The commitment that every request derived from an encoded issuance secret
/// carries under a deployment, as the 32 bytes of the point, or the failure
/// code where the secret does not decode.
pub uninterp spec fn secret_commitment(
    organization: Seq<char>,
    service: Seq<char>,
    environment: Seq<char>,
    batch_date: Seq<char>,
    pre_issuance: Seq<u8>,
) -> Result<Seq<u8>, u32>;

/// The commitment carried by an encoded issuance request, as the 32 bytes of
/// the point, or the failure code where the request does not decode.
pub uninterp spec fn request_commitment(request: Seq<u8>) -> Result<Seq<u8>, u32>;

/// The amount bound into an encoded issuance response, as the 32 bytes of
/// the scalar, or the failure code where the response does not decode.
pub uninterp spec fn response_amount(response: Seq<u8>) -> Result<Seq<u8>, u32>;

/// The credits held by an encoded credit token, as the 32 bytes of the
/// scalar, or the failure code where the token does not decode.
pub uninterp spec fn credit_token_credits(token: Seq<u8>) -> Result<Seq<u8>, u32>;

/// The balance that an encoded refund secret holds for the token to come, as
/// the 32 bytes of the scalar, or the failure code where the secret does not
/// decode.
pub uninterp spec fn pre_refund_balance(pre_refund: Seq<u8>) -> Result<Seq<u8>, u32>;

/// Whether bytes decode as a refund.
pub uninterp spec fn refund_decodes(refund: Seq<u8>) -> bool;

/// The spend marker held by an encoded credit token, as the 32 bytes of the
/// scalar, or the failure code where the token does not decode.
pub uninterp spec fn credit_token_nullifier(token: Seq<u8>) -> Result<Seq<u8>, u32>;

/// The charge carried by an encoded spend proof, as the 32 bytes of the
/// scalar, or the failure code where the proof does not decode.
pub uninterp spec fn spend_proof_charge(proof: Seq<u8>) -> Result<Seq<u8>, u32>;

/// The 32 bytes of the scalar that stands for a number below 256: the number
/// itself, then zeros.
pub open spec fn scalar_of_byte(n: u8) -> Seq<u8> {
    Seq::new(
        32,
        |i: int|
            if i == 0 {
                n
            } else {
                0u8
            },
    )
}

/// The code with which an issuance of `amount` credits is refused for an
/// encoded request under an encoded private key: the code for a malformed
/// request where one of the two does not decode, else the code for an
/// invalid amount where the amount is 0, else the code with which the
/// request fails to verify, and 0 where it verifies and the response is
/// signed.
pub uninterp spec fn issue_refusal(
    private_key: Seq<u8>,
    organization: Seq<char>,
    service: Seq<char>,
    environment: Seq<char>,
    batch_date: Seq<char>,
    request: Seq<u8>,
    amount: u8,
) -> u32;

/// The code with which a refund is refused for an encoded spend proof under
/// an encoded private key: the code for a malformed request where one of the
/// two does not decode, else the code with which the proof fails to verify,
/// and 0 where it verifies and the refund is signed.
pub uninterp spec fn refund_refusal(
    private_key: Seq<u8>,
    organization: Seq<char>,
    service: Seq<char>,
    environment: Seq<char>,
    batch_date: Seq<char>,
    proof: Seq<u8>,
) -> u32;

/// The failure code that stands for bytes that do not decode, and for a value
/// that could not be encoded.
pub const MALFORMED: u32 = 3;

/// The failure code that stands for an amount that cannot be issued.
pub const INVALID_AMOUNT: u32 = 4;

/// The failure code that stands for a proof that does not verify.
pub const INVALID_PROOF: u32 = 1;

/// [`secret_commitment`] under a deployment.
pub open spec fn commitment_of_secret(params: Params, pre_issuance: Seq<u8>) -> Result<
    Seq<u8>,
    u32,
> {
    secret_commitment(
        params.organization@,
        params.service@,
        params.environment@,
        params.batch_date@,
        pre_issuance,
    )
}

/// Whether 32 bytes are the scalar of a number below 256.
pub fn is_scalar_of_byte(bytes: &[u8; 32], n: u8) -> (r: bool)
    ensures
        r == (bytes@ == scalar_of_byte(n)),
{
    if bytes[0] != n {
        return false;
    }
    let mut i: usize = 1;
    while i < 32
        invariant
            1 <= i <= 32,
            bytes@[0] == n,
            forall|j: int| 1 <= j < i ==> bytes@[j] == 0,
        decreases 32 - i,
    {
        if bytes[i] != 0 {
            return false;
        }
        i = i + 1;
    }
    assert(bytes@ =~= scalar_of_byte(n));
    true
}

/// The code that comes back with a failure where the call is refused with
/// `refusal`, 0 standing for no refusal: the code of the refusal, and
/// without a refusal the code of a value that could not be encoded.
pub open spec fn failure_code(refusal: u32) -> u32 {
    if refusal == 0 {
        MALFORMED
    } else {
        refusal
    }
}

/// [`issue_refusal`] under a deployment.
pub open spec fn refusal_of_issue(
    params: Params,
    private_key: Seq<u8>,
    request: Seq<u8>,
    amount: u8,
) -> u32 {
    issue_refusal(
        private_key,
        params.organization@,
        params.service@,
        params.environment@,
        params.batch_date@,
        request,
        amount,
    )
}

/// [`refund_refusal`] under a deployment.
pub open spec fn refusal_of_refund(params: Params, private_key: Seq<u8>, proof: Seq<u8>) -> u32 {
    refund_refusal(
        private_key,
        params.organization@,
        params.service@,
        params.environment@,
        params.batch_date@,
        proof,
    )
}

/// [`issued_token`] under a deployment.
pub open spec fn token_of_issuance(
    params: Params,
    pre_issuance: Seq<u8>,
    public_key: Seq<u8>,
    request: Seq<u8>,
    response: Seq<u8>,
) -> Result<Seq<u8>, u32> {
    issued_token(
        params.organization@,
        params.service@,
        params.environment@,
        params.batch_date@,
        pre_issuance,
        public_key,
        request,
        response,
    )
}

/// [`refunded_token`] under a deployment.
pub open spec fn token_of_refund(
    params: Params,
    pre_refund: Seq<u8>,
    spend_proof: Seq<u8>,
    refund: Seq<u8>,
    public_key: Seq<u8>,
) -> Result<Seq<u8>, u32> {
    refunded_token(
        params.organization@,
        params.service@,
        params.environment@,
        params.batch_date@,
        pre_refund,
        spend_proof,
        refund,
        public_key,
    )
}

/// A byte result seen through its view, for comparison with a named result.
pub open spec fn seen(r: Result<Vec<u8>, u32>) -> Result<Seq<u8>, u32> {
    match r {
        Ok(v) => Ok(v@),
        Err(c) => Err(c),
    }
}

/// `PrivateKey::random` with the operating system's generator, encoded.
/// Nothing is claimed of the key.
#[verifier::external_body]
pub(crate) fn random_private_key() -> Result<Vec<u8>, u32> {
    let malformed = ErrorCode::MalformedRequest as u32;
    PrivateKey::random(OsRng).to_cbor().map_err(|_| malformed)
}

/// `PrivateKey::public` on a decoded private key, encoded. Claims that the
/// outcome is the named function of the key's bytes.
#[verifier::external_body]
pub(crate) fn public_key_for(private_key: &[u8]) -> (r: Result<Vec<u8>, u32>)
    ensures
        seen(r) == issuer_public_key(private_key@),
{
    let malformed = ErrorCode::MalformedRequest as u32;
    let key = PrivateKey::from_cbor(private_key).map_err(|_| malformed)?;
    key.public().to_cbor().map_err(|_| malformed)
}

/// `PreIssuance::random` with the operating system's generator, encoded.
/// Nothing is claimed of the secret.
#[verifier::external_body]
pub(crate) fn random_pre_issuance() -> Result<Vec<u8>, u32> {
    let malformed = ErrorCode::MalformedRequest as u32;
    PreIssuance::random(OsRng).to_cbor().map_err(|_| malformed)
}

/// `PreIssuance::request` on a decoded issuance secret, encoded. The proof
/// inside the request is blinded with fresh randomness; of that part nothing
/// is claimed. The commitment of the request is made of the deployment and
/// the secret alone. Claims that a request comes back only for bytes that
/// decode as an issuance secret, and that the request carries the
/// commitment of that secret under the deployment.
#[verifier::external_body]
pub(crate) fn issuance_request_for(params: &Params, pre_issuance: &[u8]) -> (r: Result<Vec<u8>, u32>)
    ensures
        r matches Ok(request) ==> {
            &&& pre_issuance_decodes(pre_issuance@)
            &&& request_commitment(request@) is Ok
            &&& request_commitment(request@) == secret_commitment(
                params.organization@,
                params.service@,
                params.environment@,
                params.batch_date@,
                pre_issuance@,
            )
        },
{
    let malformed = ErrorCode::MalformedRequest as u32;
    let pre = PreIssuance::from_cbor(pre_issuance).map_err(|_| malformed)?;
    let p = anonymous_credit_tokens::Params::new(
        params.organization, params.service, params.environment, params.batch_date);
    pre.request(&p, OsRng).to_cbor().map_err(|_| malformed)
}

/// `PrivateKey::issue` on decoded values, with the zero request context,
/// encoded. The signature uses fresh randomness; nothing is claimed of it.
/// Whether the request is refused, and with which code, is settled before any
/// randomness is drawn. Claims that a response comes back only where the
/// named code is 0, that a refusal carries the named code, that a failure
/// where the named code is 0, which can only be a response that could not be
/// encoded, carries the code for a malformed request, and that the code for
/// an invalid amount comes for the amount 0 alone: every other amount of one
/// byte is within the range width. The amount given is the amount the
/// response binds. Claims that the amount read from a response that comes
/// back is the scalar of the amount given.
#[verifier::external_body]
pub(crate) fn issue_credits(
    private_key: &[u8],
    params: &Params,
    request: &[u8],
    amount: u8,
) -> (r: Result<Vec<u8>, u32>)
    ensures
        match r {
            Ok(response) => issue_refusal(
                private_key@,
                params.organization@,
                params.service@,
                params.environment@,
                params.batch_date@,
                request@,
                amount,
            ) == 0 && response_amount(response@) == Ok::<Seq<u8>, u32>(scalar_of_byte(amount)),
            Err(c) => c == failure_code(
                issue_refusal(
                    private_key@,
                    params.organization@,
                    params.service@,
                    params.environment@,
                    params.batch_date@,
                    request@,
                    amount,
                ),
            ) && (c == INVALID_AMOUNT ==> amount == 0),
        },
{
    let malformed = ErrorCode::MalformedRequest as u32;
    let key = PrivateKey::from_cbor(private_key).map_err(|_| malformed)?;
    let req = IssuanceRequest::from_cbor(request).map_err(|_| malformed)?;
    let p = anonymous_credit_tokens::Params::new(
        params.organization, params.service, params.environment, params.batch_date);
    let response = key.issue::<RANGE_BITS>(&p, &req, Scalar::from(amount), Scalar::ZERO, OsRng);
    response.map_err(|e| e as u32)?.to_cbor().map_err(|_| malformed)
}

/// `PreIssuance::to_credit_token` on decoded values, encoded. Claims that the
/// outcome is the named function of the deployment and the four inputs, that
/// a token comes back only for a secret that decodes, and that the credits
/// read from the token are the amount that the response binds.
#[verifier::external_body]
pub(crate) fn token_from_issuance(
    params: &Params,
    pre_issuance: &[u8],
    public_key: &[u8],
    request: &[u8],
    response: &[u8],
) -> (r: Result<Vec<u8>, u32>)
    ensures
        seen(r) == issued_token(
            params.organization@,
            params.service@,
            params.environment@,
            params.batch_date@,
            pre_issuance@,
            public_key@,
            request@,
            response@,
        ),
        r matches Ok(token) ==> {
            &&& pre_issuance_decodes(pre_issuance@)
            &&& credit_token_credits(token@) is Ok
            &&& credit_token_credits(token@) == response_amount(response@)
        },
{
    let malformed = ErrorCode::MalformedRequest as u32;
    let pre = PreIssuance::from_cbor(pre_issuance).map_err(|_| malformed)?;
    let pk = PublicKey::from_cbor(public_key).map_err(|_| malformed)?;
    let req = IssuanceRequest::from_cbor(request).map_err(|_| malformed)?;
    let resp = IssuanceResponse::from_cbor(response).map_err(|_| malformed)?;
    let p = anonymous_credit_tokens::Params::new(
        params.organization, params.service, params.environment, params.batch_date);
    let token = pre.to_credit_token(&p, &pk, &req, &resp).map_err(|e| e as u32)?;
    token.to_cbor().map_err(|_| malformed)
}

/// `CreditToken::prove_spend` on a decoded token, both results encoded: the
/// spend proof first, the refund secret second. The proof uses fresh
/// randomness; of that part nothing is claimed. The token's marker and the
/// charge are copied into the proof as they are, and the refund secret holds
/// the token's credits less the charge. Claims that a proof comes back only
/// for bytes that decode as a credit token, that the marker read from the
/// proof is the token's, that the charge read from it is the scalar of the
/// charge given, and that for a token of `b` credits and a charge of no more
/// than `b` the balance read from the refund secret is the scalar of `b`
/// less the charge.
#[verifier::external_body]
pub(crate) fn prove_spend(params: &Params, token: &[u8], charge: u8) -> (r: Result<
    (Vec<u8>, Vec<u8>),
    u32,
>)
    ensures
        r matches Ok((proof, pre_refund)) ==> {
            &&& credit_token_nullifier(token@) is Ok
            &&& spend_proof_nullifier(proof@) == credit_token_nullifier(token@)
            &&& spend_proof_charge(proof@) == Ok::<Seq<u8>, u32>(scalar_of_byte(charge))
            &&& forall|b: u8|
                charge <= b && credit_token_credits(token@) == Ok::<Seq<u8>, u32>(
                    #[trigger] scalar_of_byte(b),
                ) ==> pre_refund_balance(pre_refund@) == Ok::<Seq<u8>, u32>(
                    scalar_of_byte((b - charge) as u8),
                )
        },
{
    let malformed = ErrorCode::MalformedRequest as u32;
    let token = CreditToken::from_cbor(token).map_err(|_| malformed)?;
    let p = anonymous_credit_tokens::Params::new(
        params.organization, params.service, params.environment, params.batch_date);
    let (proof, pre_refund) = token.prove_spend::<RANGE_BITS>(&p, Scalar::from(charge), OsRng);
    Ok((proof.to_cbor().map_err(|_| malformed)?, pre_refund.to_cbor().map_err(|_| malformed)?))
}

/// `SpendProof::charge` on a decoded proof, as the scalar's 32 bytes. Claims
/// that the outcome is the named function of the proof's bytes, and that it
/// is a value for exactly the bytes for which the marker is one: both fail
/// on bytes that do not decode and on no others.
#[verifier::external_body]
pub(crate) fn read_charge(proof: &[u8]) -> (r: Result<[u8; 32], u32>)
    ensures
        match r {
            Ok(s) => spend_proof_charge(proof@) == Ok::<Seq<u8>, u32>(s@),
            Err(c) => spend_proof_charge(proof@) == Err::<Seq<u8>, u32>(c),
        },
        r is Ok <==> spend_proof_nullifier(proof@) is Ok,
{
    let malformed = ErrorCode::MalformedRequest as u32;
    let proof = SpendProof::<RANGE_BITS>::from_cbor(proof).map_err(|_| malformed)?;
    Ok(proof.charge().to_bytes())
}

/// `CreditToken::credits` on a decoded token, as the scalar's 32 bytes.
/// Claims that the outcome is the named function of the token's bytes.
#[verifier::external_body]
pub(crate) fn read_credits(token: &[u8]) -> (r: Result<[u8; 32], u32>)
    ensures
        match r {
            Ok(c) => credit_token_credits(token@) == Ok::<Seq<u8>, u32>(c@),
            Err(c) => credit_token_credits(token@) == Err::<Seq<u8>, u32>(c),
        },
{
    let malformed = ErrorCode::MalformedRequest as u32;
    let token = CreditToken::from_cbor(token).map_err(|_| malformed)?;
    Ok(token.credits().to_bytes())
}

/// `CreditToken::nullifier` on a decoded token, as the scalar's 32 bytes.
/// Claims that the outcome is the named function of the token's bytes.
#[verifier::external_body]
pub(crate) fn read_token_nullifier(token: &[u8]) -> (r: Result<[u8; 32], u32>)
    ensures
        match r {
            Ok(n) => credit_token_nullifier(token@) == Ok::<Seq<u8>, u32>(n@),
            Err(c) => credit_token_nullifier(token@) == Err::<Seq<u8>, u32>(c),
        },
{
    let malformed = ErrorCode::MalformedRequest as u32;
    let token = CreditToken::from_cbor(token).map_err(|_| malformed)?;
    Ok(token.nullifier().to_bytes())
}

/// `SpendProof::nullifier` on a decoded proof, as the scalar's 32 bytes.
/// Claims that the outcome is the named function of the proof's bytes.
#[verifier::external_body]
pub(crate) fn read_nullifier(proof: &[u8]) -> (r: Result<[u8; 32], u32>)
    ensures
        match r {
            Ok(n) => spend_proof_nullifier(proof@) == Ok::<Seq<u8>, u32>(n@),
            Err(c) => spend_proof_nullifier(proof@) == Err::<Seq<u8>, u32>(c),
        },
{
    let malformed = ErrorCode::MalformedRequest as u32;
    let proof = SpendProof::<RANGE_BITS>::from_cbor(proof).map_err(|_| malformed)?;
    Ok(proof.nullifier().to_bytes())
}

/// `PrivateKey::refund` on decoded values, encoded. The refund is signed with
/// fresh randomness; nothing is claimed of it. Whether the proof is refused,
/// and with which code, is settled before any randomness is drawn. Claims
/// that a refund comes back only where the named code is 0, that a refusal
/// carries the named code, and that a failure where the named code is 0, which
/// can only be a refund that could not be encoded, carries the code for a
/// malformed request. The call refuses with the code for an invalid proof and
/// no other; the code for a malformed request comes from decoding alone.
/// Claims that a failure carries one of these two codes, that the named code
/// is not that for a malformed request where the key and the proof decode,
/// and that a refund that comes back decodes.
#[verifier::external_body]
pub(crate) fn refund_spend(private_key: &[u8], params: &Params, proof: &[u8]) -> (r: Result<
    Vec<u8>,
    u32,
>)
    ensures
        match r {
            Ok(refund) => refund_refusal(
                private_key@,
                params.organization@,
                params.service@,
                params.environment@,
                params.batch_date@,
                proof@,
            ) == 0 && refund_decodes(refund@),
            Err(c) => {
                &&& c == failure_code(
                    refund_refusal(
                        private_key@,
                        params.organization@,
                        params.service@,
                        params.environment@,
                        params.batch_date@,
                        proof@,
                    ),
                )
                &&& c == INVALID_PROOF || c == MALFORMED
                &&& issuer_public_key(private_key@) is Ok && spend_proof_nullifier(proof@) is Ok
                    ==> refund_refusal(
                    private_key@,
                    params.organization@,
                    params.service@,
                    params.environment@,
                    params.batch_date@,
                    proof@,
                ) != MALFORMED
            },
        },
{
    let malformed = ErrorCode::MalformedRequest as u32;
    let key = PrivateKey::from_cbor(private_key).map_err(|_| malformed)?;
    let proof = SpendProof::<RANGE_BITS>::from_cbor(proof).map_err(|_| malformed)?;
    let p = anonymous_credit_tokens::Params::new(
        params.organization, params.service, params.environment, params.batch_date);
    let refund = key.refund(&p, &proof, OsRng).map_err(|e| e as u32)?;
    refund.to_cbor().map_err(|_| malformed)
}

/// `PreRefund::to_credit_token` on decoded values, encoded. Claims that the
/// outcome is the named function of the deployment and the four inputs, that
/// a token comes back only for a refund that decodes, and that the credits
/// read from the token are the balance that the refund secret holds.
#[verifier::external_body]
pub(crate) fn token_from_refund(
    params: &Params,
    pre_refund: &[u8],
    spend_proof: &[u8],
    refund: &[u8],
    public_key: &[u8],
) -> (r: Result<Vec<u8>, u32>)
    ensures
        seen(r) == refunded_token(
            params.organization@,
            params.service@,
            params.environment@,
            params.batch_date@,
            pre_refund@,
            spend_proof@,
            refund@,
            public_key@,
        ),
        r matches Ok(token) ==> {
            &&& refund_decodes(refund@)
            &&& credit_token_credits(token@) is Ok
            &&& credit_token_credits(token@) == pre_refund_balance(pre_refund@)
        },
{
    let malformed = ErrorCode::MalformedRequest as u32;
    let pre = PreRefund::from_cbor(pre_refund).map_err(|_| malformed)?;
    let proof = SpendProof::<RANGE_BITS>::from_cbor(spend_proof).map_err(|_| malformed)?;
    let refund = Refund::from_cbor(refund).map_err(|_| malformed)?;
    let pk = PublicKey::from_cbor(public_key).map_err(|_| malformed)?;
    let p = anonymous_credit_tokens::Params::new(
        params.organization, params.service, params.environment, params.batch_date);
    let token = pre.to_credit_token(&p, &proof, &refund, &pk).map_err(|e| e as u32)?;
    token.to_cbor().map_err(|_| malformed)
}

} // verus!
