//! The issuer: public-key retrieval, blind issuance under a policy maximum,
//! and the spend algorithm, in which a spend marker is recorded before the
//! proof is looked at and stays recorded whatever the proof turns out to be.

use crate::capability::{
    failure_code, issue_credits, issuer_public_key, public_key_for, read_charge, read_nullifier,
    refund_decodes, refund_spend, refusal, refusal_of, refusal_of_issue, refusal_of_refund,
    response_amount, scalar_of_byte, spend_proof_charge, spend_proof_nullifier, Refusal,
};
use crate::params::{deployment, get_params};
use crate::error::{Error, PolicyError, ProtocolError, StoreError};
use crate::hexcode::{hex_decode, hex_decoded, is_hex};
use crate::nullifier::{batch_date_of, BatchDate, Nullifier, NullifierStore};
use crate::transport::{
    reply_for, reply_of, split_issuance, Reply, STATUS_AMOUNT_EXCEEDS_POLICY, STATUS_OK,
};
use vstd::prelude::*;
use vstd::slice::slice_to_vec;

verus! {

/// The issuer's key pair, as encodings. A value of this type is usable: the
/// private key decodes, and the public key held beside it is the one that
/// the encoding of the private key carries. Whether that point is the one
/// the secret scalar stands for is not looked at: a key is provisioned by
/// [`generate_key`](crate::keygen::generate_key), which makes the two
/// together. A value can only be made by [`IssuerKey::from_cbor`] and
/// [`fetch_private_key`], which try the private key.
pub struct IssuerKey {
    cbor: Vec<u8>,
    public: Vec<u8>,
}

impl View for IssuerKey {
    type V = Seq<u8>;

    /// The encoded private key.
    closed spec fn view(&self) -> Seq<u8> {
        self.cbor@
    }
}

impl IssuerKey {
    #[verifier::type_invariant]
    closed spec fn usable(&self) -> bool {
        issuer_public_key(self.cbor@) == Ok::<Seq<u8>, u32>(self.public@)
    }

    /// Takes an encoded private key, if it decodes.
    pub fn from_cbor(cbor: Vec<u8>) -> (r: Result<IssuerKey, Error>)
        ensures
            r is Ok <==> issuer_public_key(cbor@) is Ok,
            r matches Ok(key) ==> key@ == cbor@,
            r matches Err(e) ==> e == Error::IssuerFault,
    {
        match public_key_for(cbor.as_slice()) {
            Ok(public) => Ok(IssuerKey { cbor, public }),
            Err(_) => Err(Error::IssuerFault),
        }
    }

    /// The encoded private key.
    pub fn as_cbor(&self) -> (cbor: &Vec<u8>)
        ensures
            cbor@ == self@,
            issuer_public_key(self@) is Ok,
    {
        proof {
            use_type_invariant(self);
        }
        &self.cbor
    }
}

/// Reads the issuer's private key from the secret it is provisioned as: the
/// hexadecimal text of its encoding. Fails with `IssuerFault` where the
/// text is not hexadecimal or the bytes are no private key.
pub fn fetch_private_key(secret: &str) -> (r: Result<IssuerKey, Error>)
    ensures
        r is Ok <==> is_hex(secret@) && issuer_public_key(hex_decoded(secret@)) is Ok,
        r matches Ok(key) ==> key@ == hex_decoded(secret@),
        r matches Err(e) ==> e == Error::IssuerFault,
{
    match hex_decode(secret) {
        Some(cbor) => IssuerKey::from_cbor(cbor),
        None => Err(Error::IssuerFault),
    }
}

/// The encoded public key that an encoded private key carries, where the
/// private key decodes.
pub open spec fn public_key_of(key: Seq<u8>) -> Seq<u8> {
    issuer_public_key(key)->Ok_0
}

/// The issuer's public key. Retrieval is pure: the result is a function of
/// the key's bytes and of nothing else, so that every call with one key gives
/// the same bytes, and nothing is changed by asking.
pub fn get_public_key(key: &IssuerKey) -> (public_key: Vec<u8>)
    ensures
        public_key@ == public_key_of(key@),
{
    proof {
        use_type_invariant(key);
    }
    slice_to_vec(key.public.as_slice())
}

/// The batch that spends are recorded under: the batch date of the
/// deployment.
pub open spec fn deployment_batch() -> BatchDate {
    BatchDate { yyyymmdd: 20240115 }
}

/// The batch date of the deployment, as
/// [`parse_batch_date`](crate::nullifier::parse_batch_date) reads it.
pub fn current_batch() -> (batch: BatchDate)
    ensures
        batch == deployment_batch(),
        batch_date_of(deployment().batch_date@) == Some(batch),
{
    proof {
        reveal_strlit("2024-01-15");
    }
    BatchDate { yyyymmdd: 20240115 }
}

/// The most credits that the issuer hands out in one issuance. An amount
/// travels in one byte, and the policy lets every amount of one byte pass
/// but 0.
pub const MAX_CREDITS: u8 = 255;

/// Whether an amount may be issued at once under a policy maximum: at least
/// one credit, and no more than the maximum.
pub open spec fn within_policy(amount: u8, max_amount: u8) -> bool {
    1 <= amount <= max_amount
}

/// What the issuer makes of the capability's answer to an issuance: the
/// response, or the failure that the code stands for.
pub open spec fn issue_outcome_of(response: Result<Seq<u8>, u32>) -> Result<Seq<u8>, Error> {
    match response {
        Ok(r) => Ok(r),
        Err(c) => Err(
            match refusal_of(c) {
                Refusal::Malformed => Error::Serialization,
                Refusal::InvalidAmount => Error::Policy(PolicyError::AmountExceedsPolicy),
                _ => Error::Protocol(ProtocolError::InvalidProof),
            },
        ),
    }
}

/// Turns the capability's answer to an issuance into the issuer's outcome:
/// a request that does not decode is `Serialization`, an amount that the
/// capability will not sign is `AmountExceedsPolicy`, and a request whose
/// proof does not verify is `InvalidProof`.
pub fn issue_outcome(response: Result<Vec<u8>, u32>) -> (r: Result<Vec<u8>, Error>)
    ensures
        match r {
            Ok(v) => response matches Ok(v0) && v@ == v0@,
            Err(e) => response matches Err(c) && issue_outcome_of(Err(c)) == Err::<Seq<u8>, Error>(e),
        },
{
    match response {
        Ok(r) => Ok(r),
        Err(c) => Err(
            match refusal(c) {
                Refusal::Malformed => Error::Serialization,
                Refusal::InvalidAmount => Error::Policy(PolicyError::AmountExceedsPolicy),
                _ => Error::Protocol(ProtocolError::InvalidProof),
            },
        ),
    }
}

/// What an issuance within the policy comes to where the capability refuses
/// it with `code`, 0 standing for no refusal: a refusal is the failure that
/// [`issue_outcome_of`] makes of its code, and without a refusal the only
/// failure left is that of a response that could not be encoded, which
/// reads as `Serialization`.
pub open spec fn issue_refusal_outcome_of(code: u32) -> Result<Seq<u8>, Error> {
    issue_outcome_of(Err(failure_code(code)))
}

/// Issues `amount` credits in answer to an encoded issuance request. The
/// amount is bound into the signature.
///
/// An amount outside the policy is refused with `AmountExceedsPolicy` before
/// the key is touched, and that failure comes for no other reason. Within
/// the policy the key, the deployment, the request and the amount go to the
/// capability as they are: a response is returned only where the capability
/// does not refuse them, and the response binds the amount given; where it
/// refuses, the failure is what [`issue_outcome_of`] makes of the code of the
/// refusal.
pub fn issue(key: &IssuerKey, max_amount: u8, amount: u8, request: &[u8]) -> (r: Result<
    Vec<u8>,
    Error,
>)
    ensures
        (r matches Err(e) && e == Error::Policy(PolicyError::AmountExceedsPolicy)) <==> !within_policy(
            amount,
            max_amount,
        ),
        within_policy(amount, max_amount) ==> match r {
            Ok(response) => refusal_of_issue(deployment(), key@, request@, amount) == 0
                && response_amount(response@) == Ok::<Seq<u8>, u32>(scalar_of_byte(amount)),
            Err(e) => Err::<Seq<u8>, Error>(e) == issue_refusal_outcome_of(
                refusal_of_issue(deployment(), key@, request@, amount),
            ),
        },
        r matches Err(e) ==> e == Error::Serialization || e == Error::Policy(
            PolicyError::AmountExceedsPolicy,
        ) || e == Error::Protocol(ProtocolError::InvalidProof),
{
    if amount < 1 || amount > max_amount {
        return Err(Error::Policy(PolicyError::AmountExceedsPolicy));
    }
    let params = get_params();
    issue_outcome(issue_credits(key.cbor.as_slice(), &params, request, amount))
}

/// What stands between a spend proof and the capability: the proof must
/// decode, and its marker must not be in the store. Gives the marker where
/// the proof is admitted.
pub open spec fn spend_admission(store: Map<Seq<u8>, BatchDate>, proof: Seq<u8>) -> Result<
    Seq<u8>,
    Error,
> {
    match spend_proof_nullifier(proof) {
        Err(_) => Err(Error::Serialization),
        Ok(marker) => if store.contains_key(marker) {
            Err(Error::Store(StoreError::DoubleSpend))
        } else {
            Ok(marker)
        },
    }
}

/// The store after a spend was handled: with the proof's marker added where
/// the proof was admitted, and unchanged where it was not.
pub open spec fn store_after_spend(
    store: Map<Seq<u8>, BatchDate>,
    proof: Seq<u8>,
    batch: BatchDate,
) -> Map<Seq<u8>, BatchDate> {
    match spend_admission(store, proof) {
        Ok(marker) => store.insert(marker, batch),
        Err(_) => store,
    }
}

/// What the issuer makes of the capability's answer to a spend proof that
/// was admitted. Every refusal of the proof is answered alike, as not enough
/// credits to spend: a charge above the balance and a proof that was
/// tampered with fail the same check, and the issuer cannot tell them
/// apart. A failure to decode at this point, when key and proof did decode,
/// is a fault of the issuer.
pub open spec fn spend_outcome_of(refund: Result<Seq<u8>, u32>) -> Result<Seq<u8>, Error> {
    match refund {
        Ok(r) => Ok(r),
        Err(c) => Err(
            match refusal_of(c) {
                Refusal::Malformed => Error::IssuerFault,
                _ => Error::Policy(PolicyError::InsufficientBalance),
            },
        ),
    }
}

/// Turns the capability's answer to an admitted spend proof into the
/// issuer's outcome: a refund is handed on, a proof that the capability
/// refuses is `InsufficientBalance`, and a failure to decode or encode at
/// this point is `IssuerFault`.
pub fn spend_outcome(refund: Result<Vec<u8>, u32>) -> (r: Result<Vec<u8>, Error>)
    ensures
        match r {
            Ok(v) => refund matches Ok(v0) && v@ == v0@,
            Err(e) => refund matches Err(c) && spend_outcome_of(Err(c)) == Err::<Seq<u8>, Error>(
                e,
            ),
        },
{
    match refund {
        Ok(r) => Ok(r),
        Err(c) => Err(
            match refusal(c) {
                Refusal::Malformed => Error::IssuerFault,
                _ => Error::Policy(PolicyError::InsufficientBalance),
            },
        ),
    }
}

/// A spend proof whose marker has just been recorded, with the marker and
/// the charge that were read from it. Only [`admit_spend`] makes one, so a
/// proof reaches the capability after its marker is in the store and never
/// before.
pub struct AdmittedSpend<'a> {
    proof: &'a [u8],
    marker: Nullifier,
    charge: [u8; 32],
}

impl<'a> AdmittedSpend<'a> {
    #[verifier::type_invariant]
    closed spec fn read_from_the_proof(&self) -> bool {
        &&& spend_proof_nullifier(self.proof@) == Ok::<Seq<u8>, u32>(self.marker@)
        &&& spend_proof_charge(self.proof@) == Ok::<Seq<u8>, u32>(self.charge@)
    }

    /// The bytes of the proof.
    pub closed spec fn bytes(&self) -> Seq<u8> {
        self.proof@
    }

    /// The marker that was recorded for it.
    pub closed spec fn marker(&self) -> Seq<u8> {
        self.marker@
    }

    /// The marker that was recorded for the proof.
    pub fn nullifier(&self) -> (marker: Nullifier)
        ensures
            marker@ == self.marker(),
            spend_proof_nullifier(self.bytes()) == Ok::<Seq<u8>, u32>(marker@),
    {
        proof {
            use_type_invariant(self);
        }
        self.marker
    }

    /// The charge that the proof is for, as the 32 bytes of the scalar: what
    /// the client pays with this spend.
    pub fn charge(&self) -> (charge: [u8; 32])
        ensures
            spend_proof_charge(self.bytes()) == Ok::<Seq<u8>, u32>(charge@),
    {
        proof {
            use_type_invariant(self);
        }
        self.charge
    }
}

/// The first half of a spend, and the only one that needs the store.
///
/// A proof that does not decode fails with `Serialization`; the store is
/// left as it was. Otherwise the proof's marker is tested and recorded in
/// one step: a marker that was recorded before fails with `DoubleSpend` and
/// the store is left as it was, a new marker is recorded under the batch of
/// the deployment and the proof is admitted.
///
/// Concurrent spends must take this step in turn, one holder of the store at
/// a time; what follows it needs no store and may run side by side.
pub fn admit_spend<'a>(store: &mut NullifierStore, proof: &'a [u8]) -> (r: Result<
    AdmittedSpend<'a>,
    Error,
>)
    requires
        old(store).wf(),
    ensures
        final(store).wf(),
        final(store)@ == store_after_spend(old(store)@, proof@, deployment_batch()),
        match spend_admission(old(store)@, proof@) {
            Err(e) => r == Err::<AdmittedSpend<'a>, Error>(e),
            Ok(marker) => r matches Ok(admitted) && admitted.bytes() == proof@ && admitted.marker()
                == marker,
        },
{
    let bytes = match read_nullifier(proof) {
        Ok(bytes) => bytes,
        Err(_) => {
            return Err(Error::Serialization);
        },
    };
    let charge = match read_charge(proof) {
        Ok(charge) => charge,
        Err(_) => {
            return Err(Error::Serialization);
        },
    };
    let marker = Nullifier { bytes };
    if !store.check_and_insert(marker, current_batch()) {
        return Err(Error::Store(StoreError::DoubleSpend));
    }
    Ok(AdmittedSpend { proof, marker, charge })
}

/// The failure of an admitted spend where the capability refuses the proof
/// with `code`, 0 standing for no refusal: a refusal is
/// `InsufficientBalance`, and without a refusal the only failure left, that
/// of a refund that could not be encoded, is `IssuerFault`.
pub open spec fn refusal_error(code: u32) -> Error {
    if code == 0 {
        Error::IssuerFault
    } else {
        Error::Policy(PolicyError::InsufficientBalance)
    }
}

/// The second half of a spend: verifies an admitted proof and signs the
/// refund for the remaining balance.
///
/// A refund is returned only for a proof that the capability does not
/// refuse under this key and the deployment, and what is returned decodes
/// as a refund. A proof that it refuses, be it for a charge above the
/// balance or for anything else, fails with `InsufficientBalance`, and its
/// marker stays recorded: the same bytes can never be tried again for
/// another outcome. A proof that it does not refuse can fail with
/// `IssuerFault` alone.
pub fn refund_admitted(key: &IssuerKey, admitted: AdmittedSpend) -> (r: Result<Vec<u8>, Error>)
    ensures
        match r {
            Ok(refund) => refusal_of_refund(deployment(), key@, admitted.bytes()) == 0
                && refund_decodes(refund@),
            Err(e) => e == refusal_error(refusal_of_refund(deployment(), key@, admitted.bytes())),
        },
{
    proof {
        use_type_invariant(key);
        use_type_invariant(&admitted);
    }
    let params = get_params();
    spend_outcome(refund_spend(key.cbor.as_slice(), &params, admitted.proof))
}

/// Handles a spend proof from end to end.
///
/// 1. A proof that does not decode fails with `Serialization`; the store is
///    left as it was.
/// 2. The proof's marker is tested and recorded in one step. A marker that
///    was recorded before fails with `DoubleSpend`; the store is left as it
///    was and nothing more is done.
/// 3. Only then is the proof verified, under this key and the deployment.
///    Where the capability refuses it the spend fails with
///    `InsufficientBalance`, and the marker stays recorded.
/// 4. A refund is returned only for a proof that the capability does not
///    refuse, and what is returned decodes as a refund.
pub fn spend(key: &IssuerKey, store: &mut NullifierStore, proof: &[u8]) -> (r: Result<
    Vec<u8>,
    Error,
>)
    requires
        old(store).wf(),
    ensures
        final(store).wf(),
        final(store)@ == store_after_spend(old(store)@, proof@, deployment_batch()),
        match spend_admission(old(store)@, proof@) {
            Err(e) => r == Err::<Vec<u8>, Error>(e),
            Ok(_) => match r {
                Ok(refund) => refusal_of_refund(deployment(), key@, proof@) == 0 && refund_decodes(
                    refund@,
                ),
                Err(e) => e == refusal_error(refusal_of_refund(deployment(), key@, proof@)),
            },
        },
{
    match admit_spend(store, proof) {
        Ok(admitted) => refund_admitted(key, admitted),
        Err(e) => Err(e),
    }
}

/// Answers a request for the public key: the encoded key, under the status
/// of success.
pub fn serve_public_key(key: &IssuerKey) -> (reply: Reply)
    ensures
        (reply.status, reply.body@) == reply_of(Ok(public_key_of(key@))),
{
    reply_for(Ok(get_public_key(key)))
}

/// Answers an issuance request. The body is one byte for the amount and
/// then the encoded request; it is split at offset 1. A body without the
/// amount byte is malformed, and an amount outside the policy is refused
/// before the request is looked at. Otherwise the first byte is the amount
/// and the rest is the request that go to the capability: the reply carries
/// a response only where the capability does not refuse them, and the
/// response binds the amount of the first byte; where it refuses, the reply
/// is that of the failure that [`issue_outcome_of`] makes of the code of the
/// refusal. An amount within the policy is never answered as outside it.
pub fn serve_request(key: &IssuerKey, max_amount: u8, body: &[u8]) -> (reply: Reply)
    ensures
        body@.len() == 0 ==> (reply.status, reply.body@) == reply_of(Err(Error::Serialization)),
        body@.len() > 0 && !within_policy(body@[0], max_amount) ==> (reply.status, reply.body@)
            == reply_of(Err(Error::Policy(PolicyError::AmountExceedsPolicy))),
        body@.len() > 0 && within_policy(body@[0], max_amount) ==> {
            let code = refusal_of_issue(
                deployment(),
                key@,
                body@.subrange(1, body@.len() as int),
                body@[0],
            );
            if reply.status == STATUS_OK {
                code == 0 && response_amount(reply.body@) == Ok::<Seq<u8>, u32>(
                    scalar_of_byte(body@[0]),
                )
            } else {
                (reply.status, reply.body@) == reply_of(issue_refusal_outcome_of(code))
            }
        },
        reply.status == STATUS_AMOUNT_EXCEEDS_POLICY <==> body@.len() > 0 && !within_policy(
            body@[0],
            max_amount,
        ),
{
    match split_issuance(body) {
        None => reply_for(Err(Error::Serialization)),
        Some((amount, request)) => reply_for(issue(key, max_amount, amount, request.as_slice())),
    }
}

/// Answers a spend: the refund under the status of success, or the status
/// and reason of the failure. The store changes as [`spend`] says: a body
/// that does not decode and a marker that was recorded before leave it as
/// it was, and every other body adds its marker, whatever the reply. The
/// status of success comes only for a proof that the capability does not
/// refuse under this key and the deployment, and then the body decodes as
/// a refund; a proof that it refuses is answered as not enough credits to
/// spend, never with a refund.
pub fn serve_spend(key: &IssuerKey, store: &mut NullifierStore, body: &[u8]) -> (reply: Reply)
    requires
        old(store).wf(),
    ensures
        final(store).wf(),
        final(store)@ == store_after_spend(old(store)@, body@, deployment_batch()),
        match spend_admission(old(store)@, body@) {
            Err(e) => (reply.status, reply.body@) == reply_of(Err(e)),
            Ok(_) => if reply.status == STATUS_OK {
                refusal_of_refund(deployment(), key@, body@) == 0 && refund_decodes(reply.body@)
            } else {
                (reply.status, reply.body@) == reply_of(
                    Err(refusal_error(refusal_of_refund(deployment(), key@, body@))),
                )
            },
        },
{
    reply_for(spend(key, store, body))
}

/// A spend proof that is handled a second time is a double spend, and the
/// second handling changes nothing: whatever the store held before, once a
/// proof that decodes was handled, the same bytes meet `DoubleSpend` and
/// leave the store as the first handling left it.
pub proof fn law_resubmission_is_double_spend(
    store: Map<Seq<u8>, BatchDate>,
    proof: Seq<u8>,
    first: BatchDate,
    second: BatchDate,
)
    requires
        spend_proof_nullifier(proof) is Ok,
    ensures
        spend_admission(store_after_spend(store, proof, first), proof) == Err::<Seq<u8>, Error>(
            Error::Store(StoreError::DoubleSpend),
        ),
        store_after_spend(store_after_spend(store, proof, first), proof, second)
            == store_after_spend(store, proof, first),
{
}

/// Of two spends that carry one marker, exactly one is admitted, in
/// whichever order they are taken: the first finds the marker absent and
/// records it, the second meets `DoubleSpend`.
pub proof fn law_one_marker_one_winner(
    store: Map<Seq<u8>, BatchDate>,
    one: Seq<u8>,
    other: Seq<u8>,
    batch: BatchDate,
)
    requires
        spend_proof_nullifier(one) is Ok,
        spend_proof_nullifier(one) == spend_proof_nullifier(other),
        !store.contains_key(spend_proof_nullifier(one)->Ok_0),
    ensures
        spend_admission(store, one) is Ok,
        spend_admission(store_after_spend(store, one, batch), other) == Err::<Seq<u8>, Error>(
            Error::Store(StoreError::DoubleSpend),
        ),
        spend_admission(store, other) is Ok,
        spend_admission(store_after_spend(store, other, batch), one) == Err::<Seq<u8>, Error>(
            Error::Store(StoreError::DoubleSpend),
        ),
{
}

} // verus!
