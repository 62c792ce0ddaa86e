//! How the three operations sit on a request/response channel: the framing
//! of the issuance request body, and the status and body of every reply.

use crate::error::{Error, PolicyError, ProtocolError, StoreError};
use vstd::prelude::*;
use vstd::slice::slice_subrange;
use vstd::slice::slice_to_vec;
use vstd::string::StringSliceAdditionalSpecFns;

verus! {

/// Status of a reply whose body is the encoding that was asked for.
pub const STATUS_OK: u16 = 200;

/// Status of a reply to a body that cannot be taken apart.
pub const STATUS_MALFORMED: u16 = 400;

/// Status of a reply to a charge that the balance does not cover.
pub const STATUS_INSUFFICIENT_BALANCE: u16 = 402;

/// Status of a reply to an amount outside the issuer's policy.
pub const STATUS_AMOUNT_EXCEEDS_POLICY: u16 = 403;

/// Status of a reply to a spend marker that was recorded before.
pub const STATUS_DOUBLE_SPEND: u16 = 409;

/// Status of a reply to an issuance request whose proof does not verify.
pub const STATUS_INVALID_PROOF: u16 = 422;

/// Status of a reply from an issuer that cannot serve at all.
pub const STATUS_SERVER_FAULT: u16 = 500;

/// What the issuer sends back: a status, and either the encoding that was
/// asked for or a reason in plain text.
#[derive(Debug)]
pub struct Reply {
    pub status: u16,
    pub body: Vec<u8>,
}

/// The body of an issuance request: one byte for the amount, then the
/// encoded request, with nothing in between.
pub open spec fn issuance_body(amount: u8, request: Seq<u8>) -> Seq<u8> {
    seq![amount] + request
}

/// Builds the body of an issuance request.
pub fn frame_issuance(amount: u8, request: &[u8]) -> (body: Vec<u8>)
    ensures
        body@ == issuance_body(amount, request@),
{
    let mut body: Vec<u8> = Vec::new();
    body.push(amount);
    body.extend_from_slice(request);
    body
}

/// Takes the body of an issuance request apart at offset 1. An empty body
/// has no amount byte and is refused.
pub fn split_issuance(body: &[u8]) -> (r: Option<(u8, Vec<u8>)>)
    ensures
        r is None <==> body@.len() == 0,
        r matches Some((amount, request)) ==> {
            &&& amount == body@[0]
            &&& request@ == body@.subrange(1, body@.len() as int)
            &&& body@ == issuance_body(amount, request@)
        },
{
    if body.len() == 0 {
        return None;
    }
    let amount = body[0];
    let request = slice_to_vec(slice_subrange(body, 1, body.len()));
    assert(body@ =~= issuance_body(amount, request@));
    Some((amount, request))
}

/// The status under which a failure travels. Failures that only the client
/// can meet never travel; they read as a server fault.
pub open spec fn status_of(e: Error) -> u16 {
    match e {
        Error::Serialization => STATUS_MALFORMED,
        Error::Store(StoreError::DoubleSpend) => STATUS_DOUBLE_SPEND,
        Error::Policy(PolicyError::InsufficientBalance) => STATUS_INSUFFICIENT_BALANCE,
        Error::Policy(PolicyError::AmountExceedsPolicy) => STATUS_AMOUNT_EXCEEDS_POLICY,
        Error::Protocol(ProtocolError::InvalidProof) => STATUS_INVALID_PROOF,
        _ => STATUS_SERVER_FAULT,
    }
}

/// The reason that travels with a failure, in plain text.
pub open spec fn reason_of(e: Error) -> &'static str {
    match e {
        Error::Serialization => "err: malformed request",
        Error::Store(StoreError::DoubleSpend) => "err: Double-spending attempt detected",
        Error::Policy(PolicyError::InsufficientBalance) =>
            "err: not enough credits available to spend",
        Error::Policy(PolicyError::AmountExceedsPolicy) => "err: requested amount is out of policy",
        Error::Protocol(ProtocolError::InvalidProof) => "err: proof verification failed",
        _ => "err: issuer unavailable",
    }
}

/// Exec counterpart of [`status_of`].
pub fn error_status(e: Error) -> (status: u16)
    ensures
        status == status_of(e),
        status != STATUS_OK,
{
    match e {
        Error::Serialization => STATUS_MALFORMED,
        Error::Store(StoreError::DoubleSpend) => STATUS_DOUBLE_SPEND,
        Error::Policy(PolicyError::InsufficientBalance) => STATUS_INSUFFICIENT_BALANCE,
        Error::Policy(PolicyError::AmountExceedsPolicy) => STATUS_AMOUNT_EXCEEDS_POLICY,
        Error::Protocol(ProtocolError::InvalidProof) => STATUS_INVALID_PROOF,
        _ => STATUS_SERVER_FAULT,
    }
}

/// Exec counterpart of [`reason_of`].
pub fn error_reason(e: Error) -> (reason: &'static str)
    ensures
        reason == reason_of(e),
{
    match e {
        Error::Serialization => "err: malformed request",
        Error::Store(StoreError::DoubleSpend) => "err: Double-spending attempt detected",
        Error::Policy(PolicyError::InsufficientBalance) =>
            "err: not enough credits available to spend",
        Error::Policy(PolicyError::AmountExceedsPolicy) => "err: requested amount is out of policy",
        Error::Protocol(ProtocolError::InvalidProof) => "err: proof verification failed",
        _ => "err: issuer unavailable",
    }
}

/// What the issuer sends for an outcome, as a value.
pub open spec fn reply_of(outcome: Result<Seq<u8>, Error>) -> (u16, Seq<u8>) {
    match outcome {
        Ok(body) => (STATUS_OK, body),
        Err(e) => (status_of(e), reason_of(e).spec_bytes()),
    }
}

/// The reply that carries an outcome: the encoding under `STATUS_OK`, or the
/// failure's status with its reason as the body.
pub fn reply_for(outcome: Result<Vec<u8>, Error>) -> (reply: Reply)
    ensures
        (reply.status, reply.body@) == reply_of(
            match outcome {
                Ok(body) => Ok(body@),
                Err(e) => Err(e),
            },
        ),
        reply.status == STATUS_OK <==> outcome is Ok,
{
    match outcome {
        Ok(body) => Reply { status: STATUS_OK, body },
        Err(e) => Reply { status: error_status(e), body: slice_to_vec(error_reason(e).as_bytes()) },
    }
}

/// What a reply means to the client, as a value. A status that stands for no
/// outcome of the protocol is a fault of the channel or the server.
pub open spec fn outcome_of(status: u16, body: Seq<u8>) -> Result<Seq<u8>, Error> {
    if status == STATUS_OK {
        Ok(body)
    } else if status == STATUS_MALFORMED {
        Err(Error::Serialization)
    } else if status == STATUS_DOUBLE_SPEND {
        Err(Error::Store(StoreError::DoubleSpend))
    } else if status == STATUS_INSUFFICIENT_BALANCE {
        Err(Error::Policy(PolicyError::InsufficientBalance))
    } else if status == STATUS_AMOUNT_EXCEEDS_POLICY {
        Err(Error::Policy(PolicyError::AmountExceedsPolicy))
    } else if status == STATUS_INVALID_PROOF {
        Err(Error::Protocol(ProtocolError::InvalidProof))
    } else {
        Err(Error::Transport)
    }
}

/// Reads a reply on the client's side: the body under `STATUS_OK`, else the
/// failure that the status stands for.
pub fn read_reply(reply: Reply) -> (outcome: Result<Vec<u8>, Error>)
    ensures
        match outcome {
            Ok(body) => outcome_of(reply.status, reply.body@) == Ok::<Seq<u8>, Error>(body@),
            Err(e) => outcome_of(reply.status, reply.body@) == Err::<Seq<u8>, Error>(e),
        },
{
    if reply.status == STATUS_OK {
        Ok(reply.body)
    } else if reply.status == STATUS_MALFORMED {
        Err(Error::Serialization)
    } else if reply.status == STATUS_DOUBLE_SPEND {
        Err(Error::Store(StoreError::DoubleSpend))
    } else if reply.status == STATUS_INSUFFICIENT_BALANCE {
        Err(Error::Policy(PolicyError::InsufficientBalance))
    } else if reply.status == STATUS_AMOUNT_EXCEEDS_POLICY {
        Err(Error::Policy(PolicyError::AmountExceedsPolicy))
    } else if reply.status == STATUS_INVALID_PROOF {
        Err(Error::Protocol(ProtocolError::InvalidProof))
    } else {
        Err(Error::Transport)
    }
}

/// A failure as the client reads it after the journey: itself where it has a
/// status of its own, a fault of the channel otherwise.
pub open spec fn as_read(e: Error) -> Error {
    if status_of(e) == STATUS_SERVER_FAULT {
        Error::Transport
    } else {
        e
    }
}

/// Splitting undoes framing: whatever amount and request are framed, the
/// issuer takes the same two apart again.
pub proof fn law_split_undoes_frame(amount: u8, request: Seq<u8>)
    ensures
        issuance_body(amount, request).len() == request.len() + 1,
        issuance_body(amount, request)[0] == amount,
        issuance_body(amount, request).subrange(1, request.len() as int + 1) == request,
{
    assert(issuance_body(amount, request).subrange(1, request.len() as int + 1) =~= request);
}

/// A reply read back gives the outcome it was made for: the same body on
/// success, and on failure the same failure wherever it has a status of its
/// own, so that a double spend, a refused charge, a refused amount, an
/// invalid proof and a malformed body are all told apart from each other and
/// from a fault of the channel.
pub proof fn law_reply_round_trip(outcome: Result<Seq<u8>, Error>)
    ensures
        outcome_of(reply_of(outcome).0, reply_of(outcome).1) == match outcome {
            Ok(body) => Ok::<Seq<u8>, Error>(body),
            Err(e) => Err::<Seq<u8>, Error>(as_read(e)),
        },
{
}

} // verus!
