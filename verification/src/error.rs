//! What can go wrong, and how each failure is told apart from the others.

use vstd::prelude::*;

verus! {

/// A cryptographic check failed; terminal for the current attempt.
#[derive(Clone, Copy, Debug, PartialEq, Eq, Structural)]
pub enum ProtocolError {
    /// The issuer's reply to an issuance request does not verify.
    InvalidIssuance,
    /// The issuer's refund does not verify against the pending spend.
    InvalidRefund,
    /// The proof inside an issuance request does not verify.
    InvalidProof,
}

/// The nullifier store refused a spend.
#[derive(Clone, Copy, Debug, PartialEq, Eq, Structural)]
pub enum StoreError {
    /// The spend marker was recorded before.
    DoubleSpend,
}

/// A business rule refused the request.
#[derive(Clone, Copy, Debug, PartialEq, Eq, Structural)]
pub enum PolicyError {
    /// The charge is larger than the balance it is drawn on. The issuer
    /// answers so to every spend proof that does not verify: that is how
    /// too large a charge shows, and it shows no other way.
    InsufficientBalance,
    /// The amount asked for is outside what the issuer hands out at once.
    AmountExceedsPolicy,
}

/// Every failure this library reports.
#[derive(Clone, Copy, Debug, PartialEq, Eq, Structural)]
pub enum Error {
    Protocol(ProtocolError),
    Store(StoreError),
    Policy(PolicyError),
    /// Bytes that do not decode as the object they stand for.
    Serialization,
    /// The channel to the other side failed, or its answer made no sense.
    Transport,
    /// The operation does not fit the phase the session is in.
    OutOfPhase,
    /// A fault on the issuer's side: its key material cannot be used, or its
    /// answer cannot be encoded.
    IssuerFault,
}

impl Error {
    /// Whether the failure is an expected outcome of a misbehaving client,
    /// as opposed to a fault of the channel or of the server.
    pub open spec fn is_business_outcome(self) -> bool {
        self == Error::Store(StoreError::DoubleSpend)
            || self == Error::Policy(PolicyError::InsufficientBalance)
            || self == Error::Policy(PolicyError::AmountExceedsPolicy)
    }

    /// Exec counterpart of [`Error::is_business_outcome`].
    pub fn business_outcome(&self) -> (r: bool)
        ensures
            r == self.is_business_outcome(),
    {
        match self {
            Error::Store(StoreError::DoubleSpend) => true,
            Error::Policy(_) => true,
            _ => false,
        }
    }
}

} // verus!
