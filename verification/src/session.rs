//! The client's session: one record that owns the balance, the current
//! token, the issuer's public key and whatever is pending, and that decides
//! what each answer of the issuer means.
//!
//! The session does no input or output. Its owner sends what
//! [`ACTFetcher::begin_issue`] and [`ACTFetcher::begin_spend`] hand out,
//! and hands the issuer's reply to [`ACTFetcher::complete_issue`] or
//! [`ACTFetcher::complete_spend`]. A channel that failed is reported as a
//! reply with a status that stands for no outcome, such as 0.
//!
//! Two losses are accepted and surfaced, never hidden. An issuance whose
//! reply is lost is given up; the issuer holds nothing for it. A spend whose
//! reply is lost or refused after the proof was parsed costs the whole token:
//! the issuer has recorded its marker, so the session lets go of it and the
//! balance is gone.

use crate::capability::{
    credit_token_credits, is_scalar_of_byte, scalar_of_byte, token_of_issuance, token_of_refund,
};
use crate::client::{
    finalize_credits, proof_is_for, request_credits, request_is_of, secret_holds_the_rest,
    spend_tokens, token_balance, update_refund, PreReqCbor, PreSpendCbor,
};
use crate::error::{Error, PolicyError, ProtocolError};
use crate::params::deployment;
use crate::transport::{frame_issuance, issuance_body, outcome_of, read_reply, Reply};
use vstd::prelude::*;
use vstd::slice::slice_to_vec;

verus! {

/// The credits a client asks for when it logs in.
pub const LOGIN_CREDITS: u8 = 3;

/// The credits one access to the resource costs.
pub const ACCESS_CHARGE: u8 = 1;

/// Where a session stands in the credential's life.
#[derive(Clone, Copy, Debug, PartialEq, Eq, Structural)]
pub enum Phase {
    /// No token, nothing pending.
    Idle,
    /// An issuance request is out.
    AwaitingIssuance,
    /// A token is held, nothing is pending.
    Holding,
    /// A spend proof is out.
    AwaitingRefund,
}

/// A token with what the session knows of it.
#[derive(Debug)]
pub struct Wallet {
    pub token: Vec<u8>,
    pub balance: u8,
    pub public_key: Vec<u8>,
}

/// A [`Wallet`] as a value.
pub struct WalletView {
    pub token: Seq<u8>,
    pub balance: u8,
    pub public_key: Seq<u8>,
}

impl WalletView {
    /// Whether the balance is the credits that the token holds.
    pub open spec fn counted(self) -> bool {
        credit_token_credits(self.token) == Ok::<Seq<u8>, u32>(scalar_of_byte(self.balance))
    }
}

impl View for Wallet {
    type V = WalletView;

    open spec fn view(&self) -> WalletView {
        WalletView { token: self.token@, balance: self.balance, public_key: self.public_key@ }
    }
}

/// A session as a value.
pub enum SessionView {
    /// Nothing is pending; a token may be held.
    Resting { wallet: Option<WalletView> },
    /// An issuance request is out. The token held before, if any, is kept
    /// until the new one has arrived.
    AwaitingIssuance {
        wallet: Option<WalletView>,
        preissuance: Seq<u8>,
        request: Seq<u8>,
        amount: u8,
        public_key: Seq<u8>,
    },
    /// A spend proof against the token `spent` is out; `remaining` is the
    /// balance that the refund will carry.
    AwaitingRefund {
        spent: WalletView,
        proof: Seq<u8>,
        prerefund: Seq<u8>,
        charge: u8,
        remaining: u8,
    },
}

impl SessionView {
    pub open spec fn phase(self) -> Phase {
        match self {
            SessionView::Resting { wallet: None } => Phase::Idle,
            SessionView::Resting { wallet: Some(_) } => Phase::Holding,
            SessionView::AwaitingIssuance { .. } => Phase::AwaitingIssuance,
            SessionView::AwaitingRefund { .. } => Phase::AwaitingRefund,
        }
    }

    /// The balance of the token that the session holds, 0 where it holds
    /// none. While a spend is out this is still the balance before it.
    pub open spec fn balance(self) -> u8 {
        match self {
            SessionView::Resting { wallet: Some(w) } => w.balance,
            SessionView::AwaitingIssuance { wallet: Some(w), .. } => w.balance,
            SessionView::AwaitingRefund { spent, .. } => spent.balance,
            _ => 0,
        }
    }

    /// The token that can be spent from, if there is one: the token held,
    /// unless a spend against it is out.
    pub open spec fn held(self) -> Option<WalletView> {
        match self {
            SessionView::Resting { wallet } => wallet,
            SessionView::AwaitingIssuance { wallet, .. } => wallet,
            SessionView::AwaitingRefund { .. } => None,
        }
    }

    /// What holds of every session: the balance counted for a token is the
    /// credits that the token holds, and a pending spend carries the balance
    /// that its charge leaves.
    pub open spec fn consistent(self) -> bool {
        match self {
            SessionView::Resting { wallet } => wallet matches Some(w) ==> w.counted(),
            SessionView::AwaitingIssuance { wallet, .. } => wallet matches Some(w) ==> w.counted(),
            SessionView::AwaitingRefund { spent, charge, remaining, .. } => {
                &&& spent.counted()
                &&& charge <= spent.balance
                &&& remaining == spent.balance - charge
            },
        }
    }

    /// The session after an issuance request for `amount` went out.
    pub open spec fn issue_begun(
        self,
        public_key: Seq<u8>,
        amount: u8,
        preissuance: Seq<u8>,
        request: Seq<u8>,
    ) -> SessionView {
        match self {
            SessionView::Resting { wallet } => SessionView::AwaitingIssuance {
                wallet,
                preissuance,
                request,
                amount,
                public_key,
            },
            _ => self,
        }
    }

    /// The session after the reply to an issuance request, and what the
    /// owner is told. The pending request is gone whatever the reply. A
    /// response that verifies and binds the amount asked for gives a token
    /// with that amount; a response that binds another amount is an invalid
    /// issuance; any reply but the first leaves the token held before.
    pub open spec fn issue_completed(self, status: u16, body: Seq<u8>) -> (
        SessionView,
        Result<u8, Error>,
    ) {
        match self {
            SessionView::AwaitingIssuance { wallet, preissuance, request, amount, public_key } => {
                match outcome_of(status, body) {
                    Err(e) => (SessionView::Resting { wallet }, Err(e)),
                    Ok(response) => match token_of_issuance(
                        deployment(),
                        preissuance,
                        public_key,
                        request,
                        response,
                    ) {
                        Ok(token) => if (WalletView {
                            token,
                            balance: amount,
                            public_key,
                        }).counted() {
                            (
                                SessionView::Resting {
                                    wallet: Some(WalletView { token, balance: amount, public_key }),
                                },
                                Ok(amount),
                            )
                        } else {
                            (
                                SessionView::Resting { wallet },
                                Err(Error::Protocol(ProtocolError::InvalidIssuance)),
                            )
                        },
                        Err(_) => (
                            SessionView::Resting { wallet },
                            Err(Error::Protocol(ProtocolError::InvalidIssuance)),
                        ),
                    },
                }
            },
            _ => (self, Err(Error::OutOfPhase)),
        }
    }

    /// The session after whatever is pending was given up. An issuance that
    /// is given up costs nothing. A spend that is given up costs the token,
    /// for the issuer may have recorded its marker.
    pub open spec fn abandoned(self) -> SessionView {
        match self {
            SessionView::Resting { .. } => self,
            SessionView::AwaitingIssuance { wallet, .. } => SessionView::Resting { wallet },
            SessionView::AwaitingRefund { .. } => SessionView::Resting { wallet: None },
        }
    }

    /// The session after a spend proof for `charge` went out.
    pub open spec fn spend_begun(self, charge: u8, proof: Seq<u8>, prerefund: Seq<u8>) -> SessionView {
        match self {
            SessionView::Resting { wallet: Some(wallet) } => if charge <= wallet.balance {
                SessionView::AwaitingRefund {
                    spent: wallet,
                    proof,
                    prerefund,
                    charge,
                    remaining: (wallet.balance - charge) as u8,
                }
            } else {
                self
            },
            _ => self,
        }
    }

    /// The session after the reply to a spend proof, and what the owner is
    /// told. The pending spend is gone whatever the reply. A refund that
    /// verifies and yields a token of the remaining balance gives that
    /// token; a refund that yields another balance is an invalid refund. A
    /// reply that the proof was malformed leaves the spent token as it was,
    /// for the issuer recorded nothing. Every other reply costs the token.
    pub open spec fn spend_completed(self, status: u16, body: Seq<u8>) -> (
        SessionView,
        Result<u8, Error>,
    ) {
        match self {
            SessionView::AwaitingRefund { spent, proof, prerefund, charge, remaining } => {
                match outcome_of(status, body) {
                    Err(e) => if e == Error::Serialization {
                        (SessionView::Resting { wallet: Some(spent) }, Err(e))
                    } else {
                        (SessionView::Resting { wallet: None }, Err(e))
                    },
                    Ok(refund) => match token_of_refund(
                        deployment(),
                        prerefund,
                        proof,
                        refund,
                        spent.public_key,
                    ) {
                        Ok(token) => if (WalletView {
                            token,
                            balance: remaining,
                            public_key: spent.public_key,
                        }).counted() {
                            (
                                SessionView::Resting {
                                    wallet: Some(
                                        WalletView {
                                            token,
                                            balance: remaining,
                                            public_key: spent.public_key,
                                        },
                                    ),
                                },
                                Ok(remaining),
                            )
                        } else {
                            (
                                SessionView::Resting { wallet: None },
                                Err(Error::Protocol(ProtocolError::InvalidRefund)),
                            )
                        },
                        Err(_) => (
                            SessionView::Resting { wallet: None },
                            Err(Error::Protocol(ProtocolError::InvalidRefund)),
                        ),
                    },
                }
            },
            _ => (self, Err(Error::OutOfPhase)),
        }
    }
}

enum State {
    Resting { wallet: Option<Wallet> },
    AwaitingIssuance { wallet: Option<Wallet>, pre_req: PreReqCbor, amount: u8, public_key: Vec<u8> },
    AwaitingRefund { spent: Wallet, pre_spend: PreSpendCbor, charge: u8, remaining: u8 },
}

/// The view of a wallet that may be absent.
pub open spec fn wallet_view(wallet: Option<Wallet>) -> Option<WalletView> {
    match wallet {
        Some(w) => Some(w@),
        None => None,
    }
}

impl View for State {
    type V = SessionView;

    closed spec fn view(&self) -> SessionView {
        match self {
            State::Resting { wallet } => SessionView::Resting { wallet: wallet_view(*wallet) },
            State::AwaitingIssuance { wallet, pre_req, amount, public_key } => {
                SessionView::AwaitingIssuance {
                    wallet: wallet_view(*wallet),
                    preissuance: pre_req.preissuance@,
                    request: pre_req.issuance_request@,
                    amount: *amount,
                    public_key: public_key@,
                }
            },
            State::AwaitingRefund { spent, pre_spend, charge, remaining } => {
                SessionView::AwaitingRefund {
                    spent: spent@,
                    proof: pre_spend.spend_proof@,
                    prerefund: pre_spend.prerefund@,
                    charge: *charge,
                    remaining: *remaining,
                }
            },
        }
    }
}

/// A client's credential session. It is owned by one client context and
/// passed by reference; whoever holds it exclusively may drive one phase.
pub struct ACTFetcher {
    state: State,
}

impl View for ACTFetcher {
    type V = SessionView;

    closed spec fn view(&self) -> SessionView {
        self.state@
    }
}

impl ACTFetcher {
    #[verifier::type_invariant]
    closed spec fn kept(&self) -> bool {
        self.state@.consistent()
    }

    /// A session that holds nothing and waits for nothing.
    pub fn new() -> (session: ACTFetcher)
        ensures
            session@ == (SessionView::Resting { wallet: None }),
            session@.consistent(),
    {
        ACTFetcher { state: State::Resting { wallet: None } }
    }

    /// Where the session stands.
    pub fn phase(&self) -> (phase: Phase)
        ensures
            phase == self@.phase(),
            self@.consistent(),
    {
        proof {
            use_type_invariant(self);
        }
        match &self.state {
            State::Resting { wallet: None } => Phase::Idle,
            State::Resting { wallet: Some(_) } => Phase::Holding,
            State::AwaitingIssuance { .. } => Phase::AwaitingIssuance,
            State::AwaitingRefund { .. } => Phase::AwaitingRefund,
        }
    }

    /// The balance of the token held, 0 where none is held.
    pub fn credits(&self) -> (balance: u8)
        ensures
            balance == self@.balance(),
            self@.consistent(),
    {
        proof {
            use_type_invariant(self);
        }
        match &self.state {
            State::Resting { wallet: Some(w) } => w.balance,
            State::AwaitingIssuance { wallet: Some(w), .. } => w.balance,
            State::AwaitingRefund { spent, .. } => spent.balance,
            _ => 0,
        }
    }

    /// The token held, with its balance and the key it verifies under; none
    /// while a spend against it is out, for then it is as good as spent. The
    /// balance is the credits that the token holds.
    pub fn wallet(&self) -> (wallet: Option<&Wallet>)
        ensures
            match wallet {
                Some(w) => self@.held() == Some(w@) && w@.counted(),
                None => self@.held() is None,
            },
    {
        proof {
            use_type_invariant(self);
        }
        match &self.state {
            State::Resting { wallet: Some(w) } => Some(w),
            State::AwaitingIssuance { wallet: Some(w), .. } => Some(w),
            _ => None,
        }
    }

    /// Starts an issuance of `amount` credits from the issuer whose public
    /// key was just fetched, and hands out the body to send.
    ///
    /// Nothing may be pending: with a request or a proof out the call fails
    /// with `OutOfPhase`. It fails with `Serialization` where no request
    /// could be made. A failure leaves the session as it was. The request in
    /// the body is one made from the secret that the session keeps.
    pub fn begin_issue(&mut self, public_key: Vec<u8>, amount: u8) -> (r: Result<Vec<u8>, Error>)
        ensures
            match r {
                Ok(body) => {
                    &&& old(self)@ is Resting
                    &&& final(self)@ matches SessionView::AwaitingIssuance {
                        preissuance,
                        request,
                        ..
                    }
                    &&& final(self)@ == old(self)@.issue_begun(
                        public_key@,
                        amount,
                        preissuance,
                        request,
                    )
                    &&& body@ == issuance_body(amount, request)
                    &&& request_is_of(request, preissuance)
                    &&& final(self)@.consistent()
                },
                Err(e) => {
                    &&& final(self)@ == old(self)@
                    &&& e == Error::OutOfPhase || e == Error::Serialization
                    &&& e == Error::OutOfPhase <==> !(old(self)@ is Resting)
                },
            },
    {
        let mut taken = ACTFetcher::new();
        core::mem::swap(self, &mut taken);
        proof {
            use_type_invariant(&taken);
        }
        let ACTFetcher { state } = taken;
        match state {
            State::Resting { wallet } => match request_credits() {
                Ok(pre_req) => {
                    let body = frame_issuance(amount, pre_req.issuance_request.as_slice());
                    self.state = State::AwaitingIssuance { wallet, pre_req, amount, public_key };
                    Ok(body)
                },
                Err(_) => {
                    self.state = State::Resting { wallet };
                    Err(Error::Serialization)
                },
            },
            other => {
                self.state = other;
                Err(Error::OutOfPhase)
            },
        }
    }

    /// Takes the issuer's reply to the issuance request that is out. The
    /// pending request is consumed whatever the reply says. On success the
    /// session holds the new token, with the amount asked for as its
    /// balance, and the balance is returned. The credits of the token are
    /// read before it is taken: a token that holds another amount than the
    /// one asked for is refused as an invalid issuance.
    pub fn complete_issue(&mut self, reply: Reply) -> (r: Result<u8, Error>)
        ensures
            (final(self)@, r) == old(self)@.issue_completed(reply.status, reply.body@),
            final(self)@.consistent(),
    {
        let mut taken = ACTFetcher::new();
        core::mem::swap(self, &mut taken);
        proof {
            use_type_invariant(&taken);
        }
        let ACTFetcher { state } = taken;
        match state {
            State::AwaitingIssuance { wallet, pre_req, amount, public_key } => {
                match read_reply(reply) {
                    Err(e) => {
                        self.state = State::Resting { wallet };
                        Err(e)
                    },
                    Ok(response) => match finalize_credits(&public_key, pre_req, response) {
                        Ok(token) => {
                            let counted = match token_balance(token.as_slice()) {
                                Ok(credits) => is_scalar_of_byte(&credits, amount),
                                Err(_) => false,
                            };
                            if counted {
                                let held = Wallet { token, balance: amount, public_key };
                                self.state = State::Resting { wallet: Some(held) };
                                Ok(amount)
                            } else {
                                self.state = State::Resting { wallet };
                                Err(Error::Protocol(ProtocolError::InvalidIssuance))
                            }
                        },
                        Err(e) => {
                            self.state = State::Resting { wallet };
                            Err(e)
                        },
                    },
                }
            },
            other => {
                self.state = other;
                Err(Error::OutOfPhase)
            },
        }
    }

    /// Gives up whatever is pending, for good: the secrets of the attempt are
    /// dropped and no reply to it can be taken any more. Returns the phase
    /// that was given up.
    pub fn abandon(&mut self) -> (given_up: Phase)
        ensures
            given_up == old(self)@.phase(),
            final(self)@ == old(self)@.abandoned(),
            final(self)@.consistent(),
    {
        let mut taken = ACTFetcher::new();
        core::mem::swap(self, &mut taken);
        proof {
            use_type_invariant(&taken);
        }
        let ACTFetcher { state } = taken;
        match state {
            State::Resting { wallet: None } => Phase::Idle,
            State::Resting { wallet: Some(w) } => {
                self.state = State::Resting { wallet: Some(w) };
                Phase::Holding
            },
            State::AwaitingIssuance { wallet, .. } => {
                self.state = State::Resting { wallet };
                Phase::AwaitingIssuance
            },
            State::AwaitingRefund { .. } => Phase::AwaitingRefund,
        }
    }

    /// Starts a spend of `charge` credits from the token held, and hands out
    /// the proof to send.
    ///
    /// A token must be held and nothing may be pending, else the call fails
    /// with `OutOfPhase`: a second spend against a token whose refund has
    /// not arrived is refused here. A charge above the balance fails with
    /// `InsufficientBalance` without a round trip. A failure leaves the
    /// session as it was. The proof handed out is one for `charge` credits
    /// against the token held.
    pub fn begin_spend(&mut self, charge: u8) -> (r: Result<Vec<u8>, Error>)
        ensures
            match r {
                Ok(body) => {
                    &&& old(self)@.phase() == Phase::Holding
                    &&& charge <= old(self)@.balance()
                    &&& final(self)@ matches SessionView::AwaitingRefund { proof, prerefund, .. }
                    &&& final(self)@ == old(self)@.spend_begun(charge, proof, prerefund)
                    &&& body@ == proof
                    &&& old(self)@ matches SessionView::Resting { wallet: Some(held) }
                    &&& proof_is_for(body@, held.token, charge)
                    &&& secret_holds_the_rest(prerefund, held.token, charge)
                    &&& final(self)@.consistent()
                },
                Err(e) => {
                    &&& final(self)@ == old(self)@
                    &&& e == Error::OutOfPhase <==> old(self)@.phase() != Phase::Holding
                    &&& e == Error::Policy(PolicyError::InsufficientBalance) <==> old(self)@.phase()
                        == Phase::Holding && charge > old(self)@.balance()
                    &&& e == Error::OutOfPhase || e == Error::Policy(
                        PolicyError::InsufficientBalance,
                    ) || e == Error::Serialization
                },
            },
    {
        let mut taken = ACTFetcher::new();
        core::mem::swap(self, &mut taken);
        proof {
            use_type_invariant(&taken);
        }
        let ACTFetcher { state } = taken;
        match state {
            State::Resting { wallet: Some(wallet) } => {
                if charge > wallet.balance {
                    self.state = State::Resting { wallet: Some(wallet) };
                    return Err(Error::Policy(PolicyError::InsufficientBalance));
                }
                match spend_tokens(charge, slice_to_vec(wallet.token.as_slice())) {
                    Ok(pre_spend) => {
                        let body = slice_to_vec(pre_spend.spend_proof.as_slice());
                        let remaining = wallet.balance - charge;
                        self.state = State::AwaitingRefund { spent: wallet, pre_spend, charge, remaining };
                        Ok(body)
                    },
                    Err(_) => {
                        self.state = State::Resting { wallet: Some(wallet) };
                        Err(Error::Serialization)
                    },
                }
            },
            other => {
                self.state = other;
                Err(Error::OutOfPhase)
            },
        }
    }

    /// Takes the issuer's reply to the spend proof that is out. The pending
    /// spend is consumed whatever the reply says. On success the session
    /// holds the token that supersedes the spent one, and its balance, the
    /// old balance less the charge, is returned. The credits of the new
    /// token are read before it is taken: a token that holds another
    /// balance is refused as an invalid refund.
    ///
    /// A refusal by the issuer comes back as the issuer named it, never as
    /// `InvalidRefund`, which is kept for a refund that does not verify.
    pub fn complete_spend(&mut self, reply: Reply) -> (r: Result<u8, Error>)
        ensures
            (final(self)@, r) == old(self)@.spend_completed(reply.status, reply.body@),
            final(self)@.consistent(),
    {
        let mut taken = ACTFetcher::new();
        core::mem::swap(self, &mut taken);
        proof {
            use_type_invariant(&taken);
        }
        let ACTFetcher { state } = taken;
        match state {
            State::AwaitingRefund { spent, pre_spend, charge, remaining } => {
                match read_reply(reply) {
                    Err(e) => {
                        match e {
                            Error::Serialization => {
                                self.state = State::Resting { wallet: Some(spent) };
                            },
                            _ => {
                                self.state = State::Resting { wallet: None };
                            },
                        }
                        Err(e)
                    },
                    Ok(refund) => {
                        let Wallet { token: _, balance: _, public_key } = spent;
                        let key = slice_to_vec(public_key.as_slice());
                        match update_refund(pre_spend, refund, key) {
                            Ok(token) => {
                                let counted = match token_balance(token.as_slice()) {
                                    Ok(credits) => is_scalar_of_byte(&credits, remaining),
                                    Err(_) => false,
                                };
                                if counted {
                                    let held = Wallet { token, balance: remaining, public_key };
                                    self.state = State::Resting { wallet: Some(held) };
                                    Ok(remaining)
                                } else {
                                    self.state = State::Resting { wallet: None };
                                    Err(Error::Protocol(ProtocolError::InvalidRefund))
                                }
                            },
                            Err(e) => {
                                self.state = State::Resting { wallet: None };
                                Err(e)
                            },
                        }
                    },
                }
            },
            other => {
                self.state = other;
                Err(Error::OutOfPhase)
            },
        }
    }
}

/// A pending spend always carries the balance that its charge leaves: the
/// session starts so, and every step keeps it so.
pub proof fn law_steps_keep_consistency(
    session: SessionView,
    public_key: Seq<u8>,
    amount: u8,
    preissuance: Seq<u8>,
    request: Seq<u8>,
    charge: u8,
    proof: Seq<u8>,
    prerefund: Seq<u8>,
    status: u16,
    body: Seq<u8>,
)
    requires
        session.consistent(),
    ensures
        (SessionView::Resting { wallet: None }).consistent(),
        session.issue_begun(public_key, amount, preissuance, request).consistent(),
        session.issue_completed(status, body).0.consistent(),
        session.abandoned().consistent(),
        session.spend_begun(charge, proof, prerefund).consistent(),
        session.spend_completed(status, body).0.consistent(),
{
}

/// A spend that the issuer refunds lowers the balance by exactly the
/// charge, and a spend that ends otherwise never raises it.
pub proof fn law_balance_only_falls_by_charges(
    session: SessionView,
    charge: u8,
    proof: Seq<u8>,
    prerefund: Seq<u8>,
    status: u16,
    body: Seq<u8>,
)
    requires
        session.phase() == Phase::Holding,
        charge <= session.balance(),
    ensures
        ({
            let pending = session.spend_begun(charge, proof, prerefund);
            let (after, told) = pending.spend_completed(status, body);
            &&& pending.phase() == Phase::AwaitingRefund
            &&& after.balance() <= session.balance()
            &&& told is Ok ==> told == Ok::<u8, Error>((session.balance() - charge) as u8)
                && after.balance() == session.balance() - charge && after.phase() == Phase::Holding
        }),
{
}

/// How the balance moves, step by step: sending a request or a proof leaves
/// it as it is; only an issuance that verifies sets it, to the amount asked
/// for; a reply to a spend and a step given up can lower it and never raise
/// it. And every reply settles what was pending.
pub proof fn law_balance_moves_with_the_steps(
    session: SessionView,
    public_key: Seq<u8>,
    amount: u8,
    preissuance: Seq<u8>,
    request: Seq<u8>,
    charge: u8,
    proof: Seq<u8>,
    prerefund: Seq<u8>,
    status: u16,
    body: Seq<u8>,
)
    requires
        session.consistent(),
    ensures
        session.issue_begun(public_key, amount, preissuance, request).balance()
            == session.balance(),
        session.spend_begun(charge, proof, prerefund).balance() == session.balance(),
        session.abandoned().balance() <= session.balance(),
        session.spend_completed(status, body).0.balance() <= session.balance(),
        ({
            let (after, told) = session.issue_completed(status, body);
            match told {
                Ok(balance) => session matches SessionView::AwaitingIssuance { amount: asked, .. }
                    && balance == asked && after.balance() == asked,
                Err(_) => after.balance() == session.balance(),
            }
        }),
        session.phase() == Phase::AwaitingIssuance ==> session.issue_completed(
            status,
            body,
        ).0 is Resting,
        session.phase() == Phase::AwaitingRefund ==> session.spend_completed(status, body).0
            is Resting,
        session.abandoned() is Resting,
{
}

/// From issuance to the last credit: whatever amount a verified issuance
/// brings, a spend of that whole amount which the issuer refunds leaves a
/// held token with a balance of 0.
pub proof fn law_spending_all_leaves_zero(
    session: SessionView,
    amount: u8,
    issuance_status: u16,
    issuance_body: Seq<u8>,
    proof: Seq<u8>,
    prerefund: Seq<u8>,
    refund_status: u16,
    refund_body: Seq<u8>,
)
    requires
        session matches SessionView::AwaitingIssuance { amount: asked, .. } && asked == amount,
        session.issue_completed(issuance_status, issuance_body).1 is Ok,
        session.issue_completed(issuance_status, issuance_body).0.spend_begun(
            amount,
            proof,
            prerefund,
        ).spend_completed(refund_status, refund_body).1 is Ok,
    ensures
        ({
            let holding = session.issue_completed(issuance_status, issuance_body).0;
            let (after, told) = holding.spend_begun(amount, proof, prerefund).spend_completed(
                refund_status,
                refund_body,
            );
            &&& holding.phase() == Phase::Holding
            &&& holding.balance() == amount
            &&& told == Ok::<u8, Error>(0)
            &&& after.phase() == Phase::Holding
            &&& after.balance() == 0
        }),
{
}

/// While a spend is out, a second spend is refused and changes nothing.
pub proof fn law_one_spend_at_a_time(session: SessionView, charge: u8, proof: Seq<u8>, prerefund: Seq<u8>)
    requires
        session.phase() == Phase::AwaitingRefund,
    ensures
        session.spend_begun(charge, proof, prerefund) == session,
{
}

} // verus!
