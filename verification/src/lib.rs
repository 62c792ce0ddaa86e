//! Anonymous prepaid credits: the credential lifecycle on both sides of the
//! wire, with the issuer's at-most-once bookkeeping of spend markers.
//!
//! A client obtains a batch of credits from an issuer, later spends part of
//! it, and receives a refund for the rest, without the issuer learning which
//! credential is being spent. The cryptography is the
//! `anonymous-credit-tokens` crate; every protocol object crosses this
//! library as its CBOR encoding.
//!
//! - [`session`]: the client's state machine, from issuance to the last
//!   credit.
//! - [`client`]: the client's four protocol steps.
//! - [`issuer`]: public-key retrieval, issuance under a policy, and the spend
//!   algorithm.
//! - [`nullifier`]: the store of redeemed spend markers, with pruning by
//!   batch date; [`ledger`]: the store as bytes.
//! - [`transport`]: the framing of requests and the statuses of replies.
//! - [`keygen`]: provisioning of the issuer's key.
//! - [`capability`] and [`hexcode`]: the calls into outside crates, which are
//!   taken on trust.
//! - [`params`]: the deployment; [`error`]: what can go wrong.

pub mod capability;
pub mod client;
pub mod error;
pub mod hexcode;
pub mod issuer;
pub mod keygen;
pub mod ledger;
pub mod nullifier;
pub mod params;
pub mod session;
pub mod transport;
