//! Replica-side core of an AT2-style asynchronous money-transfer system.
//!
//! Money lives in per-wallet event histories. Transfers are initiated by
//! wallet actors and validated by replica groups that share a threshold
//! signing key; a transfer becomes authoritative once a quorum of replicas
//! has co-signed both its debit and its credit half. This crate holds the
//! validation, ordering, aggregation and application state machine of one
//! replica, together with the one-shot genesis ceremony that mints the
//! initial balance.

use vstd::prelude::*;

pub mod crypto;
pub mod genesis;
pub mod laws;
pub mod replica_signing;
pub mod types;
pub mod wallet;
pub mod wallet_replica;

verus! {

/// Why a particular reason named a rejection as semantically unexpected.
#[derive(Debug, Clone, Copy, PartialEq, Eq, Structural)]
pub enum UnexpectedError {
    /// A transfer must move money between two distinct keys.
    SameSenderAndRecipient,
    /// The credit id is not the one derived from the debit.
    CreditDebitIdMismatch,
    /// Debit and credit halves must carry the same amount.
    AmountMismatch,
    /// A transfer amount must be more than zero.
    ZeroAmount,
    /// A debit arrived out of counter order.
    OutOfOrderDebit,
}

/// Failure taxonomy of the replica core.
#[derive(Debug, Clone, Copy, PartialEq, Eq, Structural)]
pub enum Error {
    /// A signature or signature aggregate did not verify.
    InvalidSignature,
    /// A precondition of the requested operation is unmet.
    InvalidOperation,
    /// The debited key is not the one this wallet belongs to.
    NoSuchSender,
    /// The debit amount exceeds the wallet balance.
    InsufficientBalance,
    /// The group is already known.
    DataExists,
    /// Threshold-signature combination failed.
    CannotAggregate,
    /// Canonical encoding failed.
    Serialisation,
    /// A value left the representable range.
    ExcessiveValue,
    /// A semantic error, with its reason.
    Unexpected(UnexpectedError),
}

/// Outcome of a validation step: `Ok(Some(payload))` is success,
/// `Ok(None)` records a valid no-op, `Err` carries the rejection
/// or internal error.
pub type Outcome<T> = Result<Option<T>, Error>;

/// The threshold signer gateway: a capability, provided from outside,
/// that signs arbitrary bytes with this replica's secret key share and
/// returns the signature share in canonical encoding. Nothing can be
/// promised of the share without the secret, so the contract is empty;
/// every caller states what holds whatever comes back.
pub trait SignerTrait {
    /// Signs `data` with the held secret key share.
    fn sign_with_secret_key_share(&self, data: &Vec<u8>) -> Result<Vec<u8>, Error>;
}

} // verus!
