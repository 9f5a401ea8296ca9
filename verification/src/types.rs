//! The ambient data model, held as plain values.
//!
//! Key material, signatures and key sets are carried as their canonical
//! byte encodings; the cryptographic operations on them live behind the
//! trusted items in [`crate::crypto`]. Everything the validation logic
//! itself reads — counters, amounts, identities — is a plain field.

use vstd::prelude::*;

verus! {

/// An amount of money, in the smallest unit (nano).
#[derive(Debug, Clone, Copy, PartialEq, Eq, Structural)]
pub struct Money {
    /// The amount in nano.
    pub nano: u64,
}

impl Money {
    /// A new amount from a number of nano.
    pub fn from_nano(value: u64) -> (r: Money)
        ensures
            r.nano == value,
    {
        Money { nano: value }
    }

    /// The zero amount.
    pub fn zero() -> (r: Money)
        ensures
            r.nano == 0,
    {
        Money { nano: 0 }
    }

    /// The amount as a number of nano.
    pub fn as_nano(&self) -> (r: u64)
        ensures
            r == self.nano,
    {
        self.nano
    }
}

/// A public key identifying a wallet owner, in canonical byte encoding.
#[derive(Debug, Clone, PartialEq, Eq)]
pub struct PublicKey {
    /// Canonical encoding of the key.
    pub bytes: Vec<u8>,
}

impl View for PublicKey {
    type V = Seq<u8>;

    open spec fn view(&self) -> Seq<u8> {
        self.bytes@
    }
}

/// One replica's share of a group public key, in canonical byte encoding.
#[derive(Debug, Clone, PartialEq, Eq)]
pub struct PublicKeyShare {
    /// Canonical encoding of the key share.
    pub bytes: Vec<u8>,
}

impl View for PublicKeyShare {
    type V = Seq<u8>;

    open spec fn view(&self) -> Seq<u8> {
        self.bytes@
    }
}

/// The public key set of a replica group, in canonical byte encoding.
#[derive(Debug, Clone, PartialEq, Eq)]
pub struct PublicKeySet {
    /// Canonical encoding of the key set.
    pub bytes: Vec<u8>,
}

impl View for PublicKeySet {
    type V = Seq<u8>;

    open spec fn view(&self) -> Seq<u8> {
        self.bytes@
    }
}

/// A signature, in canonical byte encoding.
#[derive(Debug, Clone, PartialEq, Eq)]
pub struct Signature {
    /// Canonical encoding of the signature.
    pub bytes: Vec<u8>,
}

impl View for Signature {
    type V = Seq<u8>;

    open spec fn view(&self) -> Seq<u8> {
        self.bytes@
    }
}

/// One replica's signature share over some bytes, tagged with the
/// replica's index in the group key set.
#[derive(Debug, Clone, PartialEq, Eq)]
pub struct SignatureShare {
    /// Index of the share in the combined collection.
    pub index: usize,
    /// Canonical encoding of the share.
    pub share: Vec<u8>,
}

/// The identity of a credit: the hash of the matching debit's id.
#[derive(Debug, Clone, PartialEq, Eq)]
pub struct CreditId {
    /// The hash bytes.
    pub bytes: Vec<u8>,
}

impl View for CreditId {
    type V = Seq<u8>;

    open spec fn view(&self) -> Seq<u8> {
        self.bytes@
    }
}

/// The identity of a debit: the debited key and its transfer counter.
#[derive(Debug, Clone, PartialEq, Eq)]
pub struct DebitId {
    /// The key to be debited.
    pub actor: PublicKey,
    /// The per-sender transfer counter.
    pub counter: u64,
}

/// The ghost value of a [`DebitId`].
#[verifier::ext_equal]
pub ghost struct DebitIdV {
    /// Canonical encoding of the debited key.
    pub actor: Seq<u8>,
    /// The per-sender transfer counter.
    pub counter: u64,
}

impl View for DebitId {
    type V = DebitIdV;

    open spec fn view(&self) -> DebitIdV {
        DebitIdV { actor: self.actor@, counter: self.counter }
    }
}

/// A debit of money at a key.
#[derive(Debug, Clone, PartialEq, Eq)]
pub struct Debit {
    /// Debit id, containing the source key.
    pub id: DebitId,
    /// The amount to debit.
    pub amount: Money,
}

/// The ghost value of a [`Debit`].
#[verifier::ext_equal]
pub ghost struct DebitV {
    /// The debit id.
    pub id: DebitIdV,
    /// The amount in nano.
    pub amount: u64,
}

impl View for Debit {
    type V = DebitV;

    open spec fn view(&self) -> DebitV {
        DebitV { id: self.id@, amount: self.amount.nano }
    }
}

/// A credit of money to a key.
#[derive(Debug, Clone, PartialEq, Eq)]
pub struct Credit {
    /// Unique id of the credit, the hash of the matching debit id.
    pub id: CreditId,
    /// The amount to credit.
    pub amount: Money,
    /// The recipient key.
    pub recipient: PublicKey,
    /// A message to the recipient.
    pub msg: String,
}

/// The ghost value of a [`Credit`].
#[verifier::ext_equal]
pub ghost struct CreditV {
    /// The credit id bytes.
    pub id: Seq<u8>,
    /// The amount in nano.
    pub amount: u64,
    /// Canonical encoding of the recipient key.
    pub recipient: Seq<u8>,
    /// The message characters.
    pub msg: Seq<char>,
}

impl View for Credit {
    type V = CreditV;

    open spec fn view(&self) -> CreditV {
        CreditV {
            id: self.id@,
            amount: self.amount.nano,
            recipient: self.recipient@,
            msg: self.msg@,
        }
    }
}

/// A debit together with the initiating actor's signature over it.
#[derive(Debug, Clone, PartialEq, Eq)]
pub struct SignedDebit {
    /// The debit.
    pub debit: Debit,
    /// Actor signature over the canonical bytes of the debit.
    pub actor_signature: Signature,
}

/// The ghost value of a [`SignedDebit`].
#[verifier::ext_equal]
pub ghost struct SignedDebitV {
    /// The debit.
    pub debit: DebitV,
    /// The actor signature bytes.
    pub actor_signature: Seq<u8>,
}

impl View for SignedDebit {
    type V = SignedDebitV;

    open spec fn view(&self) -> SignedDebitV {
        SignedDebitV { debit: self.debit@, actor_signature: self.actor_signature@ }
    }
}

/// A credit together with the initiating actor's signature over it.
#[derive(Debug, Clone, PartialEq, Eq)]
pub struct SignedCredit {
    /// The credit.
    pub credit: Credit,
    /// Actor signature over the canonical bytes of the credit.
    pub actor_signature: Signature,
}

/// The ghost value of a [`SignedCredit`].
#[verifier::ext_equal]
pub ghost struct SignedCreditV {
    /// The credit.
    pub credit: CreditV,
    /// The actor signature bytes.
    pub actor_signature: Seq<u8>,
}

impl View for SignedCredit {
    type V = SignedCreditV;

    open spec fn view(&self) -> SignedCreditV {
        SignedCreditV { credit: self.credit@, actor_signature: self.actor_signature@ }
    }
}

/// Both halves of a transfer, as signed by the initiating actor.
#[derive(Debug, Clone, PartialEq, Eq)]
pub struct SignedTransfer {
    /// The signed debit half.
    pub debit: SignedDebit,
    /// The signed credit half.
    pub credit: SignedCredit,
}

/// A transfer with the aggregated replica signatures over both halves.
#[derive(Debug, Clone, PartialEq, Eq)]
pub struct TransferAgreementProof {
    /// The debit generated by the sender actor.
    pub signed_debit: SignedDebit,
    /// The credit generated by the sender actor.
    pub signed_credit: SignedCredit,
    /// Quorum of replica signatures over the signed debit.
    pub debit_sig: Signature,
    /// Quorum of replica signatures over the signed credit.
    pub credit_sig: Signature,
    /// Key set of the group that validated the transfer.
    pub debiting_replicas_keys: PublicKeySet,
}

/// A credit with the aggregated signature of the debiting replicas.
#[derive(Debug, Clone, PartialEq, Eq)]
pub struct CreditAgreementProof {
    /// The credit generated by the sender actor.
    pub signed_credit: SignedCredit,
    /// Quorum of replica signatures over the signed credit.
    pub debiting_replicas_sig: Signature,
    /// Key set of the group that validated the debit.
    pub debiting_replicas_keys: PublicKeySet,
}

/// The ghost value of a [`CreditAgreementProof`].
#[verifier::ext_equal]
pub ghost struct CreditAgreementProofV {
    /// The signed credit.
    pub signed_credit: SignedCreditV,
    /// The aggregated replica signature bytes.
    pub debiting_replicas_sig: Seq<u8>,
    /// Canonical encoding of the debiting group's key set.
    pub debiting_replicas_keys: Seq<u8>,
}

impl View for CreditAgreementProof {
    type V = CreditAgreementProofV;

    open spec fn view(&self) -> CreditAgreementProofV {
        CreditAgreementProofV {
            signed_credit: self.signed_credit@,
            debiting_replicas_sig: self.debiting_replicas_sig@,
            debiting_replicas_keys: self.debiting_replicas_keys@,
        }
    }
}

/// Event: a transfer has been validated by this replica.
#[derive(Debug, Clone, PartialEq, Eq)]
pub struct TransferValidated {
    /// The debit initiated by the actor.
    pub signed_debit: SignedDebit,
    /// The corresponding credit, signed by the actor.
    pub signed_credit: SignedCredit,
    /// This replica's signature share over the signed debit.
    pub replica_debit_sig: SignatureShare,
    /// This replica's signature share over the signed credit.
    pub replica_credit_sig: SignatureShare,
    /// The key set of the validating group.
    pub replicas: PublicKeySet,
}

/// Event: a transfer agreement has been registered at the debit source.
#[derive(Debug, Clone, PartialEq, Eq)]
pub struct TransferRegistered {
    /// The transfer proof.
    pub transfer_proof: TransferAgreementProof,
}

/// Event: a credit agreement has been propagated to this replica.
#[derive(Debug, Clone, PartialEq, Eq)]
pub struct TransferPropagated {
    /// The debiting replicas' proof.
    pub credit_proof: CreditAgreementProof,
}

/// Event: a new replica group has become known.
#[derive(Debug, Clone, PartialEq, Eq)]
pub struct KnownGroupAdded {
    /// The key set of the group.
    pub group: PublicKeySet,
}

/// The events raised by a replica; applying them is the only way a
/// replica's state changes.
#[derive(Debug, Clone, PartialEq, Eq)]
pub enum ReplicaEvent {
    /// A new group key set became known.
    KnownGroupAdded(KnownGroupAdded),
    /// A transfer passed validation.
    TransferValidated(TransferValidated),
    /// A transfer agreement was registered.
    TransferRegistered(TransferRegistered),
    /// A credit agreement was propagated here.
    TransferPropagated(TransferPropagated),
}

/// Compares two byte vectors for equality of their contents.
pub fn bytes_eq(a: &Vec<u8>, b: &Vec<u8>) -> (r: bool)
    ensures
        r == (a@ == b@),
{
    if a.len() != b.len() {
        return false;
    }
    let mut i: usize = 0;
    while i < a.len()
        invariant
            i <= a.len(),
            a.len() == b.len(),
            forall|j: int| 0 <= j < i ==> a@[j] == b@[j],
        decreases a.len() - i,
    {
        if a[i] != b[i] {
            return false;
        }
        i = i + 1;
    }
    proof {
        assert(a@ =~= b@);
    }
    true
}

/// Copies a byte vector.
pub fn clone_bytes(v: &Vec<u8>) -> (r: Vec<u8>)
    ensures
        r@ == v@,
{
    let r = v.clone();
    proof {
        assert(r@ =~= v@);
    }
    r
}

} // verus!
