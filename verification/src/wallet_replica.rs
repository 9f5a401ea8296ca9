//! The validation state machine of one replica for one wallet.
//!
//! A replica validates requests to debit its wallet and registers
//! transfer agreements signed by a quorum of its peer group; credits
//! arrive by propagation from the debiting group and apply
//! idempotently. Validation never mutates: every state change goes
//! through [`WalletReplica::apply`] with an event, so a replica can
//! always be rebuilt by replaying its event history.

use vstd::prelude::*;

use crate::crypto::{
    credit_id_of, credit_ser, debit_ser, derive_credit_id, group_key, group_key_of,
    serialise_credit, serialise_debit, serialise_signed_credit, serialise_signed_debit,
    sig_verifies, signed_credit_ser, signed_debit_ser, verify_signature,
};
use crate::types::{
    bytes_eq, clone_bytes, CreditAgreementProof, CreditId, Debit, KnownGroupAdded, Money,
    PublicKey, PublicKeySet, PublicKeyShare, ReplicaEvent, SignedCredit, SignedDebit,
    TransferAgreementProof, TransferRegistered,
};
use crate::wallet::{Wallet, WalletSnapshot, WalletV};
use crate::{Error, Outcome, UnexpectedError};

verus! {

/// Whether the key set encoded by `set` has an aggregate key that
/// accepts `sig` over `msg`.
pub open spec fn key_set_verifies(set: Seq<u8>, sig: Seq<u8>, msg: Seq<u8>) -> bool {
    match group_key_of(set) {
        Some(k) => sig_verifies(k, sig, msg),
        None => false,
    }
}

/// Whether the sender's signature over the debit verifies.
pub open spec fn debit_sig_ok(sd: SignedDebit) -> bool {
    match debit_ser(sd.debit@) {
        Some(b) => sig_verifies(sd.debit.id.actor@, sd.actor_signature@, b),
        None => false,
    }
}

/// Whether the sender's signature over the credit verifies.
pub open spec fn credit_sig_ok(sd: SignedDebit, sc: SignedCredit) -> bool {
    match credit_ser(sc.credit@) {
        Some(b) => sig_verifies(sd.debit.id.actor@, sc.actor_signature@, b),
        None => false,
    }
}

/// Whether the sender's signatures over both halves verify.
pub open spec fn actor_sigs_ok(sd: SignedDebit, sc: SignedCredit) -> bool {
    debit_sig_ok(sd) && credit_sig_ok(sd, sc)
}

/// The ghost state of a [`WalletReplica`].
#[verifier::ext_equal]
pub ghost struct WalletReplicaV {
    /// Canonical encoding of the wallet owner key.
    pub id: Seq<u8>,
    /// Canonical encoding of this replica's key share.
    pub replica_id: Seq<u8>,
    /// Index of this replica's key share in the group set.
    pub key_index: usize,
    /// Canonical encoding of the own group's key set.
    pub peer_replicas: Seq<u8>,
    /// Canonical encodings of other known groups' key sets.
    pub other_groups: Seq<Seq<u8>>,
    /// The owned wallet.
    pub wallet: WalletV,
    /// The counter of the latest validated debit, if any.
    pub pending_debit: Option<u64>,
}

impl WalletReplicaV {
    /// Internal consistency: the wallet is consistent and the known
    /// groups are distinct.
    pub open spec fn wf(self) -> bool {
        &&& self.wallet.wf()
        &&& forall|i: int, j: int|
            0 <= i < j < self.other_groups.len() ==> self.other_groups[i] != self.other_groups[j]
    }

    /// Whether a group with this key-set encoding is known.
    pub open spec fn contains_group(self, g: Seq<u8>) -> bool {
        exists|i: int| 0 <= i < self.other_groups.len() && self.other_groups[i] == g
    }

    /// Whether a debit counter is the next one expected by validation.
    pub open spec fn counter_ok(self, counter: u64) -> bool {
        match self.pending_debit {
            None => counter == 0,
            Some(c) => counter == c + 1,
        }
    }

    /// The outcome of `validate`, checked in this exact order:
    /// signatures first, then sender/recipient distinctness, credit-id
    /// correspondence, amount equality, a positive amount, wallet
    /// ownership, counter order, and sufficient balance.
    pub open spec fn spec_validate(self, sd: SignedDebit, sc: SignedCredit) -> Outcome<()> {
        if !actor_sigs_ok(sd, sc) {
            Err(Error::InvalidSignature)
        } else if sd.debit.id.actor@ == sc.credit.recipient@ {
            Err(Error::Unexpected(UnexpectedError::SameSenderAndRecipient))
        } else if credit_id_of(sd.debit.id@) is None {
            Err(Error::Serialisation)
        } else if credit_id_of(sd.debit.id@) != Some(sc.credit.id@) {
            Err(Error::Unexpected(UnexpectedError::CreditDebitIdMismatch))
        } else if sc.credit.amount.nano != sd.debit.amount.nano {
            Err(Error::Unexpected(UnexpectedError::AmountMismatch))
        } else if sd.debit.amount.nano == 0 {
            Err(Error::Unexpected(UnexpectedError::ZeroAmount))
        } else if self.wallet.id != sd.debit.id.actor@ {
            Err(Error::NoSuchSender)
        } else if !self.counter_ok(sd.debit.id.counter) {
            Err(Error::Unexpected(UnexpectedError::OutOfOrderDebit))
        } else if sd.debit.amount.nano > self.wallet.balance {
            Err(Error::InsufficientBalance)
        } else {
            Ok(Some(()))
        }
    }

    /// The outcome of `test_validate_transfer`: the structural checks
    /// of `validate`, without signatures or wallet state.
    pub open spec fn spec_test_validate_transfer(sd: SignedDebit, sc: SignedCredit) -> Outcome<
        (),
    > {
        if sd.debit.id.actor@ == sc.credit.recipient@ {
            Err(Error::Unexpected(UnexpectedError::SameSenderAndRecipient))
        } else if credit_id_of(sd.debit.id@) is None {
            Err(Error::Serialisation)
        } else if credit_id_of(sd.debit.id@) != Some(sc.credit.id@) {
            Err(Error::Unexpected(UnexpectedError::CreditDebitIdMismatch))
        } else if sc.credit.amount.nano != sd.debit.amount.nano {
            Err(Error::Unexpected(UnexpectedError::AmountMismatch))
        } else {
            Ok(Some(()))
        }
    }

    /// Whether a transfer agreement proof is acceptable: its credit
    /// corresponds to its debit, both halves encode, and either the own
    /// group's key or the caller-provided past key signed both halves.
    pub open spec fn registered_proof_ok(
        self,
        p: TransferAgreementProof,
        past: Result<PublicKey, Error>,
    ) -> bool {
        &&& credit_id_of(p.signed_debit.debit.id@) matches Some(cid)
            && p.signed_credit.credit.id@ == cid
        &&& match (signed_debit_ser(p.signed_debit@), signed_credit_ser(p.signed_credit@)) {
            (Some(db), Some(cb)) => {
                ||| (key_set_verifies(self.peer_replicas, p.debit_sig@, db) && key_set_verifies(
                    self.peer_replicas,
                    p.credit_sig@,
                    cb,
                ))
                ||| (past matches Ok(k) && sig_verifies(k@, p.debit_sig@, db) && sig_verifies(
                    k@,
                    p.credit_sig@,
                    cb,
                ))
            },
            _ => false,
        }
    }

    /// Whether `register` consults the past key for this proof: the
    /// structural checks pass but the own group's key does not accept
    /// both halves.
    pub open spec fn register_consults_past(self, p: TransferAgreementProof) -> bool {
        &&& credit_id_of(p.signed_debit.debit.id@) matches Some(cid)
            && p.signed_credit.credit.id@ == cid
        &&& match (signed_debit_ser(p.signed_debit@), signed_credit_ser(p.signed_credit@)) {
            (Some(db), Some(cb)) => !(key_set_verifies(self.peer_replicas, p.debit_sig@, db)
                && key_set_verifies(self.peer_replicas, p.credit_sig@, cb)),
            _ => false,
        }
    }

    /// The outcome of `register`: an unacceptable proof is rejected as
    /// an invalid signature; an acceptable one succeeds exactly when
    /// its debit counter is the wallet's next debit.
    pub open spec fn spec_register(
        self,
        p: TransferAgreementProof,
        past: Result<PublicKey, Error>,
    ) -> Outcome<TransferRegistered> {
        if !self.registered_proof_ok(p, past) {
            Err(Error::InvalidSignature)
        } else if self.wallet.debit_count == p.signed_debit.debit.id.counter {
            Ok(Some(TransferRegistered { transfer_proof: p }))
        } else {
            Err(Error::InvalidOperation)
        }
    }

    /// The idempotent tail of credit reception: no change if the credit
    /// was already applied, success otherwise.
    pub open spec fn spec_credit_outcome(self, p: CreditAgreementProof) -> Outcome<()> {
        if self.wallet.contains_credit(p.signed_credit.credit.id@) {
            Ok(None)
        } else {
            Ok(Some(()))
        }
    }

    /// Whether `receive_propagated` consults the past key for this
    /// proof: the credit encodes but the own group's key does not
    /// accept the aggregate signature.
    pub open spec fn propagated_consults_past(self, p: CreditAgreementProof) -> bool {
        match signed_credit_ser(p.signed_credit@) {
            Some(cb) => !key_set_verifies(self.peer_replicas, p.debiting_replicas_sig@, cb),
            None => false,
        }
    }

    /// The outcome of `receive_propagated`: the aggregate signature
    /// must be accepted by the own group's key, the past key, or a
    /// known group's key; then the credit applies idempotently.
    pub open spec fn spec_receive_propagated(
        self,
        p: CreditAgreementProof,
        past: Result<PublicKey, Error>,
    ) -> Outcome<()> {
        match signed_credit_ser(p.signed_credit@) {
            None => Err(Error::Serialisation),
            Some(cb) => {
                if key_set_verifies(self.peer_replicas, p.debiting_replicas_sig@, cb) {
                    self.spec_credit_outcome(p)
                } else {
                    match past {
                        Err(e) => Err(e),
                        Ok(k) => if sig_verifies(k@, p.debiting_replicas_sig@, cb) {
                            self.spec_credit_outcome(p)
                        } else if exists|i: int|
                            0 <= i < self.other_groups.len() && key_set_verifies(
                                #[trigger] self.other_groups[i],
                                p.debiting_replicas_sig@,
                                cb,
                            ) {
                            self.spec_credit_outcome(p)
                        } else {
                            Err(Error::InvalidSignature)
                        },
                    }
                }
            },
        }
    }

    /// Whether `genesis` would consult the past key.
    pub open spec fn genesis_consults_past(self, p: CreditAgreementProof) -> bool {
        self.wallet.balance == 0 && self.pending_debit is None && self.propagated_consults_past(p)
    }

    /// The outcome of `genesis`: rejected unless the wallet is still
    /// empty and nothing has been validated; otherwise the proof is
    /// received as a propagated credit.
    pub open spec fn spec_genesis(
        self,
        p: CreditAgreementProof,
        past: Result<PublicKey, Error>,
    ) -> Outcome<()> {
        if self.wallet.balance != 0 || self.pending_debit is Some {
            Err(Error::InvalidOperation)
        } else {
            self.spec_receive_propagated(p, past)
        }
    }

    /// The outcome of `add_known_group`: rejected if already known.
    pub open spec fn spec_add_known_group(self, group: PublicKeySet) -> Outcome<KnownGroupAdded> {
        if self.contains_group(group@) {
            Err(Error::DataExists)
        } else {
            Ok(Some(KnownGroupAdded { group }))
        }
    }

    /// The state after applying an event, or the failure. Events are
    /// assumed pre-validated; only wallet bookkeeping can fail.
    pub open spec fn spec_apply(self, event: ReplicaEvent) -> Result<WalletReplicaV, Error> {
        match event {
            ReplicaEvent::KnownGroupAdded(e) => Ok(
                WalletReplicaV {
                    other_groups: if self.contains_group(e.group@) {
                        self.other_groups
                    } else {
                        self.other_groups.push(e.group@)
                    },
                    ..self
                },
            ),
            ReplicaEvent::TransferValidated(e) => Ok(
                WalletReplicaV { pending_debit: Some(e.signed_debit.debit.id.counter), ..self },
            ),
            ReplicaEvent::TransferRegistered(e) => match self.wallet.spec_apply_debit(
                e.transfer_proof.signed_debit.debit,
            ) {
                Ok(w) => Ok(WalletReplicaV { wallet: w, ..self }),
                Err(err) => Err(err),
            },
            ReplicaEvent::TransferPropagated(e) => match self.wallet.spec_apply_credit(
                e.credit_proof.signed_credit.credit,
            ) {
                Ok(w) => Ok(WalletReplicaV { wallet: w, ..self }),
                Err(err) => Err(err),
            },
        }
    }
}

/// The state reached by applying a sequence of events in order;
/// any failure aborts the replay.
pub open spec fn spec_replay(s: WalletReplicaV, events: Seq<ReplicaEvent>) -> Result<
    WalletReplicaV,
    Error,
>
    decreases events.len(),
{
    if events.len() == 0 {
        Ok(s)
    } else {
        match s.spec_apply(events[0]) {
            Ok(s2) => spec_replay(s2, events.skip(1)),
            Err(e) => Err(e),
        }
    }
}

/// The state of a freshly constructed replica: empty wallet, no known
/// groups, nothing validated.
pub open spec fn spec_new_replica(
    id: Seq<u8>,
    replica_id: Seq<u8>,
    key_index: usize,
    peer_replicas: Seq<u8>,
) -> WalletReplicaV {
    WalletReplicaV {
        id,
        replica_id,
        key_index,
        peer_replicas,
        other_groups: Seq::empty(),
        wallet: WalletV {
            id,
            balance: 0,
            credit_ids: Seq::empty(),
            debit_count: 0,
            applied_credits: Seq::empty(),
            applied_debits: Seq::empty(),
        },
        pending_debit: None,
    }
}

/// The validating state machine for one wallet.
#[derive(Clone)]
pub struct WalletReplica {
    /// The public key of the wallet.
    id: PublicKey,
    /// The public key share of this replica.
    replica_id: PublicKeyShare,
    /// The index of this replica's key share in the group set.
    key_index: usize,
    /// The key set of the own peer group.
    peer_replicas: PublicKeySet,
    /// Key sets of other known replica groups.
    other_groups: Vec<PublicKeySet>,
    /// The wallet this replica validates transfers for.
    wallet: Wallet,
    /// The counter of the latest validated debit, if any.
    pending_debit: Option<u64>,
}

impl View for WalletReplica {
    type V = WalletReplicaV;

    closed spec fn view(&self) -> WalletReplicaV {
        WalletReplicaV {
            id: self.id@,
            replica_id: self.replica_id@,
            key_index: self.key_index,
            peer_replicas: self.peer_replicas@,
            other_groups: self.other_groups@.map_values(|g: PublicKeySet| g@),
            wallet: self.wallet@,
            pending_debit: self.pending_debit,
        }
    }
}

impl WalletReplica {
    /// Internal consistency of the replica.
    pub open spec fn wf(self) -> bool {
        self@.wf()
    }

    /// A new replica instance from current state.
    pub fn from_snapshot(
        id: PublicKey,
        replica_id: PublicKeyShare,
        key_index: usize,
        peer_replicas: PublicKeySet,
        other_groups: Vec<PublicKeySet>,
        wallet: Wallet,
        pending_debit: Option<u64>,
    ) -> (r: WalletReplica)
        ensures
            r@ == (WalletReplicaV {
                id: id@,
                replica_id: replica_id@,
                key_index,
                peer_replicas: peer_replicas@,
                other_groups: other_groups@.map_values(|g: PublicKeySet| g@),
                wallet: wallet@,
                pending_debit,
            }),
            wallet.wf() && (forall|i: int, j: int|
                0 <= i < j < other_groups@.len() ==> #[trigger] other_groups@[i]@
                    != #[trigger] other_groups@[j]@) ==> r.wf(),
    {
        WalletReplica { id, replica_id, key_index, peer_replicas, other_groups, wallet, pending_debit }
    }

    /// A new replica instance from a history of events; replays them in
    /// order, aborting on the first failure.
    #[verifier::loop_isolation(false)]
    pub fn from_history(
        id: PublicKey,
        replica_id: PublicKeyShare,
        key_index: usize,
        peer_replicas: PublicKeySet,
        events: Vec<ReplicaEvent>,
    ) -> (r: Result<WalletReplica, Error>)
        ensures
            match spec_replay(
                spec_new_replica(id@, replica_id@, key_index, peer_replicas@),
                events@,
            ) {
                Ok(v) => r matches Ok(rep) && rep@ == v && rep.wf(),
                Err(e) => r == Err::<WalletReplica, Error>(e),
            },
    {
        let wallet_id = PublicKey { bytes: clone_bytes(&id.bytes) };
        let mut instance = Self::from_snapshot(
            id,
            replica_id,
            key_index,
            peer_replicas,
            Vec::new(),
            Wallet::new(wallet_id),
            None,
        );
        let ghost start = instance@;
        let ghost all = events@;
        proof {
            assert(start.other_groups =~= Seq::<Seq<u8>>::empty());
            assert(start =~= spec_new_replica(start.id, start.replica_id, start.key_index, start.peer_replicas));
        }
        let mut events = events;
        while events.len() > 0
            invariant
                instance.wf(),
                spec_replay(start, all) == spec_replay(instance@, events@),
            decreases events.len(),
        {
            let ghost before = instance@;
            let ghost evs = events@;
            let e = events.remove(0);
            proof {
                assert(events@ =~= evs.skip(1));
            }
            match instance.apply(e) {
                Ok(_) => {},
                Err(err) => {
                    proof {
                        assert(spec_replay(before, evs) == Err::<WalletReplicaV, Error>(err));
                    }
                    return Err(err);
                },
            }
        }
        Ok(instance)
    }

    /// The current balance of the owned wallet.
    pub fn balance(&self) -> (r: Money)
        ensures
            r.nano == self@.wallet.balance,
    {
        self.wallet.balance()
    }

    /// An immutable copy of the observable wallet state.
    pub fn wallet(&self) -> (r: Option<WalletSnapshot>)
        ensures
            r matches Some(s) && s.id@ == self@.wallet.id && s.balance.nano == self@.wallet.balance
                && s.credit_ids@.map_values(|c: CreditId| c@) == self@.wallet.credit_ids
                && s.next_debit == self@.wallet.debit_count,
    {
        Some(self.wallet.snapshot())
    }

    /// Whether this key-set encoding is a known group.
    fn known_group(&self, g: &PublicKeySet) -> (r: bool)
        ensures
            r == self@.contains_group(g@),
    {
        let mut i: usize = 0;
        while i < self.other_groups.len()
            invariant
                i <= self.other_groups.len(),
                forall|j: int| 0 <= j < i ==> #[trigger] self@.other_groups[j] != g@,
            decreases self.other_groups.len() - i,
        {
            if bytes_eq(&self.other_groups[i].bytes, &g.bytes) {
                proof {
                    assert(self@.other_groups[i as int] == g@);
                }
                return true;
            }
            i = i + 1;
        }
        false
    }

    /// Adds a key set for a new group that this replica learns of.
    pub fn add_known_group(&self, group: PublicKeySet) -> (r: Outcome<KnownGroupAdded>)
        ensures
            r == self@.spec_add_known_group(group),
    {
        if self.known_group(&group) {
            return Err(Error::DataExists);
        }
        Ok(Some(KnownGroupAdded { group }))
    }

    /// Whether the sender's signatures over both halves verify. Always
    /// checked first, so as not to leak information.
    fn verify_actor_signature(&self, sd: &SignedDebit, sc: &SignedCredit) -> (r: bool)
        ensures
            r == actor_sigs_ok(*sd, *sc),
    {
        let debit_bytes = match serialise_debit(&sd.debit) {
            Ok(b) => b,
            Err(_) => {
                return false;
            },
        };
        if !verify_signature(&sd.debit.id.actor, &sd.actor_signature, &debit_bytes) {
            return false;
        }
        let credit_bytes = match serialise_credit(&sc.credit) {
            Ok(b) => b,
            Err(_) => {
                return false;
            },
        };
        verify_signature(&sd.debit.id.actor, &sc.actor_signature, &credit_bytes)
    }

    /// Structural validation of a test transfer: distinct keys, the
    /// credit derived from the debit, and equal amounts.
    pub fn test_validate_transfer(
        &self,
        signed_debit: &SignedDebit,
        signed_credit: &SignedCredit,
    ) -> (r: Outcome<()>)
        ensures
            r == WalletReplicaV::spec_test_validate_transfer(*signed_debit, *signed_credit),
    {
        if bytes_eq(&signed_debit.debit.id.actor.bytes, &signed_credit.credit.recipient.bytes) {
            return Err(Error::Unexpected(UnexpectedError::SameSenderAndRecipient));
        }
        let derived = match derive_credit_id(&signed_debit.debit.id) {
            Ok(c) => c,
            Err(e) => {
                return Err(e);
            },
        };
        if !bytes_eq(&derived.bytes, &signed_credit.credit.id.bytes) {
            return Err(Error::Unexpected(UnexpectedError::CreditDebitIdMismatch));
        }
        if signed_credit.credit.amount.as_nano() != signed_debit.debit.amount.as_nano() {
            return Err(Error::Unexpected(UnexpectedError::AmountMismatch));
        }
        Ok(Some(()))
    }

    /// Main validation of a debit and its matching credit; leaves the
    /// replica unchanged.
    pub fn validate(&self, signed_debit: &SignedDebit, signed_credit: &SignedCredit) -> (r:
        Outcome<()>)
        ensures
            r == self@.spec_validate(*signed_debit, *signed_credit),
    {
        let debit = &signed_debit.debit;
        let credit = &signed_credit.credit;
        if !self.verify_actor_signature(signed_debit, signed_credit) {
            return Err(Error::InvalidSignature);
        }
        if bytes_eq(&debit.id.actor.bytes, &credit.recipient.bytes) {
            return Err(Error::Unexpected(UnexpectedError::SameSenderAndRecipient));
        }
        let derived = match derive_credit_id(&debit.id) {
            Ok(c) => c,
            Err(e) => {
                return Err(e);
            },
        };
        if !bytes_eq(&derived.bytes, &credit.id.bytes) {
            return Err(Error::Unexpected(UnexpectedError::CreditDebitIdMismatch));
        }
        if credit.amount.as_nano() != debit.amount.as_nano() {
            return Err(Error::Unexpected(UnexpectedError::AmountMismatch));
        }
        if debit.amount.as_nano() == 0 {
            return Err(Error::Unexpected(UnexpectedError::ZeroAmount));
        }
        if !bytes_eq(&self.wallet.id().bytes, &debit.id.actor.bytes) {
            return Err(Error::NoSuchSender);
        }
        match self.pending_debit {
            None => {
                if debit.id.counter != 0 {
                    return Err(Error::Unexpected(UnexpectedError::OutOfOrderDebit));
                }
            },
            Some(c) => {
                if !(c < u64::MAX && debit.id.counter == c + 1) {
                    return Err(Error::Unexpected(UnexpectedError::OutOfOrderDebit));
                }
            },
        }
        if debit.amount.as_nano() > self.wallet.balance().as_nano() {
            return Err(Error::InsufficientBalance);
        }
        Ok(Some(()))
    }

    /// Whether a transfer agreement proof is acceptable here, asking
    /// `past_key` only where the own group's key does not accept it.
    fn verify_registered_proof<F: FnOnce() -> Result<PublicKey, Error>>(
        &self,
        proof: &TransferAgreementProof,
        past_key: F,
    ) -> (r: bool)
        requires
            call_requires(past_key, ()),
        ensures
            exists|past: Result<PublicKey, Error>|
                #[trigger] self@.registered_proof_ok(*proof, past) == r && (call_ensures(
                    past_key,
                    (),
                    past,
                ) || !self@.register_consults_past(*proof)),
    {
        let ghost default_past: Result<PublicKey, Error> = Err(Error::InvalidSignature);
        let derived = match derive_credit_id(&proof.signed_debit.debit.id) {
            Ok(c) => c,
            Err(_) => {
                proof {
                    assert(self@.registered_proof_ok(*proof, default_past) == false);
                }
                return false;
            },
        };
        if !bytes_eq(&proof.signed_credit.credit.id.bytes, &derived.bytes) {
            proof {
                assert(self@.registered_proof_ok(*proof, default_past) == false);
            }
            return false;
        }
        let debit_bytes = match serialise_signed_debit(&proof.signed_debit) {
            Ok(b) => b,
            Err(_) => {
                proof {
                    assert(self@.registered_proof_ok(*proof, default_past) == false);
                }
                return false;
            },
        };
        let credit_bytes = match serialise_signed_credit(&proof.signed_credit) {
            Ok(b) => b,
            Err(_) => {
                proof {
                    assert(self@.registered_proof_ok(*proof, default_past) == false);
                }
                return false;
            },
        };
        let own_ok = match group_key(&self.peer_replicas) {
            Ok(k) => verify_signature(&k, &proof.debit_sig, &debit_bytes) && verify_signature(
                &k,
                &proof.credit_sig,
                &credit_bytes,
            ),
            Err(_) => false,
        };
        if own_ok {
            proof {
                assert(self@.registered_proof_ok(*proof, default_past) == true);
            }
            return true;
        }
        let past = past_key();
        match past {
            Ok(k) => {
                let r = verify_signature(&k, &proof.debit_sig, &debit_bytes) && verify_signature(
                    &k,
                    &proof.credit_sig,
                    &credit_bytes,
                );
                proof {
                    assert(self@.registered_proof_ok(*proof, Ok::<PublicKey, Error>(k)) == r);
                }
                r
            },
            Err(e) => {
                proof {
                    assert(self@.registered_proof_ok(*proof, Err::<PublicKey, Error>(e)) == false);
                }
                false
            },
        }
    }

    /// Validation of a transfer agreement and of debit order at the
    /// debit source.
    pub fn register<F: FnOnce() -> Result<PublicKey, Error>>(
        &self,
        transfer_proof: TransferAgreementProof,
        past_key: F,
    ) -> (r: Outcome<TransferRegistered>)
        requires
            call_requires(past_key, ()),
        ensures
            exists|past: Result<PublicKey, Error>|
                #[trigger] self@.spec_register(transfer_proof, past) == r && (call_ensures(
                    past_key,
                    (),
                    past,
                ) || !self@.register_consults_past(transfer_proof)),
    {
        let ok = self.verify_registered_proof(&transfer_proof, past_key);
        let ghost past = choose|past: Result<PublicKey, Error>|
            #[trigger] self@.registered_proof_ok(transfer_proof, past) == ok && (call_ensures(
                past_key,
                (),
                past,
            ) || !self@.register_consults_past(transfer_proof));
        if !ok {
            proof {
                assert(self@.spec_register(transfer_proof, past) == Err::<
                    Option<TransferRegistered>,
                    Error,
                >(Error::InvalidSignature));
            }
            return Err(Error::InvalidSignature);
        }
        if self.wallet.next_debit() == transfer_proof.signed_debit.debit.id.counter {
            let r = Ok(Some(TransferRegistered { transfer_proof }));
            proof {
                assert(self@.spec_register(transfer_proof, past) == r);
            }
            r
        } else {
            proof {
                assert(self@.spec_register(transfer_proof, past) == Outcome::<
                    TransferRegistered,
                >::Err(Error::InvalidOperation));
            }
            Err(Error::InvalidOperation)
        }
    }

    /// The idempotent tail of credit reception.
    fn credit_outcome(&self, p: &CreditAgreementProof) -> (r: Outcome<()>)
        ensures
            r == self@.spec_credit_outcome(*p),
    {
        if self.wallet.contains(&p.signed_credit.credit.id) {
            Ok(None)
        } else {
            Ok(Some(()))
        }
    }

    /// Validation of a propagated credit agreement at the credit
    /// destination; credits need no order, so a repeated proof is a
    /// valid no-op.
    #[verifier::loop_isolation(false)]
    pub fn receive_propagated<F: FnOnce() -> Result<PublicKey, Error>>(
        &self,
        credit_proof: &CreditAgreementProof,
        past_key: F,
    ) -> (r: Outcome<()>)
        requires
            call_requires(past_key, ()),
        ensures
            exists|past: Result<PublicKey, Error>|
                #[trigger] self@.spec_receive_propagated(*credit_proof, past) == r && (
                call_ensures(past_key, (), past) || !self@.propagated_consults_past(*credit_proof)),
    {
        let ghost default_past: Result<PublicKey, Error> = Err(Error::InvalidSignature);
        let credit_bytes = match serialise_signed_credit(&credit_proof.signed_credit) {
            Ok(b) => b,
            Err(e) => {
                proof {
                    assert(self@.spec_receive_propagated(*credit_proof, default_past) == Outcome::<
                        (),
                    >::Err(e));
                }
                return Err(e);
            },
        };
        let own_ok = match group_key(&self.peer_replicas) {
            Ok(k) => verify_signature(&k, &credit_proof.debiting_replicas_sig, &credit_bytes),
            Err(_) => false,
        };
        if own_ok {
            let r = self.credit_outcome(credit_proof);
            proof {
                assert(self@.spec_receive_propagated(*credit_proof, default_past) == r);
            }
            return r;
        }
        let past = past_key();
        match past {
            Err(e) => {
                proof {
                    assert(self@.spec_receive_propagated(*credit_proof, Err::<PublicKey, Error>(e))
                        == Outcome::<()>::Err(e));
                }
                Err(e)
            },
            Ok(k) => {
                if verify_signature(&k, &credit_proof.debiting_replicas_sig, &credit_bytes) {
                    let r = self.credit_outcome(credit_proof);
                    proof {
                        assert(self@.spec_receive_propagated(
                            *credit_proof,
                            Ok::<PublicKey, Error>(k),
                        ) == r);
                    }
                    return r;
                }
                let mut i: usize = 0;
                while i < self.other_groups.len()
                    invariant
                        i <= self.other_groups.len(),
                        forall|j: int|
                            0 <= j < i ==> !key_set_verifies(
                                #[trigger] self@.other_groups[j],
                                credit_proof.debiting_replicas_sig@,
                                credit_bytes@,
                            ),
                        signed_credit_ser(credit_proof.signed_credit@) == Some(credit_bytes@),
                    decreases self.other_groups.len() - i,
                {
                    let g_ok = match group_key(&self.other_groups[i]) {
                        Ok(gk) => verify_signature(
                            &gk,
                            &credit_proof.debiting_replicas_sig,
                            &credit_bytes,
                        ),
                        Err(_) => false,
                    };
                    if g_ok {
                        let r = self.credit_outcome(credit_proof);
                        proof {
                            assert(key_set_verifies(
                                self@.other_groups[i as int],
                                credit_proof.debiting_replicas_sig@,
                                credit_bytes@,
                            ));
                            assert(self@.spec_receive_propagated(
                                *credit_proof,
                                Ok::<PublicKey, Error>(k),
                            ) == r);
                        }
                        return r;
                    }
                    i = i + 1;
                }
                proof {
                    assert(self@.spec_receive_propagated(*credit_proof, Ok::<PublicKey, Error>(k))
                        == Outcome::<()>::Err(Error::InvalidSignature));
                }
                Err(Error::InvalidSignature)
            },
        }
    }

    /// The one and only infusion of money into the system, accepted
    /// only while the wallet is untouched.
    pub fn genesis<F: FnOnce() -> Result<PublicKey, Error>>(
        &self,
        credit_proof: &CreditAgreementProof,
        past_key: F,
    ) -> (r: Outcome<()>)
        requires
            call_requires(past_key, ()),
        ensures
            exists|past: Result<PublicKey, Error>|
                #[trigger] self@.spec_genesis(*credit_proof, past) == r && (call_ensures(
                    past_key,
                    (),
                    past,
                ) || !self@.genesis_consults_past(*credit_proof)),
    {
        if self.balance().as_nano() != 0 || self.pending_debit.is_some() {
            proof {
                let default_past: Result<PublicKey, Error> = Err(Error::InvalidSignature);
                assert(self@.spec_genesis(*credit_proof, default_past) == Outcome::<()>::Err(
                    Error::InvalidOperation,
                ));
            }
            return Err(Error::InvalidOperation);
        }
        let r = self.receive_propagated(credit_proof, past_key);
        proof {
            let past = choose|past: Result<PublicKey, Error>|
                #[trigger] self@.spec_receive_propagated(*credit_proof, past) == r && (
                call_ensures(past_key, (), past) || !self@.propagated_consults_past(*credit_proof));
            assert(self@.spec_genesis(*credit_proof, past) == r);
        }
        r
    }

    /// The only mutator: applies a pre-validated event to the state.
    pub fn apply(&mut self, event: ReplicaEvent) -> (r: Result<(), Error>)
        requires
            old(self).wf(),
        ensures
            final(self).wf(),
            match old(self)@.spec_apply(event) {
                Ok(v) => r is Ok && final(self)@ == v,
                Err(e) => r == Err::<(), Error>(e) && final(self)@ == old(self)@,
            },
    {
        match event {
            ReplicaEvent::KnownGroupAdded(e) => {
                if !self.known_group(&e.group) {
                    self.other_groups.push(e.group);
                    proof {
                        assert(self@.other_groups =~= old(self)@.other_groups.push(e.group@));
                        assert(self@ =~= old(self)@.spec_apply(event)->Ok_0);
                    }
                } else {
                    proof {
                        assert(self@ =~= old(self)@.spec_apply(event)->Ok_0);
                    }
                }
                Ok(())
            },
            ReplicaEvent::TransferValidated(e) => {
                self.pending_debit = Some(e.signed_debit.debit.id.counter);
                proof {
                    assert(self@ =~= old(self)@.spec_apply(event)->Ok_0);
                }
                Ok(())
            },
            ReplicaEvent::TransferRegistered(e) => {
                let res = self.wallet.apply_debit(e.transfer_proof.signed_debit.debit);
                proof {
                    match old(self)@.spec_apply(event) {
                        Ok(v) => {
                            assert(self@ =~= v);
                        },
                        Err(_) => {},
                    }
                }
                res
            },
            ReplicaEvent::TransferPropagated(e) => {
                let res = self.wallet.apply_credit(e.credit_proof.signed_credit.credit);
                proof {
                    match old(self)@.spec_apply(event) {
                        Ok(v) => {
                            assert(self@ =~= v);
                        },
                        Err(_) => {},
                    }
                }
                res
            },
        }
    }
}

} // verus!
