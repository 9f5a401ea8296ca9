//! End-to-end exercises of the replica core, with real threshold
//! cryptography and the real canonical encoding.

use sn_data_types as sn;
use sn_transfers::genesis::get_multi_genesis;
use sn_transfers::replica_signing::ReplicaSigning;
use sn_transfers::types::{
    Credit, CreditAgreementProof, CreditId, Debit, DebitId, KnownGroupAdded, Money, PublicKey,
    PublicKeySet, PublicKeyShare, ReplicaEvent, Signature, SignatureShare, SignedCredit,
    SignedDebit, TransferAgreementProof, TransferPropagated, TransferRegistered,
    TransferValidated,
};
use sn_transfers::wallet::Wallet;
use sn_transfers::wallet_replica::WalletReplica;
use sn_transfers::{Error, SignerTrait, UnexpectedError};

fn secret_set(threshold: usize) -> threshold_crypto::SecretKeySet {
    let mut rng = rand::thread_rng();
    threshold_crypto::SecretKeySet::random(threshold, &mut rng)
}

fn group_set_bytes(sks: &threshold_crypto::SecretKeySet) -> PublicKeySet {
    PublicKeySet { bytes: bincode::serialize(&sks.public_keys()).unwrap() }
}

fn key_share_bytes(sks: &threshold_crypto::SecretKeySet, i: usize) -> PublicKeyShare {
    PublicKeyShare {
        bytes: bincode::serialize(&sks.public_keys().public_key_share(i)).unwrap(),
    }
}

fn group_public_key(sks: &threshold_crypto::SecretKeySet) -> PublicKey {
    PublicKey {
        bytes: bincode::serialize(&sn::PublicKey::Bls(sks.public_keys().public_key())).unwrap(),
    }
}

struct Actor {
    sk: threshold_crypto::SecretKey,
}

impl Actor {
    fn new() -> Actor {
        Actor { sk: threshold_crypto::SecretKey::random() }
    }

    fn public_key(&self) -> PublicKey {
        PublicKey {
            bytes: bincode::serialize(&sn::PublicKey::Bls(self.sk.public_key())).unwrap(),
        }
    }

    fn sign(&self, msg: &[u8]) -> Signature {
        Signature { bytes: bincode::serialize(&sn::Signature::Bls(self.sk.sign(msg))).unwrap() }
    }
}

/// The canonical bytes of a debit, as the ambient encoder defines them.
fn debit_bytes(d: &Debit) -> Vec<u8> {
    let actor: sn::PublicKey = bincode::deserialize(&d.id.actor.bytes).unwrap();
    let debit = sn::Debit {
        id: sn::DebitId::new(actor, d.id.counter),
        amount: sn::Token::from_nano(d.amount.nano),
    };
    bincode::serialize(&debit).unwrap()
}

fn credit_bytes(c: &Credit) -> Vec<u8> {
    let recipient: sn::PublicKey = bincode::deserialize(&c.recipient.bytes).unwrap();
    let id: sn::CreditId = c.id.bytes.as_slice().try_into().unwrap();
    let credit = sn::Credit {
        id,
        amount: sn::Token::from_nano(c.amount.nano),
        recipient,
        msg: c.msg.clone(),
    };
    bincode::serialize(&credit).unwrap()
}

fn signed_debit_bytes(sd: &SignedDebit) -> Vec<u8> {
    let actor: sn::PublicKey = bincode::deserialize(&sd.debit.id.actor.bytes).unwrap();
    let debit = sn::Debit {
        id: sn::DebitId::new(actor, sd.debit.id.counter),
        amount: sn::Token::from_nano(sd.debit.amount.nano),
    };
    let actor_signature: sn::Signature = bincode::deserialize(&sd.actor_signature.bytes).unwrap();
    bincode::serialize(&sn::SignedDebit { debit, actor_signature }).unwrap()
}

fn signed_credit_bytes(sc: &SignedCredit) -> Vec<u8> {
    let recipient: sn::PublicKey = bincode::deserialize(&sc.credit.recipient.bytes).unwrap();
    let id: sn::CreditId = sc.credit.id.bytes.as_slice().try_into().unwrap();
    let credit = sn::Credit {
        id,
        amount: sn::Token::from_nano(sc.credit.amount.nano),
        recipient,
        msg: sc.credit.msg.clone(),
    };
    let actor_signature: sn::Signature = bincode::deserialize(&sc.actor_signature.bytes).unwrap();
    bincode::serialize(&sn::SignedCredit { credit, actor_signature }).unwrap()
}

/// A full group signature over `msg`, from `threshold + 1` shares.
fn group_sign(sks: &threshold_crypto::SecretKeySet, msg: &[u8]) -> Signature {
    let mut shares = std::collections::BTreeMap::new();
    for i in 0..=sks.threshold() {
        shares.insert(i, sks.secret_key_share(i).sign(msg));
    }
    let sig = sks.public_keys().combine_signatures(&shares).unwrap();
    Signature { bytes: bincode::serialize(&sn::Signature::Bls(sig)).unwrap() }
}

/// A debit/credit pair signed by the sender, moving `amount` at
/// `counter` to `recipient`.
fn make_transfer(
    sender: &Actor,
    recipient: &PublicKey,
    counter: u64,
    amount: u64,
) -> (SignedDebit, SignedCredit) {
    let debit = Debit {
        id: DebitId { actor: sender.public_key(), counter },
        amount: Money::from_nano(amount),
    };
    let sn_actor: sn::PublicKey = bincode::deserialize(&sender.public_key().bytes).unwrap();
    let sn_debit = sn::Debit {
        id: sn::DebitId::new(sn_actor, counter),
        amount: sn::Token::from_nano(amount),
    };
    let credit = Credit {
        id: CreditId { bytes: sn_debit.credit_id().unwrap().to_vec() },
        amount: Money::from_nano(amount),
        recipient: recipient.clone(),
        msg: String::new(),
    };
    let actor_debit_sig = sender.sign(&debit_bytes(&debit));
    let actor_credit_sig = sender.sign(&credit_bytes(&credit));
    (
        SignedDebit { debit, actor_signature: actor_debit_sig },
        SignedCredit { credit, actor_signature: actor_credit_sig },
    )
}

fn make_transfer_proof(
    sks: &threshold_crypto::SecretKeySet,
    sd: SignedDebit,
    sc: SignedCredit,
) -> TransferAgreementProof {
    let debit_sig = group_sign(sks, &signed_debit_bytes(&sd));
    let credit_sig = group_sign(sks, &signed_credit_bytes(&sc));
    TransferAgreementProof {
        signed_debit: sd,
        signed_credit: sc,
        debit_sig,
        credit_sig,
        debiting_replicas_keys: group_set_bytes(sks),
    }
}

fn make_credit_proof(
    sks: &threshold_crypto::SecretKeySet,
    sc: SignedCredit,
) -> CreditAgreementProof {
    let debiting_replicas_sig = group_sign(sks, &signed_credit_bytes(&sc));
    CreditAgreementProof {
        signed_credit: sc,
        debiting_replicas_sig,
        debiting_replicas_keys: group_set_bytes(sks),
    }
}

/// A wallet holding `amount`, funded by one recorded credit.
fn funded_wallet(owner: &PublicKey, amount: u64) -> Wallet {
    let mut wallet = Wallet::new(owner.clone());
    wallet
        .apply_credit(Credit {
            id: CreditId { bytes: vec![7u8; 32] },
            amount: Money::from_nano(amount),
            recipient: owner.clone(),
            msg: String::new(),
        })
        .unwrap();
    wallet
}

fn replica_for(
    owner: &PublicKey,
    sks: &threshold_crypto::SecretKeySet,
    wallet: Wallet,
    pending_debit: Option<u64>,
) -> WalletReplica {
    WalletReplica::from_snapshot(
        owner.clone(),
        key_share_bytes(sks, 0),
        0,
        group_set_bytes(sks),
        Vec::new(),
        wallet,
        pending_debit,
    )
}

fn validated_event(sd: &SignedDebit, sc: &SignedCredit, group: PublicKeySet) -> ReplicaEvent {
    ReplicaEvent::TransferValidated(TransferValidated {
        signed_debit: sd.clone(),
        signed_credit: sc.clone(),
        replica_debit_sig: SignatureShare { index: 0, share: Vec::new() },
        replica_credit_sig: SignatureShare { index: 0, share: Vec::new() },
        replicas: group,
    })
}

struct ShareSigner {
    share: threshold_crypto::SecretKeyShare,
}

impl SignerTrait for ShareSigner {
    fn sign_with_secret_key_share(&self, data: &Vec<u8>) -> Result<Vec<u8>, Error> {
        Ok(bincode::serialize(&self.share.sign(data)).unwrap())
    }
}

fn no_past_key() -> Result<PublicKey, Error> {
    Err(Error::InvalidSignature)
}

#[test]
fn genesis_mint() {
    let sks = secret_set(0);
    let signer = ShareSigner { share: sks.secret_key_share(0) };
    let signing = ReplicaSigning::new(signer, key_share_bytes(&sks, 0), 0, group_set_bytes(&sks));
    let proof = signing.try_genesis(1_000_000).unwrap();
    assert_eq!(proof.signed_credit.credit.amount, Money::from_nano(1_000_000));
    assert_eq!(proof.signed_credit.credit.msg, "genesis");
    assert_eq!(proof.signed_credit.credit.recipient, group_public_key(&sks));
    // Both aggregate signatures verify under the group key: the
    // actor-side one over the credit bytes, the replica-side one over
    // the signed-credit bytes.
    let key = sn::PublicKey::Bls(sks.public_keys().public_key());
    let actor_sig: sn::Signature =
        bincode::deserialize(&proof.signed_credit.actor_signature.bytes).unwrap();
    assert!(key.verify(&actor_sig, &credit_bytes(&proof.signed_credit.credit)).is_ok());
    let sig: sn::Signature = bincode::deserialize(&proof.debiting_replicas_sig.bytes).unwrap();
    assert!(key.verify(&sig, &signed_credit_bytes(&proof.signed_credit)).is_ok());
}

#[test]
fn genesis_propagates_gateway_errors() {
    // The gateway is free to fail; its error comes back unchanged and
    // nothing is minted.
    struct FailingSigner;
    impl SignerTrait for FailingSigner {
        fn sign_with_secret_key_share(&self, _data: &Vec<u8>) -> Result<Vec<u8>, Error> {
            Err(Error::ExcessiveValue)
        }
    }
    let sks = secret_set(0);
    let signing =
        ReplicaSigning::new(FailingSigner, key_share_bytes(&sks, 0), 0, group_set_bytes(&sks));
    assert_eq!(signing.try_genesis(9), Err(Error::ExcessiveValue));
}

#[test]
fn multi_share_genesis_nonzero_threshold() {
    let sks = secret_set(1);
    let proof = get_multi_genesis(500, group_public_key(&sks), sks.clone()).unwrap();
    assert_eq!(proof.signed_credit.credit.amount, Money::from_nano(500));
    assert_eq!(proof.signed_credit.credit.msg, "genesis");
    let sig: sn::Signature = bincode::deserialize(&proof.debiting_replicas_sig.bytes).unwrap();
    let key = sn::PublicKey::Bls(sks.public_keys().public_key());
    assert!(key.verify(&sig, &signed_credit_bytes(&proof.signed_credit)).is_ok());
}

#[test]
fn genesis_applies_and_is_one_shot() {
    let sks = secret_set(0);
    let signer = ShareSigner { share: sks.secret_key_share(0) };
    let signing = ReplicaSigning::new(signer, key_share_bytes(&sks, 0), 0, group_set_bytes(&sks));
    let proof = signing.try_genesis(1_000_000).unwrap();
    let owner = group_public_key(&sks);
    let mut replica = replica_for(&owner, &sks, Wallet::new(owner.clone()), None);
    assert_eq!(replica.genesis(&proof, no_past_key), Ok(Some(())));
    replica
        .apply(ReplicaEvent::TransferPropagated(TransferPropagated {
            credit_proof: proof.clone(),
        }))
        .unwrap();
    assert_eq!(replica.balance(), Money::from_nano(1_000_000));
    // A second genesis call on the same wallet rejects.
    assert_eq!(replica.genesis(&proof, no_past_key), Err(Error::InvalidOperation));
}

#[test]
fn simple_debit() {
    let sks = secret_set(0);
    let sender = Actor::new();
    let recipient = Actor::new();
    let owner = sender.public_key();
    let replica = replica_for(&owner, &sks, funded_wallet(&owner, 100), None);

    let (sd, sc) = make_transfer(&sender, &recipient.public_key(), 0, 40);
    assert_eq!(replica.validate(&sd, &sc), Ok(Some(())));

    // After applying the validation, the same counter rejects and the
    // next one is accepted.
    let mut replica = replica;
    replica.apply(validated_event(&sd, &sc, group_set_bytes(&sks))).unwrap();
    assert_eq!(
        replica.validate(&sd, &sc),
        Err(Error::Unexpected(UnexpectedError::OutOfOrderDebit))
    );
    let (sd1, sc1) = make_transfer(&sender, &recipient.public_key(), 1, 40);
    assert_eq!(replica.validate(&sd1, &sc1), Ok(Some(())));
}

#[test]
fn validate_precondition_errors() {
    let sks = secret_set(0);
    let sender = Actor::new();
    let recipient = Actor::new();
    let owner = sender.public_key();
    let replica = replica_for(&owner, &sks, funded_wallet(&owner, 100), None);

    // Sender and recipient are the same key.
    let (sd, sc) = make_transfer(&sender, &sender.public_key(), 0, 40);
    assert_eq!(
        replica.validate(&sd, &sc),
        Err(Error::Unexpected(UnexpectedError::SameSenderAndRecipient))
    );

    // The credit does not correspond to the debit.
    let (sd, mut sc) = make_transfer(&sender, &recipient.public_key(), 0, 40);
    sc.credit.id = CreditId { bytes: vec![9u8; 32] };
    sc.actor_signature = sender.sign(&credit_bytes(&sc.credit));
    assert_eq!(
        replica.validate(&sd, &sc),
        Err(Error::Unexpected(UnexpectedError::CreditDebitIdMismatch))
    );

    // Amounts differ.
    let (sd, mut sc) = make_transfer(&sender, &recipient.public_key(), 0, 40);
    sc.credit.amount = Money::from_nano(41);
    sc.actor_signature = sender.sign(&credit_bytes(&sc.credit));
    assert_eq!(
        replica.validate(&sd, &sc),
        Err(Error::Unexpected(UnexpectedError::AmountMismatch))
    );

    // Zero amount.
    let (sd, sc) = make_transfer(&sender, &recipient.public_key(), 0, 0);
    assert_eq!(replica.validate(&sd, &sc), Err(Error::Unexpected(UnexpectedError::ZeroAmount)));

    // The debit names another wallet.
    let other = Actor::new();
    let (sd, sc) = make_transfer(&other, &recipient.public_key(), 0, 40);
    assert_eq!(replica.validate(&sd, &sc), Err(Error::NoSuchSender));

    // The counter is ahead.
    let (sd, sc) = make_transfer(&sender, &recipient.public_key(), 1, 40);
    assert_eq!(
        replica.validate(&sd, &sc),
        Err(Error::Unexpected(UnexpectedError::OutOfOrderDebit))
    );

    // The amount exceeds the balance.
    let (sd, sc) = make_transfer(&sender, &recipient.public_key(), 0, 101);
    assert_eq!(replica.validate(&sd, &sc), Err(Error::InsufficientBalance));
}

#[test]
fn forged_actor_signature_rejected() {
    let sks = secret_set(0);
    let sender = Actor::new();
    let recipient = Actor::new();
    let owner = sender.public_key();
    let replica = replica_for(&owner, &sks, funded_wallet(&owner, 100), None);

    let (mut sd, sc) = make_transfer(&sender, &recipient.public_key(), 0, 40);
    sd.actor_signature = Signature { bytes: vec![1, 2, 3, 4] };
    assert_eq!(replica.validate(&sd, &sc), Err(Error::InvalidSignature));

    // Signatures are checked before everything else: even with every
    // other field mutated to be invalid too, the answer stays the same.
    let (mut sd, mut sc) = make_transfer(&sender, &sender.public_key(), 1, 0);
    sd.actor_signature = Signature { bytes: vec![1, 2, 3, 4] };
    sc.credit.amount = Money::from_nano(7);
    assert_eq!(replica.validate(&sd, &sc), Err(Error::InvalidSignature));
}

#[test]
fn register_transfer() {
    let sks = secret_set(0);
    let sender = Actor::new();
    let recipient = Actor::new();
    let owner = sender.public_key();
    let replica = replica_for(&owner, &sks, funded_wallet(&owner, 100), None);

    let (sd, sc) = make_transfer(&sender, &recipient.public_key(), 0, 40);
    let proof = make_transfer_proof(&sks, sd, sc);
    let registered = replica.register(proof.clone(), no_past_key).unwrap().unwrap();
    assert_eq!(registered.transfer_proof, proof);

    // Applying the registration debits the wallet.
    let mut replica = replica;
    replica
        .apply(ReplicaEvent::TransferRegistered(TransferRegistered { transfer_proof: proof }))
        .unwrap();
    assert_eq!(replica.balance(), Money::from_nano(60));
}

#[test]
fn out_of_order_register() {
    let sks = secret_set(0);
    let sender = Actor::new();
    let recipient = Actor::new();
    let owner = sender.public_key();
    let replica = replica_for(&owner, &sks, funded_wallet(&owner, 100), None);

    // next_debit is 0, but the proof's debit carries counter 1.
    let (sd, sc) = make_transfer(&sender, &recipient.public_key(), 1, 40);
    let proof = make_transfer_proof(&sks, sd, sc);
    assert_eq!(replica.register(proof, no_past_key), Err(Error::InvalidOperation));
}

#[test]
fn register_rejects_foreign_group() {
    let sks = secret_set(0);
    let foreign = secret_set(0);
    let sender = Actor::new();
    let recipient = Actor::new();
    let owner = sender.public_key();
    let replica = replica_for(&owner, &sks, funded_wallet(&owner, 100), None);

    let (sd, sc) = make_transfer(&sender, &recipient.public_key(), 0, 40);
    let proof = make_transfer_proof(&foreign, sd, sc);
    assert_eq!(replica.register(proof, no_past_key), Err(Error::InvalidSignature));
}

#[test]
fn register_accepts_past_key() {
    let old_group = secret_set(0);
    let new_group = secret_set(0);
    let sender = Actor::new();
    let recipient = Actor::new();
    let owner = sender.public_key();
    // The replica has moved to the new group's key set.
    let replica = replica_for(&owner, &new_group, funded_wallet(&owner, 100), None);

    let (sd, sc) = make_transfer(&sender, &recipient.public_key(), 0, 40);
    let proof = make_transfer_proof(&old_group, sd, sc);

    // Accepted when the caller provides the historical key.
    let past = group_public_key(&old_group);
    let r = replica.register(proof.clone(), move || Ok(past));
    assert!(matches!(r, Ok(Some(_))));

    // Rejected when the caller provides some other key.
    let wrong = group_public_key(&secret_set(0));
    assert_eq!(
        replica.register(proof, move || Ok(wrong)),
        Err(Error::InvalidSignature)
    );
}

#[test]
fn duplicate_credit() {
    let sks = secret_set(0);
    let sender = Actor::new();
    let recipient = Actor::new();
    let owner = recipient.public_key();
    let mut replica = replica_for(&owner, &sks, Wallet::new(owner.clone()), None);

    let (_, sc) = make_transfer(&sender, &owner, 0, 55);
    let proof = make_credit_proof(&sks, sc);
    assert_eq!(replica.receive_propagated(&proof, no_past_key), Ok(Some(())));
    replica
        .apply(ReplicaEvent::TransferPropagated(TransferPropagated {
            credit_proof: proof.clone(),
        }))
        .unwrap();
    assert_eq!(replica.balance(), Money::from_nano(55));

    // The second reception of the same proof is a valid no-op, and the
    // balance does not change again.
    assert_eq!(replica.receive_propagated(&proof, no_past_key), Ok(None));
    assert_eq!(replica.balance(), Money::from_nano(55));
}

#[test]
fn unknown_group_propagation() {
    let own_group = secret_set(0);
    let debiting_group = secret_set(0);
    let sender = Actor::new();
    let recipient = Actor::new();
    let owner = recipient.public_key();
    let mut replica = replica_for(&owner, &own_group, Wallet::new(owner.clone()), None);

    let (_, sc) = make_transfer(&sender, &owner, 0, 20);
    let proof = make_credit_proof(&debiting_group, sc);

    // The debiting group is neither our own, nor the past key, nor
    // known: rejected.
    let unrelated = group_public_key(&secret_set(0));
    let past = unrelated.clone();
    assert_eq!(
        replica.receive_propagated(&proof, move || Ok(past)),
        Err(Error::InvalidSignature)
    );

    // An erring past-key lookup propagates before the known groups are
    // consulted.
    assert_eq!(replica.receive_propagated(&proof, no_past_key), Err(Error::InvalidSignature));

    // After the group becomes known, the same proof is accepted.
    let added = replica.add_known_group(group_set_bytes(&debiting_group)).unwrap().unwrap();
    replica.apply(ReplicaEvent::KnownGroupAdded(added)).unwrap();
    let past = unrelated;
    assert_eq!(replica.receive_propagated(&proof, move || Ok(past)), Ok(Some(())));
}

#[test]
fn add_known_group_rejects_duplicate() {
    let own_group = secret_set(0);
    let other = secret_set(0);
    let owner = Actor::new().public_key();
    let mut replica = replica_for(&owner, &own_group, Wallet::new(owner.clone()), None);

    let added = replica.add_known_group(group_set_bytes(&other)).unwrap().unwrap();
    replica.apply(ReplicaEvent::KnownGroupAdded(added)).unwrap();
    assert_eq!(replica.add_known_group(group_set_bytes(&other)), Err(Error::DataExists));
}

#[test]
fn from_history_replays_events() {
    let sks = secret_set(0);
    let sender = Actor::new();
    let recipient = Actor::new();
    let owner = recipient.public_key();

    let (_, sc) = make_transfer(&sender, &owner, 0, 77);
    let proof = make_credit_proof(&sks, sc);
    let other_group = secret_set(0);
    let events = vec![
        ReplicaEvent::KnownGroupAdded(KnownGroupAdded { group: group_set_bytes(&other_group) }),
        ReplicaEvent::TransferPropagated(TransferPropagated { credit_proof: proof.clone() }),
    ];

    let replayed = WalletReplica::from_history(
        owner.clone(),
        key_share_bytes(&sks, 0),
        0,
        group_set_bytes(&sks),
        events.clone(),
    )
    .unwrap();

    // The same state, event by event.
    let mut stepped = replica_for(&owner, &sks, Wallet::new(owner.clone()), None);
    for e in events {
        stepped.apply(e).unwrap();
    }
    assert_eq!(replayed.balance(), stepped.balance());
    assert_eq!(replayed.balance(), Money::from_nano(77));
    let snapshot = replayed.wallet().unwrap();
    assert_eq!(snapshot.id, owner);
    assert_eq!(snapshot.balance, Money::from_nano(77));
    assert_eq!(snapshot.next_debit, 0);
    assert_eq!(snapshot.credit_ids, vec![proof.signed_credit.credit.id.clone()]);
    // Both see the applied credit as already present.
    assert_eq!(replayed.receive_propagated(&proof, no_past_key), Ok(None));
    assert_eq!(stepped.receive_propagated(&proof, no_past_key), Ok(None));
}

#[test]
fn from_history_aborts_on_bad_event() {
    let sks = secret_set(0);
    let sender = Actor::new();
    let recipient = Actor::new();
    let owner = sender.public_key();

    // Registering a debit against an empty wallet fails the replay.
    let (sd, sc) = make_transfer(&sender, &recipient.public_key(), 0, 40);
    let proof = make_transfer_proof(&sks, sd, sc);
    let events = vec![ReplicaEvent::TransferRegistered(TransferRegistered {
        transfer_proof: proof,
    })];
    let r = WalletReplica::from_history(
        owner.clone(),
        key_share_bytes(&sks, 0),
        0,
        group_set_bytes(&sks),
        events,
    );
    assert!(matches!(r, Err(Error::InsufficientBalance)));
}

#[test]
fn registered_debits_apply_in_counter_order() {
    let sks = secret_set(0);
    let sender = Actor::new();
    let recipient = Actor::new();
    let owner = sender.public_key();
    let mut replica = replica_for(&owner, &sks, funded_wallet(&owner, 100), None);

    let (sd0, sc0) = make_transfer(&sender, &recipient.public_key(), 0, 10);
    let (sd1, sc1) = make_transfer(&sender, &recipient.public_key(), 1, 20);
    let proof0 = make_transfer_proof(&sks, sd0, sc0);
    let proof1 = make_transfer_proof(&sks, sd1, sc1);

    // Counter 1 cannot apply before counter 0.
    let early = replica.apply(ReplicaEvent::TransferRegistered(TransferRegistered {
        transfer_proof: proof1.clone(),
    }));
    assert_eq!(early, Err(Error::InvalidOperation));

    replica
        .apply(ReplicaEvent::TransferRegistered(TransferRegistered { transfer_proof: proof0 }))
        .unwrap();
    replica
        .apply(ReplicaEvent::TransferRegistered(TransferRegistered { transfer_proof: proof1 }))
        .unwrap();
    assert_eq!(replica.balance(), Money::from_nano(70));
}

#[test]
fn test_validate_transfer_checks_structure() {
    let sks = secret_set(0);
    let sender = Actor::new();
    let recipient = Actor::new();
    let owner = sender.public_key();
    let replica = replica_for(&owner, &sks, Wallet::new(owner.clone()), None);

    let (sd, sc) = make_transfer(&sender, &recipient.public_key(), 0, 40);
    assert_eq!(replica.test_validate_transfer(&sd, &sc), Ok(Some(())));

    let (sd, sc) = make_transfer(&sender, &sender.public_key(), 0, 40);
    assert_eq!(
        replica.test_validate_transfer(&sd, &sc),
        Err(Error::Unexpected(UnexpectedError::SameSenderAndRecipient))
    );
}

#[test]
fn signing_shares_carry_key_index() {
    let sks = secret_set(0);
    let signer = ShareSigner { share: sks.secret_key_share(0) };
    let signing = ReplicaSigning::new(signer, key_share_bytes(&sks, 0), 0, group_set_bytes(&sks));
    assert_eq!(signing.replicas_pk_set(), group_set_bytes(&sks));

    let sender = Actor::new();
    let recipient = Actor::new();
    let (sd, sc) = make_transfer(&sender, &recipient.public_key(), 0, 40);

    let share = signing.sign_validated_debit(&sd).unwrap().unwrap();
    assert_eq!(share.index, 0);
    // The share is a valid share over the canonical signed-debit bytes.
    let parsed: threshold_crypto::SignatureShare = bincode::deserialize(&share.share).unwrap();
    assert!(sks.public_keys().public_key_share(0).verify(&parsed, &signed_debit_bytes(&sd)));

    let share = signing.sign_validated_credit(&sc).unwrap().unwrap();
    let parsed: threshold_crypto::SignatureShare = bincode::deserialize(&share.share).unwrap();
    assert!(sks.public_keys().public_key_share(0).verify(&parsed, &signed_credit_bytes(&sc)));

    let both = signing
        .sign_transfer(&sn_transfers::types::SignedTransfer { debit: sd, credit: sc })
        .unwrap()
        .unwrap();
    assert_eq!(both.0.index, 0);
    assert_eq!(both.1.index, 0);

    let proof = make_credit_proof(&sks, make_transfer(&sender, &recipient.public_key(), 0, 9).1);
    let share = signing.sign_credit_proof(&proof).unwrap().unwrap();
    assert_eq!(share.index, 0);
}

#[test]
fn malformed_key_set_encoding_fails_closed() {
    // Bytes whose leading length prefix is zero decode, in the ambient
    // library, to a key set with an empty commitment; deriving its
    // aggregate key would fault. The core must treat such bytes as no
    // key set at all, never fault.
    let crafted = PublicKeySet { bytes: vec![0u8; 8] };
    let own_group = secret_set(0);
    let foreign_group = secret_set(0);
    let sender = Actor::new();
    let recipient = Actor::new();
    let owner = recipient.public_key();

    // As a known group: consulted during propagation and skipped.
    let mut replica = replica_for(&owner, &own_group, Wallet::new(owner.clone()), None);
    let (_, sc) = make_transfer(&sender, &owner, 0, 5);
    let proof = make_credit_proof(&foreign_group, sc.clone());
    let added = replica.add_known_group(crafted.clone()).unwrap().unwrap();
    replica.apply(ReplicaEvent::KnownGroupAdded(added)).unwrap();
    let past = group_public_key(&secret_set(0));
    assert_eq!(
        replica.receive_propagated(&proof, move || Ok(past)),
        Err(Error::InvalidSignature)
    );

    // As the own group's key set: verification fails closed.
    let crafted_replica = WalletReplica::from_snapshot(
        owner.clone(),
        key_share_bytes(&own_group, 0),
        0,
        crafted.clone(),
        Vec::new(),
        Wallet::new(owner.clone()),
        None,
    );
    let own_proof = make_credit_proof(&own_group, sc);
    let past = group_public_key(&secret_set(0));
    assert_eq!(
        crafted_replica.receive_propagated(&own_proof, move || Ok(past)),
        Err(Error::InvalidSignature)
    );

    // Deriving the group key for genesis rejects the bytes.
    let signer = ShareSigner { share: own_group.secret_key_share(0) };
    let signing = ReplicaSigning::new(signer, key_share_bytes(&own_group, 0), 0, crafted.clone());
    assert_eq!(signing.try_genesis(7), Err(Error::Serialisation));

    // Aggregating under the crafted set cannot succeed either.
    let signer = ShareSigner { share: own_group.secret_key_share(0) };
    let r = sn_transfers::genesis::get_genesis(7, recipient.public_key(), crafted, &signer);
    assert_eq!(r, Err(Error::CannotAggregate));
}

#[test]
fn wallet_bookkeeping() {
    let owner = Actor::new().public_key();
    let mut wallet = Wallet::new(owner.clone());
    assert_eq!(wallet.balance(), Money::from_nano(0));
    assert_eq!(wallet.next_debit(), 0);

    let credit = Credit {
        id: CreditId { bytes: vec![1u8; 32] },
        amount: Money::from_nano(30),
        recipient: owner.clone(),
        msg: String::new(),
    };
    wallet.apply_credit(credit.clone()).unwrap();
    assert_eq!(wallet.balance(), Money::from_nano(30));
    assert!(wallet.contains(&CreditId { bytes: vec![1u8; 32] }));
    // The same credit id applies only once.
    assert_eq!(wallet.apply_credit(credit), Err(Error::DataExists));

    // Debits apply in counter order, within the balance.
    let debit = Debit {
        id: DebitId { actor: owner.clone(), counter: 1 },
        amount: Money::from_nano(10),
    };
    assert_eq!(wallet.apply_debit(debit), Err(Error::InvalidOperation));
    let debit = Debit {
        id: DebitId { actor: owner.clone(), counter: 0 },
        amount: Money::from_nano(31),
    };
    assert_eq!(wallet.apply_debit(debit), Err(Error::InsufficientBalance));
    let debit = Debit {
        id: DebitId { actor: owner.clone(), counter: 0 },
        amount: Money::from_nano(10),
    };
    wallet.apply_debit(debit).unwrap();
    assert_eq!(wallet.balance(), Money::from_nano(20));
    assert_eq!(wallet.next_debit(), 1);
}
