//! General laws of the replica state machine, stated and proved over
//! the same spec functions that the executable functions are verified
//! against.

use vstd::prelude::*;

use crate::crypto::{
    combine_of, credit_id_of, credit_ser, sig_verifies, signed_credit_ser, signed_debit_ser,
};
use crate::genesis::{
    genesis_credit_view, shares_of, sks_public_keys_of, sks_sign_of, sks_threshold_of,
    spec_multi_genesis,
};
use crate::types::{
    CreditAgreementProof, CreditAgreementProofV, PublicKey, ReplicaEvent, SignedCredit,
    SignedDebit, TransferAgreementProof, TransferPropagated, TransferRegistered,
};
use crate::wallet_replica::{
    actor_sigs_ok, key_set_verifies, spec_replay, WalletReplicaV,
};
use crate::{Error, Outcome};

verus! {

/// The counters of the registered transfers in an event sequence, in
/// the order they appear.
pub open spec fn registered_counters(events: Seq<ReplicaEvent>) -> Seq<u64>
    decreases events.len(),
{
    if events.len() == 0 {
        Seq::empty()
    } else {
        let rest = registered_counters(events.skip(1));
        match events[0] {
            ReplicaEvent::TransferRegistered(e) => seq![
                e.transfer_proof.signed_debit.debit.id.counter,
            ] + rest,
            _ => rest,
        }
    }
}

/// Law: a replayed history applies its registered debits in strict
/// counter order with no gaps — the k-th registered debit carries
/// counter `debit_count + k`, starting from the wallet's counter at the
/// beginning of the replay.
pub proof fn lemma_registered_debits_sequential(
    s: WalletReplicaV,
    events: Seq<ReplicaEvent>,
    t: WalletReplicaV,
)
    requires
        spec_replay(s, events) == Ok::<WalletReplicaV, Error>(t),
    ensures
        t.wallet.debit_count == s.wallet.debit_count + registered_counters(events).len(),
        forall|k: int|
            0 <= k < registered_counters(events).len() ==> registered_counters(events)[k]
                == s.wallet.debit_count + k,
    decreases events.len(),
{
    if events.len() == 0 {
    } else {
        let s2 = s.spec_apply(events[0])->Ok_0;
        lemma_registered_debits_sequential(s2, events.skip(1), t);
        let cs = registered_counters(events);
        let rest = registered_counters(events.skip(1));
        match events[0] {
            ReplicaEvent::TransferRegistered(e) => {
                assert(cs == seq![e.transfer_proof.signed_debit.debit.id.counter] + rest);
                assert(cs[0] == e.transfer_proof.signed_debit.debit.id.counter);
                assert(e.transfer_proof.signed_debit.debit.id.counter == s.wallet.debit_count);
                assert(s2.wallet.debit_count == s.wallet.debit_count + 1);
                assert(forall|k: int| 0 <= k < rest.len() ==> cs[k + 1] == rest[k]);
            },
            _ => {
                assert(s2.wallet.debit_count == s.wallet.debit_count);
                assert(cs == rest);
            },
        }
    }
}

/// Law: a credit agreement proof applies exactly once. Where receiving
/// it succeeds and the corresponding event applies, receiving the same
/// proof again is a valid no-op, and the balance has grown by exactly
/// the credit amount, once.
pub proof fn lemma_duplicate_credit(
    s: WalletReplicaV,
    p: CreditAgreementProof,
    past: Result<PublicKey, Error>,
    t: WalletReplicaV,
)
    requires
        s.spec_receive_propagated(p, past) == Ok::<Option<()>, Error>(Some(())),
        s.spec_apply(
            ReplicaEvent::TransferPropagated(TransferPropagated { credit_proof: p }),
        ) == Ok::<WalletReplicaV, Error>(t),
    ensures
        t.spec_receive_propagated(p, past) == Ok::<Option<()>, Error>(None),
        t.wallet.balance == s.wallet.balance + p.signed_credit.credit.amount.nano,
{
    let id = p.signed_credit.credit.id@;
    let n = s.wallet.credit_ids.len() as int;
    assert(t.wallet.credit_ids[n] == id);
    assert(t.wallet.contains_credit(id));
    let cb = signed_credit_ser(p.signed_credit@)->Some_0;
    if !key_set_verifies(s.peer_replicas, p.debiting_replicas_sig@, cb) {
        match past {
            Ok(k) => {
                if !sig_verifies(k@, p.debiting_replicas_sig@, cb) {
                    let i = choose|i: int|
                        0 <= i < s.other_groups.len() && key_set_verifies(
                            #[trigger] s.other_groups[i],
                            p.debiting_replicas_sig@,
                            cb,
                        );
                    assert(0 <= i < t.other_groups.len() && key_set_verifies(
                        t.other_groups[i],
                        p.debiting_replicas_sig@,
                        cb,
                    ));
                }
            },
            Err(_) => {
                assert(false);
            },
        }
    }
}

/// Law: validation accepts exactly when every precondition holds — the
/// actor signed both halves, sender and recipient differ, the credit id
/// derives from the debit, the amounts agree and are positive, the
/// debit names this wallet, the counter is the next expected, and the
/// balance suffices.
pub proof fn lemma_validate_accepts_iff(s: WalletReplicaV, sd: SignedDebit, sc: SignedCredit)
    ensures
        s.spec_validate(sd, sc) == Ok::<Option<()>, Error>(Some(())) <==> {
            &&& actor_sigs_ok(sd, sc)
            &&& sd.debit.id.actor@ != sc.credit.recipient@
            &&& credit_id_of(sd.debit.id@) == Some(sc.credit.id@)
            &&& sc.credit.amount.nano == sd.debit.amount.nano
            &&& sd.debit.amount.nano != 0
            &&& s.wallet.id == sd.debit.id.actor@
            &&& s.counter_ok(sd.debit.id.counter)
            &&& sd.debit.amount.nano <= s.wallet.balance
        },
{
}

/// Whether any acceptable key — the own group's, the past key, or a
/// known group's — accepts the aggregate signature of a propagated
/// proof.
pub open spec fn propagated_proof_ok(
    s: WalletReplicaV,
    p: CreditAgreementProof,
    past: Result<PublicKey, Error>,
) -> bool {
    match signed_credit_ser(p.signed_credit@) {
        Some(cb) => {
            ||| key_set_verifies(s.peer_replicas, p.debiting_replicas_sig@, cb)
            ||| (past matches Ok(k) && sig_verifies(k@, p.debiting_replicas_sig@, cb))
            ||| exists|i: int|
                0 <= i < s.other_groups.len() && key_set_verifies(
                    #[trigger] s.other_groups[i],
                    p.debiting_replicas_sig@,
                    cb,
                )
        },
        None => false,
    }
}

/// Law: signatures are checked before anything else. A forged
/// signature is answered with the signature error, whatever the other
/// fields and whatever the wallet state.
pub proof fn lemma_signature_checked_first(
    s: WalletReplicaV,
    sd: SignedDebit,
    sc: SignedCredit,
    p: TransferAgreementProof,
    cp: CreditAgreementProof,
    past: Result<PublicKey, Error>,
)
    ensures
        !actor_sigs_ok(sd, sc) ==> s.spec_validate(sd, sc) == Outcome::<()>::Err(
            Error::InvalidSignature,
        ),
        !s.registered_proof_ok(p, past) ==> s.spec_register(p, past) == Outcome::<
            TransferRegistered,
        >::Err(Error::InvalidSignature),
        signed_credit_ser(cp.signed_credit@) is Some && past is Ok && !propagated_proof_ok(
            s,
            cp,
            past,
        ) ==> s.spec_receive_propagated(cp, past) == Outcome::<()>::Err(Error::InvalidSignature),
{
}

/// Law: genesis is one-shot. After a genesis proof of a positive
/// amount has been accepted and applied, any further genesis call on
/// the same replica is rejected as an invalid operation.
pub proof fn lemma_genesis_one_shot(
    s: WalletReplicaV,
    p: CreditAgreementProof,
    past: Result<PublicKey, Error>,
    t: WalletReplicaV,
    p2: CreditAgreementProof,
    past2: Result<PublicKey, Error>,
)
    requires
        p.signed_credit.credit.amount.nano > 0,
        s.spec_genesis(p, past) == Ok::<Option<()>, Error>(Some(())),
        s.spec_apply(
            ReplicaEvent::TransferPropagated(TransferPropagated { credit_proof: p }),
        ) == Ok::<WalletReplicaV, Error>(t),
    ensures
        t.spec_genesis(p2, past2) == Outcome::<()>::Err(Error::InvalidOperation),
{
    assert(s.wallet.balance == 0);
    assert(t.wallet.balance == p.signed_credit.credit.amount.nano);
}

/// Law: replay distributes over appending one event — rebuilding from a
/// history extended by `e` is replaying the history and then applying
/// `e`. With the contract of `from_history`, this says that a replica
/// built from a history equals a fresh replica taken through `apply`,
/// event by event.
pub proof fn lemma_replay_snoc(s: WalletReplicaV, events: Seq<ReplicaEvent>, e: ReplicaEvent)
    ensures
        spec_replay(s, events.push(e)) == (match spec_replay(s, events) {
            Ok(t) => t.spec_apply(e),
            Err(err) => Err::<WalletReplicaV, Error>(err),
        }),
    decreases events.len(),
{
    if events.len() == 0 {
        assert(events.push(e)[0] == e);
        assert(events.push(e).skip(1) =~= Seq::<ReplicaEvent>::empty());
        match s.spec_apply(e) {
            Ok(s2) => {
                assert(spec_replay(s2, events.push(e).skip(1)) == Ok::<WalletReplicaV, Error>(s2));
                assert(spec_replay(s, events) == Ok::<WalletReplicaV, Error>(s));
            },
            Err(_) => {},
        }
    } else {
        assert(events.push(e)[0] == events[0]);
        assert(events.push(e).skip(1) =~= events.skip(1).push(e));
        match s.spec_apply(events[0]) {
            Ok(s2) => {
                lemma_replay_snoc(s2, events.skip(1), e);
            },
            Err(_) => {},
        }
    }
}

/// Law: a proof signed by a historical group key is accepted exactly
/// when the caller-provided past key is that key. Where the structural
/// checks pass but the own group's key refuses the proof, registration
/// turns on the past key: it is accepted if that key signed both
/// halves, and rejected as an invalid signature if it did not.
pub proof fn lemma_register_past_key_tolerance(
    s: WalletReplicaV,
    p: TransferAgreementProof,
    k: PublicKey,
)
    requires
        s.register_consults_past(p),
    ensures
        (signed_debit_ser(p.signed_debit@) matches Some(db) && signed_credit_ser(p.signed_credit@)
            matches Some(cb) && sig_verifies(k@, p.debit_sig@, db) && sig_verifies(
            k@,
            p.credit_sig@,
            cb,
        )) ==> s.registered_proof_ok(p, Ok(k)),
        !(signed_debit_ser(p.signed_debit@) matches Some(db) && signed_credit_ser(
            p.signed_credit@,
        ) matches Some(cb) && sig_verifies(k@, p.debit_sig@, db) && sig_verifies(
            k@,
            p.credit_sig@,
            cb,
        )) ==> s.spec_register(p, Ok(k)) == Outcome::<TransferRegistered>::Err(
            Error::InvalidSignature,
        ),
{
}

/// Law: at threshold zero, the multi-share genesis ceremony coincides
/// with the gateway ceremony: its one share is the set's share zero,
/// so both signatures of its proof are single-share combinations at
/// index zero under the derived key set — the very shape the gateway
/// ceremony's contract promises of its proof. The two paths differ
/// only in who produced that share.
pub proof fn lemma_multi_genesis_single_share(
    balance: u64,
    id: Seq<u8>,
    s: threshold_crypto::SecretKeySet,
    v: CreditAgreementProofV,
)
    requires
        sks_threshold_of(s) == 0,
        spec_multi_genesis(balance, id, s) == Ok::<CreditAgreementProofV, Error>(v),
    ensures
        v.signed_credit.credit == genesis_credit_view(balance, id),
        sks_public_keys_of(s) == Some(v.debiting_replicas_keys),
        signed_credit_ser(v.signed_credit) is Some,
        exists|s1: Seq<u8>|
            combine_of(v.debiting_replicas_keys, seq![(0usize, s1)]) == Some(
                v.signed_credit.actor_signature,
            ),
        exists|s2: Seq<u8>|
            combine_of(v.debiting_replicas_keys, seq![(0usize, s2)]) == Some(
                v.debiting_replicas_sig,
            ),
{
    let cv = genesis_credit_view(balance, id);
    let keys = sks_public_keys_of(s)->Some_0;
    let cb = credit_ser(cv)->Some_0;
    assert(shares_of(s, 0, cb) =~= seq![(0usize, sks_sign_of(s, 0usize, cb)->Some_0)]);
    assert(combine_of(keys, seq![(0usize, sks_sign_of(s, 0usize, cb)->Some_0)]) == Some(
        v.signed_credit.actor_signature,
    ));
    let sb = signed_credit_ser(v.signed_credit)->Some_0;
    assert(shares_of(s, 0, sb) =~= seq![(0usize, sks_sign_of(s, 0usize, sb)->Some_0)]);
    assert(combine_of(keys, seq![(0usize, sks_sign_of(s, 0usize, sb)->Some_0)]) == Some(
        v.debiting_replicas_sig,
    ));
}

} // verus!
