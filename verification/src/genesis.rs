//! The genesis ceremony: minting the system's only out-of-thin-air
//! balance.
//!
//! Nothing comes before genesis, so the initial credit is signed over
//! by the bootstrapping group itself: once acting as the actor and once
//! acting as the replica group, in both roles over the canonical bytes
//! of the credit.

use vstd::prelude::*;

use crate::crypto::{
    combine_of, combine_signatures, credit_ser, serialise_credit, serialise_signed_credit,
    shares_view, signed_credit_ser,
};
use crate::types::{
    Credit, CreditAgreementProof, CreditAgreementProofV, CreditId, CreditV, Money, PublicKey,
    PublicKeySet, Signature, SignatureShare, SignedCredit, SignedCreditV,
};
use crate::{Error, SignerTrait};

verus! {

/// The ambient secret key set of a threshold scheme; held only by the
/// multi-share genesis helper, which signs with every share locally.
#[verifier::external_type_specification]
#[verifier::external_body]
pub struct ExSecretKeySet(threshold_crypto::SecretKeySet);

/// The threshold of a secret key set: the degree of its polynomial.
/// `threshold + 1` shares combine into a full signature.
pub uninterp spec fn sks_threshold_of(s: threshold_crypto::SecretKeySet) -> usize;

/// The canonical encoding of the public key set matching a secret key
/// set, or none where it cannot be encoded.
pub uninterp spec fn sks_public_keys_of(s: threshold_crypto::SecretKeySet) -> Option<Seq<u8>>;

/// The canonical encoding of the signature share of the holder of
/// share `index` of the set over `msg`, or none where it cannot be
/// encoded.
pub uninterp spec fn sks_sign_of(
    s: threshold_crypto::SecretKeySet,
    index: usize,
    msg: Seq<u8>,
) -> Option<Seq<u8>>;

/// Relies on `threshold_crypto::SecretKeySet::threshold`: the degree of
/// the set's polynomial, a deterministic function of the set.
#[verifier::external_body]
fn sks_threshold(s: &threshold_crypto::SecretKeySet) -> (r: usize)
    ensures
        r == sks_threshold_of(*s),
{
    s.threshold()
}

/// Relies on `threshold_crypto::SecretKeySet::public_keys`: the
/// matching public key set, a deterministic function of the set,
/// returned in canonical encoding.
#[verifier::external_body]
fn sks_public_keys(s: &threshold_crypto::SecretKeySet) -> (r: Result<PublicKeySet, Error>)
    ensures
        r matches Ok(k) ==> sks_public_keys_of(*s) == Some(k@),
        r matches Err(e) ==> sks_public_keys_of(*s) is None && e == Error::Serialisation,
{
    let bytes = bincode::serialize(&s.public_keys()).map_err(|_| Error::Serialisation)?;
    Ok(PublicKeySet { bytes })
}

/// Relies on `threshold_crypto::SecretKeyShare::sign`: the signature
/// share of the holder of share `index` over `msg`, deterministic in
/// the set, the index and the message, in canonical encoding.
#[verifier::external_body]
fn sks_sign(s: &threshold_crypto::SecretKeySet, index: usize, msg: &Vec<u8>) -> (r: Result<
    Vec<u8>,
    Error,
>)
    ensures
        r matches Ok(b) ==> sks_sign_of(*s, index, msg@) == Some(b@),
        r matches Err(e) ==> sks_sign_of(*s, index, msg@) is None && e == Error::Serialisation,
{
    let share = s.secret_key_share(index).sign(msg);
    bincode::serialize(&share).map_err(|_| Error::Serialisation)
}

/// The genesis credit as a ghost value: `balance` nano to `id`, under
/// the all-zero credit id and the message "genesis".
pub open spec fn genesis_credit_view(balance: u64, id: Seq<u8>) -> CreditV {
    CreditV {
        id: Seq::new(32, |i: int| 0u8),
        amount: balance,
        recipient: id,
        msg: "genesis"@,
    }
}

/// Whether every one of the set's first `threshold + 1` signature
/// shares over `msg` encodes.
pub open spec fn all_shares_defined(
    s: threshold_crypto::SecretKeySet,
    t: usize,
    msg: Seq<u8>,
) -> bool {
    forall|j: int| 0 <= j <= t ==> (#[trigger] sks_sign_of(s, j as usize, msg)) is Some
}

/// The set's first `threshold + 1` signature shares over `msg`, share
/// `j` at index `j`.
pub open spec fn shares_of(s: threshold_crypto::SecretKeySet, t: usize, msg: Seq<u8>) -> Seq<
    (usize, Seq<u8>),
> {
    Seq::new(t as nat + 1, |j: int| (j as usize, sks_sign_of(s, j as usize, msg)->Some_0))
}

/// The id of the genesis credit: nothing precedes it, so the id is the
/// all-zero hash.
fn default_credit_id() -> (r: CreditId)
    ensures
        r@ == Seq::new(32, |i: int| 0u8),
{
    let mut bytes: Vec<u8> = Vec::new();
    let mut i: usize = 0;
    while i < 32
        invariant
            i <= 32,
            bytes@.len() == i,
            forall|j: int| 0 <= j < i ==> bytes@[j] == 0u8,
        decreases 32 - i,
    {
        bytes.push(0u8);
        i = i + 1;
    }
    proof {
        assert(bytes@ =~= Seq::new(32, |i: int| 0u8));
    }
    CreditId { bytes }
}

/// The genesis credit itself.
fn genesis_credit(balance: u64, id: PublicKey) -> (r: Credit)
    ensures
        r@ == genesis_credit_view(balance, id@),
{
    let credit = Credit {
        id: default_credit_id(),
        amount: Money::from_nano(balance),
        recipient: id,
        msg: "genesis".to_owned(),
    };
    proof {
        assert(credit@ =~= genesis_credit_view(balance, credit.recipient@));
    }
    credit
}

/// Combines the one share of the bootstrapping node, placed at share
/// index zero, under the group's key set.
fn combine_single_share(peer_replicas: &PublicKeySet, share: Vec<u8>) -> (r: Result<
    Signature,
    Error,
>)
    ensures
        r matches Ok(sig) ==> combine_of(peer_replicas@, seq![(0usize, share@)]) == Some(sig@),
        r matches Err(e) ==> combine_of(peer_replicas@, seq![(0usize, share@)]) is None && e
            == Error::CannotAggregate,
{
    let ghost share_bytes = share@;
    let mut shares: Vec<SignatureShare> = Vec::new();
    shares.push(SignatureShare { index: 0, share });
    proof {
        assert(shares_view(shares@) =~= seq![(0usize, share_bytes)]);
    }
    combine_signatures(peer_replicas, &shares)
}

/// Produces a genesis balance for a new network, with the one available
/// signer acting first as the actor and then as the replica group. The
/// single share is placed at share index zero, which is this
/// bootstrapping node's index; both signatures of the returned proof
/// are single-share combinations under the carried key set.
pub fn get_genesis<S: SignerTrait>(
    balance: u64,
    id: PublicKey,
    peer_replicas: PublicKeySet,
    signer: &S,
) -> (r: Result<CreditAgreementProof, Error>)
    ensures
        r matches Ok(p) ==> ({
            &&& p.signed_credit.credit@ == genesis_credit_view(balance, id@)
            &&& p.debiting_replicas_keys@ == peer_replicas@
            &&& signed_credit_ser(p.signed_credit@) is Some
            &&& exists|s1: Seq<u8>|
                combine_of(peer_replicas@, seq![(0usize, s1)]) == Some(
                    p.signed_credit.actor_signature@,
                )
            &&& exists|s2: Seq<u8>|
                combine_of(peer_replicas@, seq![(0usize, s2)]) == Some(p.debiting_replicas_sig@)
        }),
        credit_ser(genesis_credit_view(balance, id@)) is None ==> r == Err::<
            CreditAgreementProof,
            Error,
        >(Error::Serialisation),
{
    let credit = genesis_credit(balance, id);

    // The actor's signature over the credit.
    let serialised_credit = match serialise_credit(&credit) {
        Ok(b) => b,
        Err(e) => {
            return Err(e);
        },
    };
    let credit_sig_share = match signer.sign_with_secret_key_share(&serialised_credit) {
        Ok(s) => s,
        Err(e) => {
            return Err(e);
        },
    };
    let actor_signature = match combine_single_share(&peer_replicas, credit_sig_share) {
        Ok(s) => s,
        Err(e) => {
            return Err(e);
        },
    };
    let signed_credit = SignedCredit { credit, actor_signature };

    // The replicas' signature over the signed credit.
    let serialised_signed = match serialise_signed_credit(&signed_credit) {
        Ok(b) => b,
        Err(e) => {
            return Err(e);
        },
    };
    let replica_sig_share = match signer.sign_with_secret_key_share(&serialised_signed) {
        Ok(s) => s,
        Err(e) => {
            return Err(e);
        },
    };
    let debiting_replicas_sig = match combine_single_share(&peer_replicas, replica_sig_share) {
        Ok(s) => s,
        Err(e) => {
            return Err(e);
        },
    };

    proof {
        assert(combine_of(peer_replicas@, seq![(0usize, credit_sig_share@)]) == Some(
            signed_credit.actor_signature@,
        ));
        assert(combine_of(peer_replicas@, seq![(0usize, replica_sig_share@)]) == Some(
            debiting_replicas_sig@,
        ));
    }
    Ok(CreditAgreementProof { signed_credit, debiting_replicas_sig, debiting_replicas_keys: peer_replicas })
}

/// Signs `msg` with the first `threshold + 1` secret key shares of the
/// set, each share stored at its own index, as combination requires.
#[verifier::loop_isolation(false)]
fn sign_with_all_shares(
    secret_key_set: &threshold_crypto::SecretKeySet,
    msg: &Vec<u8>,
) -> (r: Result<Vec<SignatureShare>, Error>)
    ensures
        ({
            let t = sks_threshold_of(*secret_key_set);
            &&& (r matches Ok(shares) ==> all_shares_defined(*secret_key_set, t, msg@)
                && shares_view(shares@) == shares_of(*secret_key_set, t, msg@))
            &&& (r matches Err(e) ==> !all_shares_defined(*secret_key_set, t, msg@) && e
                == Error::Serialisation)
        }),
{
    let t = sks_threshold(secret_key_set);
    let mut shares: Vec<SignatureShare> = Vec::new();
    let mut i: usize = 0;
    while i < t
        invariant
            i <= t,
            shares@.len() == i,
            forall|j: int|
                0 <= j < i ==> (#[trigger] sks_sign_of(*secret_key_set, j as usize, msg@)) is Some,
            forall|j: int|
                0 <= j < i ==> (#[trigger] shares@[j]) == (SignatureShare {
                    index: j as usize,
                    share: shares@[j].share,
                }) && shares@[j].share@ == sks_sign_of(*secret_key_set, j as usize, msg@)->Some_0,
        decreases t - i,
    {
        let share = match sks_sign(secret_key_set, i, msg) {
            Ok(s) => s,
            Err(e) => {
                proof {
                    let j0: int = i as int;
                    assert(sks_sign_of(*secret_key_set, j0 as usize, msg@) is None);
                    assert(!all_shares_defined(*secret_key_set, t, msg@));
                }
                return Err(e);
            },
        };
        shares.push(SignatureShare { index: i, share });
        i = i + 1;
    }
    let share = match sks_sign(secret_key_set, t, msg) {
        Ok(s) => s,
        Err(e) => {
            proof {
                let j0: int = t as int;
                assert(sks_sign_of(*secret_key_set, j0 as usize, msg@) is None);
                assert(!all_shares_defined(*secret_key_set, t, msg@));
            }
            return Err(e);
        },
    };
    shares.push(SignatureShare { index: t, share });
    proof {
        assert(shares_view(shares@) =~= shares_of(*secret_key_set, t, msg@));
    }
    Ok(shares)
}

/// The full outcome of the multi-share genesis ceremony, over the named
/// results of the outside calls it makes, in the order it makes them.
pub open spec fn spec_multi_genesis(
    balance: u64,
    id: Seq<u8>,
    s: threshold_crypto::SecretKeySet,
) -> Result<CreditAgreementProofV, Error> {
    let cv = genesis_credit_view(balance, id);
    let t = sks_threshold_of(s);
    match sks_public_keys_of(s) {
        None => Err(Error::Serialisation),
        Some(keys) => match credit_ser(cv) {
            None => Err(Error::Serialisation),
            Some(cb) => if !all_shares_defined(s, t, cb) {
                Err(Error::Serialisation)
            } else {
                match combine_of(keys, shares_of(s, t, cb)) {
                    None => Err(Error::CannotAggregate),
                    Some(actor_sig) => {
                        let scv = SignedCreditV { credit: cv, actor_signature: actor_sig };
                        match signed_credit_ser(scv) {
                            None => Err(Error::Serialisation),
                            Some(sb) => if !all_shares_defined(s, t, sb) {
                                Err(Error::Serialisation)
                            } else {
                                match combine_of(keys, shares_of(s, t, sb)) {
                                    None => Err(Error::CannotAggregate),
                                    Some(replica_sig) => Ok(
                                        CreditAgreementProofV {
                                            signed_credit: scv,
                                            debiting_replicas_sig: replica_sig,
                                            debiting_replicas_keys: keys,
                                        },
                                    ),
                                }
                            },
                        }
                    },
                }
            },
        },
    }
}

/// Produces a genesis balance for a new network with direct access to
/// all share secrets, assembling `threshold + 1` shares locally instead
/// of calling a signer gateway. Intended for tests and bootstrapping
/// experiments.
pub fn get_multi_genesis(
    balance: u64,
    id: PublicKey,
    secret_key_set: threshold_crypto::SecretKeySet,
) -> (r: Result<CreditAgreementProof, Error>)
    ensures
        match spec_multi_genesis(balance, id@, secret_key_set) {
            Ok(v) => r matches Ok(p) && p@ == v,
            Err(e) => r == Err::<CreditAgreementProof, Error>(e),
        },
{
    let credit = genesis_credit(balance, id);
    let peer_replicas = match sks_public_keys(&secret_key_set) {
        Ok(k) => k,
        Err(e) => {
            return Err(e);
        },
    };

    // The actor's signature over the credit.
    let serialised_credit = match serialise_credit(&credit) {
        Ok(b) => b,
        Err(e) => {
            return Err(e);
        },
    };
    let credit_sig_shares = match sign_with_all_shares(&secret_key_set, &serialised_credit) {
        Ok(s) => s,
        Err(e) => {
            return Err(e);
        },
    };
    let actor_signature = match combine_signatures(&peer_replicas, &credit_sig_shares) {
        Ok(s) => s,
        Err(e) => {
            return Err(e);
        },
    };
    let signed_credit = SignedCredit { credit, actor_signature };

    // The replicas' signature over the signed credit.
    let serialised_signed = match serialise_signed_credit(&signed_credit) {
        Ok(b) => b,
        Err(e) => {
            return Err(e);
        },
    };
    let replica_sig_shares = match sign_with_all_shares(&secret_key_set, &serialised_signed) {
        Ok(s) => s,
        Err(e) => {
            return Err(e);
        },
    };
    let debiting_replicas_sig = match combine_signatures(&peer_replicas, &replica_sig_shares) {
        Ok(s) => s,
        Err(e) => {
            return Err(e);
        },
    };

    let agreement = CreditAgreementProof {
        signed_credit,
        debiting_replicas_sig,
        debiting_replicas_keys: peer_replicas,
    };
    proof {
        assert(agreement@ =~= spec_multi_genesis(balance, id@, secret_key_set)->Ok_0);
    }
    Ok(agreement)
}

} // verus!
