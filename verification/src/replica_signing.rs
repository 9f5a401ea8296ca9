//! The replica signer: co-signs validated debits, credits and credit
//! agreement proofs with this replica's key share, and runs the genesis
//! ceremony when bootstrapping.
//!
//! The secret never lives here; every share comes from the signer
//! gateway the replica was constructed with.

use vstd::prelude::*;

use crate::crypto::{
    combine_of, credit_proof_ser, credit_ser, group_key, group_key_of, serialise_credit_proof,
    serialise_signed_credit, serialise_signed_debit, signed_credit_ser, signed_debit_ser,
};
use crate::genesis;
use crate::genesis::genesis_credit_view;
use crate::types::{
    clone_bytes, CreditAgreementProof, PublicKeySet, PublicKeyShare, SignatureShare, SignedCredit,
    SignedDebit, SignedTransfer,
};
use crate::{Error, Outcome, SignerTrait};

verus! {

/// The signing half of a replica: holds this replica's share identity
/// and group key set, and a handle to the signer gateway.
pub struct ReplicaSigning<S: SignerTrait> {
    /// The public key share of this replica.
    id: PublicKeyShare,
    /// The signer gateway, defined at upper layers.
    signer: S,
    /// The index of this replica's key share in the group set.
    key_index: usize,
    /// The key set of the own peer group.
    peer_replicas: PublicKeySet,
}

impl<S: SignerTrait> ReplicaSigning<S> {
    /// The index of this replica's key share in the group set.
    pub closed spec fn spec_key_index(self) -> usize {
        self.key_index
    }

    /// Canonical encoding of the own group's key set.
    pub closed spec fn spec_peer_replicas(self) -> Seq<u8> {
        self.peer_replicas@
    }

    /// Canonical encoding of this replica's key share.
    pub closed spec fn spec_id(self) -> Seq<u8> {
        self.id@
    }

    /// A new instance.
    pub fn new(signer: S, id: PublicKeyShare, key_index: usize, peer_replicas: PublicKeySet) -> (r:
        Self)
        ensures
            r.spec_id() == id@,
            r.spec_key_index() == key_index,
            r.spec_peer_replicas() == peer_replicas@,
    {
        ReplicaSigning { signer, id, key_index, peer_replicas }
    }

    /// The own group's key set.
    pub fn replicas_pk_set(&self) -> (r: PublicKeySet)
        ensures
            r@ == self.spec_peer_replicas(),
    {
        PublicKeySet { bytes: clone_bytes(&self.peer_replicas.bytes) }
    }

    /// Runs the genesis ceremony: the minted credit goes to the own
    /// group's aggregate key, and both signatures of the returned proof
    /// are single-share combinations under the own group's key set.
    pub fn try_genesis(&self, balance: u64) -> (r: Result<CreditAgreementProof, Error>)
        ensures
            r matches Ok(p) ==> ({
                &&& group_key_of(self.spec_peer_replicas()) matches Some(k)
                    && p.signed_credit.credit@ == genesis_credit_view(balance, k)
                &&& p.debiting_replicas_keys@ == self.spec_peer_replicas()
                &&& signed_credit_ser(p.signed_credit@) is Some
                &&& exists|s1: Seq<u8>|
                    combine_of(self.spec_peer_replicas(), seq![(0usize, s1)]) == Some(
                        p.signed_credit.actor_signature@,
                    )
                &&& exists|s2: Seq<u8>|
                    combine_of(self.spec_peer_replicas(), seq![(0usize, s2)]) == Some(
                        p.debiting_replicas_sig@,
                    )
            }),
            group_key_of(self.spec_peer_replicas()) is None ==> r == Err::<
                CreditAgreementProof,
                Error,
            >(Error::Serialisation),
            group_key_of(self.spec_peer_replicas()) matches Some(k) && credit_ser(
                genesis_credit_view(balance, k),
            ) is None ==> r == Err::<CreditAgreementProof, Error>(Error::Serialisation),
    {
        let pk = match group_key(&self.peer_replicas) {
            Ok(k) => k,
            Err(e) => {
                return Err(e);
            },
        };
        let keys = PublicKeySet { bytes: clone_bytes(&self.peer_replicas.bytes) };
        let r = genesis::get_genesis(balance, pk, keys, &self.signer);
        proof {
            if r is Ok {
                let p = r->Ok_0;
                let s1 = choose|s1: Seq<u8>|
                    combine_of(keys@, seq![(0usize, s1)]) == Some(
                        p.signed_credit.actor_signature@,
                    );
                assert(combine_of(self.peer_replicas@, seq![(0usize, s1)]) == Some(
                    p.signed_credit.actor_signature@,
                ));
                let s2 = choose|s2: Seq<u8>|
                    combine_of(keys@, seq![(0usize, s2)]) == Some(p.debiting_replicas_sig@);
                assert(combine_of(self.peer_replicas@, seq![(0usize, s2)]) == Some(
                    p.debiting_replicas_sig@,
                ));
            }
        }
        r
    }

    /// Co-signs a validated debit: this replica's share over the
    /// canonical bytes of the signed debit, tagged with its key index.
    pub fn sign_validated_debit(&self, debit: &SignedDebit) -> (r: Outcome<SignatureShare>)
        ensures
            r matches Ok(s) ==> s matches Some(sh) && sh.index == self.spec_key_index()
                && signed_debit_ser(debit@) is Some,
            signed_debit_ser(debit@) is None ==> r == Outcome::<SignatureShare>::Err(
                Error::Serialisation,
            ),
    {
        let data = match serialise_signed_debit(debit) {
            Ok(b) => b,
            Err(e) => {
                return Err(e);
            },
        };
        match self.signer.sign_with_secret_key_share(&data) {
            Ok(share) => Ok(Some(SignatureShare { index: self.key_index, share })),
            Err(e) => Err(e),
        }
    }

    /// Co-signs a validated credit, as for the debit half.
    pub fn sign_validated_credit(&self, credit: &SignedCredit) -> (r: Outcome<SignatureShare>)
        ensures
            r matches Ok(s) ==> s matches Some(sh) && sh.index == self.spec_key_index()
                && signed_credit_ser(credit@) is Some,
            signed_credit_ser(credit@) is None ==> r == Outcome::<SignatureShare>::Err(
                Error::Serialisation,
            ),
    {
        let data = match serialise_signed_credit(credit) {
            Ok(b) => b,
            Err(e) => {
                return Err(e);
            },
        };
        match self.signer.sign_with_secret_key_share(&data) {
            Ok(share) => Ok(Some(SignatureShare { index: self.key_index, share })),
            Err(e) => Err(e),
        }
    }

    /// Co-signs a credit agreement proof for propagation.
    pub fn sign_credit_proof(&self, proof: &CreditAgreementProof) -> (r: Outcome<SignatureShare>)
        ensures
            r matches Ok(s) ==> s matches Some(sh) && sh.index == self.spec_key_index()
                && credit_proof_ser(proof@) is Some,
            credit_proof_ser(proof@) is None ==> r == Outcome::<SignatureShare>::Err(
                Error::Serialisation,
            ),
    {
        let data = match serialise_credit_proof(proof) {
            Ok(b) => b,
            Err(e) => {
                return Err(e);
            },
        };
        match self.signer.sign_with_secret_key_share(&data) {
            Ok(share) => Ok(Some(SignatureShare { index: self.key_index, share })),
            Err(e) => Err(e),
        }
    }

    /// Co-signs both halves of a transfer: either both shares are
    /// returned, or the call fails.
    pub fn sign_transfer(&self, signed_transfer: &SignedTransfer) -> (r: Outcome<
        (SignatureShare, SignatureShare),
    >)
        ensures
            r matches Ok(s) ==> s matches Some(p) && p.0.index == self.spec_key_index()
                && p.1.index == self.spec_key_index(),
            signed_debit_ser(signed_transfer.debit@) is None ==> r == Outcome::<
                (SignatureShare, SignatureShare),
            >::Err(Error::Serialisation),
            signed_credit_ser(signed_transfer.credit@) is None ==> r == Outcome::<
                (SignatureShare, SignatureShare),
            >::Err(Error::Serialisation),
    {
        // Surface an unencodable credit half before any signing, so
        // that encoding failures map to the serialisation error on
        // both halves.
        match serialise_signed_credit(&signed_transfer.credit) {
            Ok(_) => {},
            Err(e) => {
                return Err(e);
            },
        }
        let replica_debit_sig = match self.sign_validated_debit(&signed_transfer.debit) {
            Ok(s) => s,
            Err(e) => {
                return Err(e);
            },
        };
        let replica_credit_sig = match self.sign_validated_credit(&signed_transfer.credit) {
            Ok(s) => s,
            Err(e) => {
                return Err(e);
            },
        };
        match (replica_debit_sig, replica_credit_sig) {
            (Some(rds), Some(rcs)) => Ok(Some((rds, rcs))),
            _ => Err(Error::InvalidSignature),
        }
    }
}

} // verus!
