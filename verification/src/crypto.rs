//! Trusted boundary to the ambient cryptography and canonical encoding.
//!
//! All signatures in this system are computed over the canonical binary
//! encoding of the ambient data model, and verified with the ambient
//! multi-scheme public keys. Those computations are deterministic
//! functions of their byte-level inputs, so each one is given a name
//! here (an uninterpreted spec function) and a wrapper whose contract
//! ties the executable call to that name. The conversions inside the
//! wrapper bodies turn this crate's byte-encoded values into the
//! ambient types and back, one for one.

use sn_data_types as sn;
use vstd::prelude::*;

use crate::types::{
    Credit, CreditAgreementProof, CreditAgreementProofV, CreditId, CreditV, Debit, DebitId,
    DebitIdV, DebitV, PublicKey, PublicKeySet, Signature, SignatureShare, SignedCredit,
    SignedCreditV, SignedDebit, SignedDebitV,
};
use crate::Error;

verus! {

/// The canonical bytes of a debit, or none where the debit cannot be
/// encoded (its actor bytes are not a valid key encoding).
pub uninterp spec fn debit_ser(d: DebitV) -> Option<Seq<u8>>;

/// The canonical bytes of a credit, or none where it cannot be encoded.
pub uninterp spec fn credit_ser(c: CreditV) -> Option<Seq<u8>>;

/// The canonical bytes of a signed debit, or none where it cannot be
/// encoded.
pub uninterp spec fn signed_debit_ser(d: SignedDebitV) -> Option<Seq<u8>>;

/// The canonical bytes of a signed credit, or none where it cannot be
/// encoded.
pub uninterp spec fn signed_credit_ser(c: SignedCreditV) -> Option<Seq<u8>>;

/// The canonical bytes of a credit agreement proof, or none where it
/// cannot be encoded.
pub uninterp spec fn credit_proof_ser(p: CreditAgreementProofV) -> Option<Seq<u8>>;

/// Whether the key encoded by `key` accepts `sig` as a signature over
/// `msg`.
pub uninterp spec fn sig_verifies(key: Seq<u8>, sig: Seq<u8>, msg: Seq<u8>) -> bool;

/// The credit id derived from a debit id (the hash of its canonical
/// bytes), or none where the debit id cannot be encoded.
pub uninterp spec fn credit_id_of(id: DebitIdV) -> Option<Seq<u8>>;

/// The signature combined from the given (index, share) pairs under
/// the encoded key set, in canonical encoding, or none where the set
/// does not decode to a usable key set, a share does not decode, or
/// the shares do not suffice.
pub uninterp spec fn combine_of(set: Seq<u8>, shares: Seq<(usize, Seq<u8>)>) -> Option<Seq<u8>>;

/// The plain value of a share list: each share as its index and bytes.
pub open spec fn shares_view(shares: Seq<SignatureShare>) -> Seq<(usize, Seq<u8>)> {
    shares.map_values(|s: SignatureShare| (s.index, s.share@))
}

/// The canonical encoding of the aggregate public key of an encoded key
/// set, or none where the bytes are not a valid key-set encoding.
pub uninterp spec fn group_key_of(set: Seq<u8>) -> Option<Seq<u8>>;

/// Relies on `bincode::serialize` over `sn_data_types::Debit`: the
/// canonical debit encoding, a deterministic function of the debit.
#[verifier::external_body]
pub(crate) fn serialise_debit(d: &Debit) -> (r: Result<Vec<u8>, Error>)
    ensures
        r matches Ok(b) ==> debit_ser(d@) == Some(b@),
        r matches Err(e) ==> debit_ser(d@) is None && e == Error::Serialisation,
{
    let actor = bincode::deserialize(&d.id.actor.bytes).map_err(|_| Error::Serialisation)?;
    let debit = sn::Debit {
        id: sn::DebitId::new(actor, d.id.counter),
        amount: sn::Token::from_nano(d.amount.nano),
    };
    bincode::serialize(&debit).map_err(|_| Error::Serialisation)
}

/// Relies on `bincode::serialize` over `sn_data_types::Credit`: the
/// canonical credit encoding, a deterministic function of the credit.
#[verifier::external_body]
pub(crate) fn serialise_credit(c: &Credit) -> (r: Result<Vec<u8>, Error>)
    ensures
        r matches Ok(b) ==> credit_ser(c@) == Some(b@),
        r matches Err(e) ==> credit_ser(c@) is None && e == Error::Serialisation,
{
    let recipient = bincode::deserialize(&c.recipient.bytes).map_err(|_| Error::Serialisation)?;
    let id: sn::CreditId =
        c.id.bytes.as_slice().try_into().map_err(|_| Error::Serialisation)?;
    let amount = sn::Token::from_nano(c.amount.nano);
    let credit = sn::Credit { id, amount, recipient, msg: c.msg.clone() };
    bincode::serialize(&credit).map_err(|_| Error::Serialisation)
}

/// Relies on `bincode::serialize` over `sn_data_types::SignedDebit`:
/// the canonical signed-debit encoding, a deterministic function of it.
#[verifier::external_body]
pub(crate) fn serialise_signed_debit(d: &SignedDebit) -> (r: Result<Vec<u8>, Error>)
    ensures
        r matches Ok(b) ==> signed_debit_ser(d@) == Some(b@),
        r matches Err(e) ==> signed_debit_ser(d@) is None && e == Error::Serialisation,
{
    let actor = bincode::deserialize(&d.debit.id.actor.bytes).map_err(|_| Error::Serialisation)?;
    let debit = sn::Debit {
        id: sn::DebitId::new(actor, d.debit.id.counter),
        amount: sn::Token::from_nano(d.debit.amount.nano),
    };
    let actor_signature =
        bincode::deserialize(&d.actor_signature.bytes).map_err(|_| Error::Serialisation)?;
    bincode::serialize(&sn::SignedDebit { debit, actor_signature })
        .map_err(|_| Error::Serialisation)
}

/// Relies on `bincode::serialize` over `sn_data_types::SignedCredit`:
/// the canonical signed-credit encoding, a deterministic function of it.
#[verifier::external_body]
pub(crate) fn serialise_signed_credit(c: &SignedCredit) -> (r: Result<Vec<u8>, Error>)
    ensures
        r matches Ok(b) ==> signed_credit_ser(c@) == Some(b@),
        r matches Err(e) ==> signed_credit_ser(c@) is None && e == Error::Serialisation,
{
    let recipient =
        bincode::deserialize(&c.credit.recipient.bytes).map_err(|_| Error::Serialisation)?;
    let id: sn::CreditId =
        c.credit.id.bytes.as_slice().try_into().map_err(|_| Error::Serialisation)?;
    let amount = sn::Token::from_nano(c.credit.amount.nano);
    let credit = sn::Credit { id, amount, recipient, msg: c.credit.msg.clone() };
    let actor_signature =
        bincode::deserialize(&c.actor_signature.bytes).map_err(|_| Error::Serialisation)?;
    bincode::serialize(&sn::SignedCredit { credit, actor_signature })
        .map_err(|_| Error::Serialisation)
}

/// Relies on `bincode::serialize` over
/// `sn_data_types::CreditAgreementProof`: the canonical proof encoding,
/// a deterministic function of it.
#[verifier::external_body]
pub(crate) fn serialise_credit_proof(p: &CreditAgreementProof) -> (r: Result<Vec<u8>, Error>)
    ensures
        r matches Ok(b) ==> credit_proof_ser(p@) == Some(b@),
        r matches Err(e) ==> credit_proof_ser(p@) is None && e == Error::Serialisation,
{
    let bytes = serialise_signed_credit(&p.signed_credit)?;
    let signed_credit: sn::SignedCredit =
        bincode::deserialize(&bytes).map_err(|_| Error::Serialisation)?;
    let debiting_replicas_sig =
        bincode::deserialize(&p.debiting_replicas_sig.bytes).map_err(|_| Error::Serialisation)?;
    let debiting_replicas_keys =
        bincode::deserialize(&p.debiting_replicas_keys.bytes).map_err(|_| Error::Serialisation)?;
    let proof =
        sn::CreditAgreementProof { signed_credit, debiting_replicas_sig, debiting_replicas_keys };
    bincode::serialize(&proof).map_err(|_| Error::Serialisation)
}

/// Relies on `sn_data_types::PublicKey::verify`: deterministic in the
/// key, the signature and the message bytes; any undecodable input
/// simply fails to verify.
#[verifier::external_body]
pub(crate) fn verify_signature(key: &PublicKey, sig: &Signature, msg: &Vec<u8>) -> (r: bool)
    ensures
        r == sig_verifies(key@, sig@, msg@),
{
    let k: sn::PublicKey = match bincode::deserialize(&key.bytes) {
        Ok(k) => k,
        Err(_) => return false,
    };
    let s: sn::Signature = match bincode::deserialize(&sig.bytes) {
        Ok(s) => s,
        Err(_) => return false,
    };
    k.verify(&s, msg).is_ok()
}

/// Relies on `sn_data_types::Debit::credit_id`: the hash of the
/// canonical bytes of the debit id, a deterministic function of it.
#[verifier::external_body]
pub(crate) fn derive_credit_id(id: &DebitId) -> (r: Result<CreditId, Error>)
    ensures
        r matches Ok(c) ==> credit_id_of(id@) == Some(c@),
        r matches Err(e) ==> credit_id_of(id@) is None && e == Error::Serialisation,
{
    let actor = bincode::deserialize(&id.actor.bytes).map_err(|_| Error::Serialisation)?;
    let debit = sn::Debit {
        id: sn::DebitId::new(actor, id.counter),
        amount: sn::Token::from_nano(0),
    };
    let hash = debit.credit_id().map_err(|_| Error::Serialisation)?;
    Ok(CreditId { bytes: hash.to_vec() })
}

/// Relies on `threshold_crypto::PublicKeySet::public_key`: the
/// aggregate public key of the set, a deterministic function of it,
/// returned in canonical encoding. An encoding whose leading length
/// prefix is zero decodes to a commitment with no coefficients, whose
/// first coefficient `public_key` would index; such bytes are no
/// key-set encoding and are rejected before the call.
#[verifier::external_body]
pub(crate) fn group_key(set: &PublicKeySet) -> (r: Result<PublicKey, Error>)
    ensures
        r matches Ok(k) ==> group_key_of(set@) == Some(k@),
        r matches Err(e) ==> group_key_of(set@) is None && e == Error::Serialisation,
{
    if set.bytes.len() < 8 || set.bytes[..8].iter().all(|b| *b == 0) {
        return Err(Error::Serialisation);
    }
    let s: threshold_crypto::PublicKeySet =
        bincode::deserialize(&set.bytes).map_err(|_| Error::Serialisation)?;
    let pk = sn::PublicKey::Bls(s.public_key());
    let bytes = bincode::serialize(&pk).map_err(|_| Error::Serialisation)?;
    Ok(PublicKey { bytes })
}

/// Relies on `threshold_crypto::PublicKeySet::combine_signatures`:
/// the signature combined from the shares under the set, a
/// deterministic function of the encoded set and the share list; all
/// failures surface as an aggregation error. An encoding with a zero
/// length prefix (an empty commitment, on which the set's degree
/// computation would fault) is rejected before the call.
#[verifier::external_body]
pub(crate) fn combine_signatures(set: &PublicKeySet, shares: &Vec<SignatureShare>) -> (r: Result<
    Signature,
    Error,
>)
    ensures
        r matches Ok(sig) ==> combine_of(set@, shares_view(shares@)) == Some(sig@),
        r matches Err(e) ==> combine_of(set@, shares_view(shares@)) is None && e
            == Error::CannotAggregate,
{
    if set.bytes.len() < 8 || set.bytes[..8].iter().all(|b| *b == 0) {
        return Err(Error::CannotAggregate);
    }
    let s: threshold_crypto::PublicKeySet =
        bincode::deserialize(&set.bytes).map_err(|_| Error::CannotAggregate)?;
    let mut map = std::collections::BTreeMap::new();
    for sh in shares.iter() {
        let parsed: threshold_crypto::SignatureShare =
            bincode::deserialize(&sh.share).map_err(|_| Error::CannotAggregate)?;
        let _ = map.insert(sh.index, parsed);
    }
    let sig = s.combine_signatures(&map).map_err(|_| Error::CannotAggregate)?;
    let bytes =
        bincode::serialize(&sn::Signature::Bls(sig)).map_err(|_| Error::CannotAggregate)?;
    Ok(Signature { bytes })
}

} // verus!
