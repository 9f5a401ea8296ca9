//! Pure local bookkeeping for one wallet owner.
//!
//! The wallet's balance is, at all times, exactly the sum of the
//! applied credits minus the sum of the applied debits; debits are
//! applied in counter order starting at zero, and every applied credit
//! id is recorded so credits apply at most once.

use vstd::prelude::*;

use crate::types::{clone_bytes, Credit, CreditId, Debit, Money, PublicKey};
use crate::Error;

verus! {

/// The sum of a sequence of amounts.
pub open spec fn sum(s: Seq<u64>) -> int
    decreases s.len(),
{
    if s.len() == 0 {
        0
    } else {
        s[0] + sum(s.skip(1))
    }
}

/// Appending one amount adds it to the sum.
pub proof fn lemma_sum_push(s: Seq<u64>, x: u64)
    ensures
        sum(s.push(x)) == sum(s) + x,
    decreases s.len(),
{
    if s.len() == 0 {
        assert(s.push(x).skip(1) =~= Seq::<u64>::empty());
        assert(sum(Seq::<u64>::empty()) == 0);
        assert(s.push(x)[0] == x);
        assert(sum(s.push(x)) == x + sum(s.push(x).skip(1)));
    } else {
        assert(s.push(x).skip(1) =~= s.skip(1).push(x));
        lemma_sum_push(s.skip(1), x);
        assert(s.push(x)[0] == s[0]);
        assert(sum(s.push(x)) == s[0] + sum(s.push(x).skip(1)));
    }
}

/// The ghost state of a [`Wallet`].
#[verifier::ext_equal]
pub ghost struct WalletV {
    /// Canonical encoding of the owner key.
    pub id: Seq<u8>,
    /// The current balance in nano.
    pub balance: u64,
    /// The ids of the applied credits, in order of application.
    pub credit_ids: Seq<Seq<u8>>,
    /// The next expected debit counter.
    pub debit_count: u64,
    /// The amounts of the applied credits, in order of application.
    pub applied_credits: Seq<u64>,
    /// The amounts of the applied debits, in order of application.
    pub applied_debits: Seq<u64>,
}

impl WalletV {
    /// Internal consistency: the balance is exactly the credit sum
    /// minus the debit sum, each applied credit recorded one id, the
    /// recorded ids are distinct, and the debit counter counts the
    /// applied debits.
    pub open spec fn wf(self) -> bool {
        &&& self.balance == sum(self.applied_credits) - sum(self.applied_debits)
        &&& self.credit_ids.len() == self.applied_credits.len()
        &&& self.debit_count == self.applied_debits.len()
        &&& forall|i: int, j: int|
            0 <= i < j < self.credit_ids.len() ==> self.credit_ids[i] != self.credit_ids[j]
    }

    /// Whether a credit with this id has been applied.
    pub open spec fn contains_credit(self, id: Seq<u8>) -> bool {
        exists|i: int| 0 <= i < self.credit_ids.len() && self.credit_ids[i] == id
    }

    /// The state after applying a debit, or the rejection.
    pub open spec fn spec_apply_debit(self, debit: Debit) -> Result<WalletV, Error> {
        if debit.id.counter != self.debit_count {
            Err(Error::InvalidOperation)
        } else if debit.amount.nano > self.balance {
            Err(Error::InsufficientBalance)
        } else if self.debit_count == u64::MAX {
            Err(Error::ExcessiveValue)
        } else {
            Ok(
                WalletV {
                    balance: (self.balance - debit.amount.nano) as u64,
                    debit_count: (self.debit_count + 1) as u64,
                    applied_debits: self.applied_debits.push(debit.amount.nano),
                    ..self
                },
            )
        }
    }

    /// The state after applying a credit, or the rejection.
    pub open spec fn spec_apply_credit(self, credit: Credit) -> Result<WalletV, Error> {
        if self.contains_credit(credit.id@) {
            Err(Error::DataExists)
        } else if self.balance + credit.amount.nano > u64::MAX {
            Err(Error::ExcessiveValue)
        } else {
            Ok(
                WalletV {
                    balance: (self.balance + credit.amount.nano) as u64,
                    credit_ids: self.credit_ids.push(credit.id@),
                    applied_credits: self.applied_credits.push(credit.amount.nano),
                    ..self
                },
            )
        }
    }
}

/// An append-only balance record for one owner key.
#[derive(Clone)]
pub struct Wallet {
    id: PublicKey,
    balance: Money,
    credit_ids: Vec<CreditId>,
    debit_count: u64,
    applied_credits: Ghost<Seq<u64>>,
    applied_debits: Ghost<Seq<u64>>,
}

impl View for Wallet {
    type V = WalletV;

    closed spec fn view(&self) -> WalletV {
        WalletV {
            id: self.id@,
            balance: self.balance.nano,
            credit_ids: self.credit_ids@.map_values(|c: CreditId| c@),
            debit_count: self.debit_count,
            applied_credits: self.applied_credits@,
            applied_debits: self.applied_debits@,
        }
    }
}

/// An immutable copy of the observable wallet state: the owner, the
/// balance, the applied credit ids and the next debit counter.
#[derive(Debug, Clone, PartialEq, Eq)]
pub struct WalletSnapshot {
    /// The owner key.
    pub id: PublicKey,
    /// The balance at the time of the copy.
    pub balance: Money,
    /// The ids of the applied credits, in order of application.
    pub credit_ids: Vec<CreditId>,
    /// The next expected debit counter.
    pub next_debit: u64,
}

impl Wallet {
    /// Internal consistency of the wallet.
    pub open spec fn wf(self) -> bool {
        self@.wf()
    }

    /// A new, empty wallet for `id`.
    pub fn new(id: PublicKey) -> (r: Wallet)
        ensures
            r@.id == id@,
            r@.balance == 0,
            r@.credit_ids == Seq::<Seq<u8>>::empty(),
            r@.debit_count == 0,
            r@.applied_credits == Seq::<u64>::empty(),
            r@.applied_debits == Seq::<u64>::empty(),
            r.wf(),
    {
        let w = Wallet {
            id,
            balance: Money::zero(),
            credit_ids: Vec::new(),
            debit_count: 0,
            applied_credits: Ghost(Seq::empty()),
            applied_debits: Ghost(Seq::empty()),
        };
        proof {
            assert(w@.credit_ids =~= Seq::<Seq<u8>>::empty());
        }
        w
    }

    /// The owner key.
    pub fn id(&self) -> (r: &PublicKey)
        ensures
            r@ == self@.id,
    {
        &self.id
    }

    /// The current balance.
    pub fn balance(&self) -> (r: Money)
        ensures
            r.nano == self@.balance,
    {
        self.balance
    }

    /// The next expected debit counter (zero if none applied).
    pub fn next_debit(&self) -> (r: u64)
        ensures
            r == self@.debit_count,
    {
        self.debit_count
    }

    /// Whether a credit with this id has already been applied.
    pub fn contains(&self, id: &CreditId) -> (r: bool)
        ensures
            r == self@.contains_credit(id@),
    {
        let mut i: usize = 0;
        while i < self.credit_ids.len()
            invariant
                i <= self.credit_ids.len(),
                forall|j: int| 0 <= j < i ==> #[trigger] self@.credit_ids[j] != id@,
            decreases self.credit_ids.len() - i,
        {
            if crate::types::bytes_eq(&self.credit_ids[i].bytes, &id.bytes) {
                proof {
                    assert(self@.credit_ids[i as int] == id@);
                }
                return true;
            }
            i = i + 1;
        }
        false
    }

    /// An immutable copy of the observable state.
    pub fn snapshot(&self) -> (r: WalletSnapshot)
        ensures
            r.id@ == self@.id,
            r.balance.nano == self@.balance,
            r.credit_ids@.map_values(|c: CreditId| c@) == self@.credit_ids,
            r.next_debit == self@.debit_count,
    {
        let mut ids: Vec<CreditId> = Vec::new();
        let mut i: usize = 0;
        while i < self.credit_ids.len()
            invariant
                i <= self.credit_ids.len(),
                ids@.len() == i,
                forall|j: int| 0 <= j < i ==> (#[trigger] ids@[j])@ == self@.credit_ids[j],
            decreases self.credit_ids.len() - i,
        {
            ids.push(CreditId { bytes: clone_bytes(&self.credit_ids[i].bytes) });
            i = i + 1;
        }
        proof {
            assert(ids@.map_values(|c: CreditId| c@) =~= self@.credit_ids);
        }
        WalletSnapshot {
            id: PublicKey { bytes: clone_bytes(&self.id.bytes) },
            balance: self.balance,
            credit_ids: ids,
            next_debit: self.debit_count,
        }
    }

    /// Applies a debit: fails if the counter is out of order or the
    /// amount exceeds the balance; otherwise decrements the balance and
    /// advances the counter.
    pub fn apply_debit(&mut self, debit: Debit) -> (r: Result<(), Error>)
        requires
            old(self).wf(),
        ensures
            final(self).wf(),
            match old(self)@.spec_apply_debit(debit) {
                Ok(v) => r is Ok && final(self)@ == v,
                Err(e) => r == Err::<(), Error>(e) && final(self)@ == old(self)@,
            },
    {
        if debit.id.counter != self.debit_count {
            return Err(Error::InvalidOperation);
        }
        if debit.amount.as_nano() > self.balance.as_nano() {
            return Err(Error::InsufficientBalance);
        }
        if self.debit_count == u64::MAX {
            return Err(Error::ExcessiveValue);
        }
        proof {
            lemma_sum_push(self.applied_debits@, debit.amount.nano);
        }
        self.balance = Money::from_nano(self.balance.as_nano() - debit.amount.as_nano());
        self.debit_count = self.debit_count + 1;
        self.applied_debits = Ghost(self.applied_debits@.push(debit.amount.nano));
        proof {
            assert(self@ =~= old(self)@.spec_apply_debit(debit)->Ok_0);
        }
        Ok(())
    }

    /// Applies a credit: fails if the credit id is already present;
    /// otherwise adds the amount and records the id.
    pub fn apply_credit(&mut self, credit: Credit) -> (r: Result<(), Error>)
        requires
            old(self).wf(),
        ensures
            final(self).wf(),
            match old(self)@.spec_apply_credit(credit) {
                Ok(v) => r is Ok && final(self)@ == v,
                Err(e) => r == Err::<(), Error>(e) && final(self)@ == old(self)@,
            },
    {
        if self.contains(&credit.id) {
            return Err(Error::DataExists);
        }
        if self.balance.as_nano() > u64::MAX - credit.amount.as_nano() {
            return Err(Error::ExcessiveValue);
        }
        proof {
            lemma_sum_push(self.applied_credits@, credit.amount.nano);
        }
        self.balance = Money::from_nano(self.balance.as_nano() + credit.amount.as_nano());
        self.applied_credits = Ghost(self.applied_credits@.push(credit.amount.nano));
        self.credit_ids.push(credit.id);
        proof {
            assert(self@.credit_ids =~= old(self)@.credit_ids.push(credit.id@));
            assert(self@ =~= old(self)@.spec_apply_credit(credit)->Ok_0);
        }
        Ok(())
    }
}

} // verus!
