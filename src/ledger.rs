//! The staking ledger as the slashing workflows see it, and a plain
//! in-memory ledger that implements it.
use std::collections::HashMap;
use vstd::prelude::*;

verus! {

broadcast use vstd::std_specs::hash::group_hash_axioms;

/// The identifier of a validator or staker.
pub type AccountId = u64;

/// The chain's native balance unit.
pub type Balance = u128;

/// The two entry points of the staking ledger that slashing consumes. The
/// ledger owns all balance state; slashing only reads and requests.
pub trait Ledger: Sized {
    /// The balance of `who` that is subject to slashing.
    spec fn slashable_of(&self, who: AccountId) -> Balance;

    /// The spendable balance of `who`.
    spec fn free_of(&self, who: AccountId) -> Balance;

    /// Every slash request that the ledger has received, oldest first.
    spec fn slash_requests(&self) -> Seq<(AccountId, Balance)>;

    /// Whether `next` holds the balances of `who` after this ledger took
    /// `amount` from them, by the ledger's own clamping rule.
    spec fn slash_applied(&self, next: Self, who: AccountId, amount: Balance) -> bool;

    /// Reads the slashable balance of `who`.
    fn slashable_balance(&self, who: AccountId) -> (r: Balance)
        ensures
            r == self.slashable_of(who),
    ;

    /// Takes `amount` from `who`. A deduction that fits the spendable balance
    /// is exact; how a larger one is clamped is the ledger's own rule. No
    /// other account is touched.
    fn slash_validator(&mut self, who: AccountId, amount: Balance)
        ensures
            final(self).slash_requests() == old(self).slash_requests().push((who, amount)),
            old(self).slash_applied(*final(self), who, amount),
            amount <= old(self).free_of(who) ==> final(self).free_of(who) == old(self).free_of(who)
                - amount,
            final(self).free_of(who) <= old(self).free_of(who),
            final(self).slashable_of(who) <= old(self).slashable_of(who),
            forall|w: AccountId|
                w != who ==> final(self).free_of(w) == old(self).free_of(w)
                    && final(self).slashable_of(w) == old(self).slashable_of(w),
    ;
}

/// The balances that a ledger holds for one account.
#[derive(Clone, Copy, Debug, PartialEq, Eq)]
pub struct StakeAccount {
    /// The spendable balance.
    pub free: Balance,
    /// The balance subject to slashing, bonded stake included.
    pub slashable: Balance,
}

/// A deduction that stops at zero.
pub open spec fn deduct(balance: Balance, amount: Balance) -> Balance {
    if amount <= balance {
        (balance - amount) as Balance
    } else {
        0
    }
}

/// An in-memory staking ledger keyed by account. An unknown account holds
/// nothing.
pub struct StakeLedger {
    accounts: HashMap<AccountId, StakeAccount>,
    requests: Ghost<Seq<(AccountId, Balance)>>,
}

impl StakeLedger {
    /// An empty ledger.
    pub fn new() -> (r: Self)
        ensures
            forall|w: AccountId| r.free_of(w) == 0 && r.slashable_of(w) == 0,
            r.slash_requests() == Seq::<(AccountId, Balance)>::empty(),
    {
        StakeLedger { accounts: HashMap::new(), requests: Ghost(Seq::empty()) }
    }

    /// Sets the balances of `who`.
    pub fn bond(&mut self, who: AccountId, free: Balance, slashable: Balance)
        ensures
            final(self).free_of(who) == free,
            final(self).slashable_of(who) == slashable,
            forall|w: AccountId| w != who ==> final(self).free_of(w) == old(self).free_of(w),
            forall|w: AccountId| w != who ==> final(self).slashable_of(w) == old(self).slashable_of(w),
            final(self).slash_requests() == old(self).slash_requests(),
    {
        self.accounts.insert(who, StakeAccount { free, slashable });
    }

    /// The spendable balance of `who`.
    pub fn free_balance(&self, who: AccountId) -> (r: Balance)
        ensures
            r == self.free_of(who),
    {
        match self.accounts.get(&who) {
            Some(a) => a.free,
            None => 0,
        }
    }

    /// Deducts `amount` from both balances of `who`, stopping at zero.
    pub fn apply_slash(&mut self, who: AccountId, amount: Balance)
        ensures
            final(self).free_of(who) == deduct(old(self).free_of(who), amount),
            final(self).slashable_of(who) == deduct(old(self).slashable_of(who), amount),
            forall|w: AccountId| w != who ==> final(self).free_of(w) == old(self).free_of(w),
            forall|w: AccountId| w != who ==> final(self).slashable_of(w) == old(self).slashable_of(w),
            final(self).slash_requests() == old(self).slash_requests(),
    {
        let found = match self.accounts.get(&who) {
            Some(a) => Some(*a),
            None => None,
        };
        match found {
            Some(a) => {
                let entry = StakeAccount {
                    free: a.free.saturating_sub(amount),
                    slashable: a.slashable.saturating_sub(amount),
                };
                self.accounts.insert(who, entry);
            },
            None => {},
        }
    }
}

impl Ledger for StakeLedger {
    closed spec fn slashable_of(&self, who: AccountId) -> Balance {
        if self.accounts@.contains_key(who) {
            self.accounts@[who].slashable
        } else {
            0
        }
    }

    closed spec fn free_of(&self, who: AccountId) -> Balance {
        if self.accounts@.contains_key(who) {
            self.accounts@[who].free
        } else {
            0
        }
    }

    open spec fn slash_applied(&self, next: Self, who: AccountId, amount: Balance) -> bool {
        &&& next.free_of(who) == deduct(self.free_of(who), amount)
        &&& next.slashable_of(who) == deduct(self.slashable_of(who), amount)
    }

    closed spec fn slash_requests(&self) -> Seq<(AccountId, Balance)> {
        self.requests@
    }

    fn slashable_balance(&self, who: AccountId) -> (r: Balance) {
        match self.accounts.get(&who) {
            Some(a) => a.slashable,
            None => 0,
        }
    }

    fn slash_validator(&mut self, who: AccountId, amount: Balance) {
        self.apply_slash(who, amount);
        self.requests = Ghost(self.requests@.push((who, amount)));
    }
}

} // verus!
