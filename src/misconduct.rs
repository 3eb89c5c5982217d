//! Severity policies and the workflows that turn a reported misbehaving set
//! into slash requests.
use vstd::prelude::*;
use crate::fraction::Fraction;
use crate::ledger::{AccountId, Balance, Ledger};
use crate::slasher::{slash_of, SeverityValue, StakingSlasher};

verus! {

/// A severity policy: it keeps a severity estimate, updates it when
/// misconduct is reported, and maps severities to escalation levels.
pub trait Misconduct: Sized {
    /// The integer type that severities are written in.
    type Severity: SeverityValue;

    /// The current severity estimate.
    spec fn current_severity(&self) -> Fraction<Self::Severity>;

    /// The escalation level of `severity` under this policy.
    spec fn level_of(&self, severity: Fraction<Self::Severity>) -> u8;

    /// Whether `next` is this policy after `misbehaved` were reported out of
    /// `total_validators` in session `session_index`.
    spec fn reported(
        &self,
        next: Self,
        misbehaved: Seq<AccountId>,
        total_validators: u64,
        session_index: u64,
    ) -> bool;

    /// Maps `severity` to a level in 1..=4; the current estimate is not read.
    fn as_misconduct_level(&self, severity: Fraction<Self::Severity>) -> (r: u8)
        ensures
            r == self.level_of(severity),
            1 <= r <= 4,
    ;

    /// Updates the estimate after `misbehaved` were reported.
    fn on_misconduct(&mut self, misbehaved: &[AccountId], total_validators: u64, session_index: u64)
        ensures
            old(self).reported(*final(self), misbehaved@, total_validators, session_index),
            forall|f: Fraction<Self::Severity>| #[trigger] final(self).level_of(f) == old(self).level_of(f),
    ;

    /// Reads the current estimate.
    fn severity(&self) -> (r: Fraction<Self::Severity>)
        ensures
            r == self.current_severity(),
    ;
}

/// A policy that also gathers the validators that misbehaved over a whole
/// era, to be slashed once at its end.
pub trait OnEndEra: Misconduct {
    /// The validators that misbehaved in the era so far, in report order.
    spec fn era_misbehaved(&self) -> Seq<AccountId>;

    /// Returns the validators that misbehaved in the era.
    fn get_misbehaved(&self) -> (r: Vec<AccountId>)
        ensures
            r@ == self.era_misbehaved(),
    ;
}

/// The slash requests of one pass over `misbehaved`: each validator, in
/// order, with the slash of its balance as `ledger` holds it before the pass.
pub open spec fn slash_pass<S: SeverityValue, L: Ledger>(
    misbehaved: Seq<AccountId>,
    severity: Fraction<S>,
    ledger: L,
) -> Seq<(AccountId, Balance)> {
    Seq::new(
        misbehaved.len(),
        |i: int| (misbehaved[i], slash_of(ledger.slashable_of(misbehaved[i]) as nat, severity) as Balance),
    )
}

/// Whether the validator at `i` stands in `misbehaved` at no other place.
pub open spec fn only_at(misbehaved: Seq<AccountId>, i: int) -> bool {
    &&& 0 <= i < misbehaved.len()
    &&& forall|j: int| 0 <= j < misbehaved.len() && j != i ==> misbehaved[j] != misbehaved[i]
}

/// What a pass over `misbehaved` that requested `pass` did to the balances:
/// accounts outside the set keep theirs, no spendable balance grows, and a
/// validator that stands in the set once loses exactly its slash when that
/// fits its spendable balance.
pub open spec fn pass_applied<L: Ledger>(
    before: L,
    after: L,
    misbehaved: Seq<AccountId>,
    pass: Seq<(AccountId, Balance)>,
) -> bool {
    &&& forall|w: AccountId|
        !misbehaved.contains(w) ==> #[trigger] after.free_of(w) == before.free_of(w)
            && after.slashable_of(w) == before.slashable_of(w)
    &&& forall|w: AccountId| #[trigger] after.free_of(w) <= before.free_of(w)
    &&& forall|i: int|
        only_at(misbehaved, i) && pass[i].1 <= before.free_of(misbehaved[i]) ==> #[trigger] after.free_of(
            misbehaved[i],
        ) == before.free_of(misbehaved[i]) - pass[i].1
}

/// The orchestration of the rolling and the end-of-era slashing workflows.
/// It holds no state: the policy and the ledger are handed in.
pub struct MisconductModule;

impl MisconductModule {
    /// Requests the slash of every validator of `misbehaved`, in order. All
    /// balances are read before the first request, so that one pass sees one
    /// state of the ledger.
    pub fn slash_all<S: SeverityValue, L: Ledger>(ledger: &mut L, misbehaved: &[AccountId], severity: Fraction<S>)
        ensures
            final(ledger).slash_requests() == old(ledger).slash_requests() + slash_pass(
                misbehaved@,
                severity,
                *old(ledger),
            ),
            pass_applied(
                *old(ledger),
                *final(ledger),
                misbehaved@,
                slash_pass(misbehaved@, severity, *old(ledger)),
            ),
    {
        let ghost pass = slash_pass(misbehaved@, severity, *ledger);
        let mut amounts: Vec<Balance> = Vec::new();
        let mut i: usize = 0;
        while i < misbehaved.len()
            invariant
                i <= misbehaved@.len(),
                amounts@.len() == i,
                *ledger == *old(ledger),
                pass == slash_pass(misbehaved@, severity, *old(ledger)),
                forall|j: int| 0 <= j < i ==> amounts@[j] == #[trigger] pass[j].1,
            decreases misbehaved@.len() - i,
        {
            let balance = ledger.slashable_balance(misbehaved[i]);
            let amount = StakingSlasher::slash_amount(balance, severity);
            proof {
                crate::slasher::lemma_slash_fits(balance as nat, severity);
            }
            amounts.push(amount);
            i += 1;
        }
        let mut k: usize = 0;
        while k < misbehaved.len()
            invariant
                k <= misbehaved@.len(),
                amounts@.len() == misbehaved@.len(),
                pass == slash_pass(misbehaved@, severity, *old(ledger)),
                forall|j: int| 0 <= j < misbehaved@.len() ==> amounts@[j] == #[trigger] pass[j].1,
                ledger.slash_requests() == old(ledger).slash_requests() + pass.take(k as int),
                forall|w: AccountId|
                    (forall|j: int| 0 <= j < k ==> misbehaved@[j] != w) ==> #[trigger] ledger.free_of(w)
                        == old(ledger).free_of(w) && ledger.slashable_of(w) == old(ledger).slashable_of(w),
                forall|w: AccountId| #[trigger] ledger.free_of(w) <= old(ledger).free_of(w),
                forall|i: int|
                    0 <= i < k && only_at(misbehaved@, i) && pass[i].1 <= old(ledger).free_of(misbehaved@[i])
                        ==> #[trigger] ledger.free_of(misbehaved@[i]) == old(ledger).free_of(misbehaved@[i])
                        - pass[i].1,
            decreases misbehaved@.len() - k,
        {
            let ghost before = ledger.slash_requests();
            ledger.slash_validator(misbehaved[k], amounts[k]);
            assert(pass[k as int] == (misbehaved@[k as int], amounts@[k as int]));
            assert(pass.take(k + 1) =~= pass.take(k as int).push(pass[k as int]));
            assert(before.push(pass[k as int]) =~= old(ledger).slash_requests() + pass.take(k + 1));
            k += 1;
        }
        assert(pass.take(misbehaved@.len() as int) =~= pass);
        assert forall|w: AccountId| !misbehaved@.contains(w) implies (forall|j: int|
            0 <= j < misbehaved@.len() ==> misbehaved@[j] != w) by {
            if exists|j: int| 0 <= j < misbehaved@.len() && misbehaved@[j] == w {
                let j = choose|j: int| 0 <= j < misbehaved@.len() && misbehaved@[j] == w;
                assert(misbehaved@.contains(w));
            }
        }
    }

    /// Rolling slashing: reports `misbehaved` to the policy, slashes each of
    /// them under the updated severity, and returns that severity's level.
    pub fn rolling_data<M: Misconduct, L: Ledger>(
        misconduct: &mut M,
        ledger: &mut L,
        misbehaved: &[AccountId],
        validators: u64,
        session_index: u64,
    ) -> (r: u8)
        ensures
            old(misconduct).reported(*final(misconduct), misbehaved@, validators, session_index),
            final(ledger).slash_requests() == old(ledger).slash_requests() + slash_pass(
                misbehaved@,
                final(misconduct).current_severity(),
                *old(ledger),
            ),
            pass_applied(
                *old(ledger),
                *final(ledger),
                misbehaved@,
                slash_pass(misbehaved@, final(misconduct).current_severity(), *old(ledger)),
            ),
            forall|f: Fraction<M::Severity>| #[trigger] final(misconduct).level_of(f)
                == old(misconduct).level_of(f),
            r == old(misconduct).level_of(final(misconduct).current_severity()),
            1 <= r <= 4,
    {
        misconduct.on_misconduct(misbehaved, validators, session_index);
        let severity = misconduct.severity();
        Self::slash_all(ledger, misbehaved, severity);
        misconduct.as_misconduct_level(severity)
    }

    /// Reports misconduct during an era without slashing; the slash comes at
    /// the era's end.
    pub fn era_data<M: Misconduct>(
        misconduct: &mut M,
        misbehaved: &[AccountId],
        validators: u64,
        session_index: u64,
    )
        ensures
            old(misconduct).reported(*final(misconduct), misbehaved@, validators, session_index),
            forall|f: Fraction<M::Severity>| #[trigger] final(misconduct).level_of(f)
                == old(misconduct).level_of(f),
    {
        misconduct.on_misconduct(misbehaved, validators, session_index);
    }

    /// End-of-era slashing: slashes every validator that misbehaved in the
    /// era under the current severity, and returns that severity's level.
    pub fn slash<M: OnEndEra, L: Ledger>(end: &M, ledger: &mut L) -> (r: u8)
        ensures
            final(ledger).slash_requests() == old(ledger).slash_requests() + slash_pass(
                end.era_misbehaved(),
                end.current_severity(),
                *old(ledger),
            ),
            pass_applied(
                *old(ledger),
                *final(ledger),
                end.era_misbehaved(),
                slash_pass(end.era_misbehaved(), end.current_severity(), *old(ledger)),
            ),
            r == end.level_of(end.current_severity()),
            1 <= r <= 4,
    {
        let severity = end.severity();
        let misbehaved = end.get_misbehaved();
        Self::slash_all(ledger, misbehaved.as_slice(), severity);
        end.as_misconduct_level(severity)
    }
}

/// A pass is a function of the severity and of the balances that the ledger
/// holds for the misbehaving validators: repeating it with both unchanged
/// requests the same amounts.
pub proof fn lemma_pass_repeats<S: SeverityValue, L: Ledger>(
    first: L,
    second: L,
    misbehaved: Seq<AccountId>,
    severity: Fraction<S>,
)
    requires
        forall|i: int|
            0 <= i < misbehaved.len() ==> first.slashable_of(misbehaved[i]) == second.slashable_of(
                misbehaved[i],
            ),
    ensures
        slash_pass(misbehaved, severity, first) == slash_pass(misbehaved, severity, second),
{
    assert(slash_pass(misbehaved, severity, first) =~= slash_pass(misbehaved, severity, second));
}

} // verus!
