//! A severity policy with a fixed severity and configurable level
//! thresholds, which gathers the era's misbehaving validators.
use vstd::prelude::*;
use crate::fraction::Fraction;
use crate::ledger::AccountId;
use crate::misconduct::{Misconduct, OnEndEra};
use crate::slasher::{slash_of, StakingSlasher};

verus! {

/// The scale on which severities are compared with level thresholds.
pub const PARTS_PER_MILLION: u128 = 1_000_000;

/// The level of a severity of `ppm` parts per million: one, plus one for
/// each threshold that it reaches.
pub open spec fn level_for(ppm: nat, level_two: u128, level_three: u128, level_four: u128) -> u8 {
    (1 + (if ppm >= level_two { 1int } else { 0 }) + (if ppm >= level_three { 1int } else { 0 })
        + (if ppm >= level_four { 1int } else { 0 })) as u8
}

/// A policy whose severity is set when it is made. Its level thresholds are
/// the smallest severities, in parts per million of a balance, that reach
/// levels 2, 3 and 4. Reports add to the era's misbehaving validators.
pub struct FixedSeverity {
    pub severity: Fraction<u64>,
    pub level_two: u128,
    pub level_three: u128,
    pub level_four: u128,
    pub misbehaved: Vec<AccountId>,
}

impl FixedSeverity {
    /// A policy with no misbehaving validators yet.
    pub fn new(severity: Fraction<u64>, level_two: u128, level_three: u128, level_four: u128) -> (r: Self)
        ensures
            r.severity == severity,
            r.level_two == level_two,
            r.level_three == level_three,
            r.level_four == level_four,
            r.misbehaved@ == Seq::<AccountId>::empty(),
    {
        FixedSeverity { severity, level_two, level_three, level_four, misbehaved: Vec::new() }
    }
}

impl Misconduct for FixedSeverity {
    type Severity = u64;

    open spec fn current_severity(&self) -> Fraction<u64> {
        self.severity
    }

    open spec fn level_of(&self, severity: Fraction<u64>) -> u8 {
        level_for(
            slash_of(PARTS_PER_MILLION as nat, severity),
            self.level_two,
            self.level_three,
            self.level_four,
        )
    }

    open spec fn reported(
        &self,
        next: Self,
        misbehaved: Seq<AccountId>,
        total_validators: u64,
        session_index: u64,
    ) -> bool {
        &&& next.severity == self.severity
        &&& next.level_two == self.level_two
        &&& next.level_three == self.level_three
        &&& next.level_four == self.level_four
        &&& next.misbehaved@ == self.misbehaved@ + misbehaved
    }

    fn as_misconduct_level(&self, severity: Fraction<u64>) -> (r: u8) {
        let ppm = StakingSlasher::slash_amount(PARTS_PER_MILLION, severity);
        let mut level: u8 = 1;
        if ppm >= self.level_two {
            level += 1;
        }
        if ppm >= self.level_three {
            level += 1;
        }
        if ppm >= self.level_four {
            level += 1;
        }
        level
    }

    fn on_misconduct(&mut self, misbehaved: &[AccountId], total_validators: u64, session_index: u64) {
        let mut i: usize = 0;
        while i < misbehaved.len()
            invariant
                i <= misbehaved@.len(),
                self.misbehaved@ == old(self).misbehaved@ + misbehaved@.take(i as int),
                self.severity == old(self).severity,
                self.level_two == old(self).level_two,
                self.level_three == old(self).level_three,
                self.level_four == old(self).level_four,
            decreases misbehaved@.len() - i,
        {
            self.misbehaved.push(misbehaved[i]);
            assert(misbehaved@.take(i + 1) =~= misbehaved@.take(i as int).push(misbehaved@[i as int]));
            assert(self.misbehaved@ =~= old(self).misbehaved@ + misbehaved@.take(i + 1));
            i += 1;
        }
        assert(misbehaved@.take(misbehaved@.len() as int) =~= misbehaved@);
    }

    fn severity(&self) -> (r: Fraction<u64>) {
        self.severity
    }
}

impl OnEndEra for FixedSeverity {
    open spec fn era_misbehaved(&self) -> Seq<AccountId> {
        self.misbehaved@
    }

    fn get_misbehaved(&self) -> (r: Vec<AccountId>) {
        let mut out: Vec<AccountId> = Vec::new();
        let mut i: usize = 0;
        while i < self.misbehaved.len()
            invariant
                i <= self.misbehaved@.len(),
                out@ == self.misbehaved@.take(i as int),
            decreases self.misbehaved@.len() - i,
        {
            out.push(self.misbehaved[i]);
            assert(self.misbehaved@.take(i + 1) =~= self.misbehaved@.take(i as int).push(
                self.misbehaved@[i as int],
            ));
            i += 1;
        }
        assert(self.misbehaved@.take(self.misbehaved@.len() as int) =~= self.misbehaved@);
        out
    }
}

} // verus!
