//! The overflow-safe conversion layer: widens a balance into the extended
//! domain, multiplies with saturation, divides with a zero fallback.
use vstd::prelude::*;
use crate::fraction::Fraction;
use crate::ledger::{AccountId, Balance, Ledger};

verus! {

/// The largest value of the 64-bit vote intermediate that a balance passes
/// through on its way into the extended domain.
pub const VOTE_MAX: u64 = 0xffff_ffff_ffff_ffff;

/// The extended value of a balance: balances route through a 64-bit
/// intermediate, so anything above its range is clamped to its maximum.
pub open spec fn widened(balance: nat) -> nat {
    if balance <= VOTE_MAX as nat {
        balance
    } else {
        VOTE_MAX as nat
    }
}

/// A product that clamps at the largest extended value instead of wrapping.
pub open spec fn saturated_product(a: nat, b: nat) -> nat {
    if a * b <= u128::MAX as nat {
        a * b
    } else {
        u128::MAX as nat
    }
}

/// An unsigned integer type that severities are written in; it widens into
/// the extended domain without loss.
pub trait SeverityValue: Copy {
    /// The value as a natural number.
    spec fn value(&self) -> nat;

    /// The value in the extended domain.
    fn to_extended(&self) -> (r: u128)
        ensures
            r as nat == self.value(),
    ;
}

impl SeverityValue for u8 {
    open spec fn value(&self) -> nat {
        *self as nat
    }

    fn to_extended(&self) -> (r: u128) {
        *self as u128
    }
}

impl SeverityValue for u16 {
    open spec fn value(&self) -> nat {
        *self as nat
    }

    fn to_extended(&self) -> (r: u128) {
        *self as u128
    }
}

impl SeverityValue for u32 {
    open spec fn value(&self) -> nat {
        *self as nat
    }

    fn to_extended(&self) -> (r: u128) {
        *self as u128
    }
}

impl SeverityValue for u64 {
    open spec fn value(&self) -> nat {
        *self as nat
    }

    fn to_extended(&self) -> (r: u128) {
        *self as u128
    }
}

impl SeverityValue for u128 {
    open spec fn value(&self) -> nat {
        *self as nat
    }

    fn to_extended(&self) -> (r: u128) {
        *self
    }
}

/// The amount slashed from `balance` under `severity`:
/// `(balance * denominator) / numerator`, computed in the extended domain,
/// and zero when the divisor is zero.
pub open spec fn slash_of<S: SeverityValue>(balance: nat, severity: Fraction<S>) -> nat {
    if severity.numerator.value() == 0 {
        0
    } else {
        saturated_product(widened(balance), severity.denominator.value())
            / severity.numerator.value()
    }
}

/// Moves a chain balance into the extended domain through the 64-bit vote
/// intermediate.
pub fn to_extended(balance: u128) -> (r: u128)
    ensures
        r as nat == widened(balance as nat),
{
    let vote: u64 = if balance > VOTE_MAX as u128 {
        VOTE_MAX
    } else {
        balance as u64
    };
    vote as u128
}

/// Multiplies two extended values, clamping at the maximum on overflow.
/// Total: it has no precondition and never faults.
pub fn saturating_multiply(a: u128, b: u128) -> (r: u128)
    ensures
        r as nat == saturated_product(a as nat, b as nat),
{
    match a.checked_mul(b) {
        Some(p) => p,
        None => u128::MAX,
    }
}

/// The stateless slash computation shared by every slashing workflow.
pub struct StakingSlasher;

impl StakingSlasher {
    /// The amount to slash from a slashable balance of `balance`.
    pub fn slash_amount<S: SeverityValue>(balance: u128, severity: Fraction<S>) -> (r: u128)
        ensures
            r as nat == slash_of(balance as nat, severity),
    {
        let extended = to_extended(balance);
        let product = saturating_multiply(extended, severity.denominator().to_extended());
        let divisor = severity.numerator().to_extended();
        match product.checked_div(divisor) {
            Some(q) => q,
            None => 0,
        }
    }

    /// Reads the slashable balance of `who` and requests the slash that
    /// `severity` gives for it.
    pub fn slash<S: SeverityValue, L: Ledger>(ledger: &mut L, who: AccountId, severity: Fraction<S>)
        ensures
            final(ledger).slash_requests() == old(ledger).slash_requests().push(
                (who, slash_of(old(ledger).slashable_of(who) as nat, severity) as Balance),
            ),
            old(ledger).slash_applied(
                *final(ledger),
                who,
                slash_of(old(ledger).slashable_of(who) as nat, severity) as Balance,
            ),
            forall|w: AccountId|
                w != who ==> #[trigger] final(ledger).free_of(w) == old(ledger).free_of(w)
                    && final(ledger).slashable_of(w) == old(ledger).slashable_of(w),
    {
        let balance = ledger.slashable_balance(who);
        let amount = Self::slash_amount(balance, severity);
        ledger.slash_validator(who, amount);
    }
}

/// A divisor of zero slashes nothing, whatever the balance.
pub proof fn lemma_zero_divisor_slashes_nothing<S: SeverityValue>(balance: Balance, severity: Fraction<S>)
    requires
        severity.numerator.value() == 0,
    ensures
        slash_of(balance as nat, severity) == 0,
{
}

/// Under a fixed severity with a nonzero divisor, a larger balance is never
/// slashed less.
pub proof fn lemma_slash_monotonic<S: SeverityValue>(smaller: Balance, larger: Balance, severity: Fraction<S>)
    requires
        severity.numerator.value() != 0,
        smaller <= larger,
    ensures
        slash_of(smaller as nat, severity) <= slash_of(larger as nat, severity),
{
    let d = severity.denominator.value();
    let n = severity.numerator.value();
    let a = widened(smaller as nat);
    let b = widened(larger as nat);
    assert(a * d <= b * d) by (nonlinear_arith)
        requires
            a <= b,
    ;
    let pa = saturated_product(a, d);
    let pb = saturated_product(b, d);
    assert(pa <= pb);
    vstd::arithmetic::div_mod::lemma_div_is_ordered(pa as int, pb as int, n as int);
}

/// A slash never exceeds the largest extended value, so it always fits a
/// balance.
pub proof fn lemma_slash_fits<S: SeverityValue>(balance: nat, severity: Fraction<S>)
    ensures
        slash_of(balance, severity) <= u128::MAX as nat,
{
    if severity.numerator.value() != 0 {
        let p = saturated_product(widened(balance), severity.denominator.value());
        vstd::arithmetic::div_mod::lemma_div_is_ordered_by_denominator(
            p as int,
            1,
            severity.numerator.value() as int,
        );
    }
}

/// Passing a balance through the 64-bit vote intermediate keeps it exactly
/// when it fits there, and otherwise loses what lies above the intermediate's
/// maximum: the extended value never exceeds the balance. (The product that
/// follows may still saturate, for a wide severity.)
pub proof fn lemma_widening_loss(balance: Balance)
    ensures
        widened(balance as nat) <= balance as nat,
        balance as nat <= VOTE_MAX as nat ==> widened(balance as nat) == balance as nat,
        balance as nat > VOTE_MAX as nat ==> balance as nat - widened(balance as nat)
            == balance as nat - VOTE_MAX as nat,
{
}

} // verus!
