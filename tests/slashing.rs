use slashing::fraction::Fraction;
use slashing::ledger::{Ledger, StakeLedger};
use slashing::misconduct::{Misconduct, MisconductModule, OnEndEra};
use slashing::policy::FixedSeverity;
use slashing::slasher::{saturating_multiply, to_extended, StakingSlasher, VOTE_MAX};

fn one_and_a_half_percent() -> FixedSeverity {
    FixedSeverity::new(Fraction::new(3, 200), 1_000, 10_000, 100_000)
}

fn stakers() -> StakeLedger {
    let mut ledger = StakeLedger::new();
    ledger.bond(11, 1000, 1250);
    ledger.bond(21, 2000, 1250);
    ledger.bond(31, 2000, 1000);
    ledger.bond(41, 2000, 1000);
    ledger
}

#[test]
fn lib_it_works() {
    let mut misconduct = one_and_a_half_percent();
    let mut ledger = StakeLedger::new();
    let level = MisconductModule::rolling_data(&mut misconduct, &mut ledger, &[], 0, 0);
    assert!((1..=4).contains(&level));
}

#[test]
fn slash_it_works() {
    let mut ledger = stakers();
    assert_eq!(1250, ledger.slashable_balance(11));
    assert_eq!(1000, ledger.free_balance(11));

    // (1250 * 3) / 200 = 18
    let mut misconduct = one_and_a_half_percent();
    let misbehaved = [11, 21, 31, 41];
    let validator_len = 30;
    MisconductModule::era_data(&mut misconduct, &misbehaved, validator_len, 0);
    assert_eq!(MisconductModule::slash(&misconduct, &mut ledger), 3);
    assert_eq!(982, ledger.free_balance(11));
}

#[test]
fn scenario_slash_amount_and_level() {
    let severity = Fraction::new(3u64, 200u64);
    assert_eq!(StakingSlasher::slash_amount(1250, severity), 18);
    let policy = one_and_a_half_percent();
    assert_eq!(policy.as_misconduct_level(severity), 3);
}

#[test]
fn rolling_data_slashes_every_reported_validator() {
    let mut ledger = stakers();
    let mut misconduct = one_and_a_half_percent();
    let level = MisconductModule::rolling_data(&mut misconduct, &mut ledger, &[11, 31], 30, 1);
    assert_eq!(level, 3);
    assert_eq!(ledger.free_balance(11), 982);
    // (1000 * 3) / 200 = 15
    assert_eq!(ledger.free_balance(31), 1985);
    assert_eq!(ledger.free_balance(21), 2000);
    assert_eq!(misconduct.get_misbehaved(), vec![11, 31]);
}

#[test]
fn zero_divisor_slashes_nothing() {
    let severity = Fraction::new(3u64, 0u64);
    assert_eq!(StakingSlasher::slash_amount(0, severity), 0);
    assert_eq!(StakingSlasher::slash_amount(1250, severity), 0);
    assert_eq!(StakingSlasher::slash_amount(u128::MAX, severity), 0);
}

#[test]
fn larger_balance_never_slashed_less() {
    let severity = Fraction::new(7u64, 100u64);
    let mut last = 0u128;
    for balance in [0u128, 1, 14, 15, 99, 100, 1_000, 1 << 70] {
        let slash = StakingSlasher::slash_amount(balance, severity);
        assert!(slash >= last);
        last = slash;
    }
}

#[test]
fn levels_stay_within_one_to_four() {
    let policy = one_and_a_half_percent();
    assert_eq!(policy.as_misconduct_level(Fraction::new(0, 200)), 1);
    assert_eq!(policy.as_misconduct_level(Fraction::new(1, 0)), 1);
    assert_eq!(policy.as_misconduct_level(Fraction::new(1, 1000)), 2);
    assert_eq!(policy.as_misconduct_level(Fraction::new(1, 10)), 4);
    assert_eq!(policy.as_misconduct_level(Fraction::new(u64::MAX, 1)), 4);
}

#[test]
fn saturating_multiply_clamps() {
    assert_eq!(saturating_multiply(u128::MAX, 2), u128::MAX);
    assert_eq!(saturating_multiply(1 << 64, 1 << 64), u128::MAX);
    assert_eq!(saturating_multiply(1 << 63, 2), 1 << 64);
    assert_eq!(saturating_multiply(u128::MAX, 1), u128::MAX);
    assert_eq!(saturating_multiply(0, u128::MAX), 0);
}

#[test]
fn largest_severity_saturates_nothing_it_should_not() {
    let all = Fraction::new(u64::MAX, 1u64);
    let max = u64::MAX as u128;
    assert_eq!(StakingSlasher::slash_amount(u128::MAX, all), max * max);
}

#[test]
fn repeated_rolling_data_requests_same_amount() {
    let mut ledger = stakers();
    let mut misconduct = one_and_a_half_percent();
    MisconductModule::rolling_data(&mut misconduct, &mut ledger, &[11], 30, 1);
    assert_eq!(ledger.free_balance(11), 982);
    // slashable is now 1232, and (1232 * 3) / 200 = 18 again
    MisconductModule::rolling_data(&mut misconduct, &mut ledger, &[11], 30, 1);
    assert_eq!(ledger.free_balance(11), 964);
}

#[test]
fn widening_clamps_above_the_vote_range() {
    assert_eq!(to_extended(1250), 1250);
    assert_eq!(to_extended(VOTE_MAX as u128), VOTE_MAX as u128);
    assert_eq!(to_extended((1u128 << 64) + 5), VOTE_MAX as u128);
    assert_eq!(to_extended(u128::MAX), VOTE_MAX as u128);
    // a balance above the range is slashed as if it held the range's maximum
    let severity = Fraction::new(1u64, 1u64);
    assert_eq!(StakingSlasher::slash_amount(1u128 << 80, severity), VOTE_MAX as u128);
}

#[test]
fn unknown_account_is_not_slashed() {
    let mut ledger = stakers();
    assert_eq!(ledger.slashable_balance(99), 0);
    let severity = Fraction::new(3u64, 200u64);
    StakingSlasher::slash(&mut ledger, 99, severity);
    assert_eq!(ledger.free_balance(99), 0);
    assert_eq!(ledger.free_balance(11), 1000);
}

#[test]
fn slash_stops_at_zero() {
    let mut ledger = StakeLedger::new();
    ledger.bond(5, 10, 100);
    // (100 * 1) / 2 = 50, more than the free balance
    StakingSlasher::slash(&mut ledger, 5, Fraction::new(1u64, 2u64));
    assert_eq!(ledger.free_balance(5), 0);
    assert_eq!(ledger.slashable_balance(5), 50);
}

#[test]
fn fraction_keeps_its_fields() {
    let f = Fraction::new(3u64, 200u64);
    assert_eq!(f.denominator(), 3);
    assert_eq!(f.numerator(), 200);
}

#[test]
fn wide_severity_saturates_the_product() {
    // (2^64 - 1) * (2^128 - 1) clamps to the largest extended value
    let severity = Fraction::new(u128::MAX, 1u128);
    assert_eq!(StakingSlasher::slash_amount(u128::MAX, severity), u128::MAX);
    let halved = Fraction::new(u128::MAX, 2u128);
    assert_eq!(StakingSlasher::slash_amount(u128::MAX, halved), u128::MAX / 2);
    let narrow = Fraction::new(3u32, 200u32);
    assert_eq!(StakingSlasher::slash_amount(1250, narrow), 18);
}

#[test]
fn empty_rolling_pass_changes_no_balance() {
    let mut ledger = stakers();
    let mut misconduct = one_and_a_half_percent();
    let level = MisconductModule::rolling_data(&mut misconduct, &mut ledger, &[], 30, 2);
    assert_eq!(level, 3);
    assert_eq!(ledger.free_balance(11), 1000);
    assert_eq!(ledger.slashable_balance(11), 1250);
    assert_eq!(ledger.free_balance(41), 2000);
}

#[test]
fn repeated_rolling_data_returns_same_level() {
    let mut ledger = stakers();
    let mut misconduct = one_and_a_half_percent();
    let first = MisconductModule::rolling_data(&mut misconduct, &mut ledger, &[21], 30, 1);
    let second = MisconductModule::rolling_data(&mut misconduct, &mut ledger, &[21], 30, 2);
    assert_eq!(first, second);
    assert_eq!(ledger.free_balance(11), 1000);
}

#[test]
fn end_of_era_pass_leaves_others_untouched() {
    let mut ledger = stakers();
    ledger.bond(51, 700, 700);
    let mut misconduct = one_and_a_half_percent();
    MisconductModule::era_data(&mut misconduct, &[11, 21], 30, 0);
    assert_eq!(MisconductModule::slash(&misconduct, &mut ledger), 3);
    assert_eq!(ledger.free_balance(11), 982);
    assert_eq!(ledger.free_balance(21), 1982);
    assert_eq!(ledger.free_balance(31), 2000);
    assert_eq!(ledger.free_balance(51), 700);
    assert_eq!(ledger.slashable_balance(51), 700);
}
