use multiasset::economy::accrue;
use multiasset::errors::RmrkError;
use multiasset::types::AccountId;
use multiasset::MultiAssetData;

fn alice() -> AccountId {
    AccountId([1; 32])
}

fn bob() -> AccountId {
    AccountId([2; 32])
}

fn funded(money: u64) -> MultiAssetData {
    let mut data = MultiAssetData::new();
    assert_eq!(data.set_your_money(alice(), money), Ok(()));
    data
}

#[test]
fn unknown_account_holds_nothing() {
    let data = MultiAssetData::new();
    assert_eq!(data.get_your_apple(alice()), 0);
    assert_eq!(data.get_your_money(alice()), 0);
    assert_eq!(data.get_your_staked_money(1_000, alice()), 0);
    assert_eq!(data.get_last_bonus(alice()), 0);
}

#[test]
fn fresh_account_buys_and_spends_fruit() {
    let mut data = MultiAssetData::new();
    assert_eq!(data.set_default(true, alice()), Ok(()));
    assert_eq!(data.get_your_apple(alice()), 10);
    assert_eq!(data.get_your_money(alice()), 500);

    assert_eq!(data.buy_an_apple(alice()), Ok(()));
    assert_eq!(data.get_your_apple(alice()), 11);
    assert_eq!(data.get_your_money(alice()), 480);

    for left in (0..11u16).rev() {
        assert_eq!(data.minus_your_apple(alice()), Ok(()));
        assert_eq!(data.get_your_apple(alice()), left);
    }
    assert_eq!(data.minus_your_apple(alice()), Err(RmrkError::NotEnoughApple));
    assert_eq!(data.get_your_apple(alice()), 0);
    assert_eq!(data.get_your_money(alice()), 480);
}

#[test]
fn buying_needs_the_price() {
    let mut data = funded(19);
    assert_eq!(data.buy_an_apple(alice()), Err(RmrkError::NotEnoughMoney));
    assert_eq!(data.get_your_money(alice()), 19);
    assert_eq!(data.get_your_apple(alice()), 0);

    let mut data = funded(20);
    assert_eq!(data.buy_an_apple(alice()), Ok(()));
    assert_eq!(data.get_your_money(alice()), 0);
    assert_eq!(data.get_your_apple(alice()), 1);
}

#[test]
fn accounts_are_kept_apart() {
    let mut data = funded(100);
    assert_eq!(data.set_your_apple(bob(), 3), Ok(()));
    assert_eq!(data.get_your_apple(alice()), 0);
    assert_eq!(data.get_your_money(bob()), 0);
    assert_eq!(data.get_your_apple(bob()), 3);
    assert_eq!(data.get_your_money(alice()), 100);
}

#[test]
fn debit_and_credit() {
    let mut data = funded(50);
    assert_eq!(data.minus_your_money(alice(), 51), Err(RmrkError::NotEnoughMoney));
    assert_eq!(data.get_your_money(alice()), 50);
    assert_eq!(data.minus_your_money(alice(), 50), Ok(()));
    assert_eq!(data.get_your_money(alice()), 0);
    assert_eq!(data.plus_your_money(alice(), 7), Ok(()));
    assert_eq!(data.get_your_money(alice()), 7);
    assert_eq!(data.minus_your_money(alice(), 0), Ok(()));
    assert_eq!(data.get_your_money(alice()), 7);
}

#[test]
fn stake_and_withdraw_at_once_returns_the_stake() {
    let mut data = funded(500);
    assert_eq!(data.stake_your_money(1_000, alice(), 100), Ok(()));
    assert_eq!(data.get_your_money(alice()), 400);
    assert_eq!(data.get_your_staked_money(1_000, alice()), 100);
    assert_eq!(data.withdraw_your_money(1_000, alice()), Ok(()));
    assert_eq!(data.get_your_money(alice()), 500);
    assert_eq!(data.get_your_staked_money(1_000, alice()), 0);
}

#[test]
fn stake_earns_one_percent_per_ten_seconds() {
    let mut data = funded(500);
    assert_eq!(data.stake_your_money(1_000, alice(), 100), Ok(()));
    assert_eq!(data.get_your_staked_money(10_999, alice()), 100);
    assert_eq!(data.get_your_staked_money(11_000, alice()), 101);
    assert_eq!(data.get_your_staked_money(1_000 + 7 * 10_000 + 9_999, alice()), 107);
    assert_eq!(data.withdraw_your_money(1_000 + 7 * 10_000 + 9_999, alice()), Ok(()));
    assert_eq!(data.get_your_money(alice()), 507);
    assert_eq!(data.get_your_staked_money(2_000_000, alice()), 0);
    assert_eq!(data.withdraw_your_money(2_000_000, alice()), Err(RmrkError::NotEnoughMoney));
    assert_eq!(data.get_your_money(alice()), 507);
}

#[test]
fn interest_is_rounded_down() {
    assert_eq!(accrue(150, 1_000, 11_000), 151);
    assert_eq!(accrue(99, 1_000, 11_000), 99);
    assert_eq!(accrue(99, 1_000, 21_000), 100);
    assert_eq!(accrue(100, 1_000, 1_000 + 250 * 10_000), 350);
    assert_eq!(accrue(0, 1_000, 50_000), 0);
    assert_eq!(accrue(100, 0, 50_000), 0);
}

#[test]
fn interest_is_exact_where_the_product_exceeds_64_bits() {
    let principal: u64 = 1 << 62;
    assert_eq!(accrue(principal, 1, 1 + 10 * 10_000), principal + principal / 10);
}

#[test]
fn staking_needs_the_balance() {
    let mut data = MultiAssetData::new();
    assert_eq!(data.stake_your_money(1_000, alice(), 0), Err(RmrkError::NotEnoughMoney));
    let mut data = funded(99);
    assert_eq!(data.stake_your_money(1_000, alice(), 100), Err(RmrkError::NotEnoughMoney));
    assert_eq!(data.get_your_money(alice()), 99);
    assert_eq!(data.get_your_staked_money(1_000, alice()), 0);
    assert_eq!(data.stake_your_money(1_000, alice(), 99), Ok(()));
    assert_eq!(data.get_your_money(alice()), 0);
    assert_eq!(data.get_your_staked_money(1_000, alice()), 99);
}

#[test]
fn withdrawing_without_a_stake_is_refused() {
    let mut data = funded(10);
    assert_eq!(data.withdraw_your_money(5_000, alice()), Err(RmrkError::NotEnoughMoney));
    assert_eq!(data.get_your_money(alice()), 10);
}

#[test]
fn staking_again_adds_the_amount_to_the_principal() {
    let mut data = funded(500);
    assert_eq!(data.stake_your_money(10_000, alice(), 100), Ok(()));
    assert_eq!(data.get_your_principal(alice()), 100);
    assert_eq!(data.get_your_staked_money(1_010_000, alice()), 200);
    assert_eq!(data.stake_your_money(1_010_000, alice(), 50), Ok(()));
    assert_eq!(data.get_your_money(alice()), 350);
    assert_eq!(data.get_your_principal(alice()), 150);
    assert_eq!(data.get_your_staked_money(1_010_000, alice()), 150);
    assert_eq!(data.get_your_staked_money(1_020_000, alice()), 151);
}

#[test]
fn staking_keeps_balance_and_principal_together() {
    let mut data = funded(500);
    assert_eq!(data.set_your_money(bob(), 70), Ok(()));
    assert_eq!(data.stake_your_money(1_000, alice(), 100), Ok(()));
    assert_eq!(data.stake_your_money(11_000, alice(), 50), Ok(()));
    assert_eq!(data.get_your_principal(alice()), 150);
    assert_eq!(data.get_your_money(alice()), 350);
    assert_eq!(data.get_your_money(alice()) + data.get_your_principal(alice()), 500);
    assert_eq!(data.stake_your_money(11_000, alice(), 0), Ok(()));
    assert_eq!(data.get_your_principal(alice()), 150);
    assert_eq!(data.get_your_money(alice()), 350);
    assert_eq!(data.get_your_money(bob()), 70);
    assert_eq!(data.get_your_principal(bob()), 0);
    assert_eq!(data.get_your_staked_money(11_000, bob()), 0);
}

#[test]
fn a_stake_before_the_recorded_one_is_still_granted() {
    let mut data = funded(500);
    assert_eq!(data.stake_your_money(50_000, alice(), 100), Ok(()));
    assert_eq!(data.stake_your_money(40_000, alice(), 10), Ok(()));
    assert_eq!(data.get_your_principal(alice()), 110);
    assert_eq!(data.get_your_money(alice()), 390);
    assert_eq!(data.get_your_staked_money(50_000, alice()), 111);
}

#[test]
fn testers_of_the_stake() {
    let mut data = funded(500);
    assert!(data.can_stake_your_money(alice(), 100));
    assert!(data.can_stake_your_money(alice(), 501));
    assert!(data.can_stake_your_money(bob(), u64::MAX));
    assert_eq!(data.stake_your_money(1_000, alice(), 100), Ok(()));
    assert_eq!(data.set_your_money(alice(), u64::MAX), Ok(()));
    assert!(data.can_stake_your_money(alice(), u64::MAX - 100));
    assert!(!data.can_stake_your_money(alice(), u64::MAX - 99));
    assert!(data.can_withdraw_your_money(1_000, bob()));
    assert!(!data.can_withdraw_your_money(1_000, alice()));
    assert!(!data.can_withdraw_your_money(999, alice()));
    assert_eq!(data.set_your_money(alice(), u64::MAX - 100), Ok(()));
    assert!(data.can_withdraw_your_money(1_000, alice()));
    assert!(!data.can_withdraw_your_money(11_000, alice()));
}

#[test]
fn a_stake_made_at_time_zero_counts_as_never_made() {
    let mut data = funded(500);
    assert_eq!(data.stake_your_money(0, alice(), 100), Ok(()));
    assert_eq!(data.get_your_money(alice()), 400);
    assert_eq!(data.get_your_principal(alice()), 100);
    assert_eq!(data.get_your_staked_money(50_000, alice()), 0);
    assert_eq!(data.withdraw_your_money(50_000, alice()), Err(RmrkError::NotEnoughMoney));
    assert_eq!(data.stake_your_money(5, alice(), 10), Ok(()));
    assert_eq!(data.get_your_money(alice()), 390);
    assert_eq!(data.get_your_principal(alice()), 110);
    assert_eq!(data.get_your_staked_money(5, alice()), 110);
}

#[test]
fn bonus_is_for_the_caller_only() {
    let mut data = MultiAssetData::new();
    assert_eq!(data.daily_bonus(bob(), 1_000_000, alice()), Err(RmrkError::InvalidAccountId));
    assert_eq!(data.get_your_money(alice()), 0);
    assert_eq!(data.get_last_bonus(alice()), 0);
    assert!(data.is_account_id(alice(), alice()));
    assert!(!data.is_account_id(bob(), alice()));
}

#[test]
fn bonus_waits_for_the_cooldown() {
    let mut data = MultiAssetData::new();
    assert_eq!(data.daily_bonus(alice(), 300_000, alice()), Err(RmrkError::TimeHasNotPassed));
    assert_eq!(data.get_your_money(alice()), 0);
    assert_eq!(data.daily_bonus(alice(), 300_001, alice()), Ok(()));
    assert_eq!(data.get_your_money(alice()), 100);
    assert_eq!(data.get_last_bonus(alice()), 300_001);
    assert_eq!(data.daily_bonus(alice(), 600_001, alice()), Err(RmrkError::TimeHasNotPassed));
    assert_eq!(data.get_your_money(alice()), 100);
    assert_eq!(data.get_last_bonus(alice()), 300_001);
    assert_eq!(data.daily_bonus(alice(), 600_002, alice()), Ok(()));
    assert_eq!(data.get_your_money(alice()), 200);
}

#[test]
fn last_bonus_can_be_set() {
    let mut data = MultiAssetData::new();
    assert_eq!(data.set_last_bonus(alice(), 77), Ok(()));
    assert_eq!(data.get_last_bonus(alice()), 77);
    assert_eq!(data.get_last_bonus(bob()), 0);
}
