//! The holdings of each account: fruit, a liquid balance, a stake that
//! earns simple interest, and a bonus that can be claimed after a cooldown.

use vstd::prelude::*;
use crate::errors::RmrkError;
use crate::time::{elapsed, has_elapsed, FIVE_MINUTES};
use crate::types::{AccountId, Key};
use crate::{MultiAssetData, State};

verus! {

/// The price of one fruit.
pub const APPLE_PRICE: u64 = 20;

/// What a claimed bonus adds to the balance.
pub const BONUS: u64 = 100;

/// Milliseconds in one unit of interest.
pub const STAKING_UNIT_MS: u64 = 10_000;

/// The full units of ten seconds between `last_staked` and `now`.
pub open spec fn staking_units(last_staked: u64, now: u64) -> int {
    (now - last_staked) / (STAKING_UNIT_MS as int)
}

/// The value at `now` of `principal` staked at `last_staked`: the principal
/// and one percent of it, rounded down, for each full unit of ten seconds.
/// Nothing where nothing is staked or nothing was ever staked.
pub open spec fn accrued(principal: u64, last_staked: u64, now: u64) -> int {
    if last_staked == 0 || principal == 0 {
        0
    } else {
        principal + principal * staking_units(last_staked, now) / 100
    }
}

/// Whether `accrued` can be computed: where something is staked, `now` is
/// not before `last_staked` and the value fits in 64 bits.
pub open spec fn accruable(principal: u64, last_staked: u64, now: u64) -> bool {
    last_staked != 0 && principal != 0 ==> last_staked <= now && accrued(
        principal,
        last_staked,
        now,
    ) <= u64::MAX
}

/// Whether the value at `now` of `principal` staked at `last_staked` can be
/// computed.
pub fn can_accrue(principal: u64, last_staked: u64, now: u64) -> (possible: bool)
    ensures
        possible == accruable(principal, last_staked, now),
{
    if last_staked == 0 || principal == 0 {
        return true;
    }
    if last_staked > now {
        return false;
    }
    let units: u64 = (now - last_staked) / STAKING_UNIT_MS;
    assert(principal as u128 * units as u128 <= u64::MAX as u128 * u64::MAX as u128)
        by (nonlinear_arith);
    let interest: u128 = principal as u128 * units as u128 / 100;
    principal as u128 + interest <= u64::MAX as u128
}

/// The value at `now` of `principal` staked at `last_staked`.
pub fn accrue(principal: u64, last_staked: u64, now: u64) -> (value: u64)
    requires
        accruable(principal, last_staked, now),
    ensures
        value == accrued(principal, last_staked, now),
{
    if last_staked == 0 || principal == 0 {
        return 0;
    }
    let units: u64 = (now - last_staked) / STAKING_UNIT_MS;
    assert(principal as u128 * units as u128 <= u64::MAX as u128 * u64::MAX as u128)
        by (nonlinear_arith);
    let interest: u128 = principal as u128 * units as u128 / 100;
    (principal as u128 + interest) as u64
}

impl State {
    /// The value at `now` of what the account has staked, with interest.
    pub open spec fn staked_with_interest(self, account: AccountId, now: u64) -> int {
        accrued(self.principal_of(account), self.last_staked_of(account), now)
    }

    /// Whether the value of the account's stake at `now` can be computed.
    pub open spec fn stake_readable_at(self, account: AccountId, now: u64) -> bool {
        accruable(self.principal_of(account), self.last_staked_of(account), now)
    }
}

impl MultiAssetData {
    /// The fruit of the account.
    pub fn get_your_apple(&self, account_id: AccountId) -> (apples: u16)
        requires
            self.wf(),
        ensures
            apples == self@.apples_of(account_id),
    {
        match self.apple_number.get(&account_id) {
            Some(apples) => *apples,
            None => 0,
        }
    }

    /// Sets the fruit of the account.
    pub fn set_your_apple(
        &mut self,
        account_id: AccountId,
        after_apple: u16,
    ) -> (result: Result<(), RmrkError>)
        requires
            old(self).wf(),
        ensures
            final(self).wf(),
            result == Ok::<(), RmrkError>(()),
            final(self)@ == old(self)@.with_apples(account_id, after_apple),
    {
        self.apple_number.insert(account_id, after_apple);
        proof {
            State::lemma_wf_frame(old(self)@, self@);
        }
        Ok(())
    }

    /// The liquid balance of the account.
    pub fn get_your_money(&self, account_id: AccountId) -> (money: u64)
        requires
            self.wf(),
        ensures
            money == self@.money_of(account_id),
    {
        match self.your_money.get(&account_id) {
            Some(money) => *money,
            None => 0,
        }
    }

    /// Sets the liquid balance of the account.
    pub fn set_your_money(
        &mut self,
        account_id: AccountId,
        after_money: u64,
    ) -> (result: Result<(), RmrkError>)
        requires
            old(self).wf(),
        ensures
            final(self).wf(),
            result == Ok::<(), RmrkError>(()),
            final(self)@ == old(self)@.with_money(account_id, after_money),
    {
        self.your_money.insert(account_id, after_money);
        proof {
            State::lemma_wf_frame(old(self)@, self@);
        }
        Ok(())
    }

    /// When the account last claimed the bonus; 0 for never.
    pub fn get_last_bonus(&self, account_id: AccountId) -> (time: u64)
        requires
            self.wf(),
        ensures
            time == self@.last_bonus_of(account_id),
    {
        match self.last_bonus.get(&account_id) {
            Some(time) => *time,
            None => 0,
        }
    }

    /// Records `current_time` as the moment of the account's last bonus.
    pub fn set_last_bonus(
        &mut self,
        account_id: AccountId,
        current_time: u64,
    ) -> (result: Result<(), RmrkError>)
        requires
            old(self).wf(),
        ensures
            final(self).wf(),
            result == Ok::<(), RmrkError>(()),
            final(self)@ == old(self)@.with_last_bonus(account_id, current_time),
    {
        self.last_bonus.insert(account_id, current_time);
        proof {
            State::lemma_wf_frame(old(self)@, self@);
        }
        Ok(())
    }

    /// Whether the value of the account's stake at `now` can be computed:
    /// where something is staked, `now` is not before the moment of the
    /// stake, and the value fits in 64 bits.
    pub fn can_read_stake(&self, now: u64, account_id: AccountId) -> (possible: bool)
        requires
            self.wf(),
        ensures
            possible == self@.stake_readable_at(account_id, now),
    {
        let staked_money = match self.your_staked_money.get(&account_id) {
            Some(principal) => *principal,
            None => 0,
        };
        let last_staked_time = match self.last_staked.get(&account_id) {
            Some(time) => *time,
            None => 0,
        };
        can_accrue(staked_money, last_staked_time, now)
    }

    /// The value at `now` of what the account has staked, with interest.
    pub fn get_your_staked_money(&self, now: u64, account_id: AccountId) -> (value: u64)
        requires
            self.wf(),
            self@.stake_readable_at(account_id, now),
        ensures
            value == self@.staked_with_interest(account_id, now),
    {
        let staked_money = match self.your_staked_money.get(&account_id) {
            Some(principal) => *principal,
            None => 0,
        };
        let last_staked_time = match self.last_staked.get(&account_id) {
            Some(time) => *time,
            None => 0,
        };
        accrue(staked_money, last_staked_time, now)
    }

    /// The principal that the account has staked, without interest.
    pub fn get_your_principal(&self, account_id: AccountId) -> (principal: u64)
        requires
            self.wf(),
        ensures
            principal == self@.principal_of(account_id),
    {
        match self.your_staked_money.get(&account_id) {
            Some(principal) => *principal,
            None => 0,
        }
    }

    /// Whether `stake_your_money` can be called with these arguments.
    pub fn can_stake_your_money(&self, account_id: AccountId, stake_money: u64) -> (possible: bool)
        requires
            self.wf(),
        ensures
            possible == self@.stake_in_bounds(account_id, stake_money),
    {
        let current_money = self.get_your_money(account_id);
        if current_money == 0 || current_money < stake_money {
            return true;
        }
        self.get_your_principal(account_id) <= u64::MAX - stake_money
    }

    /// Whether `withdraw_your_money` can be called with these arguments.
    pub fn can_withdraw_your_money(&self, now: u64, account_id: AccountId) -> (possible: bool)
        requires
            self.wf(),
        ensures
            possible == self@.withdrawal_in_bounds(now, account_id),
    {
        if !self.can_read_stake(now, account_id) {
            return false;
        }
        self.get_your_staked_money(now, account_id) <= u64::MAX - self.get_your_money(account_id)
    }

    /// Whether `buy_an_apple` can be called for the account.
    pub fn can_buy_an_apple(&self, account_id: AccountId) -> (possible: bool)
        requires
            self.wf(),
        ensures
            possible == self@.purchase_in_bounds(account_id),
    {
        self.get_your_money(account_id) < APPLE_PRICE || self.get_your_apple(account_id) < u16::MAX
    }

    /// Whether `daily_bonus` can be called with these arguments.
    pub fn can_daily_bonus(
        &self,
        caller: AccountId,
        now: u64,
        account_id: AccountId,
    ) -> (possible: bool)
        requires
            self.wf(),
        ensures
            possible == self@.bonus_in_bounds(caller, now, account_id),
    {
        if !caller.same(&account_id) {
            return true;
        }
        let last_bonus = self.get_last_bonus(account_id);
        if last_bonus > now {
            return false;
        }
        !has_elapsed(now, FIVE_MINUTES, last_bonus) || self.get_your_money(account_id) <= u64::MAX
            - BONUS
    }

    /// Moves `stake_money` from the liquid balance of the account to the
    /// principal of its stake, and lets the interest on the whole principal
    /// run anew from `now`: what the stake had earned until then is given
    /// up. Refused where the balance is 0 or less than `stake_money`.
    pub fn stake_your_money(
        &mut self,
        now: u64,
        account_id: AccountId,
        stake_money: u64,
    ) -> (result: Result<(), RmrkError>)
        requires
            old(self).wf(),
            old(self)@.stake_in_bounds(account_id, stake_money),
        ensures
            final(self).wf(),
            result == old(self)@.stake_refusal(account_id, stake_money),
            result is Err ==> final(self)@ == old(self)@,
            result is Ok ==> final(self)@ == old(self)@.staked(now, account_id, stake_money),
    {
        let current_money = self.get_your_money(account_id);
        let current_staked_money = self.get_your_principal(account_id);
        if current_money == 0 || current_money < stake_money {
            return Err(RmrkError::NotEnoughMoney);
        }
        let after_money: u64 = current_money - stake_money;
        let after_staked_money: u64 = current_staked_money + stake_money;
        self.your_money.insert(account_id, after_money);
        self.your_staked_money.insert(account_id, after_staked_money);
        self.last_staked.insert(account_id, now);
        proof {
            State::lemma_wf_frame(old(self)@, self@);
        }
        Ok(())
    }

    /// Pays the stake of the account, with the interest it has earned until
    /// `now`, into its liquid balance, and empties the stake. Refused where
    /// the stake is worth nothing.
    pub fn withdraw_your_money(
        &mut self,
        now: u64,
        account_id: AccountId,
    ) -> (result: Result<(), RmrkError>)
        requires
            old(self).wf(),
            old(self)@.withdrawal_in_bounds(now, account_id),
        ensures
            final(self).wf(),
            result == old(self)@.withdrawal_refusal(now, account_id),
            result is Err ==> final(self)@ == old(self)@,
            result is Ok ==> final(self)@ == old(self)@.withdrawn(now, account_id),
    {
        let staked_money = self.get_your_staked_money(now, account_id);
        let current_money = self.get_your_money(account_id);
        if staked_money == 0 {
            return Err(RmrkError::NotEnoughMoney);
        }
        let result_money: u64 = current_money + staked_money;
        self.your_staked_money.insert(account_id, 0);
        self.your_money.insert(account_id, result_money);
        proof {
            State::lemma_wf_frame(old(self)@, self@);
        }
        Ok(())
    }

    /// Takes `change_money` from the liquid balance of the account. Refused
    /// where the balance is less.
    pub fn minus_your_money(
        &mut self,
        account_id: AccountId,
        change_money: u64,
    ) -> (result: Result<(), RmrkError>)
        requires
            old(self).wf(),
        ensures
            final(self).wf(),
            result == old(self)@.debit_refusal(account_id, change_money),
            result is Err ==> final(self)@ == old(self)@,
            result is Ok ==> final(self)@ == old(self)@.with_money(
                account_id,
                (old(self)@.money_of(account_id) - change_money) as u64,
            ),
    {
        let money = self.get_your_money(account_id);
        if money < change_money {
            return Err(RmrkError::NotEnoughMoney);
        }
        let after_money: u64 = money - change_money;
        self.set_your_money(account_id, after_money)
    }

    /// Adds `change_money` to the liquid balance of the account.
    pub fn plus_your_money(
        &mut self,
        account_id: AccountId,
        change_money: u64,
    ) -> (result: Result<(), RmrkError>)
        requires
            old(self).wf(),
            old(self)@.money_of(account_id) + change_money <= u64::MAX,
        ensures
            final(self).wf(),
            result == Ok::<(), RmrkError>(()),
            final(self)@ == old(self)@.with_money(
                account_id,
                (old(self)@.money_of(account_id) + change_money) as u64,
            ),
    {
        let money = self.get_your_money(account_id);
        let after_money: u64 = money + change_money;
        self.set_your_money(account_id, after_money)
    }

    /// Takes one fruit from the account. Refused where it has none.
    pub fn minus_your_apple(&mut self, account_id: AccountId) -> (result: Result<(), RmrkError>)
        requires
            old(self).wf(),
        ensures
            final(self).wf(),
            result == old(self)@.fruit_refusal(account_id),
            result is Err ==> final(self)@ == old(self)@,
            result is Ok ==> final(self)@ == old(self)@.with_apples(
                account_id,
                (old(self)@.apples_of(account_id) - 1) as u16,
            ),
    {
        let apple_number = self.get_your_apple(account_id);
        if apple_number < 1 {
            return Err(RmrkError::NotEnoughApple);
        }
        let after_apple: u16 = apple_number - 1;
        self.set_your_apple(account_id, after_apple)
    }

    /// Buys one fruit for the account at the price of 20. Refused where the
    /// balance is less.
    pub fn buy_an_apple(&mut self, account_id: AccountId) -> (result: Result<(), RmrkError>)
        requires
            old(self).wf(),
            old(self)@.purchase_in_bounds(account_id),
        ensures
            final(self).wf(),
            result == old(self)@.debit_refusal(account_id, APPLE_PRICE),
            result is Err ==> final(self)@ == old(self)@,
            result is Ok ==> final(self)@ == old(self)@.bought(account_id),
    {
        let apples = self.get_your_apple(account_id);
        match self.minus_your_money(account_id, APPLE_PRICE) {
            Err(e) => Err(e),
            Ok(()) => {
                let after_apple: u16 = apples + 1;
                self.set_your_apple(account_id, after_apple)
            },
        }
    }

    /// Whether `account_id` is the caller.
    pub fn is_account_id(&self, caller: AccountId, account_id: AccountId) -> (own: bool)
        ensures
            own == (caller == account_id),
    {
        caller.same(&account_id)
    }

    /// Credits the bonus of 100 to the account. Only the account itself can
    /// claim it, and only when more than five minutes have passed since it
    /// last did.
    pub fn daily_bonus(
        &mut self,
        caller: AccountId,
        now: u64,
        account_id: AccountId,
    ) -> (result: Result<(), RmrkError>)
        requires
            old(self).wf(),
            old(self)@.bonus_in_bounds(caller, now, account_id),
        ensures
            final(self).wf(),
            result == old(self)@.bonus_refusal(caller, now, account_id),
            result is Err ==> final(self)@ == old(self)@,
            result is Ok ==> final(self)@ == old(self)@.rewarded(now, account_id),
    {
        if !self.is_account_id(caller, account_id) {
            return Err(RmrkError::InvalidAccountId);
        }
        let last_bonus = self.get_last_bonus(account_id);
        if !has_elapsed(now, FIVE_MINUTES, last_bonus) {
            return Err(RmrkError::TimeHasNotPassed);
        }
        let after_money: u64 = self.get_your_money(account_id) + BONUS;
        self.last_bonus.insert(account_id, now);
        self.your_money.insert(account_id, after_money);
        proof {
            State::lemma_wf_frame(old(self)@, self@);
        }
        Ok(())
    }
}

impl State {
    /// Whether staking `amount` stays within the bounds: where the stake is
    /// granted, the principal with `amount` fits in 64 bits.
    pub open spec fn stake_in_bounds(self, account: AccountId, amount: u64) -> bool {
        self.stake_refusal(account, amount) is Ok ==> self.principal_of(account) + amount
            <= u64::MAX
    }

    /// Whether a withdrawal at `now` stays within the bounds: the value of
    /// the stake at `now` can be computed, and the balance with it fits in 64
    /// bits.
    pub open spec fn withdrawal_in_bounds(self, now: u64, account: AccountId) -> bool {
        &&& self.stake_readable_at(account, now)
        &&& self.money_of(account) + self.staked_with_interest(account, now) <= u64::MAX
    }

    /// Whether buying a fruit stays within the bounds: where the balance
    /// covers the price, one more fruit fits in 16 bits.
    pub open spec fn purchase_in_bounds(self, account: AccountId) -> bool {
        self.money_of(account) >= APPLE_PRICE ==> self.apples_of(account) < u16::MAX
    }

    /// Whether a claim of the bonus at `now` stays within the bounds: for
    /// the caller's own account, `now` is not before its last bonus, and
    /// where the bonus is granted, the balance with it fits in 64 bits.
    pub open spec fn bonus_in_bounds(
        self,
        caller: AccountId,
        now: u64,
        account: AccountId,
    ) -> bool {
        &&& caller == account ==> self.last_bonus_of(account) <= now
        &&& self.bonus_refusal(caller, now, account) is Ok ==> self.money_of(account) + BONUS
            <= u64::MAX
    }

    /// Whether `amount` can be taken from the liquid balance of the account.
    pub open spec fn debit_refusal(self, account: AccountId, amount: u64) -> Result<(), RmrkError> {
        if self.money_of(account) < amount {
            Err(RmrkError::NotEnoughMoney)
        } else {
            Ok(())
        }
    }

    /// Whether a fruit can be taken from the account.
    pub open spec fn fruit_refusal(self, account: AccountId) -> Result<(), RmrkError> {
        if self.apples_of(account) == 0 {
            Err(RmrkError::NotEnoughApple)
        } else {
            Ok(())
        }
    }

    /// The state after the account has bought one fruit.
    pub open spec fn bought(self, account: AccountId) -> State {
        self.with_money(account, (self.money_of(account) - APPLE_PRICE) as u64).with_apples(
            account,
            (self.apples_of(account) + 1) as u16,
        )
    }

    /// Whether the account can stake `amount`: its balance is neither 0 nor
    /// less than `amount`.
    pub open spec fn stake_refusal(self, account: AccountId, amount: u64) -> Result<(), RmrkError> {
        if self.money_of(account) == 0 || self.money_of(account) < amount {
            Err(RmrkError::NotEnoughMoney)
        } else {
            Ok(())
        }
    }

    /// The state after the account has staked `amount` at `now`: the
    /// amount has moved from the balance to the principal, and `now` is the
    /// moment from which the principal earns.
    pub open spec fn staked(self, now: u64, account: AccountId, amount: u64) -> State {
        self.with_money(account, (self.money_of(account) - amount) as u64).with_principal(
            account,
            (self.principal_of(account) + amount) as u64,
        ).with_last_staked(account, now)
    }

    /// Whether the account can withdraw at `now`: its stake is worth
    /// something.
    pub open spec fn withdrawal_refusal(
        self,
        now: u64,
        account: AccountId,
    ) -> Result<(), RmrkError> {
        if self.staked_with_interest(account, now) == 0 {
            Err(RmrkError::NotEnoughMoney)
        } else {
            Ok(())
        }
    }

    /// The state after the account has withdrawn its stake at `now`.
    pub open spec fn withdrawn(self, now: u64, account: AccountId) -> State {
        self.with_principal(account, 0).with_money(
            account,
            (self.money_of(account) + self.staked_with_interest(account, now)) as u64,
        )
    }

    /// Whether a claim of the bonus is granted, and why not where it is
    /// not: the account must be the caller, and more than five minutes must
    /// have passed since its last bonus.
    pub open spec fn bonus_refusal(
        self,
        caller: AccountId,
        now: u64,
        account: AccountId,
    ) -> Result<(), RmrkError> {
        if caller != account {
            Err(RmrkError::InvalidAccountId)
        } else if !elapsed(now, FIVE_MINUTES, self.last_bonus_of(account)) {
            Err(RmrkError::TimeHasNotPassed)
        } else {
            Ok(())
        }
    }

    /// The state after the account has claimed the bonus at `now`.
    pub open spec fn rewarded(self, now: u64, account: AccountId) -> State {
        self.with_last_bonus(account, now).with_money(
            account,
            (self.money_of(account) + BONUS) as u64,
        )
    }
}

} // verus!
