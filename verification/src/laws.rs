//! What holds of the operations taken together, proved from the states that
//! their contracts name.

use vstd::prelude::*;
use crate::economy::staking_units;
use crate::errors::RmrkError;
use crate::guards::owner_action_check;
use crate::lists::{is_permutation, lemma_permutation, lemma_push, lemma_without, without};
use crate::pet::{decay, meal_outcome};
use crate::time::FIVE_MINUTES;
use crate::types::{AccountId, AssetId, IdView};
use crate::{MultiAssetData, State};

verus! {

/// In every state that the library hands out, no asset is both pending and
/// accepted for a token, no list of a token names an asset twice, and an
/// asset that a list names is defined.
pub proof fn lemma_pending_and_accepted_apart(data: MultiAssetData, token: IdView, asset: AssetId)
    requires
        data.wf(),
    ensures
        !(data@.pending_of(token).contains(asset) && data@.accepted_of(token).contains(asset)),
        data@.pending_of(token).no_duplicates(),
        data@.accepted_of(token).no_duplicates(),
        data@.pending_of(token).contains(asset) || data@.accepted_of(token).contains(asset)
            ==> data@.collection_asset_entries.contains_key(asset),
{
    data.lemma_wf_state();
    assert(!(data@.is_accepted(token, asset) && data@.is_pending(token, asset)));
    assert(data@.is_accepted(token, asset) ==> data@.is_defined(asset));
    assert(data@.is_pending(token, asset) ==> data@.is_defined(asset));
}

/// Accepting a pending asset and removing it at once gives the token the
/// accepted assets that it had before, in their order. The asset is then
/// neither pending nor accepted.
pub proof fn lemma_accept_then_remove(
    state: State,
    caller: AccountId,
    token_owner: Option<AccountId>,
    token: IdView,
    asset: AssetId,
)
    requires
        state.wf(),
        state.pending_action_check(caller, token_owner, token, asset) is Ok,
    ensures
        state.accepted(token, asset).remove_check(caller, token_owner, token, asset) is Ok,
        state.accepted(token, asset).removed(token, asset).accepted_of(token) == state.accepted_of(
            token,
        ),
        !state.accepted(token, asset).removed(token, asset).is_pending(token, asset),
        !state.accepted(token, asset).removed(token, asset).is_accepted(token, asset),
{
    assert(state.is_pending(token, asset));
    assert(!state.is_accepted(token, asset));
    let before = state.accepted_of(token);
    lemma_push(before, asset);
    lemma_without(state.pending_of(token), asset);
    let accepted = state.accepted(token, asset);
    assert(accepted.accepted_of(token) == before.push(asset));
    assert(accepted.is_accepted(token, asset));
    let removed = accepted.removed(token, asset);
    assert(removed.accepted_of(token) == without(before.push(asset), asset));
    assert(removed.pending_of(token) == without(state.pending_of(token), asset));
}

/// Setting the priorities of a token to a permutation of its accepted
/// assets is granted to its owner and makes the permutation the accepted
/// list; with the accepted list itself, the list stays as it is. Anything
/// but a permutation is refused.
pub proof fn lemma_set_priority(
    state: State,
    caller: AccountId,
    token_owner: Option<AccountId>,
    token: IdView,
    priorities: Seq<AssetId>,
)
    requires
        state.wf(),
    ensures
        state.priority_check(caller, token_owner, token, priorities) is Ok <==> owner_action_check(
            caller,
            token_owner,
        ) is Ok && is_permutation(priorities, state.accepted_of(token)),
        state.priority_check(caller, token_owner, token, state.accepted_of(token))
            == owner_action_check(caller, token_owner),
        state.prioritized(token, priorities).accepted_of(token) == priorities,
        state.prioritized(token, priorities).wf() <== is_permutation(
            priorities,
            state.accepted_of(token),
        ),
        state.accepted_assets.contains_key(token) ==> state.prioritized(
            token,
            state.accepted_of(token),
        ) == state,
{
    let accepted = state.accepted_of(token);
    if is_permutation(priorities, accepted) {
        lemma_permutation(priorities, accepted);
        assert forall|x: AssetId| priorities.contains(x) implies !state.is_pending(token, x)
            && state.is_defined(x) by {
            assert(state.is_accepted(token, x));
        }
        state.lemma_wf_with_accepted(token, priorities);
    }
    if state.accepted_assets.contains_key(token) {
        assert(state.accepted_assets.insert(token, accepted) =~= state.accepted_assets);
    }
}

/// The condition of a pet only decays as time goes by: between two reads of
/// the same stored condition, hunger does not shrink, and health and
/// happiness do not grow.
pub proof fn lemma_decay_monotonic(state: State, token: IdView, earlier: u64, later: u64)
    requires
        state.last_eaten_of(token) <= earlier <= later,
        state.readable_at(token, later),
    ensures
        state.readable_at(token, earlier),
        state.current_status(token, earlier).hungry <= state.current_status(token, later).hungry,
        state.current_status(token, earlier).health >= state.current_status(token, later).health,
        state.current_status(token, earlier).happy >= state.current_status(token, later).happy,
{
}

/// After a meal, the pet cannot be fed for five minutes, whoever pays; and
/// can be fed again once more than five minutes have passed, by any account
/// that holds a fruit.
pub proof fn lemma_meal_cooldown(
    state: State,
    token: IdView,
    account: AccountId,
    number: u8,
    first: u64,
    next: u64,
    payer: AccountId,
)
    requires
        first <= next,
    ensures
        ({
            let fed = state.fed(first, token, account, number);
            &&& next - first <= FIVE_MINUTES * 1000 ==> fed.meal_check(next, token, payer) == Err::<
                (),
                RmrkError,
            >(RmrkError::TimeHasNotPassed)
            &&& next - first > FIVE_MINUTES * 1000 && fed.apples_of(payer) > 0 ==> fed.meal_check(
                next,
                token,
                payer,
            ) is Ok
        }),
{
}

/// A granted stake moves the amount and nothing else: the balance of the
/// account loses it, its principal gains it, the two together are what they
/// were, `now` is recorded, and no other account is touched.
pub proof fn lemma_stake_moves_the_amount(
    state: State,
    now: u64,
    account: AccountId,
    amount: u64,
    other: AccountId,
)
    requires
        state.stake_refusal(account, amount) is Ok,
        state.stake_in_bounds(account, amount),
    ensures
        ({
            let staked = state.staked(now, account, amount);
            &&& staked.money_of(account) == state.money_of(account) - amount
            &&& staked.principal_of(account) == state.principal_of(account) + amount
            &&& staked.money_of(account) + staked.principal_of(account) == state.money_of(account)
                + state.principal_of(account)
            &&& staked.last_staked_of(account) == now
            &&& staked.apples_of(account) == state.apples_of(account)
            &&& other != account ==> staked.money_of(other) == state.money_of(other)
                && staked.principal_of(other) == state.principal_of(other)
                && staked.last_staked_of(other) == state.last_staked_of(other)
        }),
{
}

/// A stake comes back with its interest: after an account has staked
/// `amount` at `start`, a withdrawal at `end` is granted and pays the
/// principal, and one percent of it, rounded down, for each full ten seconds
/// since `start`. Withdrawn at once, the principal comes back as it is.
/// Where nothing was staked before, the balance ends up higher than it was
/// before the stake by the interest on `amount` alone. Afterwards nothing is
/// staked.
pub proof fn lemma_stake_round_trip(
    state: State,
    account: AccountId,
    amount: u64,
    start: u64,
    end: u64,
)
    requires
        state.stake_refusal(account, amount) is Ok,
        amount > 0,
        0 < start <= end,
        state.stake_in_bounds(account, amount),
        state.staked(start, account, amount).withdrawal_in_bounds(end, account),
    ensures
        ({
            let principal = state.principal_of(account) + amount;
            let units = staking_units(start, end);
            let staked = state.staked(start, account, amount);
            let paid = principal + principal * units / 100;
            &&& staked.staked_with_interest(account, end) == paid
            &&& staked.withdrawal_refusal(end, account) is Ok
            &&& staked.withdrawn(end, account).money_of(account) == state.money_of(account)
                - amount + paid
            &&& staked.withdrawn(end, account).principal_of(account) == 0
            &&& staked.withdrawn(end, account).staked_with_interest(account, end) == 0
            &&& units == 0 ==> paid == principal
            &&& state.principal_of(account) == 0 ==> paid == amount + amount * units / 100
                && staked.withdrawn(end, account).money_of(account) == state.money_of(account)
                + amount * units / 100
        }),
{
    let principal = state.principal_of(account) + amount;
    let units = staking_units(start, end);
    assert(principal * units >= 0) by (nonlinear_arith)
        requires
            principal >= 0,
            units >= 0,
    ;
    assert(principal * 0 == 0);
}

/// The condition of a pet that has eaten, read at `now`: hunger is the
/// stored hunger and the decay; health and happiness are what the decay
/// leaves of the stored ones, and exactly 0 where it leaves nothing.
pub proof fn lemma_decay_stops_at_zero(state: State, token: IdView, now: u64)
    requires
        state.last_eaten_of(token) != 0,
        state.readable_at(token, now),
    ensures
        ({
            let stored = state.stored_status(token);
            let current = state.current_status(token, now);
            let lost = decay(state.last_eaten_of(token), now);
            &&& lost >= 0
            &&& current.hungry == stored.hungry + lost
            &&& stored.health <= lost ==> current.health == 0
            &&& stored.health > lost ==> current.health == stored.health - lost
            &&& stored.happy <= lost ==> current.happy == 0
            &&& stored.happy > lost ==> current.happy == stored.happy - lost
        }),
{
}

/// A meal is granted once more than five minutes have passed since the last
/// one, to an account that holds a fruit. It records the time of the meal,
/// takes one fruit, counts the draw, and touches no balance and no stake.
pub proof fn lemma_meal_granted(
    state: State,
    now: u64,
    token: IdView,
    account: AccountId,
    number: u8,
    other: AccountId,
)
    requires
        state.last_eaten_of(token) <= now,
        now - state.last_eaten_of(token) > FIVE_MINUTES * 1000,
        state.apples_of(account) >= 1,
    ensures
        ({
            let fed = state.fed(now, token, account, number);
            &&& state.meal_check(now, token, account) == Ok::<(), RmrkError>(())
            &&& fed.last_eaten_of(token) == now
            &&& fed.apples_of(account) == state.apples_of(account) - 1
            &&& state.salt < u64::MAX ==> fed.salt == state.salt + 1
            &&& fed.stored_status(token) == meal_outcome(number, state.stored_status(token))
            &&& fed.money_of(other) == state.money_of(other)
            &&& fed.principal_of(other) == state.principal_of(other)
            &&& other != account ==> fed.apples_of(other) == state.apples_of(other)
        }),
{
}

} // verus!
