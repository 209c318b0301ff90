//! The condition of a pet: a stored snapshot, aged at read time by the
//! minutes that have passed since the pet last ate.

use vstd::prelude::*;
use vstd::string::StringSliceAdditionalSpecFns;
use crate::errors::RmrkError;
use crate::guards::{ensure_exists_and_get_owner, ensure_role, existence_check, role_check};
use crate::internal::Internal;
use crate::random::{draw, pseudo_random};
use crate::time::{elapsed, FIVE_MINUTES};
use crate::types::{bytes_copy, AccountId, Id, IdView, Key, Status};
use crate::uri::bytes_of;
use crate::{MultiAssetData, State};

verus! {

/// Milliseconds in a minute.
pub const MINUTE_MS: u64 = 60_000;

/// What a pet loses, or its hunger gains, with each full minute.
pub const DECAY_PER_MINUTE: u64 = 5;

/// The decay that has accrued at `now` for a pet that last ate at
/// `last_eaten`: 5 for each full minute.
pub open spec fn decay(last_eaten: u64, now: u64) -> int {
    ((now - last_eaten) / (MINUTE_MS as int)) * DECAY_PER_MINUTE
}

/// `stored`, aged by `decay`: hunger grows by it without a ceiling, health
/// and happiness shrink by it and stop at zero.
pub open spec fn aged(stored: Status, decay: int) -> Status {
    Status {
        hungry: (stored.hungry + decay) as u32,
        health: if stored.health >= decay {
            (stored.health - decay) as u32
        } else {
            0
        },
        happy: if stored.happy >= decay {
            (stored.happy - decay) as u32
        } else {
            0
        },
    }
}

/// The condition at `now` of a pet whose condition was `stored` when it last
/// ate at `last_eaten`. A pet that never ate (`last_eaten` is 0) has all
/// zero.
pub open spec fn projected(stored: Status, last_eaten: u64, now: u64) -> Status {
    if last_eaten == 0 {
        Status { hungry: 0, health: 0, happy: 0 }
    } else {
        aged(stored, decay(last_eaten, now))
    }
}

/// Whether the condition at `now` can be computed: `now` is not before the
/// last meal, and the aged hunger fits in 32 bits.
pub open spec fn projectable(stored: Status, last_eaten: u64, now: u64) -> bool {
    &&& last_eaten <= now
    &&& last_eaten != 0 ==> stored.hungry + decay(last_eaten, now) <= u32::MAX
}

/// `current` after a meal worth `number`: health and happiness gain it,
/// hunger loses it and stops at zero.
pub open spec fn nourished(current: Status, number: u32) -> Status {
    Status {
        hungry: if current.hungry > number {
            (current.hungry - number) as u32
        } else {
            0
        },
        health: (current.health + number) as u32,
        happy: (current.happy + number) as u32,
    }
}

/// Whether `nourished` fits in 32 bits.
pub open spec fn nourishable(current: Status, number: u32) -> bool {
    current.health + number <= u32::MAX && current.happy + number <= u32::MAX
}

/// Health plus happiness minus hunger, and no less than zero.
pub open spec fn total(status: Status) -> int {
    if status.health + status.happy >= status.hungry {
        status.health + status.happy - status.hungry
    } else {
        0
    }
}

/// The tier of a total: 0 (bad) below 100, 1 (normal) below 200, else 2
/// (good).
pub open spec fn tier(total: int) -> u32 {
    if total < 100 {
        0
    } else if total < 200 {
        1
    } else {
        2
    }
}

/// The condition that every pet is reset to on a full meal.
pub open spec fn full_status() -> Status {
    Status { hungry: 0, health: 100, happy: 100 }
}

/// The condition of a pet that a meal killed.
pub open spec fn death_status() -> Status {
    Status { hungry: 80, health: 0, happy: 0 }
}

/// What a meal makes of the stored condition, by the number drawn for it
/// from 0 to 100: below 25 a meal worth 30, below 50 the full condition,
/// below 75 a meal worth 50, else death.
pub open spec fn meal_outcome(number: u8, stored: Status) -> Status {
    if number < 25 {
        nourished(stored, 30)
    } else if number < 50 {
        full_status()
    } else if number < 75 {
        nourished(stored, 50)
    } else {
        death_status()
    }
}

/// Whether `meal_outcome` fits in 32 bits.
pub open spec fn servable(number: u8, stored: Status) -> bool {
    &&& number < 25 ==> nourishable(stored, 30)
    &&& 50 <= number < 75 ==> nourishable(stored, 50)
}

/// The address of the picture of a pet in bad condition, until another is
/// set.
pub const DEFAULT_BAD_URI: &'static str = "ipfs://QmYJhYes1kzp2soWYEYKzvA84V8YivL8BCpsnN773xyufr/";

/// The address of the picture of a pet in normal condition, until another is
/// set.
pub const DEFAULT_NORMAL_URI: &'static str =
    "ipfs://QmXtnr9aEJVywiLs1keZdyiKbQwignZT3FhwKYivF15oZp/";

/// The address of the picture of a pet in good condition, until another is
/// set.
pub const DEFAULT_GOOD_URI: &'static str = "ipfs://QmZAdpKf4zr9x2vX26gU6LkG8gtj44GhoGMbWJAa2HsVzt/";

/// The fruit that an account starts with.
pub const STARTING_APPLES: u16 = 10;

/// The balance that an account starts with.
pub const STARTING_MONEY: u64 = 500;

/// The condition at `now` of a pet whose condition was `stored` when it last
/// ate at `last_eaten`.
pub fn project_status(stored: Status, last_eaten: u64, now: u64) -> (current: Status)
    requires
        projectable(stored, last_eaten, now),
    ensures
        current == projected(stored, last_eaten, now),
{
    if last_eaten == 0 {
        return Status { hungry: 0, health: 0, happy: 0 };
    }
    let minutes: u64 = (now - last_eaten) / MINUTE_MS;
    let change: u64 = minutes * DECAY_PER_MINUTE;
    let hungry: u64 = stored.hungry as u64 + change;
    let health: u32 = if stored.health as u64 >= change {
        (stored.health as u64 - change) as u32
    } else {
        0
    };
    let happy: u32 = if stored.happy as u64 >= change {
        (stored.happy as u64 - change) as u32
    } else {
        0
    };
    Status { hungry: hungry as u32, health, happy }
}

/// Whether the condition at `now` can be computed.
pub fn can_project(stored: Status, last_eaten: u64, now: u64) -> (possible: bool)
    ensures
        possible == projectable(stored, last_eaten, now),
{
    if last_eaten > now {
        return false;
    }
    if last_eaten == 0 {
        return true;
    }
    let change: u64 = (now - last_eaten) / MINUTE_MS * DECAY_PER_MINUTE;
    stored.hungry as u64 + change <= u32::MAX as u64
}

/// Whether a meal worth `number` on top of `current` fits in 32 bits.
pub fn can_nourish(current: Status, number: u32) -> (possible: bool)
    ensures
        possible == nourishable(current, number),
{
    current.health as u64 + number as u64 <= u32::MAX as u64 && current.happy as u64
        + number as u64 <= u32::MAX as u64
}

/// `current` after a meal worth `number`.
pub fn nourish(current: Status, number: u32) -> (fed: Status)
    requires
        nourishable(current, number),
    ensures
        fed == nourished(current, number),
{
    let hungry: u32 = if current.hungry > number {
        current.hungry - number
    } else {
        0
    };
    Status { hungry, health: current.health + number, happy: current.happy + number }
}

/// Whether the outcome of a meal for the number drawn fits in 32 bits.
pub fn can_serve(number: u8, stored: Status) -> (possible: bool)
    ensures
        possible == servable(number, stored),
{
    if number < 25 {
        can_nourish(stored, 30)
    } else if 50 <= number && number < 75 {
        can_nourish(stored, 50)
    } else {
        true
    }
}

/// What a meal makes of the stored condition, by the number drawn for it.
pub fn serve(number: u8, stored: Status) -> (fed: Status)
    requires
        servable(number, stored),
    ensures
        fed == meal_outcome(number, stored),
{
    if number < 25 {
        nourish(stored, 30)
    } else if number < 50 {
        Status { hungry: 0, health: 100, happy: 100 }
    } else if number < 75 {
        nourish(stored, 50)
    } else {
        Status { hungry: 80, health: 0, happy: 0 }
    }
}

/// Whether the total of a condition fits in 32 bits.
pub fn can_total(status: Status) -> (possible: bool)
    ensures
        possible == (total(status) <= u32::MAX),
{
    let gain: u64 = status.health as u64 + status.happy as u64;
    gain < status.hungry as u64 || gain - status.hungry as u64 <= u32::MAX as u64
}

/// The total of a condition, where it fits in 32 bits.
pub fn total_of(status: Status) -> (sum: u32)
    requires
        total(status) <= u32::MAX,
    ensures
        sum == total(status),
{
    let gain: u64 = status.health as u64 + status.happy as u64;
    if gain >= status.hungry as u64 {
        (gain - status.hungry as u64) as u32
    } else {
        0
    }
}

/// The tier of a condition.
pub fn tier_of(status: Status) -> (t: u32)
    ensures
        t == tier(total(status)),
{
    let gain: u64 = status.health as u64 + status.happy as u64;
    let sum: u64 = if gain >= status.hungry as u64 {
        gain - status.hungry as u64
    } else {
        0
    };
    if sum < 100 {
        0
    } else if sum < 200 {
        1
    } else {
        2
    }
}

impl State {
    /// The condition of the pet at `now`.
    pub open spec fn current_status(self, token: IdView, now: u64) -> Status {
        projected(self.stored_status(token), self.last_eaten_of(token), now)
    }

    /// Whether the condition of the pet at `now` can be computed.
    pub open spec fn readable_at(self, token: IdView, now: u64) -> bool {
        projectable(self.stored_status(token), self.last_eaten_of(token), now)
    }

    /// The state with `uri` as the address for pets in normal condition.
    pub open spec fn with_normal_uri(self, uri: Seq<u8>) -> State {
        State { normal_uri: uri, ..self }
    }

    /// The state with `uri` as the address for pets in good condition.
    pub open spec fn with_good_uri(self, uri: Seq<u8>) -> State {
        State { good_uri: uri, ..self }
    }

    /// The state with `uri` as the address for pets in bad condition.
    pub open spec fn with_bad_uri(self, uri: Seq<u8>) -> State {
        State { bad_uri: uri, ..self }
    }

    /// The state after the defaults have been set: the three default
    /// addresses, and 10 fruit and a balance of 500 for the account.
    pub open spec fn with_defaults(self, account: AccountId) -> State {
        self.with_bad_uri(DEFAULT_BAD_URI.spec_bytes()).with_normal_uri(
            DEFAULT_NORMAL_URI.spec_bytes(),
        ).with_good_uri(DEFAULT_GOOD_URI.spec_bytes()).with_apples(
            account,
            STARTING_APPLES,
        ).with_money(
            account,
            STARTING_MONEY,
        )
    }

    /// Whether the pet can be fed at `now` from the fruit of the account,
    /// and why not where it cannot: more than five minutes must have passed
    /// since its last meal, and the account must hold a fruit.
    pub open spec fn meal_check(
        self,
        now: u64,
        token: IdView,
        account: AccountId,
    ) -> Result<(), RmrkError> {
        if !elapsed(now, FIVE_MINUTES, self.last_eaten_of(token)) {
            Err(RmrkError::TimeHasNotPassed)
        } else if self.apples_of(account) == 0 {
            Err(RmrkError::NotEnoughApple)
        } else {
            Ok(())
        }
    }

    /// Whether a meal at `now` stays within the bounds: `now` is not before
    /// the last meal, and where the meal is granted, the draw can be counted
    /// and the outcome for the number that will be drawn fits in 32 bits.
    pub open spec fn meal_in_bounds(self, now: u64, token: IdView, account: AccountId) -> bool {
        &&& self.last_eaten_of(token) <= now
        &&& self.meal_check(now, token, account) is Ok ==> self.salt < u64::MAX && servable(
            pseudo_random(now, self.salt, 100),
            self.stored_status(token),
        )
    }

    /// The state after the pet has been fed at `now` from the fruit of the
    /// account, with `number` drawn for the meal: the meal is recorded, one
    /// fruit is gone, the draw is counted, and the outcome of the meal is
    /// stored in place of the stored condition.
    pub open spec fn fed(self, now: u64, token: IdView, account: AccountId, number: u8) -> State {
        self.with_last_eaten(token, now).with_apples(
            account,
            (self.apples_of(account) - 1) as u16,
        ).with_salt((self.salt + 1) as u64).with_status(
            token,
            meal_outcome(number, self.stored_status(token)),
        )
    }

    /// The address of the picture for a pet of the given tier.
    pub open spec fn uri_of_tier(self, t: u32) -> Seq<u8> {
        if t == 0 {
            self.bad_uri
        } else if t == 1 {
            self.normal_uri
        } else {
            self.good_uri
        }
    }
}

impl MultiAssetData {
    /// The condition stored for the pet, if one is stored.
    pub fn get_status(&self, token_id: Id) -> (status: Option<Status>)
        requires
            self.wf(),
        ensures
            status == if self@.asset_status.contains_key(token_id@) {
                Some(self@.asset_status[token_id@])
            } else {
                None
            },
    {
        match self.asset_status.get(&token_id) {
            Some(status) => Some(*status),
            None => None,
        }
    }

    /// When the pet last ate; 0 for a pet that never ate.
    pub fn get_last_eaten(&self, token_id: Id) -> (time: u64)
        requires
            self.wf(),
        ensures
            time == self@.last_eaten_of(token_id@),
    {
        match self.last_eaten.get(&token_id) {
            Some(time) => *time,
            None => 0,
        }
    }

    /// Records `current_time` as the pet's last meal.
    pub fn set_last_eaten(
        &mut self,
        token_id: Id,
        current_time: u64,
    ) -> (result: Result<(), RmrkError>)
        requires
            old(self).wf(),
        ensures
            final(self).wf(),
            result == Ok::<(), RmrkError>(()),
            final(self)@ == old(self)@.with_last_eaten(token_id@, current_time),
    {
        self.last_eaten.insert(token_id, current_time);
        proof {
            State::lemma_wf_frame(old(self)@, self@);
        }
        Ok(())
    }

    /// Stores `status` for the pet, whether or not the token exists.
    pub(crate) fn write_status(&mut self, token_id: Id, status: Status)
        requires
            old(self).wf(),
        ensures
            final(self).wf(),
            final(self)@ == old(self)@.with_status(token_id@, status),
    {
        self.asset_status.insert(token_id, status);
        proof {
            State::lemma_wf_frame(old(self)@, self@);
        }
    }

    /// Stores a condition for the pet of an existing token. `token_owner` is
    /// the owner of `token_id`, `None` where the token does not exist.
    pub fn set_status(
        &mut self,
        token_owner: Option<AccountId>,
        token_id: Id,
        hungry: u32,
        health: u32,
        happy: u32,
    ) -> (result: Result<(), RmrkError>)
        requires
            old(self).wf(),
        ensures
            final(self).wf(),
            result == existence_check(token_owner),
            result is Err ==> final(self)@ == old(self)@,
            result is Ok ==> final(self)@ == old(self)@.with_status(
                token_id@,
                (Status { hungry, health, happy }),
            ),
    {
        if let Err(e) = ensure_exists_and_get_owner(token_owner) {
            return Err(e);
        }
        self.write_status(token_id, Status { hungry, health, happy });
        Ok(())
    }

    /// Resets the pet of an existing token to the full condition.
    pub fn set_full_status(
        &mut self,
        token_owner: Option<AccountId>,
        token_id: Id,
    ) -> (result: Result<(), RmrkError>)
        requires
            old(self).wf(),
        ensures
            final(self).wf(),
            result == existence_check(token_owner),
            result is Err ==> final(self)@ == old(self)@,
            result is Ok ==> final(self)@ == old(self)@.with_status(token_id@, full_status()),
    {
        self.set_status(token_owner, token_id, 0, 100, 100)
    }

    /// Sets the pet of an existing token to the condition of a dead pet.
    pub fn set_death_status(
        &mut self,
        token_owner: Option<AccountId>,
        token_id: Id,
    ) -> (result: Result<(), RmrkError>)
        requires
            old(self).wf(),
        ensures
            final(self).wf(),
            result == existence_check(token_owner),
            result is Err ==> final(self)@ == old(self)@,
            result is Ok ==> final(self)@ == old(self)@.with_status(token_id@, death_status()),
    {
        self.set_status(token_owner, token_id, 80, 0, 0)
    }

    /// Whether the condition of the pet at `now` can be computed: `now` is
    /// not before its last meal, and its aged hunger fits in 32 bits.
    pub fn can_read_status(&self, now: u64, token_id: &Id) -> (possible: bool)
        requires
            self.wf(),
        ensures
            possible == self@.readable_at(token_id@, now),
    {
        let last_checked_time = match self.last_eaten.get(token_id) {
            Some(time) => *time,
            None => 0,
        };
        let stored_status = match self.asset_status.get(token_id) {
            Some(status) => *status,
            None => Status { hungry: 0, health: 0, happy: 0 },
        };
        can_project(stored_status, last_checked_time, now)
    }

    /// The condition of the pet at `now`: the stored condition aged by the
    /// minutes since the last meal, all zero for a pet that never ate.
    pub fn get_current_status(&self, now: u64, token_id: Id) -> (status: Option<Status>)
        requires
            self.wf(),
            self@.readable_at(token_id@, now),
        ensures
            status == Some(self@.current_status(token_id@, now)),
    {
        let last_checked_time = match self.last_eaten.get(&token_id) {
            Some(time) => *time,
            None => 0,
        };
        let stored_status = match self.asset_status.get(&token_id) {
            Some(status) => *status,
            None => Status { hungry: 0, health: 0, happy: 0 },
        };
        Some(project_status(stored_status, last_checked_time, now))
    }

    /// Feeds the pet a meal worth `number` on top of its condition at `now`,
    /// and stores the result. The time of the last meal stays as it is.
    pub fn change_some_status(
        &mut self,
        now: u64,
        token_id: Id,
        number: u32,
    ) -> (result: Result<(), RmrkError>)
        requires
            old(self).wf(),
            old(self)@.readable_at(token_id@, now),
            nourishable(old(self)@.current_status(token_id@, now), number),
        ensures
            final(self).wf(),
            result == Ok::<(), RmrkError>(()),
            final(self)@ == old(self)@.with_status(
                token_id@,
                nourished(old(self)@.current_status(token_id@, now), number),
            ),
    {
        let last_checked_time = match self.last_eaten.get(&token_id) {
            Some(time) => *time,
            None => 0,
        };
        let stored_status = match self.asset_status.get(&token_id) {
            Some(status) => *status,
            None => Status { hungry: 0, health: 0, happy: 0 },
        };
        let current_status = project_status(stored_status, last_checked_time, now);
        self.write_status(token_id, nourish(current_status, number));
        Ok(())
    }

    /// Feeds the pet a meal worth 20.
    pub fn add_twenty(&mut self, now: u64, token_id: Id) -> (result: Result<(), RmrkError>)
        requires
            old(self).wf(),
            old(self)@.readable_at(token_id@, now),
            nourishable(old(self)@.current_status(token_id@, now), 20),
        ensures
            final(self).wf(),
            result == Ok::<(), RmrkError>(()),
            final(self)@ == old(self)@.with_status(
                token_id@,
                nourished(old(self)@.current_status(token_id@, now), 20),
            ),
    {
        self.change_some_status(now, token_id, 20)
    }

    /// Feeds the pet a meal worth 50.
    pub fn set_lucky_status(&mut self, now: u64, token_id: Id) -> (result: Result<(), RmrkError>)
        requires
            old(self).wf(),
            old(self)@.readable_at(token_id@, now),
            nourishable(old(self)@.current_status(token_id@, now), 50),
        ensures
            final(self).wf(),
            result == Ok::<(), RmrkError>(()),
            final(self)@ == old(self)@.with_status(
                token_id@,
                nourished(old(self)@.current_status(token_id@, now), 50),
            ),
    {
        self.change_some_status(now, token_id, 50)
    }

    /// The total of the pet's condition at `now`.
    pub fn get_total_status(&self, now: u64, token_id: Id) -> (sum: u32)
        requires
            self.wf(),
            self@.readable_at(token_id@, now),
            total(self@.current_status(token_id@, now)) <= u32::MAX,
        ensures
            sum == total(self@.current_status(token_id@, now)),
    {
        match self.get_current_status(now, token_id) {
            Some(status) => total_of(status),
            None => 0,
        }
    }

    /// The tier of the pet's condition at `now`: 0 is bad, 1 normal, 2 good.
    pub fn get_condition(&self, now: u64, token_id: Id) -> (condition: u32)
        requires
            self.wf(),
            self@.readable_at(token_id@, now),
        ensures
            condition == tier(total(self@.current_status(token_id@, now))),
    {
        match self.get_current_status(now, token_id) {
            Some(status) => tier_of(status),
            None => 0,
        }
    }

    /// The address of the picture that matches the pet's condition at `now`.
    pub fn get_condition_url(&self, now: u64, token_id: Id) -> (uri: Vec<u8>)
        requires
            self.wf(),
            self@.readable_at(token_id@, now),
        ensures
            uri@ == self@.uri_of_tier(tier(total(self@.current_status(token_id@, now)))),
    {
        let condition = self.get_condition(now, token_id);
        if condition == 0 {
            self.get_bad_uri()
        } else if condition == 1 {
            self.get_normal_uri()
        } else {
            self.get_good_uri()
        }
    }

    /// The address of the picture of a pet in normal condition.
    pub fn get_normal_uri(&self) -> (uri: Vec<u8>)
        ensures
            uri@ == self@.normal_uri,
    {
        bytes_copy(&self.normal_uri)
    }

    /// The address of the picture of a pet in good condition.
    pub fn get_good_uri(&self) -> (uri: Vec<u8>)
        ensures
            uri@ == self@.good_uri,
    {
        bytes_copy(&self.good_uri)
    }

    /// The address of the picture of a pet in bad condition.
    pub fn get_bad_uri(&self) -> (uri: Vec<u8>)
        ensures
            uri@ == self@.bad_uri,
    {
        bytes_copy(&self.bad_uri)
    }

    /// Sets the address of the picture of a pet in normal condition.
    /// `has_role` says whether the caller holds the contributor role.
    pub fn set_normal_uri(
        &mut self,
        has_role: bool,
        normal_uri: Vec<u8>,
    ) -> (result: Result<(), RmrkError>)
        requires
            old(self).wf(),
        ensures
            final(self).wf(),
            result == role_check(has_role),
            result is Err ==> final(self)@ == old(self)@,
            result is Ok ==> final(self)@ == old(self)@.with_normal_uri(normal_uri@),
    {
        if let Err(e) = ensure_role(has_role) {
            return Err(e);
        }
        self.normal_uri = normal_uri;
        proof {
            State::lemma_wf_frame(old(self)@, self@);
        }
        Ok(())
    }

    /// Sets the address of the picture of a pet in good condition.
    /// `has_role` says whether the caller holds the contributor role.
    pub fn set_good_uri(
        &mut self,
        has_role: bool,
        good_uri: Vec<u8>,
    ) -> (result: Result<(), RmrkError>)
        requires
            old(self).wf(),
        ensures
            final(self).wf(),
            result == role_check(has_role),
            result is Err ==> final(self)@ == old(self)@,
            result is Ok ==> final(self)@ == old(self)@.with_good_uri(good_uri@),
    {
        if let Err(e) = ensure_role(has_role) {
            return Err(e);
        }
        self.good_uri = good_uri;
        proof {
            State::lemma_wf_frame(old(self)@, self@);
        }
        Ok(())
    }

    /// Sets the address of the picture of a pet in bad condition.
    /// `has_role` says whether the caller holds the contributor role.
    pub fn set_bad_uri(
        &mut self,
        has_role: bool,
        bad_uri: Vec<u8>,
    ) -> (result: Result<(), RmrkError>)
        requires
            old(self).wf(),
        ensures
            final(self).wf(),
            result == role_check(has_role),
            result is Err ==> final(self)@ == old(self)@,
            result is Ok ==> final(self)@ == old(self)@.with_bad_uri(bad_uri@),
    {
        if let Err(e) = ensure_role(has_role) {
            return Err(e);
        }
        self.bad_uri = bad_uri;
        proof {
            State::lemma_wf_frame(old(self)@, self@);
        }
        Ok(())
    }

    /// Sets the three default addresses, and gives the account 10 fruit and
    /// a balance of 500. `has_role` says whether the caller holds the
    /// contributor role.
    pub fn set_default(
        &mut self,
        has_role: bool,
        account_id: AccountId,
    ) -> (result: Result<(), RmrkError>)
        requires
            old(self).wf(),
        ensures
            final(self).wf(),
            result == role_check(has_role),
            result is Err ==> final(self)@ == old(self)@,
            result is Ok ==> final(self)@ == old(self)@.with_defaults(account_id),
    {
        if let Err(e) = self.set_bad_uri(has_role, bytes_of(DEFAULT_BAD_URI)) {
            return Err(e);
        }
        if let Err(e) = self.set_normal_uri(has_role, bytes_of(DEFAULT_NORMAL_URI)) {
            return Err(e);
        }
        if let Err(e) = self.set_good_uri(has_role, bytes_of(DEFAULT_GOOD_URI)) {
            return Err(e);
        }
        self.set_your_apple(account_id, STARTING_APPLES)?;
        self.set_your_money(account_id, STARTING_MONEY)
    }

    /// Whether `eat_an_apple` can be called with these arguments.
    pub fn can_eat_an_apple(
        &self,
        now: u64,
        token_id: &Id,
        account_id: AccountId,
    ) -> (possible: bool)
        requires
            self.wf(),
        ensures
            possible == self@.meal_in_bounds(now, token_id@, account_id),
    {
        let last_eaten = match self.last_eaten.get(token_id) {
            Some(time) => *time,
            None => 0,
        };
        if last_eaten > now {
            return false;
        }
        if !self.five_minutes_has_passed(now, last_eaten) || self.get_your_apple(account_id) == 0 {
            return true;
        }
        let stored = match self.asset_status.get(token_id) {
            Some(status) => *status,
            None => Status { hungry: 0, health: 0, happy: 0 },
        };
        self.salt < u64::MAX && can_serve(draw(now, self.salt, 100), stored)
    }

    /// Feeds the pet as `eat_an_apple` does, where the meal stays within the
    /// bounds; else does nothing and gives `None`.
    pub fn try_eat_an_apple(
        &mut self,
        now: u64,
        token_id: Id,
        account_id: AccountId,
    ) -> (outcome: Option<Result<(), RmrkError>>)
        requires
            old(self).wf(),
        ensures
            final(self).wf(),
            outcome is Some <==> old(self)@.meal_in_bounds(now, token_id@, account_id),
            outcome is None ==> final(self)@ == old(self)@,
            outcome matches Some(result) ==> {
                &&& result == old(self)@.meal_check(now, token_id@, account_id)
                &&& result is Err ==> final(self)@ == old(self)@
                &&& result is Ok ==> final(self)@ == old(self)@.fed(
                    now,
                    token_id@,
                    account_id,
                    pseudo_random(now, old(self)@.salt, 100),
                )
            },
    {
        if !self.can_eat_an_apple(now, &token_id, account_id) {
            return None;
        }
        Some(self.eat_an_apple(now, token_id, account_id))
    }

    /// Feeds the pet at `now` from the fruit of the account. Refused within
    /// five minutes of the last meal, and where the account holds no fruit.
    /// Else one fruit is spent, a number from 0 to 100 is drawn, and the
    /// outcome of the meal for that number is stored for the pet.
    pub fn eat_an_apple(
        &mut self,
        now: u64,
        token_id: Id,
        account_id: AccountId,
    ) -> (result: Result<(), RmrkError>)
        requires
            old(self).wf(),
            old(self)@.meal_in_bounds(now, token_id@, account_id),
        ensures
            final(self).wf(),
            result == old(self)@.meal_check(now, token_id@, account_id),
            result is Err ==> final(self)@ == old(self)@,
            result is Ok ==> final(self)@ == old(self)@.fed(
                now,
                token_id@,
                account_id,
                pseudo_random(now, old(self)@.salt, 100),
            ),
    {
        let last_eaten = self.get_last_eaten(token_id.duplicate());
        if !self.five_minutes_has_passed(now, last_eaten) {
            return Err(RmrkError::TimeHasNotPassed);
        }
        if self.get_your_apple(account_id) == 0 {
            return Err(RmrkError::NotEnoughApple);
        }
        let stored = match self.asset_status.get(&token_id) {
            Some(status) => *status,
            None => Status { hungry: 0, health: 0, happy: 0 },
        };
        self.set_last_eaten(token_id.duplicate(), now)?;
        self.minus_your_apple(account_id)?;
        let random = self.get_pseudo_random(now, 100);
        self.write_status(token_id, serve(random, stored));
        Ok(())
    }
}

} // verus!
