//! The steps that the operations on a token's assets are made of, the
//! pseudo-random draw and the time gates.

use vstd::prelude::*;
use crate::errors::RmrkError;
use crate::lists::{contains, lemma_push, lemma_replaced, lemma_without, position};
use crate::random::{draw, pseudo_random};
use crate::time::{elapsed, has_elapsed, FIVE_MINUTES, ONE_DAY};
use crate::types::{AssetId, Id, Key};
use crate::{MultiAssetData, State};

verus! {

/// The helper steps of the library, as the state type offers them.
pub trait Internal: Sized {
    /// The state that the value stands for.
    spec fn state(&self) -> State;

    /// Holds of every value that the library hands out.
    spec fn valid(&self) -> bool;

    /// Refuses an asset that is accepted for the token.
    fn ensure_not_accepted(
        &self,
        token_id: &Id,
        asset_id: &AssetId,
    ) -> (result: Result<(), RmrkError>)
        requires
            self.valid(),
        ensures
            result == self.state().ensure_not_accepted(token_id@, *asset_id),
    ;

    /// Refuses an asset that is pending for the token.
    fn ensure_not_pending(
        &self,
        token_id: &Id,
        asset_id: &AssetId,
    ) -> (result: Result<(), RmrkError>)
        requires
            self.valid(),
        ensures
            result == self.state().ensure_not_pending(token_id@, *asset_id),
    ;

    /// Refuses an asset that is not pending for the token.
    fn ensure_pending(&self, token_id: &Id, asset_id: &AssetId) -> (result: Result<(), RmrkError>)
        requires
            self.valid(),
        ensures
            result == self.state().ensure_pending(token_id@, *asset_id),
    ;

    /// Refuses an asset that is not accepted for the token.
    fn ensure_asset_accepted(
        &self,
        token_id: &Id,
        asset_id: &AssetId,
    ) -> (result: Result<(), RmrkError>)
        requires
            self.valid(),
        ensures
            result == self.state().ensure_asset_accepted(token_id@, *asset_id),
    ;

    /// Appends the asset to the accepted assets of the token, unless it is
    /// among them. The asset must be defined, and not pending for the token.
    fn add_to_accepted_assets(&mut self, token_id: &Id, asset_id: &AssetId)
        requires
            old(self).valid(),
            old(self).state().is_defined(*asset_id),
            !old(self).state().is_pending(token_id@, *asset_id),
        ensures
            final(self).valid(),
            final(self).state() == old(self).state().accepting(token_id@, *asset_id),
    ;

    /// Appends the asset to the pending assets of the token, unless it is
    /// among them. The asset must be defined, and not accepted for the
    /// token.
    fn add_to_pending_assets(&mut self, token_id: &Id, asset_id: &AssetId)
        requires
            old(self).valid(),
            old(self).state().is_defined(*asset_id),
            !old(self).state().is_accepted(token_id@, *asset_id),
        ensures
            final(self).valid(),
            final(self).state() == old(self).state().proposing(token_id@, *asset_id),
    ;

    /// Puts `asset_id` in the place of `replace_with_id` among the accepted
    /// assets of the token. `asset_id` must be defined, and neither accepted
    /// nor pending for the token.
    fn replace_asset(
        &mut self,
        token_id: &Id,
        asset_id: &AssetId,
        replace_with_id: &AssetId,
    ) -> (result: Result<(), RmrkError>)
        requires
            old(self).valid(),
            old(self).state().is_defined(*asset_id),
            !old(self).state().is_accepted(token_id@, *asset_id),
            !old(self).state().is_pending(token_id@, *asset_id),
        ensures
            final(self).valid(),
            result == old(self).state().replacement_check(token_id@, *replace_with_id),
            result is Err ==> final(self).state() == old(self).state(),
            result is Ok ==> final(self).state() == old(self).state().replacing(
                token_id@,
                *asset_id,
                *replace_with_id,
            ),
    ;

    /// Takes the asset out of the pending assets of the token.
    fn remove_from_pending_assets(
        &mut self,
        token_id: &Id,
        asset_id: &AssetId,
    ) -> (result: Result<(), RmrkError>)
        requires
            old(self).valid(),
        ensures
            final(self).valid(),
            result == old(self).state().pending_removal_check(token_id@, *asset_id),
            result is Err ==> final(self).state() == old(self).state(),
            result is Ok ==> final(self).state() == old(self).state().without_pending(
                token_id@,
                *asset_id,
            ),
    ;

    /// Takes the asset out of the accepted assets of the token.
    fn remove_from_accepted_assets(
        &mut self,
        token_id: &Id,
        asset_id: &AssetId,
    ) -> (result: Result<(), RmrkError>)
        requires
            old(self).valid(),
        ensures
            final(self).valid(),
            result == old(self).state().accepted_removal_check(token_id@, *asset_id),
            result is Err ==> final(self).state() == old(self).state(),
            result is Ok ==> final(self).state() == old(self).state().without_accepted(
                token_id@,
                *asset_id,
            ),
    ;

    /// Draws a number from 0 to `max_value`, both included, from the time
    /// `now` and the counter of draws, and counts the draw.
    fn get_pseudo_random(&mut self, now: u64, max_value: u8) -> (number: u8)
        requires
            old(self).valid(),
            old(self).state().salt < u64::MAX,
        ensures
            final(self).valid(),
            number == pseudo_random(now, old(self).state().salt, max_value),
            number <= max_value,
            final(self).state() == old(self).state().with_salt(
                (old(self).state().salt + 1) as u64,
            ),
    ;

    /// Whether at `now` strictly more than `check_time` seconds have passed
    /// since `last_time`.
    fn has_passed(&self, now: u64, check_time: u64, last_time: u64) -> (passed: bool)
        requires
            last_time <= now,
        ensures
            passed == elapsed(now, check_time, last_time),
    ;

    /// Whether at `now` more than five minutes have passed since
    /// `last_time`.
    fn five_minutes_has_passed(&self, now: u64, last_time: u64) -> (passed: bool)
        requires
            last_time <= now,
        ensures
            passed == elapsed(now, FIVE_MINUTES, last_time),
    ;

    /// Whether at `now` more than one day has passed since `last_time`.
    fn one_day_has_passed(&self, now: u64, last_time: u64) -> (passed: bool)
        requires
            last_time <= now,
        ensures
            passed == elapsed(now, ONE_DAY, last_time),
    ;
}

impl Internal for MultiAssetData {
    open spec fn state(&self) -> State {
        self@
    }

    open spec fn valid(&self) -> bool {
        self.wf()
    }

    fn ensure_not_accepted(
        &self,
        token_id: &Id,
        asset_id: &AssetId,
    ) -> (result: Result<(), RmrkError>) {
        if let Some(children) = self.accepted_assets.get(token_id) {
            if contains(children, *asset_id) {
                return Err(RmrkError::AlreadyAddedAsset);
            }
        }
        Ok(())
    }

    fn ensure_not_pending(
        &self,
        token_id: &Id,
        asset_id: &AssetId,
    ) -> (result: Result<(), RmrkError>) {
        if let Some(assets) = self.pending_assets.get(token_id) {
            if contains(assets, *asset_id) {
                return Err(RmrkError::AddingPendingAsset);
            }
        }
        Ok(())
    }

    fn ensure_pending(&self, token_id: &Id, asset_id: &AssetId) -> (result: Result<(), RmrkError>) {
        if let Some(assets) = self.pending_assets.get(token_id) {
            if contains(assets, *asset_id) {
                return Ok(());
            }
        }
        Err(RmrkError::AssetIdNotFound)
    }

    fn ensure_asset_accepted(
        &self,
        token_id: &Id,
        asset_id: &AssetId,
    ) -> (result: Result<(), RmrkError>) {
        if let Some(assets) = self.accepted_assets.get(token_id) {
            if contains(assets, *asset_id) {
                return Ok(());
            }
        }
        Err(RmrkError::AssetIdNotFound)
    }

    fn add_to_accepted_assets(&mut self, token_id: &Id, asset_id: &AssetId) {
        let mut assets: Vec<AssetId> = match self.accepted_assets.get(token_id) {
            Some(list) => list.clone(),
            None => Vec::new(),
        };
        assert(assets@ =~= self@.accepted_of(token_id@));
        if !contains(&assets, *asset_id) {
            assets.push(*asset_id);
            proof {
                lemma_push(old(self)@.accepted_of(token_id@), *asset_id);
                assert forall|x: AssetId| assets@.contains(x) implies !old(self)@.is_pending(
                    token_id@,
                    x,
                ) && old(self)@.is_defined(x) by {
                    if x != *asset_id {
                        assert(old(self)@.is_accepted(token_id@, x));
                    }
                }
                old(self)@.lemma_wf_with_accepted(token_id@, assets@);
            }
            self.accepted_assets.insert(token_id.duplicate(), assets);
        }
    }

    fn add_to_pending_assets(&mut self, token_id: &Id, asset_id: &AssetId) {
        let mut assets: Vec<AssetId> = match self.pending_assets.get(token_id) {
            Some(list) => list.clone(),
            None => Vec::new(),
        };
        assert(assets@ =~= self@.pending_of(token_id@));
        if !contains(&assets, *asset_id) {
            assets.push(*asset_id);
            proof {
                lemma_push(old(self)@.pending_of(token_id@), *asset_id);
                assert forall|x: AssetId| assets@.contains(x) implies !old(self)@.is_accepted(
                    token_id@,
                    x,
                ) && old(self)@.is_defined(x) by {
                    if x != *asset_id {
                        assert(old(self)@.is_pending(token_id@, x));
                    }
                }
                old(self)@.lemma_wf_with_pending(token_id@, assets@);
            }
            self.pending_assets.insert(token_id.duplicate(), assets);
        }
    }

    fn replace_asset(
        &mut self,
        token_id: &Id,
        asset_id: &AssetId,
        replace_with_id: &AssetId,
    ) -> (result: Result<(), RmrkError>) {
        let mut accepted_list: Vec<AssetId> = match self.accepted_assets.get(token_id) {
            Some(list) => list.clone(),
            None => {
                return Err(RmrkError::AcceptedAssetsMissing);
            },
        };
        assert(accepted_list@ =~= self@.accepted_of(token_id@));
        let asset_index = match position(&accepted_list, *replace_with_id) {
            Some(index) => index,
            None => {
                return Err(RmrkError::InvalidAssetId);
            },
        };
        accepted_list.set(asset_index, *asset_id);
        proof {
            lemma_replaced(old(self)@.accepted_of(token_id@), *replace_with_id, *asset_id);
            assert forall|x: AssetId| accepted_list@.contains(x) implies !old(self)@.is_pending(
                token_id@,
                x,
            ) && old(self)@.is_defined(x) by {
                if x != *asset_id {
                    assert(old(self)@.is_accepted(token_id@, x));
                }
            }
            old(self)@.lemma_wf_with_accepted(token_id@, accepted_list@);
        }
        self.accepted_assets.insert(token_id.duplicate(), accepted_list);
        Ok(())
    }

    fn remove_from_pending_assets(
        &mut self,
        token_id: &Id,
        asset_id: &AssetId,
    ) -> (result: Result<(), RmrkError>) {
        let mut assets: Vec<AssetId> = match self.pending_assets.get(token_id) {
            Some(list) => list.clone(),
            None => {
                return Err(RmrkError::InvalidAssetId);
            },
        };
        assert(assets@ =~= self@.pending_of(token_id@));
        let index = match position(&assets, *asset_id) {
            Some(index) => index,
            None => {
                return Err(RmrkError::InvalidTokenId);
            },
        };
        assets.remove(index);
        proof {
            lemma_without(old(self)@.pending_of(token_id@), *asset_id);
            assert forall|x: AssetId| assets@.contains(x) implies !old(self)@.is_accepted(
                token_id@,
                x,
            ) && old(self)@.is_defined(x) by {
                assert(old(self)@.is_pending(token_id@, x));
            }
            old(self)@.lemma_wf_with_pending(token_id@, assets@);
        }
        self.pending_assets.insert(token_id.duplicate(), assets);
        Ok(())
    }

    fn remove_from_accepted_assets(
        &mut self,
        token_id: &Id,
        asset_id: &AssetId,
    ) -> (result: Result<(), RmrkError>) {
        let mut assets: Vec<AssetId> = match self.accepted_assets.get(token_id) {
            Some(list) => list.clone(),
            None => {
                return Err(RmrkError::InvalidAssetId);
            },
        };
        assert(assets@ =~= self@.accepted_of(token_id@));
        let index = match position(&assets, *asset_id) {
            Some(index) => index,
            None => {
                return Err(RmrkError::InvalidTokenId);
            },
        };
        assets.remove(index);
        proof {
            lemma_without(old(self)@.accepted_of(token_id@), *asset_id);
            assert forall|x: AssetId| assets@.contains(x) implies !old(self)@.is_pending(
                token_id@,
                x,
            ) && old(self)@.is_defined(x) by {
                assert(old(self)@.is_accepted(token_id@, x));
            }
            old(self)@.lemma_wf_with_accepted(token_id@, assets@);
        }
        self.accepted_assets.insert(token_id.duplicate(), assets);
        Ok(())
    }

    fn get_pseudo_random(&mut self, now: u64, max_value: u8) -> (number: u8) {
        let number = draw(now, self.salt, max_value);
        self.salt = self.salt + 1;
        proof {
            State::lemma_wf_frame(old(self)@, self@);
        }
        number
    }

    fn has_passed(&self, now: u64, check_time: u64, last_time: u64) -> (passed: bool) {
        has_elapsed(now, check_time, last_time)
    }

    fn five_minutes_has_passed(&self, now: u64, last_time: u64) -> (passed: bool) {
        self.has_passed(now, FIVE_MINUTES, last_time)
    }

    fn one_day_has_passed(&self, now: u64, last_time: u64) -> (passed: bool) {
        self.has_passed(now, ONE_DAY, last_time)
    }
}

} // verus!
