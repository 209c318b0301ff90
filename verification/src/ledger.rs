//! The assets of each token. An asset is absent, pending or accepted for a
//! token; the operations here move it between these states.

use vstd::prelude::*;
use crate::errors::RmrkError;
use crate::guards::{ensure_exists_and_get_owner, ensure_token_owner, owner_action_check};
use crate::internal::Internal;
use crate::lists::{
    is_permutation, lemma_permutation, lemma_without, permutes, replaced, without,
};
use crate::types::{AccountId, AssetId, Id, IdView, Key};
use crate::{MultiAssetData, State};

verus! {

impl State {
    /// The state with `list` as the accepted assets of the token.
    pub open spec fn with_accepted(self, token: IdView, list: Seq<AssetId>) -> State {
        State { accepted_assets: self.accepted_assets.insert(token, list), ..self }
    }

    /// The state with `list` as the pending assets of the token.
    pub open spec fn with_pending(self, token: IdView, list: Seq<AssetId>) -> State {
        State { pending_assets: self.pending_assets.insert(token, list), ..self }
    }

    /// Refuses an asset that is accepted for the token.
    pub open spec fn ensure_not_accepted(
        self,
        token: IdView,
        asset: AssetId,
    ) -> Result<(), RmrkError> {
        if self.is_accepted(token, asset) {
            Err(RmrkError::AlreadyAddedAsset)
        } else {
            Ok(())
        }
    }

    /// Refuses an asset that is pending for the token.
    pub open spec fn ensure_not_pending(
        self,
        token: IdView,
        asset: AssetId,
    ) -> Result<(), RmrkError> {
        if self.is_pending(token, asset) {
            Err(RmrkError::AddingPendingAsset)
        } else {
            Ok(())
        }
    }

    /// Refuses an asset that is not pending for the token.
    pub open spec fn ensure_pending(self, token: IdView, asset: AssetId) -> Result<(), RmrkError> {
        if self.is_pending(token, asset) {
            Ok(())
        } else {
            Err(RmrkError::AssetIdNotFound)
        }
    }

    /// Refuses an asset that is not accepted for the token.
    pub open spec fn ensure_asset_accepted(
        self,
        token: IdView,
        asset: AssetId,
    ) -> Result<(), RmrkError> {
        if self.is_accepted(token, asset) {
            Ok(())
        } else {
            Err(RmrkError::AssetIdNotFound)
        }
    }

    /// The state with the asset appended to the accepted assets of the
    /// token, unless it is among them.
    pub open spec fn accepting(self, token: IdView, asset: AssetId) -> State {
        if self.is_accepted(token, asset) {
            self
        } else {
            self.with_accepted(token, self.accepted_of(token).push(asset))
        }
    }

    /// The state with the asset appended to the pending assets of the
    /// token, unless it is among them.
    pub open spec fn proposing(self, token: IdView, asset: AssetId) -> State {
        if self.is_pending(token, asset) {
            self
        } else {
            self.with_pending(token, self.pending_of(token).push(asset))
        }
    }

    /// Whether the asset can be taken out of the pending list of the token:
    /// the token has such a list, and the asset is in it.
    pub open spec fn pending_removal_check(
        self,
        token: IdView,
        asset: AssetId,
    ) -> Result<(), RmrkError> {
        if !self.pending_assets.contains_key(token) {
            Err(RmrkError::InvalidAssetId)
        } else if !self.is_pending(token, asset) {
            Err(RmrkError::InvalidTokenId)
        } else {
            Ok(())
        }
    }

    /// Whether the asset can be taken out of the accepted list of the
    /// token: the token has such a list, and the asset is in it.
    pub open spec fn accepted_removal_check(
        self,
        token: IdView,
        asset: AssetId,
    ) -> Result<(), RmrkError> {
        if !self.accepted_assets.contains_key(token) {
            Err(RmrkError::InvalidAssetId)
        } else if !self.is_accepted(token, asset) {
            Err(RmrkError::InvalidTokenId)
        } else {
            Ok(())
        }
    }

    /// The state with the asset taken out of the pending assets of the
    /// token.
    pub open spec fn without_pending(self, token: IdView, asset: AssetId) -> State {
        self.with_pending(token, without(self.pending_of(token), asset))
    }

    /// The state with the asset taken out of the accepted assets of the
    /// token.
    pub open spec fn without_accepted(self, token: IdView, asset: AssetId) -> State {
        self.with_accepted(token, without(self.accepted_of(token), asset))
    }

    /// Whether `target` can be replaced among the accepted assets of the
    /// token: the token has a list of accepted assets, and `target` is in
    /// it.
    pub open spec fn replacement_check(
        self,
        token: IdView,
        target: AssetId,
    ) -> Result<(), RmrkError> {
        if !self.accepted_assets.contains_key(token) {
            Err(RmrkError::AcceptedAssetsMissing)
        } else if !self.is_accepted(token, target) {
            Err(RmrkError::InvalidAssetId)
        } else {
            Ok(())
        }
    }

    /// The state with `asset` in the place that `target` had among the
    /// accepted assets of the token.
    pub open spec fn replacing(self, token: IdView, asset: AssetId, target: AssetId) -> State {
        self.with_accepted(token, replaced(self.accepted_of(token), target, asset))
    }

    /// A well-formed state stays so when a token gets a new accepted list
    /// that names no asset twice, none that is pending for the token and
    /// none that is not defined.
    pub proof fn lemma_wf_with_accepted(self, token: IdView, list: Seq<AssetId>)
        requires
            self.wf(),
            list.no_duplicates(),
            forall|asset: AssetId| list.contains(asset) ==> !self.is_pending(token, asset),
            forall|asset: AssetId| list.contains(asset) ==> self.is_defined(asset),
        ensures
            self.with_accepted(token, list).wf(),
            self.with_accepted(token, list).accepted_of(token) == list,
            forall|other: IdView|
                other != token ==> #[trigger] self.with_accepted(token, list).accepted_of(other)
                    == self.accepted_of(other),
            forall|other: IdView| #[trigger]
                self.with_accepted(token, list).pending_of(other) == self.pending_of(other),
    {
        let next = self.with_accepted(token, list);
        assert forall|other: IdView| (#[trigger] next.accepted_of(other)).no_duplicates() by {
            if other != token {
                assert(next.accepted_of(other) == self.accepted_of(other));
            }
        }
        assert forall|other: IdView| (#[trigger] next.pending_of(other)).no_duplicates() by {
            assert(next.pending_of(other) == self.pending_of(other));
        }
        assert forall|other: IdView, asset: AssetId|
            !(#[trigger] next.is_accepted(other, asset) && #[trigger] next.is_pending(
                other,
                asset,
            )) by {
            assert(next.is_pending(other, asset) == self.is_pending(other, asset));
            if other != token {
                assert(next.is_accepted(other, asset) == self.is_accepted(other, asset));
            }
        }
        assert forall|other: IdView, asset: AssetId| #[trigger]
            next.is_accepted(other, asset) implies next.is_defined(asset) by {
            if other != token {
                assert(self.is_accepted(other, asset));
            }
        }
        assert forall|other: IdView, asset: AssetId| #[trigger]
            next.is_pending(other, asset) implies next.is_defined(asset) by {
            assert(self.is_pending(other, asset));
        }
    }

    /// A well-formed state stays so when a token gets a new pending list
    /// that names no asset twice, none that is accepted for the token and
    /// none that is not defined.
    pub proof fn lemma_wf_with_pending(self, token: IdView, list: Seq<AssetId>)
        requires
            self.wf(),
            list.no_duplicates(),
            forall|asset: AssetId| list.contains(asset) ==> !self.is_accepted(token, asset),
            forall|asset: AssetId| list.contains(asset) ==> self.is_defined(asset),
        ensures
            self.with_pending(token, list).wf(),
            self.with_pending(token, list).pending_of(token) == list,
            forall|other: IdView|
                other != token ==> #[trigger] self.with_pending(token, list).pending_of(other)
                    == self.pending_of(other),
            forall|other: IdView| #[trigger]
                self.with_pending(token, list).accepted_of(other) == self.accepted_of(other),
    {
        let next = self.with_pending(token, list);
        assert forall|other: IdView| (#[trigger] next.pending_of(other)).no_duplicates() by {
            if other != token {
                assert(next.pending_of(other) == self.pending_of(other));
            }
        }
        assert forall|other: IdView| (#[trigger] next.accepted_of(other)).no_duplicates() by {
            assert(next.accepted_of(other) == self.accepted_of(other));
        }
        assert forall|other: IdView, asset: AssetId|
            !(#[trigger] next.is_accepted(other, asset) && #[trigger] next.is_pending(
                other,
                asset,
            )) by {
            assert(next.is_accepted(other, asset) == self.is_accepted(other, asset));
            if other != token {
                assert(next.is_pending(other, asset) == self.is_pending(other, asset));
            }
        }
        assert forall|other: IdView, asset: AssetId| #[trigger]
            next.is_pending(other, asset) implies next.is_defined(asset) by {
            if other != token {
                assert(self.is_pending(other, asset));
            }
        }
        assert forall|other: IdView, asset: AssetId| #[trigger]
            next.is_accepted(other, asset) implies next.is_defined(asset) by {
            assert(self.is_accepted(other, asset));
        }
    }
}

/// Whether an asset that is attached to a token is accepted at once: it
/// replaces nothing, and the caller owns the token.
pub open spec fn accepted_at_once(
    caller: AccountId,
    token_owner: Option<AccountId>,
    replaces: Option<AssetId>,
) -> bool {
    replaces is None && token_owner == Some(caller)
}

/// Whether an asset that is attached to a token is accepted at once.
pub fn is_accepted_at_once(
    caller: AccountId,
    token_owner: Option<AccountId>,
    replaces: Option<AssetId>,
) -> (at_once: bool)
    ensures
        at_once == accepted_at_once(caller, token_owner, replaces),
{
    match (replaces, token_owner) {
        (None, Some(owner)) => caller.same(&owner),
        _ => false,
    }
}

impl State {
    /// Whether the asset can be attached to the token, and why not where it
    /// cannot: the asset is defined, the token exists, the asset is neither
    /// accepted nor pending for it, and where the asset replaces a target,
    /// the target is among the accepted assets of the token.
    pub open spec fn attach_check(
        self,
        token_owner: Option<AccountId>,
        token: IdView,
        asset: AssetId,
        replaces: Option<AssetId>,
    ) -> Result<(), RmrkError> {
        if !self.is_defined(asset) {
            Err(RmrkError::AssetIdNotFound)
        } else if token_owner is None {
            Err(RmrkError::TokenNotExists)
        } else if self.is_accepted(token, asset) {
            Err(RmrkError::AlreadyAddedAsset)
        } else if self.is_pending(token, asset) {
            Err(RmrkError::AddingPendingAsset)
        } else {
            match replaces {
                Some(target) => self.replacement_check(token, target),
                None => Ok(()),
            }
        }
    }

    /// The state after the asset has been attached to the token. Where it
    /// replaces a target, it takes the target's place among the accepted
    /// assets. Else it is appended to the accepted assets where the caller
    /// owns the token, and to the pending assets where not.
    pub open spec fn attached(
        self,
        caller: AccountId,
        token_owner: Option<AccountId>,
        token: IdView,
        asset: AssetId,
        replaces: Option<AssetId>,
    ) -> State {
        match replaces {
            Some(target) => self.replacing(token, asset, target),
            None => if accepted_at_once(caller, token_owner, replaces) {
                self.with_accepted(token, self.accepted_of(token).push(asset))
            } else {
                self.with_pending(token, self.pending_of(token).push(asset))
            },
        }
    }

    /// Whether the caller can accept or reject the asset for the token: the
    /// asset is pending for it, the token exists, and the caller owns it.
    pub open spec fn pending_action_check(
        self,
        caller: AccountId,
        token_owner: Option<AccountId>,
        token: IdView,
        asset: AssetId,
    ) -> Result<(), RmrkError> {
        if !self.is_pending(token, asset) {
            Err(RmrkError::AssetIdNotFound)
        } else {
            owner_action_check(caller, token_owner)
        }
    }

    /// The state after the pending asset has been accepted for the token:
    /// taken out of the pending assets and appended to the accepted ones.
    pub open spec fn accepted(self, token: IdView, asset: AssetId) -> State {
        self.without_pending(token, asset).with_accepted(
            token,
            self.accepted_of(token).push(asset),
        )
    }

    /// The state after the pending asset has been rejected for the token.
    pub open spec fn rejected(self, token: IdView, asset: AssetId) -> State {
        self.without_pending(token, asset)
    }

    /// Whether the caller can remove the asset from the token: the asset is
    /// accepted for it, the token exists, and the caller owns it.
    pub open spec fn remove_check(
        self,
        caller: AccountId,
        token_owner: Option<AccountId>,
        token: IdView,
        asset: AssetId,
    ) -> Result<(), RmrkError> {
        if !self.is_accepted(token, asset) {
            Err(RmrkError::AssetIdNotFound)
        } else {
            owner_action_check(caller, token_owner)
        }
    }

    /// The state after the accepted asset has been removed from the token.
    pub open spec fn removed(self, token: IdView, asset: AssetId) -> State {
        self.without_accepted(token, asset)
    }

    /// Whether the caller can give the accepted assets of the token the
    /// order of `priorities`: the token exists, the caller owns it, and
    /// `priorities` is a permutation of the accepted assets.
    pub open spec fn priority_check(
        self,
        caller: AccountId,
        token_owner: Option<AccountId>,
        token: IdView,
        priorities: Seq<AssetId>,
    ) -> Result<(), RmrkError> {
        if owner_action_check(caller, token_owner) is Err {
            owner_action_check(caller, token_owner)
        } else if priorities.len() != self.accepted_of(token).len() {
            Err(RmrkError::BadPriorityLength)
        } else if !is_permutation(priorities, self.accepted_of(token)) {
            Err(RmrkError::AssetIdNotFound)
        } else {
            Ok(())
        }
    }

    /// The state with `priorities` as the accepted assets of the token.
    pub open spec fn prioritized(self, token: IdView, priorities: Seq<AssetId>) -> State {
        self.with_accepted(token, priorities)
    }
}

impl MultiAssetData {
    /// Whether the caller owns the token. `token_owner` is the owner of an
    /// existing token.
    pub fn is_nft_owner(&self, caller: AccountId, token_owner: Option<AccountId>) -> (own: bool)
        requires
            token_owner is Some,
        ensures
            own == (token_owner == Some(caller)),
    {
        match token_owner {
            Some(owner) => owner.same(&caller),
            None => false,
        }
    }

    /// Attaches a defined asset to a token. `token_owner` is the owner of
    /// `token_id`, `None` where the token does not exist.
    ///
    /// With `replaces_asset_with_id`, the asset takes the place of that
    /// accepted asset, whoever calls. Without, the asset is accepted at once
    /// where the caller owns the token, and pending where not.
    pub fn add_asset_to_token(
        &mut self,
        caller: AccountId,
        token_owner: Option<AccountId>,
        token_id: Id,
        asset_id: AssetId,
        replaces_asset_with_id: Option<AssetId>,
    ) -> (result: Result<(), RmrkError>)
        requires
            old(self).wf(),
        ensures
            final(self).wf(),
            result == old(self)@.attach_check(
                token_owner,
                token_id@,
                asset_id,
                replaces_asset_with_id,
            ),
            result is Err ==> final(self)@ == old(self)@,
            result is Ok ==> final(self)@ == old(self)@.attached(
                caller,
                token_owner,
                token_id@,
                asset_id,
                replaces_asset_with_id,
            ),
    {
        if !self.collection_asset_entries.contains_key(&asset_id) {
            return Err(RmrkError::AssetIdNotFound);
        }
        let owner = match ensure_exists_and_get_owner(token_owner) {
            Ok(owner) => owner,
            Err(e) => {
                return Err(e);
            },
        };
        if let Err(e) = self.ensure_not_accepted(&token_id, &asset_id) {
            return Err(e);
        }
        if let Err(e) = self.ensure_not_pending(&token_id, &asset_id) {
            return Err(e);
        }
        if let Some(replace_with_id) = replaces_asset_with_id {
            return self.replace_asset(&token_id, &asset_id, &replace_with_id);
        }
        if caller.same(&owner) {
            self.add_to_accepted_assets(&token_id, &asset_id);
        } else {
            self.add_to_pending_assets(&token_id, &asset_id);
        }
        Ok(())
    }

    /// Accepts a pending asset: the owner of the token moves it from the
    /// pending assets to the end of the accepted ones.
    pub fn accept_asset(
        &mut self,
        caller: AccountId,
        token_owner: Option<AccountId>,
        token_id: Id,
        asset_id: AssetId,
    ) -> (result: Result<(), RmrkError>)
        requires
            old(self).wf(),
        ensures
            final(self).wf(),
            result == old(self)@.pending_action_check(caller, token_owner, token_id@, asset_id),
            result is Err ==> final(self)@ == old(self)@,
            result is Ok ==> final(self)@ == old(self)@.accepted(token_id@, asset_id),
    {
        if let Err(e) = self.ensure_pending(&token_id, &asset_id) {
            return Err(e);
        }
        let owner = match ensure_exists_and_get_owner(token_owner) {
            Ok(owner) => owner,
            Err(e) => {
                return Err(e);
            },
        };
        if let Err(e) = ensure_token_owner(caller, owner) {
            return Err(e);
        }
        proof {
            // What is pending is not accepted; once it is taken out of the
            // pending assets, it is in neither list.
            assert(self@.is_pending(token_id@, asset_id));
            assert(!self@.is_accepted(token_id@, asset_id));
            let rest = without(self@.pending_of(token_id@), asset_id);
            lemma_without(self@.pending_of(token_id@), asset_id);
            assert forall|x: AssetId| rest.contains(x) implies !self@.is_accepted(token_id@, x)
                && self@.is_defined(x) by {
                assert(self@.is_pending(token_id@, x));
            }
            self@.lemma_wf_with_pending(token_id@, rest);
        }
        self.remove_from_pending_assets(&token_id, &asset_id)?;
        assert(self@.accepted_of(token_id@) == old(self)@.accepted_of(token_id@));
        self.add_to_accepted_assets(&token_id, &asset_id);
        Ok(())
    }

    /// Rejects a pending asset: the owner of the token takes it out of the
    /// pending assets.
    pub fn reject_asset(
        &mut self,
        caller: AccountId,
        token_owner: Option<AccountId>,
        token_id: Id,
        asset_id: AssetId,
    ) -> (result: Result<(), RmrkError>)
        requires
            old(self).wf(),
        ensures
            final(self).wf(),
            result == old(self)@.pending_action_check(caller, token_owner, token_id@, asset_id),
            result is Err ==> final(self)@ == old(self)@,
            result is Ok ==> final(self)@ == old(self)@.rejected(token_id@, asset_id),
    {
        if let Err(e) = self.ensure_pending(&token_id, &asset_id) {
            return Err(e);
        }
        let owner = match ensure_exists_and_get_owner(token_owner) {
            Ok(owner) => owner,
            Err(e) => {
                return Err(e);
            },
        };
        if let Err(e) = ensure_token_owner(caller, owner) {
            return Err(e);
        }
        self.remove_from_pending_assets(&token_id, &asset_id)
    }

    /// Removes an accepted asset: the owner of the token takes it out of
    /// the accepted assets.
    pub fn remove_asset(
        &mut self,
        caller: AccountId,
        token_owner: Option<AccountId>,
        token_id: Id,
        asset_id: AssetId,
    ) -> (result: Result<(), RmrkError>)
        requires
            old(self).wf(),
        ensures
            final(self).wf(),
            result == old(self)@.remove_check(caller, token_owner, token_id@, asset_id),
            result is Err ==> final(self)@ == old(self)@,
            result is Ok ==> final(self)@ == old(self)@.removed(token_id@, asset_id),
    {
        if let Err(e) = self.ensure_asset_accepted(&token_id, &asset_id) {
            return Err(e);
        }
        let owner = match ensure_exists_and_get_owner(token_owner) {
            Ok(owner) => owner,
            Err(e) => {
                return Err(e);
            },
        };
        if let Err(e) = ensure_token_owner(caller, owner) {
            return Err(e);
        }
        self.remove_from_accepted_assets(&token_id, &asset_id)
    }

    /// Gives the accepted assets of a token a new order: the owner of the
    /// token replaces the list by `priorities`, a permutation of it.
    pub fn set_priority(
        &mut self,
        caller: AccountId,
        token_owner: Option<AccountId>,
        token_id: Id,
        priorities: Vec<AssetId>,
    ) -> (result: Result<(), RmrkError>)
        requires
            old(self).wf(),
        ensures
            final(self).wf(),
            result == old(self)@.priority_check(caller, token_owner, token_id@, priorities@),
            result is Err ==> final(self)@ == old(self)@,
            result is Ok ==> final(self)@ == old(self)@.prioritized(token_id@, priorities@),
    {
        let owner = match ensure_exists_and_get_owner(token_owner) {
            Ok(owner) => owner,
            Err(e) => {
                return Err(e);
            },
        };
        if let Err(e) = ensure_token_owner(caller, owner) {
            return Err(e);
        }
        let accepted_assets: Vec<AssetId> = match self.accepted_assets.get(&token_id) {
            Some(list) => list.clone(),
            None => Vec::new(),
        };
        assert(accepted_assets@ =~= self@.accepted_of(token_id@));
        if accepted_assets.len() != priorities.len() {
            return Err(RmrkError::BadPriorityLength);
        }
        if !permutes(&priorities, &accepted_assets) {
            return Err(RmrkError::AssetIdNotFound);
        }
        proof {
            lemma_permutation(priorities@, self@.accepted_of(token_id@));
            assert forall|x: AssetId| priorities@.contains(x) implies !self@.is_pending(
                token_id@,
                x,
            ) && self@.is_defined(x) by {
                assert(self@.is_accepted(token_id@, x));
            }
            self@.lemma_wf_with_accepted(token_id@, priorities@);
        }
        self.accepted_assets.insert(token_id, priorities);
        Ok(())
    }

    /// How many assets an existing token has: the accepted ones, then the
    /// pending ones.
    pub fn total_token_assets(
        &self,
        token_owner: Option<AccountId>,
        token_id: Id,
    ) -> (result: Result<(u64, u64), RmrkError>)
        requires
            self.wf(),
        ensures
            result == match token_owner {
                Some(_) => Ok(
                    (
                        self@.accepted_of(token_id@).len() as u64,
                        self@.pending_of(token_id@).len() as u64,
                    ),
                ),
                None => Err(RmrkError::TokenNotExists),
            },
    {
        if let Err(e) = ensure_exists_and_get_owner(token_owner) {
            return Err(e);
        }
        let accepted_assets_on_token: u64 = match self.accepted_assets.get(&token_id) {
            Some(assets) => assets.len() as u64,
            None => 0,
        };
        let pending_assets_on_token: u64 = match self.pending_assets.get(&token_id) {
            Some(assets) => assets.len() as u64,
            None => 0,
        };
        Ok((accepted_assets_on_token, pending_assets_on_token))
    }

    /// The accepted assets of an existing token, by priority.
    pub fn get_accepted_token_assets(
        &self,
        token_owner: Option<AccountId>,
        token_id: Id,
    ) -> (result: Result<Vec<AssetId>, RmrkError>)
        requires
            self.wf(),
        ensures
            match result {
                Ok(assets) => token_owner is Some && assets@ == self@.accepted_of(token_id@),
                Err(e) => token_owner is None && e == RmrkError::TokenNotExists,
            },
    {
        if let Err(e) = ensure_exists_and_get_owner(token_owner) {
            return Err(e);
        }
        let assets: Vec<AssetId> = match self.accepted_assets.get(&token_id) {
            Some(list) => list.clone(),
            None => Vec::new(),
        };
        assert(assets@ =~= self@.accepted_of(token_id@));
        Ok(assets)
    }

    /// The pending assets of an existing token, oldest first.
    pub fn get_pending_token_assets(
        &self,
        token_owner: Option<AccountId>,
        token_id: Id,
    ) -> (result: Result<Vec<AssetId>, RmrkError>)
        requires
            self.wf(),
        ensures
            match result {
                Ok(assets) => token_owner is Some && assets@ == self@.pending_of(token_id@),
                Err(e) => token_owner is None && e == RmrkError::TokenNotExists,
            },
    {
        if let Err(e) = ensure_exists_and_get_owner(token_owner) {
            return Err(e);
        }
        let assets: Vec<AssetId> = match self.pending_assets.get(&token_id) {
            Some(list) => list.clone(),
            None => Vec::new(),
        };
        assert(assets@ =~= self@.pending_of(token_id@));
        Ok(assets)
    }
}

} // verus!
