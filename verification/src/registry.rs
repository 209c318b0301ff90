//! The catalog of assets. An asset is defined once, under an id of its own,
//! and stays as it was defined.

use vstd::prelude::*;
use crate::errors::RmrkError;
use crate::guards::{ensure_role, role_check};
use crate::types::{
    bytes_copy, AccountId, Asset, AssetId, AssetView, EquippableGroupId, IdView, PartId,
};
use crate::{MultiAssetData, State};

verus! {

impl State {
    /// Refuses an id under which an asset is defined.
    pub open spec fn ensure_asset_id_is_available(self, asset: AssetId) -> Result<(), RmrkError> {
        if self.is_defined(asset) {
            Err(RmrkError::AssetIdAlreadyExists)
        } else {
            Ok(())
        }
    }

    /// Whether an asset can be defined under the id, and why not where it
    /// cannot: the caller holds the contributor role, and the id is free.
    pub open spec fn define_check(self, has_role: bool, asset: AssetId) -> Result<(), RmrkError> {
        if role_check(has_role) is Err {
            role_check(has_role)
        } else {
            self.ensure_asset_id_is_available(asset)
        }
    }

    /// The state after `entry` has been defined under the id, with its
    /// catalog contract: the id is the last of the id list.
    pub open spec fn defined(
        self,
        catalog: Option<AccountId>,
        asset: AssetId,
        entry: AssetView,
    ) -> State {
        State {
            collection_asset_entries: self.collection_asset_entries.insert(asset, entry),
            collection_asset_ids: self.collection_asset_ids.push(asset),
            asset_catalog_address: self.asset_catalog_address.insert(asset, catalog),
            ..self
        }
    }

    /// The catalog contract of the asset; none for an asset without one, or
    /// for an id under which nothing is defined.
    pub open spec fn catalog_of(self, asset: AssetId) -> Option<AccountId> {
        if self.asset_catalog_address.contains_key(asset) {
            self.asset_catalog_address[asset]
        } else {
            None
        }
    }

    /// A well-formed state stays so when an asset is defined under a free
    /// id.
    pub proof fn lemma_wf_defined(
        self,
        catalog: Option<AccountId>,
        asset: AssetId,
        entry: AssetView,
    )
        requires
            self.wf(),
            !self.is_defined(asset),
        ensures
            self.defined(catalog, asset, entry).wf(),
    {
        let next = self.defined(catalog, asset, entry);
        crate::lists::lemma_push(self.collection_asset_ids, asset);
        assert forall|a: AssetId|
            next.collection_asset_ids.contains(a)
                <==> #[trigger] next.collection_asset_entries.contains_key(a) by {
            assert(self.collection_asset_ids.contains(a)
                <==> self.collection_asset_entries.contains_key(a));
            assert(self.collection_asset_ids.push(asset).contains(a) <==> a == asset
                || self.collection_asset_ids.contains(a));
        }
        assert forall|token: IdView| (#[trigger] next.accepted_of(token)).no_duplicates() by {
            assert(next.accepted_of(token) == self.accepted_of(token));
        }
        assert forall|token: IdView| (#[trigger] next.pending_of(token)).no_duplicates() by {
            assert(next.pending_of(token) == self.pending_of(token));
        }
        assert forall|token: IdView, a: AssetId|
            !(#[trigger] next.is_accepted(token, a) && #[trigger] next.is_pending(token, a)) by {
            assert(next.is_accepted(token, a) == self.is_accepted(token, a));
            assert(next.is_pending(token, a) == self.is_pending(token, a));
        }
        assert forall|token: IdView, a: AssetId| #[trigger]
            next.is_accepted(token, a) implies next.is_defined(a) by {
            assert(self.is_accepted(token, a));
        }
        assert forall|token: IdView, a: AssetId| #[trigger]
            next.is_pending(token, a) implies next.is_defined(a) by {
            assert(self.is_pending(token, a));
        }
    }
}

impl MultiAssetData {
    /// Refuses an id under which an asset is defined.
    pub fn ensure_asset_id_is_available(&self, asset_id: AssetId) -> (result: Result<(), RmrkError>)
        requires
            self.wf(),
        ensures
            result == self@.ensure_asset_id_is_available(asset_id),
    {
        if self.collection_asset_entries.contains_key(&asset_id) {
            return Err(RmrkError::AssetIdAlreadyExists);
        }
        Ok(())
    }

    /// Defines an asset under `asset_id`. `has_role` says whether the caller
    /// holds the contributor role.
    pub fn add_asset_entry(
        &mut self,
        has_role: bool,
        catalog_address: Option<AccountId>,
        asset_id: AssetId,
        equippable_group_id: EquippableGroupId,
        asset_uri: Vec<u8>,
        part_ids: Vec<PartId>,
    ) -> (result: Result<(), RmrkError>)
        requires
            old(self).wf(),
        ensures
            final(self).wf(),
            result == old(self)@.define_check(has_role, asset_id),
            result is Err ==> final(self)@ == old(self)@,
            result is Ok ==> final(self)@ == old(self)@.defined(
                catalog_address,
                asset_id,
                (AssetView { equippable_group_id, asset_uri: asset_uri@, part_ids: part_ids@ }),
            ),
    {
        if let Err(e) = ensure_role(has_role) {
            return Err(e);
        }
        if let Err(e) = self.ensure_asset_id_is_available(asset_id) {
            return Err(e);
        }
        let entry = Asset { equippable_group_id, asset_uri, part_ids };
        proof {
            self@.lemma_wf_defined(catalog_address, asset_id, entry@);
        }
        self.collection_asset_entries.insert(asset_id, entry);
        self.collection_asset_ids.push(asset_id);
        self.asset_catalog_address.insert(asset_id, catalog_address);
        Ok(())
    }

    /// Whether the number of defined assets fits in 32 bits.
    pub fn can_total_assets(&self) -> (possible: bool)
        ensures
            possible == (self@.collection_asset_ids.len() <= u32::MAX),
    {
        self.collection_asset_ids.len() <= u32::MAX as usize
    }

    /// How many assets are defined.
    pub fn total_assets(&self) -> (count: u32)
        requires
            self@.collection_asset_ids.len() <= u32::MAX,
        ensures
            count == self@.collection_asset_ids.len(),
    {
        self.collection_asset_ids.len() as u32
    }

    /// The asset defined under `asset_id`, if there is one.
    pub fn get_asset(&self, asset_id: AssetId) -> (asset: Option<Asset>)
        requires
            self.wf(),
        ensures
            match asset {
                Some(entry) => self@.collection_asset_entries.contains_key(asset_id) && entry@
                    == self@.collection_asset_entries[asset_id],
                None => !self@.collection_asset_entries.contains_key(asset_id),
            },
    {
        match self.collection_asset_entries.get(&asset_id) {
            Some(entry) => Some(
                Asset {
                    equippable_group_id: entry.equippable_group_id,
                    asset_uri: bytes_copy(&entry.asset_uri),
                    part_ids: entry.part_ids.clone(),
                },
            ),
            None => None,
        }
    }

    /// The address of the asset defined under `asset_id`, if there is one.
    pub fn get_asset_uri(&self, asset_id: AssetId) -> (uri: Option<Vec<u8>>)
        requires
            self.wf(),
        ensures
            match uri {
                Some(bytes) => self@.collection_asset_entries.contains_key(asset_id) && bytes@
                    == self@.collection_asset_entries[asset_id].asset_uri,
                None => !self@.collection_asset_entries.contains_key(asset_id),
            },
    {
        match self.get_asset(asset_id) {
            Some(asset) => Some(asset.asset_uri),
            None => None,
        }
    }

    /// The catalog contract of the asset; none for an asset without one, or
    /// for an id under which nothing is defined.
    pub fn get_asset_catalog_address(&self, asset_id: AssetId) -> (catalog: Option<AccountId>)
        requires
            self.wf(),
        ensures
            catalog == self@.catalog_of(asset_id),
    {
        match self.asset_catalog_address.get(&asset_id) {
            Some(catalog) => *catalog,
            None => None,
        }
    }
}

} // verus!
