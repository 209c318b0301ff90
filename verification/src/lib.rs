//! State of a collectible virtual pet: a ledger of the assets that are
//! attached to each token, and the time-driven pet economy that is layered
//! on it.
//!
//! The state is one value, [`MultiAssetData`]. Every operation is a method on
//! it that takes what the host knows (the time, the caller, the owner of a
//! token, whether the caller holds a role) as plain arguments, and either
//! commits in full or leaves the state as it was.

use vstd::prelude::*;

pub mod economy;
pub mod errors;
pub mod guards;
pub mod internal;
pub mod laws;
pub mod ledger;
pub mod lists;
pub mod pet;
pub mod random;
pub mod registry;
pub mod table;
pub mod time;
pub mod types;
pub mod uri;

use crate::table::Table;
use crate::types::{AccountId, Asset, AssetId, AssetView, Id, IdView, Status};

verus! {

/// The whole state: the asset catalog, the assets of each token, the stored
/// condition of each pet and the holdings of each account.
#[derive(Debug)]
pub struct MultiAssetData {
    /// The catalog: the definition of each asset.
    collection_asset_entries: Table<AssetId, Asset>,
    /// The ids of the catalog, in the order in which they were defined.
    collection_asset_ids: Vec<AssetId>,
    /// The accepted assets of each token, by priority.
    accepted_assets: Table<Id, Vec<AssetId>>,
    /// The assets proposed for each token and not yet accepted or rejected.
    pending_assets: Table<Id, Vec<AssetId>>,
    /// The catalog contract of each asset, where it has one.
    asset_catalog_address: Table<AssetId, Option<AccountId>>,
    /// The condition of each pet as of its last meal.
    asset_status: Table<Id, Status>,
    /// The address of the picture of a pet in normal condition.
    normal_uri: Vec<u8>,
    /// The address of the picture of a pet in good condition.
    good_uri: Vec<u8>,
    /// The address of the picture of a pet in bad condition.
    bad_uri: Vec<u8>,
    /// The number of pseudo-random draws made so far.
    salt: u64,
    /// When each pet last ate, in milliseconds; 0 for never.
    last_eaten: Table<Id, u64>,
    /// When each account last claimed the bonus, in milliseconds.
    last_bonus: Table<AccountId, u64>,
    /// When each account last staked, in milliseconds; 0 for never.
    last_staked: Table<AccountId, u64>,
    /// The fruit of each account.
    apple_number: Table<AccountId, u16>,
    /// The liquid balance of each account.
    your_money: Table<AccountId, u64>,
    /// The principal that each account has staked.
    your_staked_money: Table<AccountId, u64>,
}

/// The mathematical content of a [`MultiAssetData`], field by field.
pub struct State {
    pub collection_asset_entries: Map<AssetId, AssetView>,
    pub collection_asset_ids: Seq<AssetId>,
    pub accepted_assets: Map<IdView, Seq<AssetId>>,
    pub pending_assets: Map<IdView, Seq<AssetId>>,
    pub asset_catalog_address: Map<AssetId, Option<AccountId>>,
    pub asset_status: Map<IdView, Status>,
    pub normal_uri: Seq<u8>,
    pub good_uri: Seq<u8>,
    pub bad_uri: Seq<u8>,
    pub salt: u64,
    pub last_eaten: Map<IdView, u64>,
    pub last_bonus: Map<AccountId, u64>,
    pub last_staked: Map<AccountId, u64>,
    pub apple_number: Map<AccountId, u16>,
    pub your_money: Map<AccountId, u64>,
    pub your_staked_money: Map<AccountId, u64>,
}

impl State {
    /// The state in which nothing has happened yet.
    pub open spec fn empty() -> State {
        State {
            collection_asset_entries: Map::empty(),
            collection_asset_ids: Seq::empty(),
            accepted_assets: Map::empty(),
            pending_assets: Map::empty(),
            asset_catalog_address: Map::empty(),
            asset_status: Map::empty(),
            normal_uri: Seq::empty(),
            good_uri: Seq::empty(),
            bad_uri: Seq::empty(),
            salt: 0,
            last_eaten: Map::empty(),
            last_bonus: Map::empty(),
            last_staked: Map::empty(),
            apple_number: Map::empty(),
            your_money: Map::empty(),
            your_staked_money: Map::empty(),
        }
    }

    /// The accepted assets of a token, by priority; none for a token that
    /// has no list.
    pub open spec fn accepted_of(self, token: IdView) -> Seq<AssetId> {
        if self.accepted_assets.contains_key(token) {
            self.accepted_assets[token]
        } else {
            Seq::empty()
        }
    }

    /// The pending assets of a token, oldest first; none for a token that
    /// has no list.
    pub open spec fn pending_of(self, token: IdView) -> Seq<AssetId> {
        if self.pending_assets.contains_key(token) {
            self.pending_assets[token]
        } else {
            Seq::empty()
        }
    }

    /// Whether the asset is among the accepted assets of the token.
    pub open spec fn is_accepted(self, token: IdView, asset: AssetId) -> bool {
        self.accepted_of(token).contains(asset)
    }

    /// Whether the asset is among the pending assets of the token.
    pub open spec fn is_pending(self, token: IdView, asset: AssetId) -> bool {
        self.pending_of(token).contains(asset)
    }

    /// When the pet last ate, in milliseconds; 0 for a pet that never ate.
    pub open spec fn last_eaten_of(self, token: IdView) -> u64 {
        if self.last_eaten.contains_key(token) {
            self.last_eaten[token]
        } else {
            0
        }
    }

    /// The condition stored for the pet; all zero where none is stored.
    pub open spec fn stored_status(self, token: IdView) -> Status {
        if self.asset_status.contains_key(token) {
            self.asset_status[token]
        } else {
            Status { hungry: 0, health: 0, happy: 0 }
        }
    }

    /// The state with `salt` as the number of draws made.
    pub open spec fn with_salt(self, salt: u64) -> State {
        State { salt, ..self }
    }

    /// The state with `status` stored for the pet.
    pub open spec fn with_status(self, token: IdView, status: Status) -> State {
        State { asset_status: self.asset_status.insert(token, status), ..self }
    }

    /// The state with `time` recorded as the pet's last meal.
    pub open spec fn with_last_eaten(self, token: IdView, time: u64) -> State {
        State { last_eaten: self.last_eaten.insert(token, time), ..self }
    }

    /// The fruit of the account; none for an account that is not known.
    pub open spec fn apples_of(self, account: AccountId) -> u16 {
        if self.apple_number.contains_key(account) {
            self.apple_number[account]
        } else {
            0
        }
    }

    /// The liquid balance of the account; 0 for an account that is not
    /// known.
    pub open spec fn money_of(self, account: AccountId) -> u64 {
        if self.your_money.contains_key(account) {
            self.your_money[account]
        } else {
            0
        }
    }

    /// The principal that the account has staked, without interest.
    pub open spec fn principal_of(self, account: AccountId) -> u64 {
        if self.your_staked_money.contains_key(account) {
            self.your_staked_money[account]
        } else {
            0
        }
    }

    /// When the account last staked; 0 for never.
    pub open spec fn last_staked_of(self, account: AccountId) -> u64 {
        if self.last_staked.contains_key(account) {
            self.last_staked[account]
        } else {
            0
        }
    }

    /// When the account last claimed the bonus; 0 for never.
    pub open spec fn last_bonus_of(self, account: AccountId) -> u64 {
        if self.last_bonus.contains_key(account) {
            self.last_bonus[account]
        } else {
            0
        }
    }

    /// The state with `apples` as the fruit of the account.
    pub open spec fn with_apples(self, account: AccountId, apples: u16) -> State {
        State { apple_number: self.apple_number.insert(account, apples), ..self }
    }

    /// The state with `money` as the liquid balance of the account.
    pub open spec fn with_money(self, account: AccountId, money: u64) -> State {
        State { your_money: self.your_money.insert(account, money), ..self }
    }

    /// The state with `principal` as the stake of the account.
    pub open spec fn with_principal(self, account: AccountId, principal: u64) -> State {
        State { your_staked_money: self.your_staked_money.insert(account, principal), ..self }
    }

    /// The state with `time` as the moment at which the account last staked.
    pub open spec fn with_last_staked(self, account: AccountId, time: u64) -> State {
        State { last_staked: self.last_staked.insert(account, time), ..self }
    }

    /// The state with `time` as the moment at which the account last claimed
    /// the bonus.
    pub open spec fn with_last_bonus(self, account: AccountId, time: u64) -> State {
        State { last_bonus: self.last_bonus.insert(account, time), ..self }
    }

    /// Whether an asset is defined under the id.
    pub open spec fn is_defined(self, asset: AssetId) -> bool {
        self.collection_asset_entries.contains_key(asset)
    }

    /// What holds of every state that the operations can reach: the catalog's
    /// id list names each defined asset once, no list of a token names an
    /// asset twice or an asset that is not defined, and no asset is both
    /// pending and accepted for a token.
    pub open spec fn wf(self) -> bool {
        &&& self.collection_asset_ids.no_duplicates()
        &&& forall|asset: AssetId|
            self.collection_asset_ids.contains(asset)
                <==> #[trigger] self.collection_asset_entries.contains_key(asset)
        &&& forall|token: IdView| (#[trigger] self.accepted_of(token)).no_duplicates()
        &&& forall|token: IdView| (#[trigger] self.pending_of(token)).no_duplicates()
        &&& forall|token: IdView, asset: AssetId|
            !(#[trigger] self.is_accepted(token, asset) && #[trigger] self.is_pending(
                token,
                asset,
            ))
        &&& forall|token: IdView, asset: AssetId| #[trigger]
            self.is_accepted(token, asset) ==> self.is_defined(asset)
        &&& forall|token: IdView, asset: AssetId| #[trigger]
            self.is_pending(token, asset) ==> self.is_defined(asset)
    }

    /// Well-formedness speaks of the catalog and of the lists of the tokens
    /// only: a state that agrees with a well-formed one on those is
    /// well-formed.
    pub proof fn lemma_wf_frame(a: State, b: State)
        requires
            a.wf(),
            b.collection_asset_entries == a.collection_asset_entries,
            b.collection_asset_ids == a.collection_asset_ids,
            b.accepted_assets == a.accepted_assets,
            b.pending_assets == a.pending_assets,
        ensures
            b.wf(),
    {
        assert forall|token: IdView| (#[trigger] b.accepted_of(token)).no_duplicates() by {
            assert(b.accepted_of(token) == a.accepted_of(token));
        }
        assert forall|token: IdView| (#[trigger] b.pending_of(token)).no_duplicates() by {
            assert(b.pending_of(token) == a.pending_of(token));
        }
        assert forall|token: IdView, asset: AssetId|
            !(#[trigger] b.is_accepted(token, asset) && #[trigger] b.is_pending(token, asset)) by {
            assert(b.is_accepted(token, asset) == a.is_accepted(token, asset));
            assert(b.is_pending(token, asset) == a.is_pending(token, asset));
        }
        assert forall|token: IdView, asset: AssetId| #[trigger]
            b.is_accepted(token, asset) implies b.is_defined(asset) by {
            assert(a.is_accepted(token, asset));
        }
        assert forall|token: IdView, asset: AssetId| #[trigger]
            b.is_pending(token, asset) implies b.is_defined(asset) by {
            assert(a.is_pending(token, asset));
        }
    }
}

impl View for MultiAssetData {
    type V = State;

    closed spec fn view(&self) -> State {
        State {
            collection_asset_entries: self.collection_asset_entries@,
            collection_asset_ids: self.collection_asset_ids@,
            accepted_assets: self.accepted_assets@,
            pending_assets: self.pending_assets@,
            asset_catalog_address: self.asset_catalog_address@,
            asset_status: self.asset_status@,
            normal_uri: self.normal_uri@,
            good_uri: self.good_uri@,
            bad_uri: self.bad_uri@,
            salt: self.salt,
            last_eaten: self.last_eaten@,
            last_bonus: self.last_bonus@,
            last_staked: self.last_staked@,
            apple_number: self.apple_number@,
            your_money: self.your_money@,
            your_staked_money: self.your_staked_money@,
        }
    }
}

impl MultiAssetData {
    /// Holds of every value that this library hands out, and is kept by
    /// every operation. It implies `self@.wf()`.
    pub closed spec fn wf(&self) -> bool {
        &&& self.collection_asset_entries.wf()
        &&& self.accepted_assets.wf()
        &&& self.pending_assets.wf()
        &&& self.asset_catalog_address.wf()
        &&& self.asset_status.wf()
        &&& self.last_eaten.wf()
        &&& self.last_bonus.wf()
        &&& self.last_staked.wf()
        &&& self.apple_number.wf()
        &&& self.your_money.wf()
        &&& self.your_staked_money.wf()
        &&& self@.wf()
    }

    /// A well-formed value stands for a well-formed state.
    pub proof fn lemma_wf_state(&self)
        requires
            self.wf(),
        ensures
            self@.wf(),
    {
    }

    /// The state in which nothing has happened yet.
    pub fn new() -> (data: MultiAssetData)
        ensures
            data.wf(),
            data@ == State::empty(),
    {
        let data = MultiAssetData {
            collection_asset_entries: Table::new(),
            collection_asset_ids: Vec::new(),
            accepted_assets: Table::new(),
            pending_assets: Table::new(),
            asset_catalog_address: Table::new(),
            asset_status: Table::new(),
            normal_uri: Vec::new(),
            good_uri: Vec::new(),
            bad_uri: Vec::new(),
            salt: 0,
            last_eaten: Table::new(),
            last_bonus: Table::new(),
            last_staked: Table::new(),
            apple_number: Table::new(),
            your_money: Table::new(),
            your_staked_money: Table::new(),
        };
        assert(data@.collection_asset_ids =~= Seq::empty());
        assert(data@.normal_uri =~= Seq::empty());
        assert(data@.good_uri =~= Seq::empty());
        assert(data@.bad_uri =~= Seq::empty());
        data
    }

    /// The number of pseudo-random draws made so far.
    pub fn salt(&self) -> (count: u64)
        ensures
            count == self@.salt,
    {
        self.salt
    }
}

impl Default for MultiAssetData {
    fn default() -> (data: MultiAssetData)
        ensures
            data.wf(),
            data@ == State::empty(),
    {
        MultiAssetData::new()
    }
}

} // verus!
