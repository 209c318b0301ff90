//! The error values of the library.

use vstd::prelude::*;

verus! {

/// Why an operation was refused. A refused operation leaves the state as it
/// was.
#[derive(Clone, Copy, Debug, PartialEq, Eq, Structural)]
pub enum RmrkError {
    /// The asset that replaces another is attached to a token that has no
    /// list of accepted assets.
    AcceptedAssetsMissing,
    /// The asset is already pending for the token.
    AddingPendingAsset,
    /// The asset is already accepted for the token.
    AlreadyAddedAsset,
    /// An asset with this id is already defined in the catalog.
    AssetIdAlreadyExists,
    /// The asset is not defined, or not in the state that the operation
    /// expects of it.
    AssetIdNotFound,
    /// The priorities do not have the length of the accepted list.
    BadPriorityLength,
    /// The account named in the call is not the caller.
    InvalidAccountId,
    /// The asset to replace is not in the list, or there is no list to take
    /// an asset from.
    InvalidAssetId,
    /// The asset to take out is not in the list.
    InvalidTokenId,
    /// The caller lacks the contributor role.
    MissingRole,
    /// The account holds no fruit.
    NotEnoughApple,
    /// The account's balance, or its stake, does not cover the amount.
    NotEnoughMoney,
    /// The caller does not own the token.
    NotTokenOwner,
    /// The cooldown since the last such action has not elapsed.
    TimeHasNotPassed,
    /// The token does not exist.
    TokenNotExists,
}

} // verus!
