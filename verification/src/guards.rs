//! The guards of the gated actions, each on its own: that the token exists,
//! that the caller owns it, that the caller holds the contributor role.

use vstd::prelude::*;
use crate::errors::RmrkError;
use crate::types::{AccountId, Key};

verus! {

/// The owner of a token, where the token exists. `token_owner` is what the
/// registry of tokens reports for it: `None` where it does not exist.
pub open spec fn existing_owner(token_owner: Option<AccountId>) -> Result<AccountId, RmrkError> {
    match token_owner {
        Some(owner) => Ok(owner),
        None => Err(RmrkError::TokenNotExists),
    }
}

/// Whether the token exists.
pub open spec fn existence_check(token_owner: Option<AccountId>) -> Result<(), RmrkError> {
    match token_owner {
        Some(_) => Ok(()),
        None => Err(RmrkError::TokenNotExists),
    }
}

/// Whether the caller is the owner.
pub open spec fn owner_check(caller: AccountId, token_owner: AccountId) -> Result<(), RmrkError> {
    if caller == token_owner {
        Ok(())
    } else {
        Err(RmrkError::NotTokenOwner)
    }
}

/// Both guards in turn: the token exists, and the caller owns it.
pub open spec fn owner_action_check(
    caller: AccountId,
    token_owner: Option<AccountId>,
) -> Result<(), RmrkError> {
    match token_owner {
        None => Err(RmrkError::TokenNotExists),
        Some(owner) => owner_check(caller, owner),
    }
}

/// The owner of a token, or the refusal for a token that does not exist.
pub fn ensure_exists_and_get_owner(
    token_owner: Option<AccountId>,
) -> (result: Result<AccountId, RmrkError>)
    ensures
        result == existing_owner(token_owner),
{
    match token_owner {
        Some(owner) => Ok(owner),
        None => Err(RmrkError::TokenNotExists),
    }
}

/// Refuses a caller who is not the owner.
pub fn ensure_token_owner(
    caller: AccountId,
    token_owner: AccountId,
) -> (result: Result<(), RmrkError>)
    ensures
        result == owner_check(caller, token_owner),
{
    if caller.same(&token_owner) {
        Ok(())
    } else {
        Err(RmrkError::NotTokenOwner)
    }
}

/// Whether a caller who holds the contributor role or not may go on.
pub open spec fn role_check(has_role: bool) -> Result<(), RmrkError> {
    if has_role {
        Ok(())
    } else {
        Err(RmrkError::MissingRole)
    }
}

/// Refuses a caller who does not hold the contributor role.
pub fn ensure_role(has_role: bool) -> (result: Result<(), RmrkError>)
    ensures
        result == role_check(has_role),
{
    if has_role {
        Ok(())
    } else {
        Err(RmrkError::MissingRole)
    }
}

} // verus!
