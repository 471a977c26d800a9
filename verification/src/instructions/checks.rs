//! The account checks that several instructions share.
use vstd::prelude::*;
use crate::address::Address;
use crate::error::MarketError;
use crate::pda::{
    ASSOCIATED_TOKEN_PROGRAM_ID, PROGRAM_ID, check_seeds, check_stored_bump, stored_bump_check, find_marketplace_address,
    find_reward_mint_address, find_token_account_address, find_treasury_address,
    marketplace_address, program_address, reward_mint_seeds, seeds_check, token_account_seeds,
    treasury_seeds,
};
use crate::state::MarketPlace;

verus! {

/// A program account must be the program `id`.
pub open spec fn program_check(key: Seq<u8>, id: Seq<u8>) -> Result<(), MarketError> {
    if key == id {
        Ok(())
    } else {
        Err(MarketError::InvalidProgramId)
    }
}

/// Checks that a program account is the program `id`.
pub fn check_program(key: &Address, id: [u8; 32]) -> (r: Result<(), MarketError>)
    ensures
        r == program_check(key@, id@),
{
    if key.same(&Address::new(id)) {
        Ok(())
    } else {
        Err(MarketError::InvalidProgramId)
    }
}

/// An account field that must name the account passed beside it.
pub open spec fn has_one_check(stored: Seq<u8>, given: Seq<u8>) -> Result<(), MarketError> {
    if stored == given {
        Ok(())
    } else {
        Err(MarketError::ConstraintHasOne)
    }
}

/// Checks that a stored account field names the account passed beside it.
pub fn check_has_one(stored: &Address, given: &Address) -> (r: Result<(), MarketError>)
    ensures
        r == has_one_check(stored@, given@),
{
    if stored.same(given) {
        Ok(())
    } else {
        Err(MarketError::ConstraintHasOne)
    }
}

/// The marketplace account must be at the address derived from its name,
/// with the bump that it keeps.
pub open spec fn marketplace_check(key: Seq<u8>, data: MarketPlace) -> Result<u8, MarketError> {
    stored_bump_check(key, marketplace_address(data.name@), data.bump)
}

/// Checks the marketplace account's address, giving its bump.
pub fn check_marketplace(key: &Address, data: &MarketPlace) -> (r: Result<u8, MarketError>)
    ensures
        r == marketplace_check(key@, *data),
{
    check_stored_bump(key, find_marketplace_address(&data.name), data.bump)
}

/// The treasury must be at the address derived from its marketplace.
pub open spec fn treasury_check(key: Seq<u8>, marketplace: Seq<u8>) -> Result<u8, MarketError> {
    seeds_check(key, program_address(treasury_seeds(marketplace), PROGRAM_ID@))
}

/// Checks the treasury's address, giving its bump.
pub fn check_treasury(key: &Address, marketplace: &Address) -> (r: Result<u8, MarketError>)
    ensures
        r == treasury_check(key@, marketplace@),
{
    check_seeds(key, find_treasury_address(marketplace))
}

/// The reward mint must be at the address derived from its marketplace.
pub open spec fn reward_mint_check(key: Seq<u8>, marketplace: Seq<u8>) -> Result<u8, MarketError> {
    seeds_check(key, program_address(reward_mint_seeds(marketplace), PROGRAM_ID@))
}

/// Checks the reward mint's address, giving its bump.
pub fn check_reward_mint(key: &Address, marketplace: &Address) -> (r: Result<u8, MarketError>)
    ensures
        r == reward_mint_check(key@, marketplace@),
{
    check_seeds(key, find_reward_mint_address(marketplace))
}

/// A token account must be its owner's associated token account of the mint.
pub open spec fn token_account_check(key: Seq<u8>, owner: Seq<u8>, mint: Seq<u8>) -> Result<(), MarketError> {
    match program_address(token_account_seeds(owner, mint), ASSOCIATED_TOKEN_PROGRAM_ID@) {
        Some((address, _)) => if address == key {
            Ok(())
        } else {
            Err(MarketError::ConstraintAssociated)
        },
        None => Err(MarketError::ConstraintAssociated),
    }
}

/// Checks that a token account is the owner's associated token account of the mint.
pub fn check_token_account(key: &Address, owner: &Address, mint: &Address) -> (r: Result<(), MarketError>)
    ensures
        r == token_account_check(key@, owner@, mint@),
{
    match find_token_account_address(owner, mint) {
        Some((address, _)) => if address.same(key) {
            Ok(())
        } else {
            Err(MarketError::ConstraintAssociated)
        },
        None => Err(MarketError::ConstraintAssociated),
    }
}

} // verus!
