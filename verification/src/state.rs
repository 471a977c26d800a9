//! The data that the program keeps in its accounts.
use vstd::prelude::*;
use crate::address::Address;
use crate::fee::MAX_FEE_BPS;

verus! {

/// The reward tokens that each completed trade mints to the buyer.
pub const REWARD_PER_TRADE: u64 = 100;

/// The decimals of the reward token.
pub const REWARD_DECIMALS: u8 = 6;

/// The bytes that tag each account of this program with its kind, before its fields.
pub const DISCRIMINATOR_LEN: u64 = 8;

/// The longest marketplace name, in bytes: the longest seed.
pub const MAX_NAME_LEN: u64 = 32;

/// The size of a marketplace account: tag, admin, fee, name (length and
/// bytes) and three bumps.
pub const MARKETPLACE_SPACE: u64 = DISCRIMINATOR_LEN + 32 + 2 + 4 + MAX_NAME_LEN + 3;

/// The size of a listing account: tag, maker, asset, price and bump.
pub const LISTING_SPACE: u64 = DISCRIMINATOR_LEN + 32 + 32 + 8 + 1;

/// The size of an offer account: tag, offer maker, listing, price and two bumps.
pub const OFFER_SPACE: u64 = DISCRIMINATOR_LEN + 32 + 32 + 8 + 1 + 1;

/// The size of an SPL token mint.
pub const MINT_SPACE: u64 = 82;

/// The size of an SPL token account.
pub const TOKEN_ACCOUNT_SPACE: u64 = 165;

/// A marketplace: who administers it, the fee it takes from each sale, and
/// the bumps of its derived accounts.
#[derive(Debug)]
pub struct MarketPlace {
    pub admin: Address,
    /// The fee, in basis points of the price, that the treasury keeps of each sale.
    pub fee: u16,
    pub name: String,
    pub bump: u8,
    pub treasury_bump: u8,
    pub rewards_bump: u8,
}

impl MarketPlace {
    /// A marketplace as `initliaze` creates it: its fee is at most `MAX_FEE_BPS`.
    pub open spec fn wf(&self) -> bool {
        self.fee <= MAX_FEE_BPS
    }
}

/// An asset put up for sale: the listing account holds the asset in escrow.
#[derive(Clone, Copy, Debug)]
pub struct Listing {
    pub maker: Address,
    pub asset: Address,
    /// The price, in lamports.
    pub price: u64,
    pub bump: u8,
}

/// A bid on a listing: the offer's vault holds the bid price in escrow.
#[derive(Clone, Copy, Debug)]
pub struct Offer {
    pub offer_maker: Address,
    pub listing: Address,
    /// The bid, in lamports.
    pub price: u64,
    pub bump: u8,
    pub vault_bump: u8,
}

} // verus!
