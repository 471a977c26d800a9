//! The rules of an NFT marketplace program: listings held in escrow, sales and
//! offers that split the price between seller and marketplace treasury, reward
//! tokens for buyers, and fee withdrawal by the marketplace admin.
//!
//! Each instruction checks its accounts, updates the accounts it creates, and
//! returns the effects (payments, invocations, mints, closings) that the
//! runtime carries out.
pub mod address;
pub mod core_transfer;
pub mod effects;
pub mod error;
pub mod fee;
pub mod guarantees;
pub mod instructions;
pub mod laws;
pub mod pda;
pub mod state;

pub use instructions::buy::{buy, BuyAccounts, BuyAccountsBumps};
pub use instructions::delist::{delist, DelistAccounts, DelistAccountsBumps};
pub use instructions::initialize::{initliaze, InitializeAccount, InitializeAccountBumps};
pub use instructions::list::{list, ListAcoounts, ListAcoountsBumps};
pub use instructions::offer::{
    accept_offer, maker_offer, AcceptOfferAccounts, AcceptOfferAccountsBumps, MakeOfferAccounts,
    MakeOfferAccountsBumps,
};
pub use instructions::withdraw::{withdraw_fee, WithdrawFeeAccounts, WithdrawFeeAccountsBumps};
