//! Buying a listed asset at its price: the seller is paid less the
//! marketplace fee, the treasury keeps the fee, the buyer gets the asset and
//! reward tokens, and the listing is closed.
use vstd::prelude::*;
use crate::address::Address;
use crate::core_transfer::{core_transfer, core_transfer_instruction, opt_view};
use crate::effects::{
    Effect, EffectView, close, create_token_account, effects_view, outcome, invoke, mint_reward, one, pay, concat, two,
    wallet_signs,
};
use crate::error::MarketError;
use crate::fee::{marketplace_fee, sale_fee};
use crate::instructions::checks::{
    check_has_one, check_marketplace, check_program, check_reward_mint, check_token_account,
    check_treasury, has_one_check, marketplace_check, program_check, reward_mint_check,
    token_account_check, treasury_check,
};
use crate::pda::{
    ASSOCIATED_TOKEN_PROGRAM_ID, MPL_CORE_PROGRAM_ID, PROGRAM_ID, SYSTEM_PROGRAM_ID,
    TOKEN_PROGRAM_ID, check_seeds, check_stored_bump, stored_bump_check, find_listing_address, listing_seeds, listing_seeds_of,
    marketplace_seeds, marketplace_seeds_of, program_address, push_bump, seeds_check, with_bump,
};
use crate::state::{Listing, MarketPlace, REWARD_PER_TRADE};

verus! {

/// The accounts of `buy`: `taker` buys the asset that `maker` listed.
pub struct BuyAccounts {
    pub taker: Address,
    pub taker_is_signer: bool,
    pub maker: Address,
    pub asset: Address,
    pub collection: Option<Address>,
    pub marketplace: Address,
    pub marketplace_data: MarketPlace,
    pub listing: Address,
    pub listing_data: Option<Listing>,
    pub treasury: Address,
    pub reward_mint: Address,
    /// The taker's token account for the reward mint.
    pub taker_ata: Address,
    pub mpl_core_program: Address,
    pub associated_token_program: Address,
    pub token_program: Address,
    pub system_program: Address,
}

/// The bumps of the derived accounts of `buy`.
#[derive(Clone, Copy, Debug, PartialEq, Eq, Structural)]
pub struct BuyAccountsBumps {
    pub marketplace: u8,
    pub listing: u8,
    pub treasury: u8,
    pub reward_mint: u8,
}

impl BuyAccounts {
    /// The account checks of `buy`, in order: the taker's signature, the
    /// listing's existence, the programs; then the
    /// marketplace and the listing (each at its address, with the bump it
    /// keeps; the listing made by `maker`), the treasury, the reward mint, the taker's reward token
    /// account and the Core program's address.
    pub open spec fn spec_validate(&self) -> Result<BuyAccountsBumps, MarketError> {
        let m = marketplace_check(self.marketplace@, self.marketplace_data);
        let l = stored_bump_check(
            self.listing@,
            program_address(listing_seeds(self.asset@), PROGRAM_ID@),
            self.listing_data->Some_0.bump,
        );
        let t = treasury_check(self.treasury@, self.marketplace@);
        let r = reward_mint_check(self.reward_mint@, self.marketplace@);
        if !self.taker_is_signer {
            Err(MarketError::AccountNotSigner)
        } else if self.listing_data is None {
            Err(MarketError::AccountNotInitialized)
        } else if program_check(self.associated_token_program@, ASSOCIATED_TOKEN_PROGRAM_ID@) is Err
            || program_check(self.token_program@, TOKEN_PROGRAM_ID@) is Err
            || program_check(self.system_program@, SYSTEM_PROGRAM_ID@) is Err {
            Err(MarketError::InvalidProgramId)
        } else if m is Err || l is Err {
            Err(MarketError::ConstraintSeeds)
        } else if has_one_check(self.listing_data->Some_0.maker@, self.maker@) is Err {
            Err(MarketError::ConstraintHasOne)
        } else if t is Err || r is Err {
            Err(MarketError::ConstraintSeeds)
        } else if token_account_check(self.taker_ata@, self.taker@, self.reward_mint@) is Err {
            Err(MarketError::ConstraintAssociated)
        } else if self.mpl_core_program@ != MPL_CORE_PROGRAM_ID@ {
            Err(MarketError::ConstraintAddress)
        } else {
            Ok(
                BuyAccountsBumps {
                    marketplace: m->Ok_0,
                    listing: l->Ok_0,
                    treasury: t->Ok_0,
                    reward_mint: r->Ok_0,
                },
            )
        }
    }

    /// Checks the accounts of `buy`.
    pub fn validate(&self) -> (r: Result<BuyAccountsBumps, MarketError>)
        ensures
            r == self.spec_validate(),
    {
        if !self.taker_is_signer {
            return Err(MarketError::AccountNotSigner);
        }
        let listing_data = match &self.listing_data {
            Some(l) => *l,
            None => return Err(MarketError::AccountNotInitialized),
        };
        if check_program(&self.associated_token_program, ASSOCIATED_TOKEN_PROGRAM_ID).is_err()
            || check_program(&self.token_program, TOKEN_PROGRAM_ID).is_err()
            || check_program(&self.system_program, SYSTEM_PROGRAM_ID).is_err() {
            return Err(MarketError::InvalidProgramId);
        }
        let m = check_marketplace(&self.marketplace, &self.marketplace_data);
        let l = check_stored_bump(&self.listing, find_listing_address(&self.asset), listing_data.bump);
        let (marketplace, listing) = match (m, l) {
            (Ok(m), Ok(l)) => (m, l),
            _ => return Err(MarketError::ConstraintSeeds),
        };
        if check_has_one(&listing_data.maker, &self.maker).is_err() {
            return Err(MarketError::ConstraintHasOne);
        }
        let t = check_treasury(&self.treasury, &self.marketplace);
        let r = check_reward_mint(&self.reward_mint, &self.marketplace);
        let (treasury, reward_mint) = match (t, r) {
            (Ok(t), Ok(r)) => (t, r),
            _ => return Err(MarketError::ConstraintSeeds),
        };
        if check_token_account(&self.taker_ata, &self.taker, &self.reward_mint).is_err() {
            return Err(MarketError::ConstraintAssociated);
        }
        if !self.mpl_core_program.same(&Address::new(MPL_CORE_PROGRAM_ID)) {
            return Err(MarketError::ConstraintAddress);
        }
        Ok(BuyAccountsBumps { marketplace, listing, treasury, reward_mint })
    }

    /// The listing being sold.
    pub open spec fn listed(&self) -> Listing {
        self.listing_data->Some_0
    }

    /// The fee on this sale.
    pub open spec fn fee(&self) -> int {
        sale_fee(self.listed().price, self.marketplace_data.fee)
    }

    /// The payments of a sale: the taker pays the maker the price less the
    /// fee, and pays the fee into the treasury.
    pub open spec fn payment_effects(&self) -> Seq<EffectView> {
        seq![
            EffectView::Pay {
                from: self.taker@,
                to: self.maker@,
                lamports: (self.listed().price - self.fee()) as u64,
                signer_seeds: seq![],
            },
            EffectView::Pay {
                from: self.taker@,
                to: self.treasury@,
                lamports: self.fee() as u64,
                signer_seeds: seq![],
            },
        ]
    }

    /// The hand-over of the asset: the listing, signing with its seeds, moves
    /// the asset to the taker.
    pub open spec fn asset_effects(&self) -> Seq<EffectView> {
        seq![
            EffectView::Invoke {
                instruction: core_transfer(
                    self.asset@,
                    opt_view(self.collection),
                    self.taker@,
                    Some(self.listing@),
                    self.taker@,
                    Some(self.system_program@),
                ),
                signer_seeds: with_bump(listing_seeds(self.asset@), self.listed().bump),
            },
        ]
    }

    /// The taker's reward token account, made before the handler runs where
    /// it does not exist yet: the taker pays for it.
    pub open spec fn token_account_effects(&self) -> Seq<EffectView> {
        seq![
            EffectView::CreateTokenAccount {
                payer: self.taker@,
                account: self.taker_ata@,
                owner: self.taker@,
                mint: self.reward_mint@,
            },
        ]
    }

    /// The reward: the marketplace, the mint's authority, signing with its
    /// seeds, mints `REWARD_PER_TRADE` reward tokens into the taker's token
    /// account.
    pub open spec fn reward_effects(&self) -> Seq<EffectView> {
        seq![
            EffectView::MintReward {
                mint: self.reward_mint@,
                to: self.taker_ata@,
                authority: self.marketplace@,
                amount: REWARD_PER_TRADE,
                signer_seeds: with_bump(
                    marketplace_seeds(self.marketplace_data.name@),
                    self.marketplace_data.bump,
                ),
            },
        ]
    }

    /// All the effects of a purchase: the taker's reward token account first,
    /// the listing's closing last.
    pub open spec fn buy_effects(&self) -> Seq<EffectView> {
        self.token_account_effects() + self.payment_effects() + self.asset_effects() + self.reward_effects() + seq![
            EffectView::Close { account: self.listing@, rent_to: self.maker@ },
        ]
    }

    /// What `buy` gives back: refused by the account checks, or all the
    /// effects of the purchase.
    pub open spec fn spec_buy(&self) -> Result<Seq<EffectView>, MarketError> {
        match self.spec_validate() {
            Err(e) => Err(e),
            Ok(_) => Ok(self.buy_effects()),
        }
    }

    /// Pays the seller and the treasury.
    pub fn send_sol(&self) -> (effects: Vec<Effect>)
        requires
            self.marketplace_data.wf(),
            self.listing_data is Some,
        ensures
            effects_view(effects@) == self.payment_effects(),
    {
        let price = self.listing_data.unwrap().price;
        let fee: u64 = marketplace_fee(price, self.marketplace_data.fee);
        let to_maker = pay(self.taker, self.maker, price - fee, wallet_signs());
        let to_treasury = pay(self.taker, self.treasury, fee, wallet_signs());
        two(to_maker, to_treasury)
    }

    /// Hands the asset over to the taker.
    pub fn receive_nft(&self) -> (effects: Vec<Effect>)
        requires
            self.listing_data is Some,
        ensures
            effects_view(effects@) == self.asset_effects(),
    {
        let instruction = core_transfer_instruction(
            &self.asset,
            self.collection,
            &self.taker,
            Some(self.listing),
            &self.taker,
            Some(self.system_program),
        );
        one(invoke(instruction, push_bump(listing_seeds_of(&self.asset), self.listing_data.unwrap().bump)))
    }

    /// Creates the taker's reward token account where it is missing.
    pub fn create_reward_account(&self) -> (effects: Vec<Effect>)
        ensures
            effects_view(effects@) == self.token_account_effects(),
    {
        one(create_token_account(self.taker, self.taker_ata, self.taker, self.reward_mint))
    }

    /// Mints the taker's reward.
    pub fn receive_rewards(&self) -> (effects: Vec<Effect>)
        ensures
            effects_view(effects@) == self.reward_effects(),
    {
        let seeds = push_bump(marketplace_seeds_of(&self.marketplace_data.name), self.marketplace_data.bump);
        one(mint_reward(self.reward_mint, self.taker_ata, self.marketplace, REWARD_PER_TRADE, seeds))
    }
}

/// Buys the listed asset: checks the accounts and makes the taker's reward
/// token account where missing, then pays, hands the asset over, mints the
/// reward and closes the listing in favour of the maker.
pub fn buy(accounts: &BuyAccounts) -> (r: Result<Vec<Effect>, MarketError>)
    requires
        accounts.marketplace_data.wf(),
    ensures
        outcome(r) == accounts.spec_buy(),
{
    match accounts.validate() {
        Err(e) => return Err(e),
        Ok(_) => {},
    }
    let token_account = accounts.create_reward_account();
    let payments = accounts.send_sol();
    let asset = accounts.receive_nft();
    let reward = accounts.receive_rewards();
    let closing = one(close(accounts.listing, accounts.maker));
    Ok(concat(concat(concat(concat(token_account, payments), asset), reward), closing))
}

} // verus!
