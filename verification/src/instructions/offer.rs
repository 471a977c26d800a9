//! Offers: a buyer bids on a listing by putting the bid into a vault; the
//! maker accepts, and the vault pays the maker and the treasury while the
//! buyer gets the asset and reward tokens.
use vstd::prelude::*;
use crate::address::Address;
use crate::core_transfer::{core_transfer, core_transfer_instruction, opt_view};
use crate::effects::{
    Effect, EffectView, close, create_account, create_token_account, effects_view, outcome, invoke, mint_reward, one, pay, concat, two,
    wallet_signs,
};
use crate::error::MarketError;
use crate::fee::{marketplace_fee, sale_fee};
use crate::instructions::checks::{
    check_has_one, check_marketplace, check_program, check_reward_mint, check_token_account,
    check_treasury, has_one_check, marketplace_check, program_check, reward_mint_check,
    token_account_check, treasury_check,
};
use crate::pda::{
    ASSOCIATED_TOKEN_PROGRAM_ID, MPL_CORE_PROGRAM_ID, PROGRAM_ID, SYSTEM_PROGRAM_ID,
    TOKEN_PROGRAM_ID, check_seeds, check_stored_bump, stored_bump_check, find_listing_address, find_offer_address, find_vault_address,
    listing_seeds, listing_seeds_of, marketplace_seeds, marketplace_seeds_of, offer_seeds, offer_seeds_of,
    program_address, push_bump, seeds_check, vault_seeds, vault_seeds_of, with_bump,
};
use crate::state::{Listing, MarketPlace, OFFER_SPACE, Offer, REWARD_PER_TRADE};

verus! {

/// The accounts of `maker_offer`: `buyer` bids on `listing`; the offer
/// account is created at the address of the listing and the buyer, and its
/// vault, at the address of the offer, takes the bid.
pub struct MakeOfferAccounts {
    pub buyer: Address,
    pub buyer_is_signer: bool,
    pub offer: Address,
    pub offer_data: Option<Offer>,
    pub vault: Address,
    pub listing: Address,
    pub listing_data: Option<Listing>,
    pub system_program: Address,
}

/// The bumps of the derived accounts of `maker_offer`.
#[derive(Clone, Copy, Debug, PartialEq, Eq, Structural)]
pub struct MakeOfferAccountsBumps {
    pub offer: u8,
    pub vault: u8,
    pub listing: u8,
}

impl MakeOfferAccounts {
    /// The account checks of `maker_offer`, in order: the buyer's signature,
    /// the listing's existence, the system program; then
    /// the offer (a fresh account at the address of the listing and the
    /// buyer), the vault and the listing (at its asset's listing address).
    pub open spec fn spec_validate(&self) -> Result<MakeOfferAccountsBumps, MarketError> {
        let o = seeds_check(self.offer@, program_address(offer_seeds(self.listing@, self.buyer@), PROGRAM_ID@));
        let v = seeds_check(self.vault@, program_address(vault_seeds(self.offer@), PROGRAM_ID@));
        let l = seeds_check(self.listing@, program_address(listing_seeds(self.listing_data->Some_0.asset@), PROGRAM_ID@));
        if !self.buyer_is_signer {
            Err(MarketError::AccountNotSigner)
        } else if self.listing_data is None {
            Err(MarketError::AccountNotInitialized)
        } else if program_check(self.system_program@, SYSTEM_PROGRAM_ID@) is Err {
            Err(MarketError::InvalidProgramId)
        } else if self.offer_data is Some {
            Err(MarketError::AccountInUse)
        } else if o is Err || v is Err || l is Err {
            Err(MarketError::ConstraintSeeds)
        } else {
            Ok(MakeOfferAccountsBumps { offer: o->Ok_0, vault: v->Ok_0, listing: l->Ok_0 })
        }
    }

    /// Checks the accounts of `maker_offer`.
    pub fn validate(&self) -> (r: Result<MakeOfferAccountsBumps, MarketError>)
        ensures
            r == self.spec_validate(),
    {
        if !self.buyer_is_signer {
            return Err(MarketError::AccountNotSigner);
        }
        let listing_data = match &self.listing_data {
            Some(l) => *l,
            None => return Err(MarketError::AccountNotInitialized),
        };
        if check_program(&self.system_program, SYSTEM_PROGRAM_ID).is_err() {
            return Err(MarketError::InvalidProgramId);
        }
        if self.offer_data.is_some() {
            return Err(MarketError::AccountInUse);
        }
        let o = check_seeds(&self.offer, find_offer_address(&self.listing, &self.buyer));
        let v = check_seeds(&self.vault, find_vault_address(&self.offer));
        let l = check_seeds(&self.listing, find_listing_address(&listing_data.asset));
        match (o, v, l) {
            (Ok(offer), Ok(vault), Ok(listing)) => Ok(MakeOfferAccountsBumps { offer, vault, listing }),
            _ => Err(MarketError::ConstraintSeeds),
        }
    }

    /// The offer that `make_offer` records.
    pub open spec fn new_offer(&self, price: u64, bumps: MakeOfferAccountsBumps) -> Offer {
        Offer { offer_maker: self.buyer, listing: self.listing, price, bump: bumps.offer, vault_bump: bumps.vault }
    }

    /// The creation of the offer account, before the handler runs: the buyer
    /// pays for it, and the program signs for it and owns it.
    pub open spec fn creation_effects(&self, bumps: MakeOfferAccountsBumps) -> Seq<EffectView> {
        seq![
            EffectView::CreateAccount {
                payer: self.buyer@,
                account: self.offer@,
                space: OFFER_SPACE,
                owner: PROGRAM_ID@,
                signer_seeds: with_bump(offer_seeds(self.listing@, self.buyer@), bumps.offer),
            },
        ]
    }

    /// The escrow of a bid: the buyer pays `price` into the vault.
    pub open spec fn escrow_effects(&self, price: u64) -> Seq<EffectView> {
        seq![EffectView::Pay { from: self.buyer@, to: self.vault@, lamports: price, signer_seeds: seq![] }]
    }

    /// All the effects of `maker_offer`: the offer account's creation, then
    /// the escrow of the bid.
    pub open spec fn offer_effects(&self, price: u64, bumps: MakeOfferAccountsBumps) -> Seq<EffectView> {
        self.creation_effects(bumps) + self.escrow_effects(price)
    }

    /// What `maker_offer` gives back for a bid of `price`: refused by the
    /// account checks, or the offer account's creation and the escrow of the bid.
    pub open spec fn spec_maker_offer(&self, price: u64) -> Result<Seq<EffectView>, MarketError> {
        match self.spec_validate() {
            Err(e) => Err(e),
            Ok(bumps) => Ok(self.offer_effects(price, bumps)),
        }
    }

    /// Creates the offer account.
    pub fn create_offer_account(&self, bumps: MakeOfferAccountsBumps) -> (effects: Vec<Effect>)
        ensures
            effects_view(effects@) == self.creation_effects(bumps),
    {
        one(create_account(
            self.buyer,
            self.offer,
            OFFER_SPACE,
            Address::new(PROGRAM_ID),
            push_bump(offer_seeds_of(&self.listing, &self.buyer), bumps.offer),
        ))
    }

    /// Records the buyer's bid of `price` lamports and puts the bid into the vault.
    pub fn make_offer(&mut self, price: u64, bumps: MakeOfferAccountsBumps) -> (effects: Vec<Effect>)
        ensures
            *final(self) == (MakeOfferAccounts { offer_data: Some(old(self).new_offer(price, bumps)), ..*old(self) }),
            effects_view(effects@) == old(self).escrow_effects(price),
    {
        self.offer_data = Some(Offer {
            offer_maker: self.buyer,
            listing: self.listing,
            price,
            bump: bumps.offer,
            vault_bump: bumps.vault,
        });
        one(pay(self.buyer, self.vault, price, wallet_signs()))
    }
}

/// Bids `price` lamports on a listing: checks the accounts, creates the offer
/// account, records the offer and puts the bid into the vault.
pub fn maker_offer(accounts: &mut MakeOfferAccounts, price: u64) -> (r: Result<Vec<Effect>, MarketError>)
    ensures
        outcome(r) == old(accounts).spec_maker_offer(price),
        match old(accounts).spec_validate() {
            Err(e) => r == Err::<Vec<Effect>, MarketError>(e) && *final(accounts) == *old(accounts),
            Ok(bumps) => {
                &&& *final(accounts) == (MakeOfferAccounts {
                    offer_data: Some(old(accounts).new_offer(price, bumps)),
                    ..*old(accounts)
                })
                &&& r matches Ok(effects) && effects_view(effects@) == old(accounts).offer_effects(price, bumps)
            },
        },
{
    let bumps = match accounts.validate() {
        Err(e) => return Err(e),
        Ok(bumps) => bumps,
    };
    let creation = accounts.create_offer_account(bumps);
    let escrow = accounts.make_offer(price, bumps);
    Ok(concat(creation, escrow))
}

/// The accounts of `accept_offer`: `maker` accepts the bid that `offer_maker`
/// made on the listing of `asset`.
pub struct AcceptOfferAccounts {
    pub offer_maker: Address,
    pub offer_maker_is_signer: bool,
    pub maker: Address,
    pub maker_is_signer: bool,
    pub offer: Address,
    pub offer_data: Option<Offer>,
    pub vault: Address,
    pub asset: Address,
    pub collection: Option<Address>,
    pub marketplace: Address,
    pub marketplace_data: MarketPlace,
    pub listing: Address,
    pub listing_data: Option<Listing>,
    pub treasury: Address,
    pub reward_mint: Address,
    /// The offer maker's token account for the reward mint.
    pub offer_maker_ata: Address,
    pub mpl_core_program: Address,
    pub associated_token_program: Address,
    pub token_program: Address,
    pub system_program: Address,
}

/// The bumps of the derived accounts of `accept_offer`.
#[derive(Clone, Copy, Debug, PartialEq, Eq, Structural)]
pub struct AcceptOfferAccountsBumps {
    pub offer: u8,
    pub vault: u8,
    pub marketplace: u8,
    pub listing: u8,
    pub treasury: u8,
    pub reward_mint: u8,
}

impl AcceptOfferAccounts {
    /// The account checks of `accept_offer`, in order: the signatures of the
    /// offer maker and the maker, the existence of the offer and the listing,
    /// the programs; then the
    /// offer (at the address of the listing and the offer maker, made by the
    /// offer maker), the vault, the marketplace and the listing (each at its
    /// address, with the bump kept for it; the listing made by `maker`), the treasury, the reward mint, the
    /// offer maker's reward token account and the Core program's address.
    pub open spec fn spec_validate(&self) -> Result<AcceptOfferAccountsBumps, MarketError> {
        let o = seeds_check(self.offer@, program_address(offer_seeds(self.listing@, self.offer_maker@), PROGRAM_ID@));
        let v = stored_bump_check(
            self.vault@,
            program_address(vault_seeds(self.offer@), PROGRAM_ID@),
            self.offer_data->Some_0.vault_bump,
        );
        let m = marketplace_check(self.marketplace@, self.marketplace_data);
        let l = stored_bump_check(
            self.listing@,
            program_address(listing_seeds(self.asset@), PROGRAM_ID@),
            self.listing_data->Some_0.bump,
        );
        let t = treasury_check(self.treasury@, self.marketplace@);
        let r = reward_mint_check(self.reward_mint@, self.marketplace@);
        if !self.offer_maker_is_signer || !self.maker_is_signer {
            Err(MarketError::AccountNotSigner)
        } else if self.offer_data is None || self.listing_data is None {
            Err(MarketError::AccountNotInitialized)
        } else if program_check(self.associated_token_program@, ASSOCIATED_TOKEN_PROGRAM_ID@) is Err
            || program_check(self.token_program@, TOKEN_PROGRAM_ID@) is Err
            || program_check(self.system_program@, SYSTEM_PROGRAM_ID@) is Err {
            Err(MarketError::InvalidProgramId)
        } else if o is Err {
            Err(MarketError::ConstraintSeeds)
        } else if has_one_check(self.offer_data->Some_0.offer_maker@, self.offer_maker@) is Err {
            Err(MarketError::ConstraintHasOne)
        } else if v is Err || m is Err || l is Err {
            Err(MarketError::ConstraintSeeds)
        } else if has_one_check(self.listing_data->Some_0.maker@, self.maker@) is Err {
            Err(MarketError::ConstraintHasOne)
        } else if t is Err || r is Err {
            Err(MarketError::ConstraintSeeds)
        } else if token_account_check(self.offer_maker_ata@, self.offer_maker@, self.reward_mint@) is Err {
            Err(MarketError::ConstraintAssociated)
        } else if self.mpl_core_program@ != MPL_CORE_PROGRAM_ID@ {
            Err(MarketError::ConstraintAddress)
        } else {
            Ok(
                AcceptOfferAccountsBumps {
                    offer: o->Ok_0,
                    vault: v->Ok_0,
                    marketplace: m->Ok_0,
                    listing: l->Ok_0,
                    treasury: t->Ok_0,
                    reward_mint: r->Ok_0,
                },
            )
        }
    }

    /// Checks the accounts of `accept_offer`.
    pub fn validate(&self) -> (r: Result<AcceptOfferAccountsBumps, MarketError>)
        ensures
            r == self.spec_validate(),
    {
        if !self.offer_maker_is_signer || !self.maker_is_signer {
            return Err(MarketError::AccountNotSigner);
        }
        let (offer_data, listing_data) = match (&self.offer_data, &self.listing_data) {
            (Some(o), Some(l)) => (*o, *l),
            _ => return Err(MarketError::AccountNotInitialized),
        };
        if check_program(&self.associated_token_program, ASSOCIATED_TOKEN_PROGRAM_ID).is_err()
            || check_program(&self.token_program, TOKEN_PROGRAM_ID).is_err()
            || check_program(&self.system_program, SYSTEM_PROGRAM_ID).is_err() {
            return Err(MarketError::InvalidProgramId);
        }
        let offer = match check_seeds(&self.offer, find_offer_address(&self.listing, &self.offer_maker)) {
            Ok(o) => o,
            Err(_) => return Err(MarketError::ConstraintSeeds),
        };
        if check_has_one(&offer_data.offer_maker, &self.offer_maker).is_err() {
            return Err(MarketError::ConstraintHasOne);
        }
        let v = check_stored_bump(&self.vault, find_vault_address(&self.offer), offer_data.vault_bump);
        let m = check_marketplace(&self.marketplace, &self.marketplace_data);
        let l = check_stored_bump(&self.listing, find_listing_address(&self.asset), listing_data.bump);
        let (vault, marketplace, listing) = match (v, m, l) {
            (Ok(v), Ok(m), Ok(l)) => (v, m, l),
            _ => return Err(MarketError::ConstraintSeeds),
        };
        if check_has_one(&listing_data.maker, &self.maker).is_err() {
            return Err(MarketError::ConstraintHasOne);
        }
        let t = check_treasury(&self.treasury, &self.marketplace);
        let r = check_reward_mint(&self.reward_mint, &self.marketplace);
        let (treasury, reward_mint) = match (t, r) {
            (Ok(t), Ok(r)) => (t, r),
            _ => return Err(MarketError::ConstraintSeeds),
        };
        if check_token_account(&self.offer_maker_ata, &self.offer_maker, &self.reward_mint).is_err() {
            return Err(MarketError::ConstraintAssociated);
        }
        if !self.mpl_core_program.same(&Address::new(MPL_CORE_PROGRAM_ID)) {
            return Err(MarketError::ConstraintAddress);
        }
        Ok(AcceptOfferAccountsBumps { offer, vault, marketplace, listing, treasury, reward_mint })
    }

    /// The offer being accepted.
    pub open spec fn bid(&self) -> Offer {
        self.offer_data->Some_0
    }

    /// The listing being sold.
    pub open spec fn listed(&self) -> Listing {
        self.listing_data->Some_0
    }

    /// The fee on this sale, at the bid price.
    pub open spec fn fee(&self) -> int {
        sale_fee(self.bid().price, self.marketplace_data.fee)
    }

    /// The vault's seeds, with which the program signs for it.
    pub open spec fn vault_signer(&self) -> Seq<Seq<u8>> {
        with_bump(vault_seeds(self.offer@), self.bid().vault_bump)
    }

    /// The payments of the sale: the vault pays the maker the bid less the
    /// fee, and pays the fee into the treasury.
    pub open spec fn payment_effects(&self) -> Seq<EffectView> {
        seq![
            EffectView::Pay {
                from: self.vault@,
                to: self.maker@,
                lamports: (self.bid().price - self.fee()) as u64,
                signer_seeds: self.vault_signer(),
            },
            EffectView::Pay {
                from: self.vault@,
                to: self.treasury@,
                lamports: self.fee() as u64,
                signer_seeds: self.vault_signer(),
            },
        ]
    }

    /// The hand-over of the asset: the listing, signing with its seeds, moves
    /// the asset to the offer maker.
    pub open spec fn asset_effects(&self) -> Seq<EffectView> {
        seq![
            EffectView::Invoke {
                instruction: core_transfer(
                    self.asset@,
                    opt_view(self.collection),
                    self.offer_maker@,
                    Some(self.listing@),
                    self.offer_maker@,
                    Some(self.system_program@),
                ),
                signer_seeds: with_bump(listing_seeds(self.asset@), self.listed().bump),
            },
        ]
    }

    /// The offer maker's reward token account, made before the handler runs
    /// where it does not exist yet: the offer maker pays for it.
    pub open spec fn token_account_effects(&self) -> Seq<EffectView> {
        seq![
            EffectView::CreateTokenAccount {
                payer: self.offer_maker@,
                account: self.offer_maker_ata@,
                owner: self.offer_maker@,
                mint: self.reward_mint@,
            },
        ]
    }

    /// The reward: the marketplace, the mint's authority, signing with its
    /// seeds, mints `REWARD_PER_TRADE` reward tokens into the offer maker's
    /// token account.
    pub open spec fn reward_effects(&self) -> Seq<EffectView> {
        seq![
            EffectView::MintReward {
                mint: self.reward_mint@,
                to: self.offer_maker_ata@,
                authority: self.marketplace@,
                amount: REWARD_PER_TRADE,
                signer_seeds: with_bump(
                    marketplace_seeds(self.marketplace_data.name@),
                    self.marketplace_data.bump,
                ),
            },
        ]
    }

    /// All the effects of an accepted offer: the offer maker's reward token
    /// account first; the offer is closed in favour of the offer maker and the
    /// listing in favour of the maker.
    pub open spec fn accept_effects(&self) -> Seq<EffectView> {
        self.token_account_effects() + self.payment_effects() + self.asset_effects() + self.reward_effects() + seq![
            EffectView::Close { account: self.offer@, rent_to: self.offer_maker@ },
            EffectView::Close { account: self.listing@, rent_to: self.maker@ },
        ]
    }

    /// What `accept_offer` gives back: refused by the account checks, or all
    /// the effects of the accepted offer.
    pub open spec fn spec_accept_offer(&self) -> Result<Seq<EffectView>, MarketError> {
        match self.spec_validate() {
            Err(e) => Err(e),
            Ok(_) => Ok(self.accept_effects()),
        }
    }

    /// Pays the maker and the treasury out of the vault.
    pub fn send_sol(&self) -> (effects: Vec<Effect>)
        requires
            self.marketplace_data.wf(),
            self.offer_data is Some,
        ensures
            effects_view(effects@) == self.payment_effects(),
    {
        let bid = self.offer_data.unwrap();
        let fee: u64 = marketplace_fee(bid.price, self.marketplace_data.fee);
        let to_maker = pay(
            self.vault,
            self.maker,
            bid.price - fee,
            push_bump(vault_seeds_of(&self.offer), bid.vault_bump),
        );
        let to_treasury = pay(self.vault, self.treasury, fee, push_bump(vault_seeds_of(&self.offer), bid.vault_bump));
        two(to_maker, to_treasury)
    }

    /// Hands the asset over to the offer maker.
    pub fn receive_nft(&self) -> (effects: Vec<Effect>)
        requires
            self.listing_data is Some,
        ensures
            effects_view(effects@) == self.asset_effects(),
    {
        let instruction = core_transfer_instruction(
            &self.asset,
            self.collection,
            &self.offer_maker,
            Some(self.listing),
            &self.offer_maker,
            Some(self.system_program),
        );
        one(invoke(instruction, push_bump(listing_seeds_of(&self.asset), self.listing_data.unwrap().bump)))
    }

    /// Creates the offer maker's reward token account where it is missing.
    pub fn create_reward_account(&self) -> (effects: Vec<Effect>)
        ensures
            effects_view(effects@) == self.token_account_effects(),
    {
        one(create_token_account(self.offer_maker, self.offer_maker_ata, self.offer_maker, self.reward_mint))
    }

    /// Mints the offer maker's reward.
    pub fn receive_rewards(&self) -> (effects: Vec<Effect>)
        ensures
            effects_view(effects@) == self.reward_effects(),
    {
        let seeds = push_bump(marketplace_seeds_of(&self.marketplace_data.name), self.marketplace_data.bump);
        one(mint_reward(self.reward_mint, self.offer_maker_ata, self.marketplace, REWARD_PER_TRADE, seeds))
    }
}

/// Accepts an offer: checks the accounts and makes the offer maker's reward
/// token account where missing, then pays out of the vault, hands the asset
/// over, mints the reward and closes the offer and the listing.
pub fn accept_offer(accounts: &AcceptOfferAccounts) -> (r: Result<Vec<Effect>, MarketError>)
    requires
        accounts.marketplace_data.wf(),
    ensures
        outcome(r) == accounts.spec_accept_offer(),
{
    match accounts.validate() {
        Err(e) => return Err(e),
        Ok(_) => {},
    }
    let token_account = accounts.create_reward_account();
    let payments = accounts.send_sol();
    let asset = accounts.receive_nft();
    let reward = accounts.receive_rewards();
    let closing = two(close(accounts.offer, accounts.offer_maker), close(accounts.listing, accounts.maker));
    Ok(concat(concat(concat(concat(token_account, payments), asset), reward), closing))
}

} // verus!
