//! Listing an asset: the listing account records the sale terms and takes the
//! asset into escrow.
use vstd::prelude::*;
use crate::address::Address;
use crate::core_transfer::{core_transfer, core_transfer_instruction, opt_view};
use crate::effects::{Effect, EffectView, concat, create_account, effects_view, invoke, one, outcome, wallet_signs};
use crate::error::MarketError;
use crate::pda::{
    MPL_CORE_PROGRAM_ID, PROGRAM_ID, SYSTEM_PROGRAM_ID, check_seeds, find_listing_address,
    listing_seeds, listing_seeds_of, program_address, push_bump, seeds_check, with_bump,
};
use crate::state::{LISTING_SPACE, Listing};

verus! {

/// The accounts of `list`: the maker puts `asset` up for sale; `listing`, the
/// asset's listing address, is created (`listing_data` is what it holds).
pub struct ListAcoounts {
    pub maker: Address,
    pub maker_is_signer: bool,
    pub asset: Address,
    pub collection: Option<Address>,
    pub listing: Address,
    pub listing_data: Option<Listing>,
    pub mpl_core_program: Address,
    pub system_program: Address,
}

/// The bump of the listing address.
#[derive(Clone, Copy, Debug, PartialEq, Eq, Structural)]
pub struct ListAcoountsBumps {
    pub listing: u8,
}

impl ListAcoounts {
    /// The account checks of `list`, in the order the runtime makes them: the
    /// maker's signature, the system program, then the listing (a fresh
    /// account at the asset's listing address), then the Core program's address.
    pub open spec fn spec_validate(&self) -> Result<ListAcoountsBumps, MarketError> {
        if !self.maker_is_signer {
            Err(MarketError::AccountNotSigner)
        } else if self.system_program@ != SYSTEM_PROGRAM_ID@ {
            Err(MarketError::InvalidProgramId)
        } else if self.listing_data is Some {
            Err(MarketError::AccountInUse)
        } else {
            match seeds_check(self.listing@, program_address(listing_seeds(self.asset@), PROGRAM_ID@)) {
                Err(e) => Err(e),
                Ok(bump) => if self.mpl_core_program@ != MPL_CORE_PROGRAM_ID@ {
                    Err(MarketError::ConstraintAddress)
                } else {
                    Ok(ListAcoountsBumps { listing: bump })
                },
            }
        }
    }

    /// Checks the accounts of `list`.
    pub fn validate(&self) -> (r: Result<ListAcoountsBumps, MarketError>)
        ensures
            r == self.spec_validate(),
    {
        if !self.maker_is_signer {
            return Err(MarketError::AccountNotSigner);
        }
        if !self.system_program.same(&Address::new(SYSTEM_PROGRAM_ID)) {
            return Err(MarketError::InvalidProgramId);
        }
        if self.listing_data.is_some() {
            return Err(MarketError::AccountInUse);
        }
        let bump = match check_seeds(&self.listing, find_listing_address(&self.asset)) {
            Ok(bump) => bump,
            Err(e) => return Err(e),
        };
        if !self.mpl_core_program.same(&Address::new(MPL_CORE_PROGRAM_ID)) {
            return Err(MarketError::ConstraintAddress);
        }
        Ok(ListAcoountsBumps { listing: bump })
    }

    /// The listing that `create_list` records.
    pub open spec fn new_listing(&self, price: u64, bumps: ListAcoountsBumps) -> Listing {
        Listing { maker: self.maker, asset: self.asset, price, bump: bumps.listing }
    }

    /// The creation of the listing account, before the handler runs: the maker
    /// pays for it, and the program signs for it and owns it.
    pub open spec fn creation_effects(&self, bumps: ListAcoountsBumps) -> Seq<EffectView> {
        seq![
            EffectView::CreateAccount {
                payer: self.maker@,
                account: self.listing@,
                space: LISTING_SPACE,
                owner: PROGRAM_ID@,
                signer_seeds: with_bump(listing_seeds(self.asset@), bumps.listing),
            },
        ]
    }

    /// The effects of `create_list`: the maker hands the asset to the listing.
    pub open spec fn list_effects(&self) -> Seq<EffectView> {
        seq![
            EffectView::Invoke {
                instruction: core_transfer(
                    self.asset@,
                    opt_view(self.collection),
                    self.maker@,
                    Some(self.maker@),
                    self.listing@,
                    Some(self.system_program@),
                ),
                signer_seeds: seq![],
            },
        ]
    }

    /// All the effects of `list`: the listing account's creation, then the
    /// hand-over of the asset.
    pub open spec fn listing_effects(&self, bumps: ListAcoountsBumps) -> Seq<EffectView> {
        self.creation_effects(bumps) + self.list_effects()
    }

    /// What `list` gives back: refused by the account checks, or the listing
    /// account's creation and the hand-over of the asset.
    pub open spec fn spec_list(&self) -> Result<Seq<EffectView>, MarketError> {
        match self.spec_validate() {
            Err(e) => Err(e),
            Ok(bumps) => Ok(self.listing_effects(bumps)),
        }
    }

    /// Creates the listing account.
    pub fn create_listing_account(&self, bumps: ListAcoountsBumps) -> (effects: Vec<Effect>)
        ensures
            effects_view(effects@) == self.creation_effects(bumps),
    {
        one(create_account(
            self.maker,
            self.listing,
            LISTING_SPACE,
            Address::new(PROGRAM_ID),
            push_bump(listing_seeds_of(&self.asset), bumps.listing),
        ))
    }

    /// Records the listing of the maker's asset at `price`, and moves the
    /// asset into the listing's escrow.
    pub fn create_list(&mut self, price: u64, bumps: ListAcoountsBumps) -> (effects: Vec<Effect>)
        ensures
            *final(self) == (ListAcoounts {
                listing_data: Some(old(self).new_listing(price, bumps)),
                ..*old(self)
            }),
            effects_view(effects@) == old(self).list_effects(),
    {
        self.listing_data = Some(Listing { maker: self.maker, asset: self.asset, price, bump: bumps.listing });
        let instruction = core_transfer_instruction(
            &self.asset,
            self.collection,
            &self.maker,
            Some(self.maker),
            &self.listing,
            Some(self.system_program),
        );
        one(invoke(instruction, wallet_signs()))
    }
}

/// Lists the maker's asset at `price`: checks the accounts, creates the
/// listing account, records the listing and moves the asset into its escrow.
pub fn list(accounts: &mut ListAcoounts, price: u64) -> (r: Result<Vec<Effect>, MarketError>)
    ensures
        outcome(r) == old(accounts).spec_list(),
        match old(accounts).spec_validate() {
            Err(e) => r == Err::<Vec<Effect>, MarketError>(e) && *final(accounts) == *old(accounts),
            Ok(bumps) => {
                &&& *final(accounts) == (ListAcoounts {
                    listing_data: Some(old(accounts).new_listing(price, bumps)),
                    ..*old(accounts)
                })
                &&& r matches Ok(effects) && effects_view(effects@) == old(accounts).listing_effects(bumps)
            },
        },
{
    let bumps = match accounts.validate() {
        Err(e) => return Err(e),
        Ok(bumps) => bumps,
    };
    let creation = accounts.create_listing_account(bumps);
    let transfer = accounts.create_list(price, bumps);
    Ok(concat(creation, transfer))
}

} // verus!
