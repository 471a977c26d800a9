//! Taking a listing down: the listing gives the asset back to its maker and
//! is closed.
use vstd::prelude::*;
use crate::address::Address;
use crate::core_transfer::{core_transfer, core_transfer_instruction, opt_view};
use crate::effects::{Effect, EffectView, close, effects_view, invoke, one, outcome, concat};
use crate::error::MarketError;
use crate::instructions::checks::{
    check_has_one, check_marketplace, check_program, has_one_check, marketplace_check,
    program_check,
};
use crate::pda::{
    MPL_CORE_PROGRAM_ID, PROGRAM_ID, SYSTEM_PROGRAM_ID, check_seeds, check_stored_bump, stored_bump_check, find_listing_address,
    listing_seeds, listing_seeds_of, program_address, push_bump, seeds_check, with_bump,
};
use crate::state::{Listing, MarketPlace};

verus! {

/// The accounts of `delist`: `maker` takes back the asset it listed.
pub struct DelistAccounts {
    pub maker: Address,
    pub maker_is_signer: bool,
    pub asset: Address,
    pub collection: Option<Address>,
    pub marketplace: Address,
    pub marketplace_data: MarketPlace,
    pub listing: Address,
    pub listing_data: Option<Listing>,
    pub mpl_core_program: Address,
    pub system_program: Address,
}

/// The bumps of the derived accounts of `delist`.
#[derive(Clone, Copy, Debug, PartialEq, Eq, Structural)]
pub struct DelistAccountsBumps {
    pub marketplace: u8,
    pub listing: u8,
}

impl DelistAccounts {
    /// The account checks of `delist`, in order: the maker's signature, the
    /// listing's existence, the system program; then the
    /// marketplace and the listing (each at its address, with the bump it
    /// keeps; the listing made by `maker`) and the Core program's address.
    pub open spec fn spec_validate(&self) -> Result<DelistAccountsBumps, MarketError> {
        let m = marketplace_check(self.marketplace@, self.marketplace_data);
        let l = stored_bump_check(
            self.listing@,
            program_address(listing_seeds(self.asset@), PROGRAM_ID@),
            self.listing_data->Some_0.bump,
        );
        if !self.maker_is_signer {
            Err(MarketError::AccountNotSigner)
        } else if self.listing_data is None {
            Err(MarketError::AccountNotInitialized)
        } else if program_check(self.system_program@, SYSTEM_PROGRAM_ID@) is Err {
            Err(MarketError::InvalidProgramId)
        } else if m is Err || l is Err {
            Err(MarketError::ConstraintSeeds)
        } else if has_one_check(self.listing_data->Some_0.maker@, self.maker@) is Err {
            Err(MarketError::ConstraintHasOne)
        } else if self.mpl_core_program@ != MPL_CORE_PROGRAM_ID@ {
            Err(MarketError::ConstraintAddress)
        } else {
            Ok(DelistAccountsBumps { marketplace: m->Ok_0, listing: l->Ok_0 })
        }
    }

    /// Checks the accounts of `delist`.
    pub fn validate(&self) -> (r: Result<DelistAccountsBumps, MarketError>)
        ensures
            r == self.spec_validate(),
    {
        if !self.maker_is_signer {
            return Err(MarketError::AccountNotSigner);
        }
        let listing_data = match &self.listing_data {
            Some(l) => *l,
            None => return Err(MarketError::AccountNotInitialized),
        };
        if check_program(&self.system_program, SYSTEM_PROGRAM_ID).is_err() {
            return Err(MarketError::InvalidProgramId);
        }
        let m = check_marketplace(&self.marketplace, &self.marketplace_data);
        let l = check_stored_bump(&self.listing, find_listing_address(&self.asset), listing_data.bump);
        let (marketplace, listing) = match (m, l) {
            (Ok(m), Ok(l)) => (m, l),
            _ => return Err(MarketError::ConstraintSeeds),
        };
        if check_has_one(&listing_data.maker, &self.maker).is_err() {
            return Err(MarketError::ConstraintHasOne);
        }
        if !self.mpl_core_program.same(&Address::new(MPL_CORE_PROGRAM_ID)) {
            return Err(MarketError::ConstraintAddress);
        }
        Ok(DelistAccountsBumps { marketplace, listing })
    }

    /// The refund: the listing, signing with its seeds, moves the asset back
    /// to the maker.
    pub open spec fn refund_effects(&self) -> Seq<EffectView> {
        seq![
            EffectView::Invoke {
                instruction: core_transfer(
                    self.asset@,
                    opt_view(self.collection),
                    self.maker@,
                    Some(self.listing@),
                    self.maker@,
                    Some(self.system_program@),
                ),
                signer_seeds: with_bump(listing_seeds(self.asset@), self.listing_data->Some_0.bump),
            },
        ]
    }

    /// All the effects of a delisting: the refund, then the listing's closing.
    pub open spec fn delist_effects(&self) -> Seq<EffectView> {
        self.refund_effects() + seq![EffectView::Close { account: self.listing@, rent_to: self.maker@ }]
    }

    /// What `delist` gives back: refused by the account checks, or the
    /// effects of the delisting.
    pub open spec fn spec_delist(&self) -> Result<Seq<EffectView>, MarketError> {
        match self.spec_validate() {
            Err(e) => Err(e),
            Ok(_) => Ok(self.delist_effects()),
        }
    }

    /// Gives the asset back to the maker.
    pub fn refund(&self) -> (effects: Vec<Effect>)
        requires
            self.listing_data is Some,
        ensures
            effects_view(effects@) == self.refund_effects(),
    {
        let instruction = core_transfer_instruction(
            &self.asset,
            self.collection,
            &self.maker,
            Some(self.listing),
            &self.maker,
            Some(self.system_program),
        );
        one(invoke(instruction, push_bump(listing_seeds_of(&self.asset), self.listing_data.unwrap().bump)))
    }
}

/// Takes a listing down: checks the accounts, gives the asset back and closes
/// the listing in favour of the maker.
pub fn delist(accounts: &DelistAccounts) -> (r: Result<Vec<Effect>, MarketError>)
    ensures
        outcome(r) == accounts.spec_delist(),
{
    match accounts.validate() {
        Err(e) => return Err(e),
        Ok(_) => {},
    }
    let refund = accounts.refund();
    Ok(concat(refund, one(close(accounts.listing, accounts.maker))))
}

} // verus!
