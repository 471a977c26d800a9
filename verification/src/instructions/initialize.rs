//! Creating a marketplace: its admin, its fee and its name.
use vstd::prelude::*;
use crate::address::Address;
use crate::effects::{Effect, EffectView, create_account, effects_view, initialize_mint, outcome, three};
use crate::error::MarketError;
use crate::fee::{MAX_FEE_BPS, fee_is_valid};
use crate::instructions::checks::{
    check_program, check_reward_mint, check_treasury, program_check, reward_mint_check,
    treasury_check,
};
use crate::pda::{
    PROGRAM_ID, SYSTEM_PROGRAM_ID, TOKEN_PROGRAM_ID, check_seeds, find_marketplace_address,
    marketplace_address, marketplace_seeds, marketplace_seeds_of, push_bump, reward_mint_seeds,
    reward_mint_seeds_of, seeds_check, with_bump,
};
use crate::state::{MARKETPLACE_SPACE, MINT_SPACE, MarketPlace, REWARD_DECIMALS};

verus! {

/// The accounts of `initliaze`: `admin` creates the marketplace account, at
/// the address derived from the marketplace's name, beside its treasury and
/// reward mint.
pub struct InitializeAccount {
    pub admin: Address,
    pub admin_is_signer: bool,
    pub marketplace: Address,
    pub marketplace_data: Option<MarketPlace>,
    pub treasury: Address,
    pub reward_mint: Address,
    pub token_program: Address,
    pub system_program: Address,
}

/// The bumps of the derived accounts of `initliaze`.
#[derive(Clone, Copy, Debug, PartialEq, Eq, Structural)]
pub struct InitializeAccountBumps {
    pub marketplace: u8,
    pub treasury: u8,
    pub reward_mint: u8,
}

impl InitializeAccount {
    /// The account checks of `initliaze` for a marketplace called `name`, in
    /// order: the admin's signature; the programs; then the marketplace (a fresh account at the
    /// address of `name`), the treasury and the reward mint.
    pub open spec fn spec_validate(&self, name: Seq<char>) -> Result<InitializeAccountBumps, MarketError> {
        let m = seeds_check(self.marketplace@, marketplace_address(name));
        let t = treasury_check(self.treasury@, self.marketplace@);
        let r = reward_mint_check(self.reward_mint@, self.marketplace@);
        if !self.admin_is_signer {
            Err(MarketError::AccountNotSigner)
        } else if program_check(self.token_program@, TOKEN_PROGRAM_ID@) is Err
            || program_check(self.system_program@, SYSTEM_PROGRAM_ID@) is Err {
            Err(MarketError::InvalidProgramId)
        } else if self.marketplace_data is Some {
            Err(MarketError::AccountInUse)
        } else if m is Err || t is Err || r is Err {
            Err(MarketError::ConstraintSeeds)
        } else {
            Ok(InitializeAccountBumps { marketplace: m->Ok_0, treasury: t->Ok_0, reward_mint: r->Ok_0 })
        }
    }

    /// Checks the accounts of `initliaze` for a marketplace called `name`.
    pub fn validate(&self, name: &String) -> (r: Result<InitializeAccountBumps, MarketError>)
        ensures
            r == self.spec_validate(name@),
    {
        if !self.admin_is_signer {
            return Err(MarketError::AccountNotSigner);
        }
        if check_program(&self.token_program, TOKEN_PROGRAM_ID).is_err()
            || check_program(&self.system_program, SYSTEM_PROGRAM_ID).is_err() {
            return Err(MarketError::InvalidProgramId);
        }
        if self.marketplace_data.is_some() {
            return Err(MarketError::AccountInUse);
        }
        let m = check_seeds(&self.marketplace, find_marketplace_address(name));
        let t = check_treasury(&self.treasury, &self.marketplace);
        let r = check_reward_mint(&self.reward_mint, &self.marketplace);
        match (m, t, r) {
            (Ok(marketplace), Ok(treasury), Ok(reward_mint)) => Ok(
                InitializeAccountBumps { marketplace, treasury, reward_mint },
            ),
            _ => Err(MarketError::ConstraintSeeds),
        }
    }

    /// The marketplace that `initialize` records.
    pub open spec fn new_marketplace(&self, name: String, fee: u16, bumps: InitializeAccountBumps) -> MarketPlace {
        MarketPlace {
            admin: self.admin,
            fee,
            name,
            bump: bumps.marketplace,
            treasury_bump: bumps.treasury,
            rewards_bump: bumps.reward_mint,
        }
    }

    /// The creation of the marketplace's accounts, before the handler runs:
    /// the admin pays for the marketplace account, which the program owns,
    /// and for the reward mint, owned by the token program and initialised
    /// with `REWARD_DECIMALS` and the marketplace as its mint authority.
    pub open spec fn creation_effects(&self, name: Seq<char>, bumps: InitializeAccountBumps) -> Seq<EffectView> {
        seq![
            EffectView::CreateAccount {
                payer: self.admin@,
                account: self.marketplace@,
                space: MARKETPLACE_SPACE,
                owner: PROGRAM_ID@,
                signer_seeds: with_bump(marketplace_seeds(name), bumps.marketplace),
            },
            EffectView::CreateAccount {
                payer: self.admin@,
                account: self.reward_mint@,
                space: MINT_SPACE,
                owner: TOKEN_PROGRAM_ID@,
                signer_seeds: with_bump(reward_mint_seeds(self.marketplace@), bumps.reward_mint),
            },
            EffectView::InitializeMint {
                mint: self.reward_mint@,
                decimals: REWARD_DECIMALS,
                authority: self.marketplace@,
            },
        ]
    }

    /// Creates the marketplace account and the reward mint.
    pub fn create_marketplace_accounts(&self, name: &String, bumps: InitializeAccountBumps) -> (effects: Vec<Effect>)
        ensures
            effects_view(effects@) == self.creation_effects(name@, bumps),
    {
        let marketplace_signer = push_bump(marketplace_seeds_of(name), bumps.marketplace);
        let mint_signer = push_bump(reward_mint_seeds_of(&self.marketplace), bumps.reward_mint);
        three(
            create_account(self.admin, self.marketplace, MARKETPLACE_SPACE, Address::new(PROGRAM_ID), marketplace_signer),
            create_account(self.admin, self.reward_mint, MINT_SPACE, Address::new(TOKEN_PROGRAM_ID), mint_signer),
            initialize_mint(self.reward_mint, REWARD_DECIMALS, self.marketplace),
        )
    }

    /// Records the marketplace: refused, and nothing recorded, when the fee is
    /// above `MAX_FEE_BPS`.
    pub fn initialize(&mut self, name: String, fee: u16, bumps: InitializeAccountBumps) -> (r: Result<(), MarketError>)
        ensures
            fee > MAX_FEE_BPS ==> r == Err::<(), MarketError>(MarketError::InvalidFee) && *final(self) == *old(self),
            fee <= MAX_FEE_BPS ==> r == Ok::<(), MarketError>(()) && *final(self) == (InitializeAccount {
                marketplace_data: Some(old(self).new_marketplace(name, fee, bumps)),
                ..*old(self)
            }),
    {
        if !fee_is_valid(fee) {
            return Err(MarketError::InvalidFee);
        }
        self.marketplace_data = Some(MarketPlace {
            admin: self.admin,
            fee,
            name,
            bump: bumps.marketplace,
            treasury_bump: bumps.treasury,
            rewards_bump: bumps.reward_mint,
        });
        Ok(())
    }

    /// What `initliaze` gives back for a marketplace called `name` charging
    /// `fee`: refused by the account checks or for a fee above `MAX_FEE_BPS`,
    /// else the creation of the marketplace's accounts.
    pub open spec fn spec_initliaze(&self, name: Seq<char>, fee: u16) -> Result<Seq<EffectView>, MarketError> {
        match self.spec_validate(name) {
            Err(e) => Err(e),
            Ok(bumps) => if fee > MAX_FEE_BPS {
                Err(MarketError::InvalidFee)
            } else {
                Ok(self.creation_effects(name, bumps))
            },
        }
    }
}

/// Creates a marketplace called `name` charging `fee` basis points: checks the
/// accounts, creates the marketplace's accounts and records the marketplace.
pub fn initliaze(accounts: &mut InitializeAccount, name: String, fee: u16) -> (r: Result<Vec<Effect>, MarketError>)
    ensures
        outcome(r) == old(accounts).spec_initliaze(name@, fee),
        match old(accounts).spec_validate(name@) {
            Err(e) => *final(accounts) == *old(accounts),
            Ok(bumps) => {
                &&& fee > MAX_FEE_BPS ==> *final(accounts) == *old(accounts)
                &&& fee <= MAX_FEE_BPS ==> *final(accounts) == (InitializeAccount {
                    marketplace_data: Some(old(accounts).new_marketplace(name, fee, bumps)),
                    ..*old(accounts)
                })
            },
        },
{
    let bumps = match accounts.validate(&name) {
        Err(e) => return Err(e),
        Ok(bumps) => bumps,
    };
    let creation = accounts.create_marketplace_accounts(&name, bumps);
    match accounts.initialize(name, fee, bumps) {
        Err(e) => Err(e),
        Ok(()) => Ok(creation),
    }
}

} // verus!
