//! Withdrawing collected fees: the admin takes lamports out of the treasury.
use vstd::prelude::*;
use crate::address::Address;
use crate::effects::{Effect, EffectView, effects_view, one, outcome, pay};
use crate::error::MarketError;
use crate::instructions::checks::{
    check_has_one, check_marketplace, check_program, has_one_check, marketplace_check, program_check,
};
use crate::pda::{
    PROGRAM_ID, SYSTEM_PROGRAM_ID, check_stored_bump, find_treasury_address, program_address, push_bump,
    stored_bump_check, treasury_seeds, treasury_seeds_of, with_bump,
};
use crate::state::MarketPlace;

verus! {

/// The accounts of `withdraw_fee`: `admin` takes fees out of the treasury,
/// which holds `treasury_lamports`.
pub struct WithdrawFeeAccounts {
    pub admin: Address,
    pub admin_is_signer: bool,
    pub marketplace: Address,
    pub marketplace_data: MarketPlace,
    pub treasury: Address,
    pub treasury_lamports: u64,
    pub system_program: Address,
}

/// The bumps of the derived accounts of `withdraw_fee`.
#[derive(Clone, Copy, Debug, PartialEq, Eq, Structural)]
pub struct WithdrawFeeAccountsBumps {
    pub marketplace: u8,
    pub treasury: u8,
}

impl WithdrawFeeAccounts {
    /// The account checks of `withdraw_fee`, in order: the admin's signature,
    /// the system program;
    /// then the marketplace (at its address, administered by `admin`) and the
    /// treasury (at its address, with the bump the marketplace keeps for it).
    pub open spec fn spec_validate(&self) -> Result<WithdrawFeeAccountsBumps, MarketError> {
        let m = marketplace_check(self.marketplace@, self.marketplace_data);
        let t = stored_bump_check(
            self.treasury@,
            program_address(treasury_seeds(self.marketplace@), PROGRAM_ID@),
            self.marketplace_data.treasury_bump,
        );
        if !self.admin_is_signer {
            Err(MarketError::AccountNotSigner)
        } else if program_check(self.system_program@, SYSTEM_PROGRAM_ID@) is Err {
            Err(MarketError::InvalidProgramId)
        } else if m is Err {
            Err(MarketError::ConstraintSeeds)
        } else if has_one_check(self.marketplace_data.admin@, self.admin@) is Err {
            Err(MarketError::ConstraintHasOne)
        } else if t is Err {
            Err(MarketError::ConstraintSeeds)
        } else {
            Ok(WithdrawFeeAccountsBumps { marketplace: m->Ok_0, treasury: t->Ok_0 })
        }
    }

    /// Checks the accounts of `withdraw_fee`.
    pub fn validate(&self) -> (r: Result<WithdrawFeeAccountsBumps, MarketError>)
        ensures
            r == self.spec_validate(),
    {
        if !self.admin_is_signer {
            return Err(MarketError::AccountNotSigner);
        }
        if check_program(&self.system_program, SYSTEM_PROGRAM_ID).is_err() {
            return Err(MarketError::InvalidProgramId);
        }
        let marketplace = match check_marketplace(&self.marketplace, &self.marketplace_data) {
            Ok(m) => m,
            Err(_) => return Err(MarketError::ConstraintSeeds),
        };
        if check_has_one(&self.marketplace_data.admin, &self.admin).is_err() {
            return Err(MarketError::ConstraintHasOne);
        }
        let found = find_treasury_address(&self.marketplace);
        let treasury = match check_stored_bump(&self.treasury, found, self.marketplace_data.treasury_bump) {
            Ok(t) => t,
            Err(_) => return Err(MarketError::ConstraintSeeds),
        };
        Ok(WithdrawFeeAccountsBumps { marketplace, treasury })
    }

    /// The payout of `amount`: the treasury, signing with its seeds, pays the admin.
    pub open spec fn payout_effects(&self, amount: u64) -> Seq<EffectView> {
        seq![
            EffectView::Pay {
                from: self.treasury@,
                to: self.admin@,
                lamports: amount,
                signer_seeds: with_bump(treasury_seeds(self.marketplace@), self.marketplace_data.treasury_bump),
            },
        ]
    }

    /// What the handler `withdraw_fee` gives back: refused when the treasury
    /// holds less than `amount`, else the payout.
    pub open spec fn spec_payout(&self, amount: u64) -> Result<Seq<EffectView>, MarketError> {
        if amount > self.treasury_lamports {
            Err(MarketError::AmountTooMuch)
        } else {
            Ok(self.payout_effects(amount))
        }
    }

    /// What `withdraw_fee` gives back: refused by the account checks, else
    /// as the handler decides.
    pub open spec fn spec_withdraw_fee(&self, amount: u64) -> Result<Seq<EffectView>, MarketError> {
        match self.spec_validate() {
            Err(e) => Err(e),
            Ok(_) => self.spec_payout(amount),
        }
    }

    /// Pays `amount` lamports of the treasury to the admin; refused when the
    /// treasury holds less.
    pub fn withdraw_fee(&self, amount: u64) -> (r: Result<Vec<Effect>, MarketError>)
        ensures
            outcome(r) == self.spec_payout(amount),
    {
        if amount > self.treasury_lamports {
            return Err(MarketError::AmountTooMuch);
        }
        let seeds = push_bump(treasury_seeds_of(&self.marketplace), self.marketplace_data.treasury_bump);
        Ok(one(pay(self.treasury, self.admin, amount, seeds)))
    }
}

/// Withdraws fees: checks the accounts, then pays `amount` out of the treasury
/// to the admin.
pub fn withdraw_fee(accounts: &WithdrawFeeAccounts, amount: u64) -> (r: Result<Vec<Effect>, MarketError>)
    ensures
        outcome(r) == accounts.spec_withdraw_fee(amount),
{
    match accounts.validate() {
        Err(e) => return Err(e),
        Ok(_) => {},
    }
    accounts.withdraw_fee(amount)
}

} // verus!
