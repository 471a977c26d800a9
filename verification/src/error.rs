//! Why an instruction is refused.
use vstd::prelude::*;

verus! {

/// The reasons for which the marketplace refuses an instruction.
#[derive(Clone, Copy, Debug, PartialEq, Eq, Structural)]
pub enum MarketError {
    /// A marketplace fee above `MAX_FEE_BPS` basis points.
    InvalidFee,
    /// A fee withdrawal of more lamports than the treasury holds.
    AmountTooMuch,
    /// An account that is not the address derived from its seeds.
    ConstraintSeeds,
    /// An account to create that already exists.
    AccountInUse,
    /// An account that must exist and does not.
    AccountNotInitialized,
    /// An account that must sign the instruction and did not.
    AccountNotSigner,
    /// A stored account field that names another account than the one passed.
    ConstraintHasOne,
    /// An account that is not the fixed address it must be.
    ConstraintAddress,
    /// A token account that is not the owner's associated token account of the mint.
    ConstraintAssociated,
    /// A program account that is not the program it must be.
    InvalidProgramId,
}

} // verus!
