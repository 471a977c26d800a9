//! The marketplace fee on a sale and what the seller keeps.
use vstd::prelude::*;

verus! {

/// The largest fee a marketplace may charge, in basis points: the whole price.
pub const MAX_FEE_BPS: u16 = 10_000;

/// The number of basis points in a whole.
pub const BPS_DENOMINATOR: u64 = 10_000;

/// The fee on a sale at `price` lamports for a marketplace charging `fee_bps`
/// basis points: the price is cut into whole ten-thousandths, and the fee is
/// `fee_bps` of them.
pub open spec fn sale_fee(price: u64, fee_bps: u16) -> int {
    (price / 10_000) * fee_bps
}

/// Whether a marketplace may charge `fee_bps` basis points.
pub fn fee_is_valid(fee_bps: u16) -> (ok: bool)
    ensures
        ok == (fee_bps <= MAX_FEE_BPS),
{
    fee_bps <= MAX_FEE_BPS
}

/// The fee on a sale at `price`.
pub fn marketplace_fee(price: u64, fee_bps: u16) -> (fee: u64)
    requires
        fee_bps <= MAX_FEE_BPS,
    ensures
        fee == sale_fee(price, fee_bps),
        fee <= price,
{
    let units: u64 = price / BPS_DENOMINATOR;
    proof {
        lemma_fee_at_most_price(price, fee_bps);
    }
    units * (fee_bps as u64)
}

/// A fee of at most `MAX_FEE_BPS` basis points is never more than the price.
pub proof fn lemma_fee_at_most_price(price: u64, fee_bps: u16)
    requires
        fee_bps <= MAX_FEE_BPS,
    ensures
        0 <= sale_fee(price, fee_bps) <= price,
{
    let units: int = (price / 10_000) as int;
    assert(units * 10_000 <= price) by (nonlinear_arith)
        requires
            units == price / 10_000,
    ;
    assert(0 <= units * fee_bps <= units * 10_000) by (nonlinear_arith)
        requires
            0 <= units,
            0 <= fee_bps <= 10_000,
    ;
}

} // verus!
