//! Properties of the marketplace that span its instructions.
use vstd::prelude::*;
use crate::core_transfer::moves_asset;
use crate::effects::{
    EffectView, closed_by, closes, lamports_after, lamports_after_one, lemma_lamports_after_concat,
    lemma_lamports_by_payments, lemma_sum_over_concat, lemma_sum_over_one, paid_by, paid_to,
    payment_from, payment_to, record_after, reward_to, rewarded_to, sum_over, touched_otherwise,
};
use crate::error::MarketError;
use crate::fee::{MAX_FEE_BPS, lemma_fee_at_most_price, sale_fee};
use crate::instructions::buy::BuyAccounts;
use crate::instructions::delist::DelistAccounts;
use crate::instructions::initialize::{InitializeAccount, InitializeAccountBumps};
use crate::instructions::list::{ListAcoounts, ListAcoountsBumps};
use crate::instructions::offer::{AcceptOfferAccounts, MakeOfferAccounts, MakeOfferAccountsBumps};
use crate::instructions::withdraw::WithdrawFeeAccounts;
use crate::pda::{
    PROGRAM_ID, listing_seeds, marketplace_address, program_address, reward_mint_seeds,
    treasury_seeds,
};
use crate::state::{Listing, MarketPlace, REWARD_PER_TRADE};

verus! {

/// Every marketplace that `initliaze` records is well formed: it records a
/// marketplace only for a fee of at most `MAX_FEE_BPS`, and then keeps the
/// admin, fee and name it was given.
pub proof fn law_initialized_marketplace_is_well_formed(
    accounts: InitializeAccount,
    name: String,
    fee: u16,
    bumps: InitializeAccountBumps,
)
    requires
        fee <= MAX_FEE_BPS,
    ensures
        accounts.new_marketplace(name, fee, bumps).wf(),
        accounts.new_marketplace(name, fee, bumps).admin == accounts.admin,
        accounts.new_marketplace(name, fee, bumps).fee == fee,
        accounts.new_marketplace(name, fee, bumps).name == name,
{
}

/// The price of a sale is split exactly between the seller and the treasury:
/// the fee is never more than the price, and no fee is taken at zero basis points.
pub proof fn law_sale_splits_price(price: u64, fee_bps: u16)
    requires
        fee_bps <= MAX_FEE_BPS,
    ensures
        0 <= sale_fee(price, fee_bps) <= price,
        (price - sale_fee(price, fee_bps)) + sale_fee(price, fee_bps) == price,
        fee_bps == 0 ==> sale_fee(price, fee_bps) == 0,
{
    lemma_fee_at_most_price(price, fee_bps);
    if fee_bps == 0 {
        assert(sale_fee(price, fee_bps) == (price / 10_000) * 0);
    }
}

/// The sum of `f` over two effects.
proof fn lemma_sum_over_two(x: EffectView, y: EffectView, f: spec_fn(EffectView) -> int)
    ensures
        sum_over(seq![x, y], f) == f(x) + f(y),
{
    lemma_sum_over_concat(seq![x], seq![y], f);
    lemma_sum_over_one(x, f);
    lemma_sum_over_one(y, f);
    assert(seq![x] + seq![y] =~= seq![x, y]);
}

/// A sum over the effects of a purchase, effect by effect.
proof fn lemma_buy_sum(a: BuyAccounts, f: spec_fn(EffectView) -> int)
    ensures
        ({
            let e = a.buy_effects();
            &&& e.len() == 6
            &&& sum_over(e, f) == f(e[0]) + f(e[1]) + f(e[2]) + f(e[3]) + f(e[4]) + f(e[5])
        }),
{
    let k = a.token_account_effects();
    let p = a.payment_effects();
    let t = a.asset_effects();
    let w = a.reward_effects();
    let c = seq![EffectView::Close { account: a.listing@, rent_to: a.maker@ }];
    let e = a.buy_effects();
    assert(e == k + p + t + w + c);
    lemma_sum_over_concat(k, p, f);
    lemma_sum_over_concat(k + p, t, f);
    lemma_sum_over_concat(k + p + t, w, f);
    lemma_sum_over_concat(k + p + t + w, c, f);
    assert(k =~= seq![k[0]]);
    assert(p =~= seq![p[0], p[1]]);
    assert(t =~= seq![t[0]]);
    assert(w =~= seq![w[0]]);
    assert(c =~= seq![c[0]]);
    lemma_sum_over_one(k[0], f);
    lemma_sum_over_two(p[0], p[1], f);
    lemma_sum_over_one(t[0], f);
    lemma_sum_over_one(w[0], f);
    lemma_sum_over_one(c[0], f);
}

/// A sum over the effects of an accepted offer, effect by effect.
proof fn lemma_accept_sum(a: AcceptOfferAccounts, f: spec_fn(EffectView) -> int)
    ensures
        ({
            let e = a.accept_effects();
            &&& e.len() == 7
            &&& sum_over(e, f) == f(e[0]) + f(e[1]) + f(e[2]) + f(e[3]) + f(e[4]) + f(e[5]) + f(e[6])
        }),
{
    let k = a.token_account_effects();
    let p = a.payment_effects();
    let t = a.asset_effects();
    let w = a.reward_effects();
    let c = seq![
        EffectView::Close { account: a.offer@, rent_to: a.offer_maker@ },
        EffectView::Close { account: a.listing@, rent_to: a.maker@ },
    ];
    let e = a.accept_effects();
    assert(e == k + p + t + w + c);
    lemma_sum_over_concat(k, p, f);
    lemma_sum_over_concat(k + p, t, f);
    lemma_sum_over_concat(k + p + t, w, f);
    lemma_sum_over_concat(k + p + t + w, c, f);
    assert(k =~= seq![k[0]]);
    assert(p =~= seq![p[0], p[1]]);
    assert(t =~= seq![t[0]]);
    assert(w =~= seq![w[0]]);
    assert(c =~= seq![c[0], c[1]]);
    lemma_sum_over_one(k[0], f);
    lemma_sum_over_two(p[0], p[1], f);
    lemma_sum_over_one(t[0], f);
    lemma_sum_over_one(w[0], f);
    lemma_sum_over_two(c[0], c[1], f);
}

/// A purchase settles the sale: the taker pays exactly the listing price, of
/// which the treasury gets the fee and the maker the rest; the taker first pays
/// for its reward token account where it is missing, and gets `REWARD_PER_TRADE`
/// reward tokens and the asset, out of the listing's escrow; the listing is
/// closed in favour of the maker. (The split holds where the maker is not the
/// treasury itself.)
pub proof fn law_buy_settles_sale(a: BuyAccounts)
    requires
        a.marketplace_data.wf(),
    ensures
        paid_by(a.buy_effects(), a.taker@) == a.listed().price,
        a.maker@ != a.treasury@ ==> paid_to(a.buy_effects(), a.treasury@) == a.fee(),
        a.maker@ != a.treasury@ ==> paid_to(a.buy_effects(), a.maker@) == a.listed().price - a.fee(),
        rewarded_to(a.buy_effects(), a.taker_ata@) == REWARD_PER_TRADE,
        a.buy_effects()[0] == (EffectView::CreateTokenAccount {
            payer: a.taker@,
            account: a.taker_ata@,
            owner: a.taker@,
            mint: a.reward_mint@,
        }),
        a.buy_effects()[3] matches EffectView::Invoke { instruction, .. }
            && moves_asset(instruction, a.asset@, a.listing@, a.taker@),
        closes(a.buy_effects(), a.listing@, a.maker@),
{
    lemma_fee_at_most_price(a.listed().price, a.marketplace_data.fee);
    lemma_buy_sum(a, payment_from(a.taker@));
    lemma_buy_sum(a, payment_to(a.treasury@));
    lemma_buy_sum(a, payment_to(a.maker@));
    lemma_buy_sum(a, reward_to(a.taker_ata@));
    assert(a.buy_effects()[5] == EffectView::Close { account: a.listing@, rent_to: a.maker@ });
}

/// Accepting an offer settles the sale at the bid: the vault pays out exactly
/// the bid, of which the treasury gets the fee and the maker the rest; the
/// offer maker first pays for its reward token account where it is missing, and gets
/// `REWARD_PER_TRADE` reward tokens and the asset, out of the listing's
/// escrow; the offer is closed in favour of the offer maker and the listing in
/// favour of the maker. (The split holds where the maker is not the treasury
/// itself.)
pub proof fn law_accept_offer_settles_sale(a: AcceptOfferAccounts)
    requires
        a.marketplace_data.wf(),
    ensures
        paid_by(a.accept_effects(), a.vault@) == a.bid().price,
        a.maker@ != a.treasury@ ==> paid_to(a.accept_effects(), a.treasury@) == a.fee(),
        a.maker@ != a.treasury@ ==> paid_to(a.accept_effects(), a.maker@) == a.bid().price - a.fee(),
        rewarded_to(a.accept_effects(), a.offer_maker_ata@) == REWARD_PER_TRADE,
        a.accept_effects()[0] == (EffectView::CreateTokenAccount {
            payer: a.offer_maker@,
            account: a.offer_maker_ata@,
            owner: a.offer_maker@,
            mint: a.reward_mint@,
        }),
        a.accept_effects()[3] matches EffectView::Invoke { instruction, .. }
            && moves_asset(instruction, a.asset@, a.listing@, a.offer_maker@),
        closes(a.accept_effects(), a.offer@, a.offer_maker@),
        closes(a.accept_effects(), a.listing@, a.maker@),
{
    lemma_fee_at_most_price(a.bid().price, a.marketplace_data.fee);
    lemma_accept_sum(a, payment_from(a.vault@));
    lemma_accept_sum(a, payment_to(a.treasury@));
    lemma_accept_sum(a, payment_to(a.maker@));
    lemma_accept_sum(a, reward_to(a.offer_maker_ata@));
    assert(a.accept_effects()[5] == EffectView::Close { account: a.offer@, rent_to: a.offer_maker@ });
    assert(a.accept_effects()[6] == EffectView::Close { account: a.listing@, rent_to: a.maker@ });
}

/// What a bid puts into its vault is exactly what accepting it takes out:
/// over `maker_offer` and then `accept_offer` of the offer it recorded, the
/// vault receives the bid and pays it all out, and its lamports come back to
/// where they were. (This holds where the vault is none of the other accounts
/// that the two instructions pay, create or close.)
pub proof fn law_offer_escrow_round_trip(
    bid: MakeOfferAccounts,
    price: u64,
    bumps: MakeOfferAccountsBumps,
    accept: AcceptOfferAccounts,
    balances: spec_fn(Seq<u8>) -> int,
    rent: spec_fn(u64) -> int,
)
    requires
        accept.offer_data == Some(bid.new_offer(price, bumps)),
        accept.vault@ == bid.vault@,
        accept.marketplace_data.wf(),
        bid.buyer@ != bid.vault@,
        bid.offer@ != bid.vault@,
        accept.maker@ != accept.vault@,
        accept.treasury@ != accept.vault@,
        accept.offer@ != accept.vault@,
        accept.offer_maker@ != accept.vault@,
        accept.offer_maker_ata@ != accept.vault@,
        accept.listing@ != accept.vault@,
    ensures
        paid_to(bid.offer_effects(price, bumps), bid.vault@) == price,
        paid_by(accept.accept_effects(), accept.vault@) == price,
        lamports_after(bid.offer_effects(price, bumps) + accept.accept_effects(), balances, rent)(bid.vault@)
            == balances(bid.vault@),
{
    let v = bid.vault@;
    let e = bid.offer_effects(price, bumps);
    let a = accept.accept_effects();
    assert(e =~= seq![e[0], e[1]]);
    lemma_sum_over_two(e[0], e[1], payment_to(v));
    lemma_sum_over_two(e[0], e[1], payment_from(v));
    law_accept_offer_settles_sale(accept);
    lemma_accept_sum(accept, payment_to(v));
    assert forall|i: int| 0 <= i < e.len() implies !touched_otherwise(#[trigger] e[i], v) by {}
    lemma_lamports_by_payments(e, balances, rent, v);
    let mid = lamports_after(e, balances, rent);
    assert forall|i: int| 0 <= i < a.len() implies !touched_otherwise(#[trigger] a[i], v) by {
        lemma_accept_sum(accept, payment_to(v));
    }
    lemma_lamports_by_payments(a, mid, rent, v);
    lemma_lamports_after_concat(e, a, balances, rent);
}

/// The lamports of each account after two effects.
proof fn lemma_lamports_after_two(
    x: EffectView,
    y: EffectView,
    balances: spec_fn(Seq<u8>) -> int,
    rent: spec_fn(u64) -> int,
)
    ensures
        lamports_after(seq![x, y], balances, rent) == lamports_after_one(
            y,
            lamports_after_one(x, balances, rent),
            rent,
        ),
{
    let e = Seq::<EffectView>::empty();
    assert(seq![x, y].drop_last() =~= seq![x]);
    assert(seq![x].drop_last() =~= e);
    assert(seq![x, y].last() == y);
    assert(seq![x].last() == x);
    assert(lamports_after(e, balances, rent) == balances);
    assert(lamports_after(seq![x], balances, rent) == lamports_after_one(x, balances, rent));
}

/// Listing and delisting undo each other: listing has the maker pay for the
/// listing account and hand the asset to it; delisting has the listing hand
/// the asset back to the maker and closes the listing in favour of the maker,
/// so that every account's lamports come back to where they were. (This holds
/// where the listing held no lamports before, so that the maker pays its whole
/// rent and gets it all back, and is not the maker itself.)
pub proof fn law_list_then_delist_round_trip(
    list: ListAcoounts,
    bumps: ListAcoountsBumps,
    delist: DelistAccounts,
    balances: spec_fn(Seq<u8>) -> int,
    rent: spec_fn(u64) -> int,
)
    requires
        list.maker == delist.maker,
        list.asset == delist.asset,
        list.listing == delist.listing,
        balances(list.listing@) == 0,
        list.maker@ != list.listing@,
    ensures
        list.listing_effects(bumps)[1] matches EffectView::Invoke { instruction, .. }
            && moves_asset(instruction, list.asset@, list.maker@, list.listing@),
        delist.delist_effects()[0] matches EffectView::Invoke { instruction, .. }
            && moves_asset(instruction, list.asset@, list.listing@, list.maker@),
        closes(delist.delist_effects(), delist.listing@, delist.maker@),
        forall|k: Seq<u8>| #[trigger] lamports_after(list.listing_effects(bumps) + delist.delist_effects(), balances, rent)(k)
            == balances(k),
{
    let l = list.listing_effects(bumps);
    let d = delist.delist_effects();
    assert(l =~= seq![l[0], l[1]]);
    assert(d =~= seq![d[0], d[1]]);
    lemma_lamports_after_two(l[0], l[1], balances, rent);
    let mid = lamports_after(l, balances, rent);
    lemma_lamports_after_two(d[0], d[1], mid, rent);
    lemma_lamports_after_concat(l, d, balances, rent);
    assert forall|k: Seq<u8>| #[trigger] lamports_after(l + d, balances, rent)(k) == balances(k) by {
        assert(lamports_after(l + d, balances, rent) == lamports_after(d, mid, rent));
    }
}

/// Only the marketplace's admin, signing, withdraws fees, never more than the
/// treasury holds, and exactly the amount asked, from the treasury to the
/// admin; a withdrawal of more than the treasury holds is refused. (The payout
/// to the admin is the amount where the admin is not the treasury itself.)
pub proof fn law_withdrawal_guard(accounts: WithdrawFeeAccounts, amount: u64)
    ensures
        accounts.spec_withdraw_fee(amount) is Ok ==> {
            &&& accounts.admin_is_signer
            &&& accounts.admin@ == accounts.marketplace_data.admin@
            &&& amount <= accounts.treasury_lamports
            &&& paid_by(accounts.spec_withdraw_fee(amount)->Ok_0, accounts.treasury@) == amount
            &&& accounts.admin@ != accounts.treasury@ ==> paid_to(
                accounts.spec_withdraw_fee(amount)->Ok_0,
                accounts.admin@,
            ) == amount
        },
        accounts.spec_validate() is Ok && amount > accounts.treasury_lamports
            ==> accounts.spec_withdraw_fee(amount) == Err::<Seq<EffectView>, MarketError>(
            MarketError::AmountTooMuch,
        ),
{
    let e = accounts.payout_effects(amount);
    lemma_sum_over_one(e[0], payment_from(accounts.treasury@));
    lemma_sum_over_one(e[0], payment_to(accounts.admin@));
    assert(e =~= seq![e[0]]);
}

/// Only the account that listed an asset, signing, can take the listing down,
/// and a sale, at the listing price or at a bid, pays the account that listed
/// it; a bid is accepted only with the signatures of both its maker and the
/// listing's maker.
pub proof fn law_only_the_lister_is_paid_or_delists(
    delist: DelistAccounts,
    buy: BuyAccounts,
    accept: AcceptOfferAccounts,
)
    ensures
        delist.spec_delist() is Ok ==> delist.maker_is_signer && delist.listing_data is Some
            && delist.maker@ == delist.listing_data->Some_0.maker@,
        buy.spec_buy() is Ok ==> buy.taker_is_signer && buy.listing_data is Some
            && buy.maker@ == buy.listed().maker@,
        accept.spec_accept_offer() is Ok ==> {
            &&& accept.offer_maker_is_signer && accept.maker_is_signer
            &&& accept.maker@ == accept.listed().maker@
            &&& accept.offer_maker@ == accept.bid().offer_maker@
        },
{
}

/// No instruction on a listing succeeds once its record is gone: a purchase,
/// an accepted offer or a delisting of it is refused.
proof fn lemma_gone_listing_refused(buy: BuyAccounts, accept: AcceptOfferAccounts, delist: DelistAccounts)
    requires
        buy.listing_data is None,
        accept.listing_data is None,
        delist.listing_data is None,
    ensures
        buy.spec_buy() is Err,
        accept.spec_accept_offer() is Err,
        delist.spec_delist() is Err,
{
}

/// A listing is sold at most once: a purchase closes it, and afterwards no
/// purchase, accepted offer or delisting of it succeeds.
pub proof fn law_listing_sold_at_most_once(
    first: BuyAccounts,
    buy: BuyAccounts,
    accept: AcceptOfferAccounts,
    delist: DelistAccounts,
)
    requires
        first.marketplace_data.wf(),
        buy.listing == first.listing,
        accept.listing == first.listing,
        delist.listing == first.listing,
        buy.listing_data == record_after(first.buy_effects(), first.listing@, first.listing_data),
        accept.listing_data == record_after(first.buy_effects(), first.listing@, first.listing_data),
        delist.listing_data == record_after(first.buy_effects(), first.listing@, first.listing_data),
    ensures
        closed_by(first.buy_effects(), first.listing@),
        buy.spec_buy() is Err,
        accept.spec_accept_offer() is Err,
        delist.spec_delist() is Err,
{
    law_buy_settles_sale(first);
    assert(first.buy_effects()[5] == EffectView::Close { account: first.listing@, rent_to: first.maker@ });
    lemma_gone_listing_refused(buy, accept, delist);
}

/// A listing whose offer was accepted is consumed: afterwards no purchase,
/// accepted offer or delisting of it succeeds.
pub proof fn law_accepted_listing_is_consumed(
    first: AcceptOfferAccounts,
    buy: BuyAccounts,
    accept: AcceptOfferAccounts,
    delist: DelistAccounts,
)
    requires
        first.marketplace_data.wf(),
        buy.listing == first.listing,
        accept.listing == first.listing,
        delist.listing == first.listing,
        buy.listing_data == record_after(first.accept_effects(), first.listing@, first.listing_data),
        accept.listing_data == record_after(first.accept_effects(), first.listing@, first.listing_data),
        delist.listing_data == record_after(first.accept_effects(), first.listing@, first.listing_data),
    ensures
        closed_by(first.accept_effects(), first.listing@),
        buy.spec_buy() is Err,
        accept.spec_accept_offer() is Err,
        delist.spec_delist() is Err,
{
    law_accept_offer_settles_sale(first);
    assert(first.accept_effects()[6] == EffectView::Close { account: first.listing@, rent_to: first.maker@ });
    lemma_gone_listing_refused(buy, accept, delist);
}

/// A delisted listing is gone: afterwards no purchase, accepted offer or
/// delisting of it succeeds.
pub proof fn law_delisted_listing_is_consumed(
    first: DelistAccounts,
    buy: BuyAccounts,
    accept: AcceptOfferAccounts,
    delist: DelistAccounts,
)
    requires
        buy.listing == first.listing,
        accept.listing == first.listing,
        delist.listing == first.listing,
        buy.listing_data == record_after(first.delist_effects(), first.listing@, first.listing_data),
        accept.listing_data == record_after(first.delist_effects(), first.listing@, first.listing_data),
        delist.listing_data == record_after(first.delist_effects(), first.listing@, first.listing_data),
    ensures
        closed_by(first.delist_effects(), first.listing@),
        buy.spec_buy() is Err,
        accept.spec_accept_offer() is Err,
        delist.spec_delist() is Err,
{
    assert(first.delist_effects()[1] == EffectView::Close { account: first.listing@, rent_to: first.maker@ });
    lemma_gone_listing_refused(buy, accept, delist);
}

/// A listing records the bump that derives its own address from its asset,
/// so the seeds it signs with are those of the listing account itself.
pub proof fn law_listing_records_its_own_bump(accounts: ListAcoounts, price: u64)
    requires
        accounts.spec_validate() is Ok,
    ensures
        program_address(listing_seeds(accounts.asset@), PROGRAM_ID@) == Some(
            (accounts.listing@, accounts.new_listing(price, accounts.spec_validate()->Ok_0).bump),
        ),
{
}

/// A marketplace records the bumps that derive its own address from its name
/// and the addresses of its treasury and reward mint from its own, so the
/// seeds it signs with are those of these accounts.
pub proof fn law_marketplace_records_its_own_bumps(accounts: InitializeAccount, name: String, fee: u16)
    requires
        accounts.spec_validate(name@) is Ok,
    ensures
        ({
            let m = accounts.new_marketplace(name, fee, accounts.spec_validate(name@)->Ok_0);
            &&& marketplace_address(m.name@) == Some((accounts.marketplace@, m.bump))
            &&& program_address(treasury_seeds(accounts.marketplace@), PROGRAM_ID@) == Some(
                (accounts.treasury@, m.treasury_bump),
            )
            &&& program_address(reward_mint_seeds(accounts.marketplace@), PROGRAM_ID@) == Some(
                (accounts.reward_mint@, m.rewards_bump),
            )
        }),
{
}

/// One instruction that moves the lamports of a marketplace's treasury.
pub enum TreasuryStep {
    /// A purchase, paying the fee into the treasury.
    Buy(BuyAccounts),
    /// An accepted offer, paying the fee into the treasury.
    Accept(AcceptOfferAccounts),
    /// A withdrawal of an amount out of the treasury.
    Withdraw(WithdrawFeeAccounts, u64),
}

/// A withdrawal that reads the treasury's lamports as `balance`.
pub open spec fn withdrawal_at(accounts: WithdrawFeeAccounts, balance: int) -> WithdrawFeeAccounts {
    WithdrawFeeAccounts { treasury_lamports: balance as u64, ..accounts }
}

/// What a step gives back when the treasury holds `balance` lamports.
pub open spec fn step_outcome(step: TreasuryStep, balance: int) -> Result<Seq<EffectView>, MarketError> {
    match step {
        TreasuryStep::Buy(a) => a.spec_buy(),
        TreasuryStep::Accept(a) => a.spec_accept_offer(),
        TreasuryStep::Withdraw(a, amount) => withdrawal_at(a, balance).spec_withdraw_fee(amount),
    }
}

/// The effects of a step: none when it is refused.
pub open spec fn step_effects(step: TreasuryStep, balance: int) -> Seq<EffectView> {
    match step_outcome(step, balance) {
        Ok(effects) => effects,
        Err(_) => seq![],
    }
}

/// What a step adds to the treasury: the fee of a sale, less the amount of a
/// withdrawal, nothing when it is refused.
pub open spec fn step_change(step: TreasuryStep, balance: int) -> int {
    if step_outcome(step, balance) is Ok {
        match step {
            TreasuryStep::Buy(a) => a.fee(),
            TreasuryStep::Accept(a) => a.fee(),
            TreasuryStep::Withdraw(_, amount) => -amount,
        }
    } else {
        0
    }
}

/// Whether a step goes through the treasury `treasury`, which is none of the
/// other accounts whose lamports it moves, of a well formed marketplace.
pub open spec fn step_through(step: TreasuryStep, treasury: Seq<u8>) -> bool {
    match step {
        TreasuryStep::Buy(a) => {
            &&& a.treasury@ == treasury
            &&& a.marketplace_data.wf()
            &&& treasury != a.taker@ && treasury != a.maker@
            &&& treasury != a.taker_ata@ && treasury != a.listing@
        },
        TreasuryStep::Accept(a) => {
            &&& a.treasury@ == treasury
            &&& a.marketplace_data.wf()
            &&& treasury != a.vault@ && treasury != a.maker@ && treasury != a.offer_maker@
            &&& treasury != a.offer_maker_ata@ && treasury != a.offer@ && treasury != a.listing@
        },
        TreasuryStep::Withdraw(a, _) => a.treasury@ == treasury && treasury != a.admin@,
    }
}

/// The lamports of each account after a run of steps, each withdrawal reading
/// the treasury's lamports as they are then.
pub open spec fn run_steps(
    steps: Seq<TreasuryStep>,
    treasury: Seq<u8>,
    balances: spec_fn(Seq<u8>) -> int,
    rent: spec_fn(u64) -> int,
) -> spec_fn(Seq<u8>) -> int
    decreases steps.len(),
{
    if steps.len() == 0 {
        balances
    } else {
        let before = run_steps(steps.drop_last(), treasury, balances, rent);
        lamports_after(step_effects(steps.last(), before(treasury)), before, rent)
    }
}

/// The fees paid in, less the amounts withdrawn, over a run of steps.
pub open spec fn treasury_ledger(
    steps: Seq<TreasuryStep>,
    treasury: Seq<u8>,
    balances: spec_fn(Seq<u8>) -> int,
    rent: spec_fn(u64) -> int,
) -> int
    decreases steps.len(),
{
    if steps.len() == 0 {
        0
    } else {
        let before = run_steps(steps.drop_last(), treasury, balances, rent);
        treasury_ledger(steps.drop_last(), treasury, balances, rent) + step_change(
            steps.last(),
            before(treasury),
        )
    }
}

/// All the fees that the sales of a run could pay in.
pub open spec fn sale_fees(steps: Seq<TreasuryStep>) -> int
    decreases steps.len(),
{
    if steps.len() == 0 {
        0
    } else {
        sale_fees(steps.drop_last()) + match steps.last() {
            TreasuryStep::Buy(a) => a.fee(),
            TreasuryStep::Accept(a) => a.fee(),
            TreasuryStep::Withdraw(_, _) => 0,
        }
    }
}

/// What one step does to the treasury: it adds the step's change, and a
/// withdrawal never takes more than the treasury holds.
proof fn lemma_treasury_step(
    step: TreasuryStep,
    treasury: Seq<u8>,
    before: spec_fn(Seq<u8>) -> int,
    rent: spec_fn(u64) -> int,
)
    requires
        step_through(step, treasury),
        0 <= before(treasury) <= u64::MAX,
    ensures
        lamports_after(step_effects(step, before(treasury)), before, rent)(treasury) == before(treasury)
            + step_change(step, before(treasury)),
        0 <= before(treasury) + step_change(step, before(treasury)),
        step_change(step, before(treasury)) <= match step {
            TreasuryStep::Buy(a) => a.fee(),
            TreasuryStep::Accept(a) => a.fee(),
            TreasuryStep::Withdraw(_, _) => 0,
        },
{
    let t = treasury;
    let bal = before(t);
    let effects = step_effects(step, bal);
    if step_outcome(step, bal) is Err {
        assert(effects =~= Seq::<EffectView>::empty());
        assert(lamports_after(effects, before, rent) == before);
    } else {
        match step {
            TreasuryStep::Buy(a) => {
                law_buy_settles_sale(a);
                lemma_fee_at_most_price(a.listed().price, a.marketplace_data.fee);
                lemma_buy_sum(a, payment_from(t));
                lemma_buy_sum(a, payment_to(t));
                assert forall|i: int| 0 <= i < effects.len() implies !touched_otherwise(#[trigger] effects[i], t) by {
                    lemma_buy_sum(a, payment_to(t));
                }
                lemma_lamports_by_payments(effects, before, rent, t);
            },
            TreasuryStep::Accept(a) => {
                law_accept_offer_settles_sale(a);
                lemma_fee_at_most_price(a.bid().price, a.marketplace_data.fee);
                lemma_accept_sum(a, payment_from(t));
                lemma_accept_sum(a, payment_to(t));
                assert forall|i: int| 0 <= i < effects.len() implies !touched_otherwise(#[trigger] effects[i], t) by {
                    lemma_accept_sum(a, payment_to(t));
                }
                lemma_lamports_by_payments(effects, before, rent, t);
            },
            TreasuryStep::Withdraw(a, amount) => {
                let w = withdrawal_at(a, bal);
                let e = w.payout_effects(amount);
                assert(e =~= seq![e[0]]);
                lemma_sum_over_one(e[0], payment_from(t));
                lemma_sum_over_one(e[0], payment_to(t));
                assert forall|i: int| 0 <= i < effects.len() implies !touched_otherwise(#[trigger] effects[i], t) by {}
                lemma_lamports_by_payments(effects, before, rent, t);
            },
        }
    }
}

/// Over any run of purchases, accepted offers and withdrawals through a
/// marketplace's treasury, the treasury holds what it held before, plus the
/// fees of the sales that went through, less the amounts of the withdrawals
/// that went through; it is never overdrawn. (This holds where the treasury is
/// none of the other accounts whose lamports the steps move, and where the
/// treasury's lamports with every fee paid in still fit in a `u64`, as every
/// account's lamports do.)
pub proof fn law_treasury_ledger(
    steps: Seq<TreasuryStep>,
    treasury: Seq<u8>,
    balances: spec_fn(Seq<u8>) -> int,
    rent: spec_fn(u64) -> int,
)
    requires
        forall|i: int| 0 <= i < steps.len() ==> step_through(#[trigger] steps[i], treasury),
        0 <= balances(treasury),
        balances(treasury) + sale_fees(steps) <= u64::MAX,
    ensures
        run_steps(steps, treasury, balances, rent)(treasury) == balances(treasury) + treasury_ledger(
            steps,
            treasury,
            balances,
            rent,
        ),
        0 <= run_steps(steps, treasury, balances, rent)(treasury) <= balances(treasury) + sale_fees(steps),
    decreases steps.len(),
{
    if steps.len() > 0 {
        let rest = steps.drop_last();
        let last = steps.last();
        assert(step_through(steps[steps.len() - 1], treasury));
        assert forall|i: int| 0 <= i < rest.len() implies step_through(#[trigger] rest[i], treasury) by {
            assert(rest[i] == steps[i]);
        }
        let fee_last = match last {
            TreasuryStep::Buy(a) => a.fee(),
            TreasuryStep::Accept(a) => a.fee(),
            TreasuryStep::Withdraw(_, _) => 0,
        };
        match last {
            TreasuryStep::Buy(a) => lemma_fee_at_most_price(a.listed().price, a.marketplace_data.fee),
            TreasuryStep::Accept(a) => lemma_fee_at_most_price(a.bid().price, a.marketplace_data.fee),
            TreasuryStep::Withdraw(_, _) => {},
        }
        assert(fee_last >= 0);
        law_treasury_ledger(rest, treasury, balances, rent);
        let before = run_steps(rest, treasury, balances, rent);
        lemma_treasury_step(last, treasury, before, rent);
    }
}

/// One call of an instruction of the program, with its accounts and arguments.
pub enum MarketStep {
    Initialize(InitializeAccount, String, u16),
    List(ListAcoounts, u64),
    Delist(DelistAccounts),
    Buy(BuyAccounts),
    MakeOffer(MakeOfferAccounts, u64),
    Accept(AcceptOfferAccounts),
    Withdraw(WithdrawFeeAccounts, u64),
}

/// The marketplace record that a ledger holds at `key`, if any.
pub open spec fn record_at(ledger: Map<Seq<u8>, MarketPlace>, key: Seq<u8>) -> Option<MarketPlace> {
    if ledger.dom().contains(key) {
        Some(ledger[key])
    } else {
        None
    }
}

/// The accounts of `initliaze` as the ledger has them: the marketplace
/// account holds what the ledger records at its address.
pub open spec fn initialize_in(a: InitializeAccount, ledger: Map<Seq<u8>, MarketPlace>) -> InitializeAccount {
    InitializeAccount { marketplace_data: record_at(ledger, a.marketplace@), ..a }
}

/// What a step gives back on a ledger: an instruction that reads a
/// marketplace reads the ledger's record, and is refused where there is none.
pub open spec fn market_step_outcome(
    step: MarketStep,
    ledger: Map<Seq<u8>, MarketPlace>,
) -> Result<Seq<EffectView>, MarketError> {
    let missing = Err(MarketError::AccountNotInitialized);
    match step {
        MarketStep::Initialize(a, name, fee) => initialize_in(a, ledger).spec_initliaze(name@, fee),
        MarketStep::List(a, _) => a.spec_list(),
        MarketStep::MakeOffer(a, price) => a.spec_maker_offer(price),
        MarketStep::Delist(a) => if ledger.dom().contains(a.marketplace@) {
            DelistAccounts { marketplace_data: ledger[a.marketplace@], ..a }.spec_delist()
        } else {
            missing
        },
        MarketStep::Buy(a) => if ledger.dom().contains(a.marketplace@) {
            BuyAccounts { marketplace_data: ledger[a.marketplace@], ..a }.spec_buy()
        } else {
            missing
        },
        MarketStep::Accept(a) => if ledger.dom().contains(a.marketplace@) {
            AcceptOfferAccounts { marketplace_data: ledger[a.marketplace@], ..a }.spec_accept_offer()
        } else {
            missing
        },
        MarketStep::Withdraw(a, amount) => if ledger.dom().contains(a.marketplace@) {
            WithdrawFeeAccounts { marketplace_data: ledger[a.marketplace@], ..a }.spec_withdraw_fee(amount)
        } else {
            missing
        },
    }
}

/// The marketplace that a step records where it succeeds as an `initliaze`.
pub open spec fn initialized_record(step: MarketStep, ledger: Map<Seq<u8>, MarketPlace>) -> MarketPlace
    recommends
        step is Initialize,
{
    match step {
        MarketStep::Initialize(a, name, fee) => {
            let seen = initialize_in(a, ledger);
            seen.new_marketplace(name, fee, seen.spec_validate(name@)->Ok_0)
        },
        _ => arbitrary(),
    }
}

/// Whether a step is an `initliaze` of the marketplace at `key` that succeeds
/// on the ledger.
pub open spec fn initializes(step: MarketStep, ledger: Map<Seq<u8>, MarketPlace>, key: Seq<u8>) -> bool {
    &&& step matches MarketStep::Initialize(a, _, _) && a.marketplace@ == key
    &&& market_step_outcome(step, ledger) is Ok
}

/// The ledger after a step: a successful `initliaze` records its marketplace;
/// any other successful step only forgets the accounts that it closes.
pub open spec fn ledger_after(step: MarketStep, ledger: Map<Seq<u8>, MarketPlace>) -> Map<Seq<u8>, MarketPlace> {
    match market_step_outcome(step, ledger) {
        Err(_) => ledger,
        Ok(effects) => match step {
            MarketStep::Initialize(a, _, _) => ledger.insert(a.marketplace@, initialized_record(step, ledger)),
            _ => Map::new(|k: Seq<u8>| ledger.dom().contains(k) && !closed_by(effects, k), |k: Seq<u8>| ledger[k]),
        },
    }
}

/// The marketplace records after a run of steps from a ledger without any.
pub open spec fn run_ledger(steps: Seq<MarketStep>) -> Map<Seq<u8>, MarketPlace>
    decreases steps.len(),
{
    if steps.len() == 0 {
        Map::empty()
    } else {
        ledger_after(steps.last(), run_ledger(steps.drop_last()))
    }
}

/// Whether the `i`th step of a run initialises the marketplace at `key`.
pub open spec fn initializes_in_run(steps: Seq<MarketStep>, i: int, key: Seq<u8>) -> bool {
    0 <= i < steps.len() && initializes(steps[i], run_ledger(steps.take(i)), key)
}

/// The marketplace that the `i`th step of a run records.
pub open spec fn record_of_run(steps: Seq<MarketStep>, i: int) -> MarketPlace {
    initialized_record(steps[i], run_ledger(steps.take(i)))
}

/// What a step does to the ledger's record at `key`: only a successful
/// `initliaze` at `key` writes it, and only where there was no record.
proof fn lemma_ledger_step(step: MarketStep, ledger: Map<Seq<u8>, MarketPlace>, key: Seq<u8>)
    ensures
        initializes(step, ledger, key) ==> {
            &&& !ledger.dom().contains(key)
            &&& ledger_after(step, ledger).dom().contains(key)
            &&& ledger_after(step, ledger)[key] == initialized_record(step, ledger)
            &&& initialized_record(step, ledger).wf()
        },
        !initializes(step, ledger, key) && ledger_after(step, ledger).dom().contains(key) ==> {
            &&& ledger.dom().contains(key)
            &&& ledger_after(step, ledger)[key] == ledger[key]
        },
{
    match market_step_outcome(step, ledger) {
        Err(_) => {},
        Ok(effects) => match step {
            MarketStep::Initialize(a, name, fee) => {
                let seen = initialize_in(a, ledger);
                assert(seen.spec_validate(name@) is Ok);
            },
            _ => {},
        },
    }
}

/// Marketplaces are never rewritten: over any run of the program's
/// instructions from a ledger without marketplaces, every marketplace that the
/// ledger holds has a fee of at most `MAX_FEE_BPS`, and is exactly what the
/// `initliaze` that created it recorded (the admin, fee and name it was given):
/// no later step initialises it again, and no step writes it otherwise.
pub proof fn law_marketplaces_never_rewritten(steps: Seq<MarketStep>)
    ensures
        forall|key: Seq<u8>| #[trigger] run_ledger(steps).dom().contains(key) ==> {
            &&& run_ledger(steps)[key].wf()
            &&& exists|i: int| {
                &&& #[trigger] initializes_in_run(steps, i, key)
                &&& run_ledger(steps)[key] == record_of_run(steps, i)
                &&& forall|j: int| i < j < steps.len() ==> !initializes_in_run(steps, j, key)
            }
        },
    decreases steps.len(),
{
    if steps.len() > 0 {
        let n = steps.len() - 1;
        let rest = steps.drop_last();
        let before = run_ledger(rest);
        law_marketplaces_never_rewritten(rest);
        assert(steps.take(n) =~= rest);
        assert forall|i: int| 0 <= i < n implies #[trigger] steps.take(i) == rest.take(i) && steps[i] == rest[i] by {
            assert(steps.take(i) =~= rest.take(i));
        }
        assert forall|key: Seq<u8>| #[trigger] run_ledger(steps).dom().contains(key) implies {
            &&& run_ledger(steps)[key].wf()
            &&& exists|i: int| {
                &&& #[trigger] initializes_in_run(steps, i, key)
                &&& run_ledger(steps)[key] == record_of_run(steps, i)
                &&& forall|j: int| i < j < steps.len() ==> !initializes_in_run(steps, j, key)
            }
        } by {
            lemma_ledger_step(steps.last(), before, key);
            if initializes(steps.last(), before, key) {
                assert(initializes_in_run(steps, n, key));
            } else {
                assert(before.dom().contains(key));
                let i = choose|i: int| {
                    &&& #[trigger] initializes_in_run(rest, i, key)
                    &&& before[key] == record_of_run(rest, i)
                    &&& forall|j: int| i < j < rest.len() ==> !initializes_in_run(rest, j, key)
                };
                assert(steps.take(i) == rest.take(i) && steps[i] == rest[i]);
                assert(initializes_in_run(steps, i, key));
                assert forall|j: int| i < j < steps.len() implies !initializes_in_run(steps, j, key) by {
                    if j < n {
                        assert(steps.take(j) == rest.take(j) && steps[j] == rest[j]);
                        assert(!initializes_in_run(rest, j, key));
                    }
                }
            }
        }
    }
}

} // verus!
