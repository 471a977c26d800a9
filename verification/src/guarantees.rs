//! What each instruction guarantees, stated over its accounts alone: which
//! calls it admits, and that what it has the runtime do is paid for, owned
//! and signed for by the right accounts.
use vstd::prelude::*;
use vstd::utf8::encode_utf8;
use crate::core_transfer::moves_asset;
use crate::effects::EffectView;
use crate::error::MarketError;
use crate::fee::{MAX_FEE_BPS, sale_fee};
use crate::instructions::buy::BuyAccounts;
use crate::instructions::delist::DelistAccounts;
use crate::instructions::initialize::InitializeAccount;
use crate::instructions::list::ListAcoounts;
use crate::instructions::offer::{AcceptOfferAccounts, MakeOfferAccounts};
use crate::instructions::withdraw::WithdrawFeeAccounts;
use crate::pda::{
    ASSOCIATED_TOKEN_PROGRAM_ID, MAX_SEED_LEN, MPL_CORE_PROGRAM_ID, PROGRAM_ID, SYSTEM_PROGRAM_ID,
    TOKEN_PROGRAM_ID, listing_seeds, marketplace_address, marketplace_seeds, offer_seeds,
    program_address, reward_mint_seeds, token_account_seeds, treasury_seeds, vault_seeds, with_bump,
};
use crate::state::{LISTING_SPACE, MARKETPLACE_SPACE, MINT_SPACE, OFFER_SPACE, REWARD_DECIMALS};

verus! {

/// Whether `seeds`, a one-byte bump last, are seeds with which this program
/// signs for `account`: without the bump they derive `account`, with that bump.
pub open spec fn signs_for(seeds: Seq<Seq<u8>>, account: Seq<u8>) -> bool {
    &&& seeds.len() > 0
    &&& seeds.last().len() == 1
    &&& program_address(seeds.drop_last(), PROGRAM_ID@) == Some((account, seeds.last()[0]))
}

/// Seeds with a bump sign for the account that they derive with that bump.
pub proof fn lemma_signs_for(seeds: Seq<Seq<u8>>, bump: u8, account: Seq<u8>)
    ensures
        signs_for(with_bump(seeds, bump), account) <==> program_address(seeds, PROGRAM_ID@) == Some((account, bump)),
{
    assert(with_bump(seeds, bump).drop_last() =~= seeds);
}

/// Whether `seeds` derive the address `key` under `program`, with whatever bump.
pub open spec fn derived_at(seeds: Seq<Seq<u8>>, program: Seq<u8>, key: Seq<u8>) -> bool {
    program_address(seeds, program) matches Some((address, _)) && address == key
}

/// Every payment out of `account` among the effects is signed for by `account`.
pub open spec fn payments_signed_for(effects: Seq<EffectView>, account: Seq<u8>) -> bool {
    forall|i: int|
        0 <= i < effects.len() && #[trigger] effects[i] is Pay && effects[i]->Pay_from == account
            ==> signs_for(effects[i]->Pay_signer_seeds, account)
}

/// Every invocation among the effects hands `asset` from `holder` to
/// `new_owner`, and the program signs for `holder`.
pub open spec fn hand_overs_signed_for(
    effects: Seq<EffectView>,
    asset: Seq<u8>,
    holder: Seq<u8>,
    new_owner: Seq<u8>,
) -> bool {
    forall|i: int|
        0 <= i < effects.len() && #[trigger] effects[i] is Invoke ==> {
            &&& moves_asset(effects[i]->Invoke_instruction, asset, holder, new_owner)
            &&& signs_for(effects[i]->Invoke_signer_seeds, holder)
        }
}

/// Every reward mint among the effects mints tokens of `mint` into `to` with
/// the authority of `marketplace`, which the program signs for.
pub open spec fn mints_signed_for_marketplace(
    effects: Seq<EffectView>,
    mint: Seq<u8>,
    to: Seq<u8>,
    marketplace: Seq<u8>,
) -> bool {
    forall|i: int|
        0 <= i < effects.len() && #[trigger] effects[i] is MintReward ==> {
            &&& effects[i]->MintReward_mint == mint
            &&& effects[i]->MintReward_to == to
            &&& effects[i]->MintReward_authority == marketplace
            &&& signs_for(effects[i]->MintReward_signer_seeds, marketplace)
        }
}

/// A withdrawal goes through whenever the marketplace's own admin signs, the
/// marketplace and its treasury are at their addresses with the bumps the
/// marketplace keeps, and the treasury holds at least `amount`: then exactly
/// `amount` is paid, from the treasury, signed for by the treasury, to the
/// admin, and nothing else happens.
pub proof fn law_withdrawal_pays_any_covered_amount(a: WithdrawFeeAccounts, amount: u64)
    requires
        a.admin_is_signer,
        a.system_program@ == SYSTEM_PROGRAM_ID@,
        marketplace_address(a.marketplace_data.name@) == Some((a.marketplace@, a.marketplace_data.bump)),
        a.marketplace_data.admin@ == a.admin@,
        program_address(treasury_seeds(a.marketplace@), PROGRAM_ID@) == Some(
            (a.treasury@, a.marketplace_data.treasury_bump),
        ),
        amount <= a.treasury_lamports,
    ensures
        a.spec_withdraw_fee(amount) is Ok,
        ({
            let e = a.spec_withdraw_fee(amount)->Ok_0;
            &&& e.len() == 1
            &&& e[0] matches EffectView::Pay { from, to, lamports, signer_seeds }
                && from == a.treasury@ && to == a.admin@ && lamports == amount
                && signs_for(signer_seeds, a.treasury@)
        }),
{
    lemma_signs_for(treasury_seeds(a.marketplace@), a.marketplace_data.treasury_bump, a.treasury@);
}

/// A marketplace is created whenever its admin signs, the programs are the
/// token and system programs, its name fits in a seed (at most
/// `MAX_SEED_LEN` bytes), and the marketplace, treasury and reward mint
/// accounts are fresh at their addresses: for a fee of at most `MAX_FEE_BPS`
/// the admin pays for the marketplace account, owned by this program and
/// signed for by the marketplace, and for the reward mint, owned by the token
/// program, signed for by the mint, and initialised with `REWARD_DECIMALS`
/// and the marketplace as its authority; the marketplace records the admin,
/// the fee, the name and the bumps of its accounts. A larger fee is refused.
pub proof fn law_initialize_admits_a_fresh_marketplace(
    a: InitializeAccount,
    name: String,
    fee: u16,
    marketplace_bump: u8,
    treasury_bump: u8,
    mint_bump: u8,
)
    requires
        a.admin_is_signer,
        a.token_program@ == TOKEN_PROGRAM_ID@,
        a.system_program@ == SYSTEM_PROGRAM_ID@,
        a.marketplace_data is None,
        encode_utf8(name@).len() <= MAX_SEED_LEN,
        program_address(marketplace_seeds(name@), PROGRAM_ID@) == Some((a.marketplace@, marketplace_bump)),
        program_address(treasury_seeds(a.marketplace@), PROGRAM_ID@) == Some((a.treasury@, treasury_bump)),
        program_address(reward_mint_seeds(a.marketplace@), PROGRAM_ID@) == Some((a.reward_mint@, mint_bump)),
    ensures
        fee <= MAX_FEE_BPS ==> a.spec_initliaze(name@, fee) is Ok,
        fee <= MAX_FEE_BPS ==> ({
            let e = a.spec_initliaze(name@, fee)->Ok_0;
            &&& e.len() == 3
            &&& e[0] matches EffectView::CreateAccount { payer, account, space, owner, signer_seeds }
                && payer == a.admin@ && account == a.marketplace@ && space == MARKETPLACE_SPACE
                && owner == PROGRAM_ID@ && signs_for(signer_seeds, a.marketplace@)
            &&& e[1] matches EffectView::CreateAccount { payer, account, space, owner, signer_seeds }
                && payer == a.admin@ && account == a.reward_mint@ && space == MINT_SPACE
                && owner == TOKEN_PROGRAM_ID@ && signs_for(signer_seeds, a.reward_mint@)
            &&& e[2] == (EffectView::InitializeMint {
                mint: a.reward_mint@,
                decimals: REWARD_DECIMALS,
                authority: a.marketplace@,
            })
        }),
        fee > MAX_FEE_BPS ==> a.spec_initliaze(name@, fee) == Err::<Seq<EffectView>, MarketError>(
            MarketError::InvalidFee,
        ),
        a.spec_validate(name@) is Ok,
        ({
            let m = a.new_marketplace(name, fee, a.spec_validate(name@)->Ok_0);
            &&& m.admin == a.admin
            &&& m.fee == fee
            &&& m.name == name
            &&& m.bump == marketplace_bump
            &&& m.treasury_bump == treasury_bump
            &&& m.rewards_bump == mint_bump
        }),
{
    lemma_signs_for(marketplace_seeds(name@), marketplace_bump, a.marketplace@);
    lemma_signs_for(reward_mint_seeds(a.marketplace@), mint_bump, a.reward_mint@);
}

/// In a purchase, the taker, who signs, pays with its own signature; the
/// listing hands the asset over to the taker and the program signs for the
/// listing, its owner; the reward is minted from the reward mint into the
/// taker's token account with the marketplace's signature, the mint's authority.
pub proof fn law_buy_is_signed_for(a: BuyAccounts)
    ensures
        a.spec_buy() matches Ok(e) ==> {
            &&& a.taker_is_signer
            &&& hand_overs_signed_for(e, a.asset@, a.listing@, a.taker@)
            &&& mints_signed_for_marketplace(e, a.reward_mint@, a.taker_ata@, a.marketplace@)
            &&& forall|i: int| 0 <= i < e.len() && #[trigger] e[i] is Pay ==> e[i]->Pay_from == a.taker@
                && e[i]->Pay_signer_seeds == Seq::<Seq<u8>>::empty()
        },
{
    if a.spec_buy() is Ok {
        let e = a.buy_effects();
        lemma_signs_for(listing_seeds(a.asset@), a.listed().bump, a.listing@);
        lemma_signs_for(marketplace_seeds(a.marketplace_data.name@), a.marketplace_data.bump, a.marketplace@);
        assert(e =~= a.token_account_effects() + a.payment_effects() + a.asset_effects() + a.reward_effects()
            + seq![EffectView::Close { account: a.listing@, rent_to: a.maker@ }]);
    }
}

/// In an accepted offer, both the offer maker and the maker sign; every
/// payment out of the vault is signed for by the vault; the listing hands the
/// asset over to the offer maker, signed for by the listing; the reward is
/// minted from the reward mint into the offer maker's token account with the
/// marketplace's signature, the mint's authority.
pub proof fn law_accept_offer_is_signed_for(a: AcceptOfferAccounts)
    ensures
        a.spec_accept_offer() matches Ok(e) ==> {
            &&& a.offer_maker_is_signer && a.maker_is_signer
            &&& payments_signed_for(e, a.vault@)
            &&& forall|i: int| 0 <= i < e.len() && #[trigger] e[i] is Pay ==> e[i]->Pay_from == a.vault@
            &&& hand_overs_signed_for(e, a.asset@, a.listing@, a.offer_maker@)
            &&& mints_signed_for_marketplace(e, a.reward_mint@, a.offer_maker_ata@, a.marketplace@)
        },
{
    if a.spec_accept_offer() is Ok {
        let e = a.accept_effects();
        lemma_signs_for(vault_seeds(a.offer@), a.bid().vault_bump, a.vault@);
        lemma_signs_for(listing_seeds(a.asset@), a.listed().bump, a.listing@);
        lemma_signs_for(marketplace_seeds(a.marketplace_data.name@), a.marketplace_data.bump, a.marketplace@);
        assert(e =~= a.token_account_effects() + a.payment_effects() + a.asset_effects() + a.reward_effects()
            + seq![
            EffectView::Close { account: a.offer@, rent_to: a.offer_maker@ },
            EffectView::Close { account: a.listing@, rent_to: a.maker@ },
        ]);
    }
}

/// A delisting has the maker sign, and the listing hands the asset back to
/// the maker, signed for by the listing.
pub proof fn law_delist_is_signed_for(a: DelistAccounts)
    ensures
        a.spec_delist() matches Ok(e) ==> a.maker_is_signer && hand_overs_signed_for(e, a.asset@, a.listing@, a.maker@),
{
    if a.spec_delist() is Ok {
        lemma_signs_for(listing_seeds(a.asset@), a.listing_data->Some_0.bump, a.listing@);
    }
}

/// A bid creates the offer account, paid for by the buyer, who signs, of
/// `OFFER_SPACE` bytes, owned by this program and signed for by the offer;
/// then the buyer pays exactly the bid into the vault with its own signature.
/// The offer records the buyer, the listing, the bid and the bumps with which
/// the offer and the vault derive their own addresses.
pub proof fn law_maker_offer_creates_a_program_account(a: MakeOfferAccounts, price: u64)
    ensures
        a.spec_maker_offer(price) matches Ok(e) ==> {
            &&& a.buyer_is_signer
            &&& e.len() == 2
            &&& e[0] matches EffectView::CreateAccount { payer, account, space, owner, signer_seeds }
                && payer == a.buyer@ && account == a.offer@ && space == OFFER_SPACE && owner == PROGRAM_ID@
                && signs_for(signer_seeds, a.offer@)
            &&& e[1] == (EffectView::Pay {
                from: a.buyer@,
                to: a.vault@,
                lamports: price,
                signer_seeds: Seq::<Seq<u8>>::empty(),
            })
            &&& a.new_offer(price, a.spec_validate()->Ok_0).offer_maker == a.buyer
            &&& a.new_offer(price, a.spec_validate()->Ok_0).listing == a.listing
            &&& a.new_offer(price, a.spec_validate()->Ok_0).price == price
            &&& program_address(offer_seeds(a.listing@, a.buyer@), PROGRAM_ID@) == Some(
                (a.offer@, a.new_offer(price, a.spec_validate()->Ok_0).bump),
            )
            &&& program_address(vault_seeds(a.offer@), PROGRAM_ID@) == Some(
                (a.vault@, a.new_offer(price, a.spec_validate()->Ok_0).vault_bump),
            )
        },
{
    if a.spec_maker_offer(price) is Ok {
        let bumps = a.spec_validate()->Ok_0;
        lemma_signs_for(offer_seeds(a.listing@, a.buyer@), bumps.offer, a.offer@);
        let e = a.offer_effects(price, bumps);
        assert(e =~= a.creation_effects(bumps) + a.escrow_effects(price));
    }
}

/// A listing creates the listing account, paid for by the maker, who signs,
/// of `LISTING_SPACE` bytes, owned by this program and signed for by the
/// listing; then the maker, with its own signature, hands the asset to the
/// listing. The listing records the maker, the asset, the price and the bump
/// with which the listing derives its own address.
pub proof fn law_list_creates_a_program_account(a: ListAcoounts, price: u64)
    ensures
        a.spec_list() is Ok ==> {
            let l = a.new_listing(price, a.spec_validate()->Ok_0);
            &&& l.maker == a.maker && l.asset == a.asset && l.price == price
            &&& program_address(listing_seeds(a.asset@), PROGRAM_ID@) == Some((a.listing@, l.bump))
        },
        a.spec_list() matches Ok(e) ==> {
            &&& a.maker_is_signer
            &&& e.len() == 2
            &&& e[0] matches EffectView::CreateAccount { payer, account, space, owner, signer_seeds }
                && payer == a.maker@ && account == a.listing@ && space == LISTING_SPACE && owner == PROGRAM_ID@
                && signs_for(signer_seeds, a.listing@)
            &&& e[1] matches EffectView::Invoke { instruction, signer_seeds }
                && moves_asset(instruction, a.asset@, a.maker@, a.listing@)
                && signer_seeds == Seq::<Seq<u8>>::empty()
        },
{
    if a.spec_list() is Ok {
        let bumps = a.spec_validate()->Ok_0;
        lemma_signs_for(listing_seeds(a.asset@), bumps.listing, a.listing@);
        let e = a.listing_effects(bumps);
        assert(e =~= a.creation_effects(bumps) + a.list_effects());
    }
}

/// The fee counts only whole ten-thousandths of the price: below 10,000
/// lamports there is no fee, and each further 10,000 lamports of price adds
/// exactly `fee_bps` lamports of fee; at `MAX_FEE_BPS` the fee is the price
/// less what is left over from the last whole ten-thousandth.
pub proof fn law_fee_grows_by_whole_ten_thousandths(price: u64, fee_bps: u16)
    ensures
        price < 10_000 ==> sale_fee(price, fee_bps) == 0,
        price + 10_000 <= u64::MAX ==> sale_fee((price + 10_000) as u64, fee_bps) == sale_fee(price, fee_bps) + fee_bps,
        sale_fee(price, MAX_FEE_BPS) == price - price % 10_000,
{
    let q = price / 10_000;
    if price < 10_000 {
        assert(q == 0);
        assert(q * fee_bps == 0);
    }
    assert(q * 10_000 + price % 10_000 == price);
    if price + 10_000 <= u64::MAX {
        assert(((price + 10_000) as u64) / 10_000 == q + 1);
        assert((q + 1) * fee_bps == q * fee_bps + fee_bps) by (nonlinear_arith);
    }
}

/// A purchase is admitted exactly when the taker signs, the listing exists
/// and was made by `maker`, the programs are the right ones, and every
/// account is where it must be: the marketplace at the address of its name,
/// the listing at its asset's listing address (both with the bumps they
/// keep), the treasury and reward mint at the marketplace's addresses, and
/// the taker's reward token account at its associated address.
pub proof fn law_buy_admits_exactly(a: BuyAccounts)
    ensures
        a.spec_buy() is Ok <==> {
            &&& a.taker_is_signer
            &&& a.listing_data is Some
            &&& a.listing_data->Some_0.maker@ == a.maker@
            &&& a.associated_token_program@ == ASSOCIATED_TOKEN_PROGRAM_ID@
            &&& a.token_program@ == TOKEN_PROGRAM_ID@
            &&& a.system_program@ == SYSTEM_PROGRAM_ID@
            &&& a.mpl_core_program@ == MPL_CORE_PROGRAM_ID@
            &&& marketplace_address(a.marketplace_data.name@) == Some((a.marketplace@, a.marketplace_data.bump))
            &&& program_address(listing_seeds(a.asset@), PROGRAM_ID@) == Some(
                (a.listing@, a.listing_data->Some_0.bump),
            )
            &&& derived_at(treasury_seeds(a.marketplace@), PROGRAM_ID@, a.treasury@)
            &&& derived_at(reward_mint_seeds(a.marketplace@), PROGRAM_ID@, a.reward_mint@)
            &&& derived_at(token_account_seeds(a.taker@, a.reward_mint@), ASSOCIATED_TOKEN_PROGRAM_ID@, a.taker_ata@)
        },
{
}

/// An offer is accepted exactly when the offer maker and the maker both
/// sign, the offer exists and was made by the offer maker, the listing
/// exists and was made by `maker`, the programs are the right ones, and every
/// account is where it must be: the offer at the address of the listing and
/// the offer maker, the vault at the offer's address with the bump the offer
/// keeps, the marketplace and the listing at their addresses with the bumps
/// they keep, the treasury and reward mint at the marketplace's addresses,
/// and the offer maker's reward token account at its associated address.
pub proof fn law_accept_offer_admits_exactly(a: AcceptOfferAccounts)
    ensures
        a.spec_accept_offer() is Ok <==> {
            &&& a.offer_maker_is_signer && a.maker_is_signer
            &&& a.offer_data is Some && a.listing_data is Some
            &&& a.offer_data->Some_0.offer_maker@ == a.offer_maker@
            &&& a.listing_data->Some_0.maker@ == a.maker@
            &&& a.associated_token_program@ == ASSOCIATED_TOKEN_PROGRAM_ID@
            &&& a.token_program@ == TOKEN_PROGRAM_ID@
            &&& a.system_program@ == SYSTEM_PROGRAM_ID@
            &&& a.mpl_core_program@ == MPL_CORE_PROGRAM_ID@
            &&& derived_at(offer_seeds(a.listing@, a.offer_maker@), PROGRAM_ID@, a.offer@)
            &&& program_address(vault_seeds(a.offer@), PROGRAM_ID@) == Some(
                (a.vault@, a.offer_data->Some_0.vault_bump),
            )
            &&& marketplace_address(a.marketplace_data.name@) == Some((a.marketplace@, a.marketplace_data.bump))
            &&& program_address(listing_seeds(a.asset@), PROGRAM_ID@) == Some(
                (a.listing@, a.listing_data->Some_0.bump),
            )
            &&& derived_at(treasury_seeds(a.marketplace@), PROGRAM_ID@, a.treasury@)
            &&& derived_at(reward_mint_seeds(a.marketplace@), PROGRAM_ID@, a.reward_mint@)
            &&& derived_at(
                token_account_seeds(a.offer_maker@, a.reward_mint@),
                ASSOCIATED_TOKEN_PROGRAM_ID@,
                a.offer_maker_ata@,
            )
        },
{
}

/// A delisting is admitted exactly when the maker signs, the listing exists
/// and was made by the maker, the programs are the right ones, and the
/// marketplace and the listing are at their addresses with the bumps they keep.
pub proof fn law_delist_admits_exactly(a: DelistAccounts)
    ensures
        a.spec_delist() is Ok <==> {
            &&& a.maker_is_signer
            &&& a.listing_data is Some
            &&& a.listing_data->Some_0.maker@ == a.maker@
            &&& a.system_program@ == SYSTEM_PROGRAM_ID@
            &&& a.mpl_core_program@ == MPL_CORE_PROGRAM_ID@
            &&& marketplace_address(a.marketplace_data.name@) == Some((a.marketplace@, a.marketplace_data.bump))
            &&& program_address(listing_seeds(a.asset@), PROGRAM_ID@) == Some(
                (a.listing@, a.listing_data->Some_0.bump),
            )
        },
{
}

/// A listing is admitted, at any price, exactly when the maker signs, the
/// programs are the right ones and the listing account is fresh at its
/// asset's listing address.
pub proof fn law_list_admits_exactly(a: ListAcoounts)
    ensures
        a.spec_list() is Ok <==> {
            &&& a.maker_is_signer
            &&& a.listing_data is None
            &&& a.system_program@ == SYSTEM_PROGRAM_ID@
            &&& a.mpl_core_program@ == MPL_CORE_PROGRAM_ID@
            &&& derived_at(listing_seeds(a.asset@), PROGRAM_ID@, a.listing@)
        },
{
}

/// A bid is admitted, at any price, exactly when the buyer signs, the listing
/// exists at its asset's listing address, the system program is the right
/// one, and the offer is fresh at the address of the listing and the buyer,
/// with its vault at the offer's address.
pub proof fn law_maker_offer_admits_exactly(a: MakeOfferAccounts, price: u64)
    ensures
        a.spec_maker_offer(price) is Ok <==> {
            &&& a.buyer_is_signer
            &&& a.listing_data is Some
            &&& a.offer_data is None
            &&& a.system_program@ == SYSTEM_PROGRAM_ID@
            &&& derived_at(offer_seeds(a.listing@, a.buyer@), PROGRAM_ID@, a.offer@)
            &&& derived_at(vault_seeds(a.offer@), PROGRAM_ID@, a.vault@)
            &&& derived_at(listing_seeds(a.listing_data->Some_0.asset@), PROGRAM_ID@, a.listing@)
        },
{
}

/// A withdrawal is admitted exactly when the marketplace's own admin signs,
/// the system program is the right one, the marketplace and its treasury are
/// at their addresses with the bumps the marketplace keeps, and the treasury
/// holds at least the amount.
pub proof fn law_withdraw_admits_exactly(a: WithdrawFeeAccounts, amount: u64)
    ensures
        a.spec_withdraw_fee(amount) is Ok <==> {
            &&& a.admin_is_signer
            &&& a.marketplace_data.admin@ == a.admin@
            &&& a.system_program@ == SYSTEM_PROGRAM_ID@
            &&& marketplace_address(a.marketplace_data.name@) == Some((a.marketplace@, a.marketplace_data.bump))
            &&& program_address(treasury_seeds(a.marketplace@), PROGRAM_ID@) == Some(
                (a.treasury@, a.marketplace_data.treasury_bump),
            )
            &&& amount <= a.treasury_lamports
        },
{
}

/// A marketplace is created exactly when its admin signs, the programs are
/// the right ones, the marketplace account is fresh at the address of its
/// name (which fits in a seed), the treasury and reward mint are at the
/// marketplace's addresses, and the fee is at most `MAX_FEE_BPS`.
pub proof fn law_initialize_admits_exactly(a: InitializeAccount, name: String, fee: u16)
    ensures
        a.spec_initliaze(name@, fee) is Ok <==> {
            &&& a.admin_is_signer
            &&& a.token_program@ == TOKEN_PROGRAM_ID@
            &&& a.system_program@ == SYSTEM_PROGRAM_ID@
            &&& a.marketplace_data is None
            &&& encode_utf8(name@).len() <= MAX_SEED_LEN
            &&& derived_at(marketplace_seeds(name@), PROGRAM_ID@, a.marketplace@)
            &&& derived_at(treasury_seeds(a.marketplace@), PROGRAM_ID@, a.treasury@)
            &&& derived_at(reward_mint_seeds(a.marketplace@), PROGRAM_ID@, a.reward_mint@)
            &&& fee <= MAX_FEE_BPS
        },
{
}

} // verus!
