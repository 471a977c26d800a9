use solana_nft_marketplace::address::Address;
use solana_nft_marketplace::effects::Effect;
use solana_nft_marketplace::error::MarketError;
use solana_nft_marketplace::pda::{
    find_listing_address, find_marketplace_address, find_offer_address, find_reward_mint_address,
    find_token_account_address, find_treasury_address, find_vault_address,
    ASSOCIATED_TOKEN_PROGRAM_ID, MPL_CORE_PROGRAM_ID, SYSTEM_PROGRAM_ID, TOKEN_PROGRAM_ID,
};
use solana_nft_marketplace::state::{Listing, MarketPlace, Offer};
use solana_nft_marketplace::{
    accept_offer, buy, delist, initliaze, list, maker_offer, withdraw_fee, AcceptOfferAccounts,
    BuyAccounts, DelistAccounts, InitializeAccount, ListAcoounts, MakeOfferAccounts,
    WithdrawFeeAccounts,
};

const PRICE: u64 = 1_000_000_000; // 1 SOL

fn wallet(n: u8) -> Address {
    Address::new([n; 32])
}

fn derived(found: Option<(Address, u8)>) -> Address {
    found.unwrap().0
}

fn init_accounts(admin: Address, name: &str) -> InitializeAccount {
    let marketplace = derived(find_marketplace_address(&name.to_string()));
    InitializeAccount {
        admin,
        admin_is_signer: true,
        marketplace,
        marketplace_data: None,
        treasury: derived(find_treasury_address(&marketplace)),
        reward_mint: derived(find_reward_mint_address(&marketplace)),
        token_program: Address::new(TOKEN_PROGRAM_ID),
        system_program: Address::new(SYSTEM_PROGRAM_ID),
    }
}

// Create a marketplace owned by `admin` (fee = 250 bps); returns its address and data.
fn init_market(admin: Address, name: &str) -> (Address, MarketPlace) {
    let mut accounts = init_accounts(admin, name);
    initliaze(&mut accounts, name.to_string(), 250).unwrap();
    (accounts.marketplace, accounts.marketplace_data.unwrap())
}

// List `asset` (owned by `maker`) at `price`; returns the listing address and data.
fn list_asset(maker: Address, asset: Address, price: u64) -> (Address, Listing) {
    let mut accounts = ListAcoounts {
        maker,
        maker_is_signer: true,
        asset,
        collection: None,
        listing: derived(find_listing_address(&asset)),
        listing_data: None,
        mpl_core_program: Address::new(MPL_CORE_PROGRAM_ID),
        system_program: Address::new(SYSTEM_PROGRAM_ID),
    };
    list(&mut accounts, price).unwrap();
    (accounts.listing, accounts.listing_data.unwrap())
}

fn offer_accounts(buyer: Address, listing: Address, listing_data: Listing) -> MakeOfferAccounts {
    let offer = derived(find_offer_address(&listing, &buyer));
    MakeOfferAccounts {
        buyer,
        buyer_is_signer: true,
        offer,
        offer_data: None,
        vault: derived(find_vault_address(&offer)),
        listing,
        listing_data: Some(listing_data),
        system_program: Address::new(SYSTEM_PROGRAM_ID),
    }
}

fn withdraw_accounts(admin: Address, name: &str, treasury_lamports: u64) -> WithdrawFeeAccounts {
    let (marketplace, marketplace_data) = init_market(wallet(1), name);
    WithdrawFeeAccounts {
        admin,
        admin_is_signer: true,
        marketplace,
        marketplace_data,
        treasury: derived(find_treasury_address(&marketplace)),
        treasury_lamports,
        system_program: Address::new(SYSTEM_PROGRAM_ID),
    }
}

#[test]
fn initialize_ok() {
    let admin = wallet(1);
    let name = "test-market";
    let mut accounts = init_accounts(admin, name);

    initliaze(&mut accounts, name.into(), 250).unwrap();

    // Marketplace account holds the supplied config.
    let mp = accounts.marketplace_data.unwrap();
    assert_eq!(mp.admin.to_bytes(), admin.to_bytes());
    assert_eq!(mp.fee, 250);
    assert_eq!(mp.name, name);
}

#[test]
fn initialize_rejects_fee_over_max() {
    let admin = wallet(1);
    let name = "bad-fee";
    let mut accounts = init_accounts(admin, name);

    // fee > 10_000 trips the InvalidFee guard.
    let res = initliaze(&mut accounts, name.into(), 10_001);
    assert!(res.is_err());
    assert!(matches!(res, Err(MarketError::InvalidFee)));
    assert!(accounts.marketplace_data.is_none());
}

#[test]
fn list_escrows_asset_into_listing() {
    let maker = wallet(2);
    let asset = wallet(3);

    let (listing_pk, listing) = list_asset(maker, asset, PRICE);

    // Listing records maker/asset/price.
    assert_eq!(listing.maker.to_bytes(), maker.to_bytes());
    assert_eq!(listing.asset.to_bytes(), asset.to_bytes());
    assert_eq!(listing.price, PRICE);
    assert_eq!(listing_pk, derived(find_listing_address(&asset)));
}

#[test]
fn delist_closes_listing() {
    let (marketplace, marketplace_data) = init_market(wallet(1), "delist-mkt");
    let maker = wallet(2);
    let asset = wallet(3);
    let (listing_pk, listing_data) = list_asset(maker, asset, PRICE);

    let accounts = DelistAccounts {
        maker,
        maker_is_signer: true,
        asset,
        collection: None,
        marketplace,
        marketplace_data,
        listing: listing_pk,
        listing_data: Some(listing_data),
        mpl_core_program: Address::new(MPL_CORE_PROGRAM_ID),
        system_program: Address::new(SYSTEM_PROGRAM_ID),
    };
    let effects = delist(&accounts).unwrap();

    // close = maker -> listing account is gone.
    assert!(effects.iter().any(|e| matches!(e, Effect::Close { account, rent_to } if *account == listing_pk && *rent_to == maker)));
}

fn buy_accounts(taker: Address, maker: Address, asset: Address, name: &str) -> BuyAccounts {
    let (marketplace, marketplace_data) = init_market(wallet(1), name);
    let (listing, listing_data) = list_asset(maker, asset, PRICE);
    let reward_mint = derived(find_reward_mint_address(&marketplace));
    BuyAccounts {
        taker,
        taker_is_signer: true,
        maker,
        asset,
        collection: None,
        marketplace,
        marketplace_data,
        listing,
        listing_data: Some(listing_data),
        treasury: derived(find_treasury_address(&marketplace)),
        reward_mint,
        taker_ata: derived(find_token_account_address(&taker, &reward_mint)),
        mpl_core_program: Address::new(MPL_CORE_PROGRAM_ID),
        associated_token_program: Address::new(ASSOCIATED_TOKEN_PROGRAM_ID),
        token_program: Address::new(TOKEN_PROGRAM_ID),
        system_program: Address::new(SYSTEM_PROGRAM_ID),
    }
}

fn lamports_to(effects: &[Effect], account: Address) -> u64 {
    effects
        .iter()
        .map(|e| match e {
            Effect::Pay { to, lamports, .. } if *to == account => *lamports,
            _ => 0,
        })
        .sum()
}

fn rewards_to(effects: &[Effect], account: Address) -> u64 {
    effects
        .iter()
        .map(|e| match e {
            Effect::MintReward { to, amount, .. } if *to == account => *amount,
            _ => 0,
        })
        .sum()
}

#[test]
fn buy_pays_seller_fee_and_mints_reward() {
    let taker = wallet(4);
    let accounts = buy_accounts(taker, wallet(2), wallet(3), "buy-mkt");

    let effects = buy(&accounts).unwrap();

    // Listing consumed; treasury holds the 2.5% fee.
    assert!(effects.iter().any(|e| matches!(e, Effect::Close { account, .. } if *account == accounts.listing)));
    assert_eq!(lamports_to(&effects, accounts.treasury), PRICE / 10_000 * 250);
    assert_eq!(rewards_to(&effects, accounts.taker_ata), 100);
}

#[test]
fn make_offer_escrows_price_into_vault() {
    init_market(wallet(1), "offer-mkt");
    let maker = wallet(2);
    let (listing_pk, listing_data) = list_asset(maker, wallet(3), PRICE);
    let buyer = wallet(5);
    let offer_price = 2_000_000_000;

    let mut accounts = offer_accounts(buyer, listing_pk, listing_data);
    let effects = maker_offer(&mut accounts, offer_price).unwrap();

    // Offer records the bid; vault holds the escrowed lamports.
    let offer: Offer = accounts.offer_data.unwrap();
    assert_eq!(offer.offer_maker.to_bytes(), buyer.to_bytes());
    assert_eq!(offer.price, offer_price);
    assert_eq!(lamports_to(&effects, accounts.vault), offer_price);
}

#[test]
fn accept_offer_settles_trade() {
    let (marketplace, marketplace_data) = init_market(wallet(1), "accept-mkt");
    let maker = wallet(2);
    let asset = wallet(3);
    let (listing_pk, listing_data) = list_asset(maker, asset, PRICE);
    let buyer = wallet(5);

    // Buyer escrows a 2 SOL offer.
    let offer_price = 2_000_000_000u64;
    let mut bid = offer_accounts(buyer, listing_pk, listing_data);
    maker_offer(&mut bid, offer_price).unwrap();

    // Seller accepts.
    let reward_mint = derived(find_reward_mint_address(&marketplace));
    let treasury = derived(find_treasury_address(&marketplace));
    let buyer_ata = derived(find_token_account_address(&buyer, &reward_mint));
    let accounts = AcceptOfferAccounts {
        offer_maker: buyer,
        offer_maker_is_signer: true,
        maker,
        maker_is_signer: true,
        offer: bid.offer,
        offer_data: bid.offer_data,
        vault: bid.vault,
        asset,
        collection: None,
        marketplace,
        marketplace_data,
        listing: listing_pk,
        listing_data: Some(listing_data),
        treasury,
        reward_mint,
        offer_maker_ata: buyer_ata,
        mpl_core_program: Address::new(MPL_CORE_PROGRAM_ID),
        associated_token_program: Address::new(ASSOCIATED_TOKEN_PROGRAM_ID),
        token_program: Address::new(TOKEN_PROGRAM_ID),
        system_program: Address::new(SYSTEM_PROGRAM_ID),
    };
    let effects = accept_offer(&accounts).unwrap();

    // Offer + listing consumed; treasury holds the 2.5% fee of the escrowed bid.
    assert!(effects.iter().any(|e| matches!(e, Effect::Close { account, .. } if *account == bid.offer)));
    assert!(effects.iter().any(|e| matches!(e, Effect::Close { account, .. } if *account == listing_pk)));
    assert_eq!(lamports_to(&effects, treasury), offer_price / 10_000 * 250);
    // Buyer received 100 reward tokens.
    assert_eq!(rewards_to(&effects, buyer_ata), 100);
}

#[test]
fn withdraw_more_than_treasury_fails() {
    // Treasury is empty, so any withdrawal exceeds it -> AmountTooMuch.
    let accounts = withdraw_accounts(wallet(1), "wf-market", 0);
    let res = withdraw_fee(&accounts, 1);
    assert!(res.is_err());
    assert!(matches!(res, Err(MarketError::AmountTooMuch)));
}

#[test]
fn withdraw_by_non_admin_fails() {
    // A different signer fails the has_one = admin constraint.
    let attacker = wallet(9);
    let accounts = withdraw_accounts(attacker, "auth-market", 1_000_000_000);
    let res = withdraw_fee(&accounts, 0);
    assert!(res.is_err());
    assert!(matches!(res, Err(MarketError::ConstraintHasOne)));
}
