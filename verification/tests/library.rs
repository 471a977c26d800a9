use std::str::FromStr;

use anchor_lang::prelude::Pubkey;
use solana_nft_marketplace::address::Address;
use solana_nft_marketplace::effects::{Effect, Instruction};
use solana_nft_marketplace::error::MarketError;
use solana_nft_marketplace::fee::{fee_is_valid, marketplace_fee};
use solana_nft_marketplace::pda::{
    check_seeds, find_listing_address, find_marketplace_address, find_offer_address,
    find_reward_mint_address, find_token_account_address, find_treasury_address,
    find_vault_address, listing_seeds_of, push_bump, ASSOCIATED_TOKEN_PROGRAM_ID,
    MPL_CORE_PROGRAM_ID, PROGRAM_ID, SYSTEM_PROGRAM_ID, TOKEN_PROGRAM_ID,
};
use solana_nft_marketplace::state::{Listing, MarketPlace, REWARD_PER_TRADE};
use solana_nft_marketplace::{
    accept_offer, buy, delist, initliaze, list, maker_offer, withdraw_fee, AcceptOfferAccounts,
    BuyAccounts, DelistAccounts, InitializeAccount, ListAcoounts, MakeOfferAccounts,
    WithdrawFeeAccounts,
};

const PRICE: u64 = 1_000_000_000;

fn wallet(n: u8) -> Address {
    Address::new([n; 32])
}

fn derived(found: Option<(Address, u8)>) -> Address {
    found.unwrap().0
}

fn pubkey(a: &Address) -> Pubkey {
    Pubkey::new_from_array(a.to_bytes())
}

fn program() -> Pubkey {
    Pubkey::new_from_array(PROGRAM_ID)
}

fn anchor_pda(seeds: &[&[u8]]) -> Address {
    Address::new(Pubkey::find_program_address(seeds, &program()).0.to_bytes())
}

fn init_accounts(admin: Address, name: &str) -> InitializeAccount {
    let marketplace = derived(find_marketplace_address(&name.to_string()));
    InitializeAccount {
        admin,
        admin_is_signer: true,
        marketplace,
        marketplace_data: None,
        treasury: derived(find_treasury_address(&marketplace)),
        reward_mint: derived(find_reward_mint_address(&marketplace)),
        token_program: Address::new(TOKEN_PROGRAM_ID),
        system_program: Address::new(SYSTEM_PROGRAM_ID),
    }
}

fn market(name: &str, fee: u16) -> (Address, MarketPlace) {
    let mut accounts = init_accounts(wallet(1), name);
    initliaze(&mut accounts, name.to_string(), fee).unwrap();
    (accounts.marketplace, accounts.marketplace_data.unwrap())
}

fn list_accounts(maker: Address, asset: Address) -> ListAcoounts {
    ListAcoounts {
        maker,
        maker_is_signer: true,
        asset,
        collection: None,
        listing: derived(find_listing_address(&asset)),
        listing_data: None,
        mpl_core_program: Address::new(MPL_CORE_PROGRAM_ID),
        system_program: Address::new(SYSTEM_PROGRAM_ID),
    }
}

fn listed(maker: Address, asset: Address, price: u64) -> (Address, Listing) {
    let mut accounts = list_accounts(maker, asset);
    list(&mut accounts, price).unwrap();
    (accounts.listing, accounts.listing_data.unwrap())
}

fn buy_accounts(fee: u16, name: &str) -> BuyAccounts {
    let (marketplace, marketplace_data) = market(name, fee);
    let taker = wallet(4);
    let (listing, listing_data) = listed(wallet(2), wallet(3), PRICE);
    let reward_mint = derived(find_reward_mint_address(&marketplace));
    BuyAccounts {
        taker,
        taker_is_signer: true,
        maker: wallet(2),
        asset: wallet(3),
        collection: None,
        marketplace,
        marketplace_data,
        listing,
        listing_data: Some(listing_data),
        treasury: derived(find_treasury_address(&marketplace)),
        reward_mint,
        taker_ata: derived(find_token_account_address(&taker, &reward_mint)),
        mpl_core_program: Address::new(MPL_CORE_PROGRAM_ID),
        associated_token_program: Address::new(ASSOCIATED_TOKEN_PROGRAM_ID),
        token_program: Address::new(TOKEN_PROGRAM_ID),
        system_program: Address::new(SYSTEM_PROGRAM_ID),
    }
}

fn delist_accounts(maker: Address) -> DelistAccounts {
    let (marketplace, marketplace_data) = market("delist-law", 250);
    let (listing, listing_data) = listed(wallet(2), wallet(3), PRICE);
    DelistAccounts {
        maker,
        maker_is_signer: true,
        asset: wallet(3),
        collection: None,
        marketplace,
        marketplace_data,
        listing,
        listing_data: Some(listing_data),
        mpl_core_program: Address::new(MPL_CORE_PROGRAM_ID),
        system_program: Address::new(SYSTEM_PROGRAM_ID),
    }
}

fn core_move(effects: &[Effect]) -> &Instruction {
    effects
        .iter()
        .find_map(|e| match e {
            Effect::Invoke { instruction, .. } => Some(instruction),
            _ => None,
        })
        .unwrap()
}

fn paid(effects: &[Effect], from: Address, to: Address) -> u64 {
    effects
        .iter()
        .map(|e| match e {
            Effect::Pay { from: f, to: t, lamports, .. } if *f == from && *t == to => *lamports,
            _ => 0,
        })
        .sum()
}

#[test]
fn program_ids_are_the_published_ones() {
    let ids = [
        (PROGRAM_ID, "An54AJiZa84tpn2obdm5p5s91fibELNvuePVC92dJdX2"),
        (MPL_CORE_PROGRAM_ID, "CoREENxT6tW1HoK8ypY1SxRMZTcVPm7R94rH4PZNhX7d"),
        (SYSTEM_PROGRAM_ID, "11111111111111111111111111111111"),
        (TOKEN_PROGRAM_ID, "TokenkegQfeZyiNwAJbNbGKPFXCWuBvf9Ss623VQ5DA"),
        (ASSOCIATED_TOKEN_PROGRAM_ID, "ATokenGPvbdGVxr1b2hvZbsiqW5xWH25efTNsLJA8knL"),
    ];
    for (bytes, text) in ids {
        assert_eq!(bytes, Pubkey::from_str(text).unwrap().to_bytes());
    }
    assert_eq!(MPL_CORE_PROGRAM_ID, mpl_core::ID.to_bytes());
}

#[test]
fn derived_addresses_follow_the_seeds() {
    let asset = wallet(3);
    let buyer = wallet(5);
    let name = "seeds-market";
    let marketplace = derived(find_marketplace_address(&name.to_string()));
    assert_eq!(marketplace, anchor_pda(&[b"maketplace", name.as_bytes()]));
    assert_eq!(derived(find_treasury_address(&marketplace)), anchor_pda(&[b"treasury", &marketplace.to_bytes()]));
    assert_eq!(
        derived(find_reward_mint_address(&marketplace)),
        anchor_pda(&[b"reward_mint", &marketplace.to_bytes()])
    );
    let listing = derived(find_listing_address(&asset));
    assert_eq!(listing, anchor_pda(&[b"listing", &asset.to_bytes()]));
    let offer = derived(find_offer_address(&listing, &buyer));
    assert_eq!(offer, anchor_pda(&[b"offer", &listing.to_bytes(), &buyer.to_bytes()]));
    assert_eq!(derived(find_vault_address(&offer)), anchor_pda(&[b"offer_vault", &offer.to_bytes()]));
    let mint = derived(find_reward_mint_address(&marketplace));
    let ata = Pubkey::find_program_address(
        &[&buyer.to_bytes(), &TOKEN_PROGRAM_ID, &mint.to_bytes()],
        &Pubkey::new_from_array(ASSOCIATED_TOKEN_PROGRAM_ID),
    )
    .0;
    assert_eq!(derived(find_token_account_address(&buyer, &mint)), Address::new(ata.to_bytes()));
    let (_, bump) = find_listing_address(&asset).unwrap();
    assert_eq!(bump, Pubkey::find_program_address(&[b"listing", &asset.to_bytes()], &program()).1);
}

#[test]
fn seeds_check_gives_the_bump_of_the_right_account_only() {
    let found = find_listing_address(&wallet(3));
    let (listing, bump) = found.unwrap();
    assert_eq!(check_seeds(&listing, found), Ok(bump));
    assert_eq!(check_seeds(&wallet(7), found), Err(MarketError::ConstraintSeeds));
    assert_eq!(check_seeds(&listing, None), Err(MarketError::ConstraintSeeds));
}

#[test]
fn signer_seeds_end_with_the_bump() {
    let asset = wallet(3);
    let seeds = push_bump(listing_seeds_of(&asset), 254);
    assert_eq!(seeds, vec![b"listing".to_vec(), asset.to_bytes().to_vec(), vec![254]]);
}

#[test]
fn marketplace_name_longer_than_a_seed_is_refused() {
    let name = "a-marketplace-name-of-more-than-32-bytes";
    assert!(find_marketplace_address(&name.to_string()).is_none());
    let mut accounts = init_accounts(wallet(1), "short");
    assert!(matches!(initliaze(&mut accounts, name.to_string(), 250), Err(MarketError::ConstraintSeeds)));
    assert!(accounts.marketplace_data.is_none());
}

#[test]
fn initialize_records_the_bumps_and_refuses_an_existing_marketplace() {
    let mut accounts = init_accounts(wallet(1), "bumps");
    let effects = initliaze(&mut accounts, "bumps".to_string(), 0).unwrap();
    let mp = accounts.marketplace_data.as_ref().unwrap();
    let mp_bump = mp.bump;
    assert_eq!(mp.bump, find_marketplace_address(&"bumps".to_string()).unwrap().1);
    assert_eq!(mp.treasury_bump, find_treasury_address(&accounts.marketplace).unwrap().1);
    assert_eq!(mp.rewards_bump, find_reward_mint_address(&accounts.marketplace).unwrap().1);
    assert!(matches!(initliaze(&mut accounts, "bumps".to_string(), 0), Err(MarketError::AccountInUse)));
    assert_eq!(effects.len(), 3);
    match &effects[0] {
        Effect::CreateAccount { payer, account, space, owner, signer_seeds } => {
            assert_eq!((*payer, *account, *space), (wallet(1), accounts.marketplace, 81));
            assert_eq!(owner.to_bytes(), PROGRAM_ID);
            assert_eq!(signer_seeds, &vec![b"maketplace".to_vec(), b"bumps".to_vec(), vec![mp_bump]]);
        }
        _ => panic!("the marketplace account is created first"),
    }
    match &effects[1] {
        Effect::CreateAccount { payer, account, space, owner, .. } => {
            assert_eq!((*payer, *account, *space), (wallet(1), accounts.reward_mint, 82));
            assert_eq!(owner.to_bytes(), TOKEN_PROGRAM_ID);
        }
        _ => panic!("the reward mint is created second"),
    }
    assert!(matches!(effects[2], Effect::InitializeMint { mint, decimals: 6, authority } if mint == accounts.reward_mint && authority == accounts.marketplace));
}

#[test]
fn initialize_accepts_the_largest_fee_and_checks_programs() {
    let mut accounts = init_accounts(wallet(1), "max-fee");
    assert!(initliaze(&mut accounts, "max-fee".to_string(), 10_000).is_ok());
    let mut wrong = init_accounts(wallet(1), "wrong-prog");
    wrong.token_program = wallet(8);
    assert!(matches!(initliaze(&mut wrong, "wrong-prog".to_string(), 1), Err(MarketError::InvalidProgramId)));
    let mut other_name = init_accounts(wallet(1), "one-name");
    assert!(matches!(initliaze(&mut other_name, "other-name".to_string(), 1), Err(MarketError::ConstraintSeeds)));
    let mut unsigned = init_accounts(wallet(1), "unsigned");
    unsigned.admin_is_signer = false;
    assert!(matches!(initliaze(&mut unsigned, "unsigned".to_string(), 1), Err(MarketError::AccountNotSigner)));
}

#[test]
fn fee_is_whole_ten_thousandths_of_the_price() {
    assert_eq!(marketplace_fee(1_000_000_000, 250), 25_000_000);
    assert_eq!(marketplace_fee(9_999, 250), 0);
    assert_eq!(marketplace_fee(12_345, 10_000), 10_000);
    assert_eq!(marketplace_fee(u64::MAX, 10_000), u64::MAX / 10_000 * 10_000);
    assert_eq!(marketplace_fee(12_345, 0), 0);
    assert!(fee_is_valid(10_000));
    assert!(!fee_is_valid(10_001));
}

#[test]
fn listing_hands_the_asset_to_the_listing() {
    let maker = wallet(2);
    let asset = wallet(3);
    let mut accounts = list_accounts(maker, asset);
    let effects = list(&mut accounts, PRICE).unwrap();
    assert_eq!(effects.len(), 2);
    let bump = find_listing_address(&asset).unwrap().1;
    match &effects[0] {
        Effect::CreateAccount { payer, account, space, owner, signer_seeds } => {
            assert_eq!((*payer, *account, *space), (maker, accounts.listing, 81));
            assert_eq!(owner.to_bytes(), PROGRAM_ID);
            assert_eq!(signer_seeds, &vec![b"listing".to_vec(), asset.to_bytes().to_vec(), vec![bump]]);
        }
        _ => panic!("listing first creates the listing account"),
    }
    let ix = core_move(&effects);
    assert_eq!(ix.program_id.to_bytes(), MPL_CORE_PROGRAM_ID);
    assert_eq!(ix.data, vec![14, 0]);
    let keys: Vec<(Address, bool, bool)> = ix.accounts.iter().map(|m| (m.pubkey, m.is_signer, m.is_writable)).collect();
    let core = Address::new(MPL_CORE_PROGRAM_ID);
    let system = Address::new(SYSTEM_PROGRAM_ID);
    assert_eq!(
        keys,
        vec![
            (asset, false, true),
            (core, false, false),
            (maker, true, true),
            (maker, true, false),
            (accounts.listing, false, false),
            (system, false, false),
            (core, false, false),
        ]
    );
    match &effects[1] {
        Effect::Invoke { signer_seeds, .. } => assert!(signer_seeds.is_empty()),
        _ => panic!("listing must invoke the Core transfer"),
    }
    assert_eq!(accounts.listing_data.unwrap().bump, find_listing_address(&asset).unwrap().1);
}

#[test]
fn core_transfer_matches_the_mpl_core_builder() {
    let maker = wallet(2);
    let asset = wallet(3);
    let collection = wallet(6);
    let mut accounts = list_accounts(maker, asset);
    accounts.collection = Some(collection);
    let effects = list(&mut accounts, PRICE).unwrap();
    let ix = core_move(&effects);
    let expected = mpl_core::instructions::TransferV1Builder::new()
        .asset(pubkey(&asset))
        .collection(Some(pubkey(&collection)))
        .payer(pubkey(&maker))
        .authority(Some(pubkey(&maker)))
        .new_owner(pubkey(&accounts.listing))
        .system_program(Some(pubkey(&Address::new(SYSTEM_PROGRAM_ID))))
        .instruction();
    assert_eq!(ix.data, expected.data);
    assert_eq!(ix.accounts.len(), expected.accounts.len());
    for (mine, theirs) in ix.accounts.iter().zip(expected.accounts.iter()) {
        assert_eq!(mine.pubkey.to_bytes(), theirs.pubkey.to_bytes());
        assert_eq!(mine.is_signer, theirs.is_signer);
        assert_eq!(mine.is_writable, theirs.is_writable);
    }
    assert_eq!(ix.accounts[1].pubkey, collection);
}

#[test]
fn list_refuses_bad_accounts() {
    let mut wrong_system = list_accounts(wallet(2), wallet(3));
    wrong_system.system_program = wallet(8);
    assert!(matches!(list(&mut wrong_system, PRICE), Err(MarketError::InvalidProgramId)));

    let mut wrong_listing = list_accounts(wallet(2), wallet(3));
    wrong_listing.listing = wallet(7);
    assert!(matches!(list(&mut wrong_listing, PRICE), Err(MarketError::ConstraintSeeds)));
    assert!(wrong_listing.listing_data.is_none());

    let mut wrong_core = list_accounts(wallet(2), wallet(3));
    wrong_core.mpl_core_program = wallet(8);
    assert!(matches!(list(&mut wrong_core, PRICE), Err(MarketError::ConstraintAddress)));

    let mut twice = list_accounts(wallet(2), wallet(3));
    list(&mut twice, PRICE).unwrap();
    assert!(matches!(list(&mut twice, 5), Err(MarketError::AccountInUse)));
    assert_eq!(twice.listing_data.unwrap().price, PRICE);
}

#[test]
fn only_the_maker_delists_and_gets_the_asset_back() {
    let stranger = delist_accounts(wallet(9));
    assert!(matches!(delist(&stranger), Err(MarketError::ConstraintHasOne)));

    let accounts = delist_accounts(wallet(2));
    let effects = delist(&accounts).unwrap();
    let ix = core_move(&effects);
    assert_eq!(ix.accounts[0].pubkey, wallet(3));
    assert_eq!((ix.accounts[3].pubkey, ix.accounts[3].is_signer), (accounts.listing, true));
    assert_eq!(ix.accounts[4].pubkey, wallet(2));
    match &effects[0] {
        Effect::Invoke { signer_seeds, .. } => assert_eq!(
            signer_seeds,
            &vec![b"listing".to_vec(), wallet(3).to_bytes().to_vec(), vec![accounts.listing_data.unwrap().bump]]
        ),
        _ => panic!("delisting must invoke the Core transfer"),
    }
    assert!(matches!(effects[1], Effect::Close { account, rent_to } if account == accounts.listing && rent_to == wallet(2)));
}

#[test]
fn buyer_pays_exactly_the_price() {
    let accounts = buy_accounts(250, "law-buy");
    let effects = buy(&accounts).unwrap();
    assert_eq!(paid(&effects, accounts.taker, accounts.maker), PRICE - PRICE / 10_000 * 250);
    assert_eq!(paid(&effects, accounts.taker, accounts.treasury), PRICE / 10_000 * 250);
    let total: u64 = effects
        .iter()
        .map(|e| match e {
            Effect::Pay { from, lamports, .. } if *from == accounts.taker => *lamports,
            _ => 0,
        })
        .sum();
    assert_eq!(total, PRICE);
    let ix = core_move(&effects);
    assert_eq!(ix.accounts[4].pubkey, accounts.taker);
    assert!(matches!(effects[0], Effect::CreateTokenAccount { payer, account, owner, mint }
        if payer == accounts.taker && account == accounts.taker_ata && owner == accounts.taker && mint == accounts.reward_mint));
    match &effects[4] {
        Effect::MintReward { mint, to, authority, amount, signer_seeds } => {
            assert_eq!((*mint, *to, *amount), (accounts.reward_mint, accounts.taker_ata, REWARD_PER_TRADE));
            assert_eq!(*authority, accounts.marketplace);
            assert_eq!(signer_seeds[0], b"maketplace".to_vec());
            assert_eq!(signer_seeds[1], b"law-buy".to_vec());
            assert_eq!(signer_seeds[2], vec![accounts.marketplace_data.bump]);
        }
        _ => panic!("the fifth effect of a purchase is the reward"),
    }
}

#[test]
fn free_marketplace_pays_the_seller_everything() {
    let accounts = buy_accounts(0, "free-market");
    let effects = buy(&accounts).unwrap();
    assert_eq!(paid(&effects, accounts.taker, accounts.maker), PRICE);
    assert_eq!(paid(&effects, accounts.taker, accounts.treasury), 0);
}

#[test]
fn buy_refuses_a_foreign_reward_account_and_another_maker() {
    let mut wrong_ata = buy_accounts(250, "ata-market");
    wrong_ata.taker_ata = wallet(7);
    assert!(matches!(buy(&wrong_ata), Err(MarketError::ConstraintAssociated)));
    let mut wrong_maker = buy_accounts(250, "maker-market");
    wrong_maker.maker = wallet(9);
    assert!(matches!(buy(&wrong_maker), Err(MarketError::ConstraintHasOne)));
}

#[test]
fn offer_vault_pays_out_what_it_took() {
    let (listing, listing_data) = listed(wallet(2), wallet(3), PRICE);
    let buyer = wallet(5);
    let offer = derived(find_offer_address(&listing, &buyer));
    let mut bid = MakeOfferAccounts {
        buyer,
        buyer_is_signer: true,
        offer,
        offer_data: None,
        vault: derived(find_vault_address(&offer)),
        listing,
        listing_data: Some(listing_data),
        system_program: Address::new(SYSTEM_PROGRAM_ID),
    };
    let taken = maker_offer(&mut bid, 777_777).unwrap();
    assert_eq!(paid(&taken, buyer, bid.vault), 777_777);
    assert!(matches!(taken[0], Effect::CreateAccount { payer, account, space: 82, .. } if payer == buyer && account == offer));
    assert!(matches!(maker_offer(&mut bid, 1), Err(MarketError::AccountInUse)));

    let (marketplace, marketplace_data) = market("vault-law", 250);
    let reward_mint = derived(find_reward_mint_address(&marketplace));
    let accounts = AcceptOfferAccounts {
        offer_maker: buyer,
        offer_maker_is_signer: true,
        maker: wallet(2),
        maker_is_signer: true,
        offer: bid.offer,
        offer_data: bid.offer_data,
        vault: bid.vault,
        asset: wallet(3),
        collection: None,
        marketplace,
        marketplace_data,
        listing,
        listing_data: Some(listing_data),
        treasury: derived(find_treasury_address(&marketplace)),
        reward_mint,
        offer_maker_ata: derived(find_token_account_address(&buyer, &reward_mint)),
        mpl_core_program: Address::new(MPL_CORE_PROGRAM_ID),
        associated_token_program: Address::new(ASSOCIATED_TOKEN_PROGRAM_ID),
        token_program: Address::new(TOKEN_PROGRAM_ID),
        system_program: Address::new(SYSTEM_PROGRAM_ID),
    };
    let given = accept_offer(&accounts).unwrap();
    let out: u64 = given
        .iter()
        .map(|e| match e {
            Effect::Pay { from, lamports, .. } if *from == bid.vault => *lamports,
            _ => 0,
        })
        .sum();
    assert_eq!(out, 777_777);
    assert_eq!(paid(&given, bid.vault, accounts.treasury), 777_777 / 10_000 * 250);
    assert_eq!(paid(&given, bid.vault, wallet(2)), 777_777 - 777_777 / 10_000 * 250);
    assert_eq!(core_move(&given).accounts[4].pubkey, buyer);
    assert!(matches!(given[0], Effect::CreateTokenAccount { payer, account, .. }
        if payer == buyer && account == accounts.offer_maker_ata));

    let mut stranger = AcceptOfferAccounts { offer_maker: wallet(9), ..accounts };
    stranger.offer_maker_ata = derived(find_token_account_address(&wallet(9), &reward_mint));
    assert!(matches!(accept_offer(&stranger), Err(MarketError::ConstraintSeeds)));
}

#[test]
fn admin_withdraws_exactly_the_amount() {
    let (marketplace, marketplace_data) = market("withdraw-law", 250);
    let treasury_bump = marketplace_data.treasury_bump;
    let accounts = WithdrawFeeAccounts {
        admin: wallet(1),
        admin_is_signer: true,
        marketplace,
        marketplace_data,
        treasury: derived(find_treasury_address(&marketplace)),
        treasury_lamports: 25_000_000,
        system_program: Address::new(SYSTEM_PROGRAM_ID),
    };
    let effects = withdraw_fee(&accounts, 25_000_000).unwrap();
    assert_eq!(effects.len(), 1);
    assert_eq!(paid(&effects, accounts.treasury, wallet(1)), 25_000_000);
    match &effects[0] {
        Effect::Pay { signer_seeds, .. } => assert_eq!(
            signer_seeds,
            &vec![b"treasury".to_vec(), marketplace.to_bytes().to_vec(), vec![treasury_bump]]
        ),
        _ => panic!("a withdrawal is a payment"),
    }
    assert!(matches!(withdraw_fee(&accounts, 25_000_001), Err(MarketError::AmountTooMuch)));
}

#[test]
fn a_listing_is_sold_once() {
    let accounts = buy_accounts(250, "once-market");
    let effects = buy(&accounts).unwrap();
    assert!(effects.iter().any(|e| matches!(e, Effect::Close { account, .. } if *account == accounts.listing)));
    // The listing account is gone afterwards: its record reads as missing.
    let mut again = buy_accounts(250, "once-market");
    again.taker = wallet(6);
    again.taker_ata = derived(find_token_account_address(&wallet(6), &again.reward_mint));
    again.listing_data = None;
    assert!(matches!(buy(&again), Err(MarketError::AccountNotInitialized)));
    let mut gone = delist_accounts(wallet(2));
    gone.listing_data = None;
    assert!(matches!(delist(&gone), Err(MarketError::AccountNotInitialized)));
}

#[test]
fn signatures_are_required() {
    let mut unsigned = buy_accounts(250, "sig-market");
    unsigned.taker_is_signer = false;
    assert!(matches!(buy(&unsigned), Err(MarketError::AccountNotSigner)));
    let mut listing = list_accounts(wallet(2), wallet(3));
    listing.maker_is_signer = false;
    assert!(matches!(list(&mut listing, PRICE), Err(MarketError::AccountNotSigner)));
    assert!(listing.listing_data.is_none());
    let mut delisting = delist_accounts(wallet(2));
    delisting.maker_is_signer = false;
    assert!(matches!(delist(&delisting), Err(MarketError::AccountNotSigner)));
}

#[test]
fn create_list_only_hands_the_asset_over() {
    let maker = wallet(2);
    let asset = wallet(3);
    let mut accounts = list_accounts(maker, asset);
    let bumps = accounts.validate().unwrap();
    let created = accounts.create_listing_account(bumps);
    assert_eq!(created.len(), 1);
    assert!(matches!(created[0], Effect::CreateAccount { payer, account, space: 81, .. }
        if payer == maker && account == accounts.listing));
    let effects = accounts.create_list(PRICE, bumps);
    assert_eq!(effects.len(), 1);
    assert_eq!(core_move(&effects).accounts[4].pubkey, accounts.listing);
    let recorded = accounts.listing_data.unwrap();
    assert_eq!((recorded.maker, recorded.asset, recorded.price, recorded.bump), (maker, asset, PRICE, bumps.listing));
}

#[test]
fn a_marketplace_keeps_what_it_was_created_with() {
    let mut accounts = init_accounts(wallet(1), "keep");
    initliaze(&mut accounts, "keep".to_string(), 250).unwrap();
    let mut again = InitializeAccount { admin: wallet(9), ..accounts };
    assert!(matches!(initliaze(&mut again, "keep".to_string(), 500), Err(MarketError::AccountInUse)));
    let kept = again.marketplace_data.unwrap();
    assert_eq!((kept.admin, kept.fee, kept.name.as_str()), (wallet(1), 250, "keep"));
}
