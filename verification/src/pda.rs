//! Program derived addresses: the seeds of each account that this program
//! owns or signs for, and their derivation.
use vstd::prelude::*;
use vstd::utf8::encode_utf8;
use anchor_lang::prelude::Pubkey;
use crate::address::Address;
use crate::error::MarketError;

verus! {

/// This program's id: `An54AJiZa84tpn2obdm5p5s91fibELNvuePVC92dJdX2`.
pub const PROGRAM_ID: [u8; 32] = [
    145, 68, 231, 54, 78, 8, 140, 25, 188, 184, 189, 8, 190, 248, 139, 144,
    66, 170, 33, 136, 234, 181, 38, 15, 77, 164, 90, 2, 63, 219, 41, 229,
];

/// The Metaplex Core program: `CoREENxT6tW1HoK8ypY1SxRMZTcVPm7R94rH4PZNhX7d`.
pub const MPL_CORE_PROGRAM_ID: [u8; 32] = [
    175, 84, 171, 16, 189, 151, 165, 66, 160, 158, 247, 179, 152, 137, 221, 12,
    211, 148, 164, 204, 233, 223, 166, 205, 201, 126, 190, 45, 35, 91, 167, 72,
];

/// The system program: `11111111111111111111111111111111`.
pub const SYSTEM_PROGRAM_ID: [u8; 32] = [
    0, 0, 0, 0, 0, 0, 0, 0, 0, 0, 0, 0, 0, 0, 0, 0,
    0, 0, 0, 0, 0, 0, 0, 0, 0, 0, 0, 0, 0, 0, 0, 0,
];

/// The SPL token program: `TokenkegQfeZyiNwAJbNbGKPFXCWuBvf9Ss623VQ5DA`.
pub const TOKEN_PROGRAM_ID: [u8; 32] = [
    6, 221, 246, 225, 215, 101, 161, 147, 217, 203, 225, 70, 206, 235, 121, 172,
    28, 180, 133, 237, 95, 91, 55, 145, 58, 140, 245, 133, 126, 255, 0, 169,
];

/// The SPL associated token account program: `ATokenGPvbdGVxr1b2hvZbsiqW5xWH25efTNsLJA8knL`.
pub const ASSOCIATED_TOKEN_PROGRAM_ID: [u8; 32] = [
    140, 151, 37, 143, 78, 36, 137, 241, 187, 61, 16, 41, 20, 142, 13, 131,
    11, 90, 19, 153, 218, 255, 16, 132, 4, 142, 123, 216, 219, 233, 248, 89,
];

/// The first seed of the marketplace account: the bytes of `"maketplace"`.
pub open spec fn marketplace_tag() -> Seq<u8> {
    seq![('m' as u8), ('a' as u8), ('k' as u8), ('e' as u8), ('t' as u8), ('p' as u8), ('l' as u8), ('a' as u8), ('c' as u8), ('e' as u8)]
}

fn marketplace_tag_bytes() -> (v: Vec<u8>)
    ensures
        v@ == marketplace_tag(),
{
    let v: Vec<u8> = vec![('m' as u8), ('a' as u8), ('k' as u8), ('e' as u8), ('t' as u8), ('p' as u8), ('l' as u8), ('a' as u8), ('c' as u8), ('e' as u8)];
    assert(v@ =~= marketplace_tag());
    v
}

/// The first seed of the treasury account: the bytes of `"treasury"`.
pub open spec fn treasury_tag() -> Seq<u8> {
    seq![('t' as u8), ('r' as u8), ('e' as u8), ('a' as u8), ('s' as u8), ('u' as u8), ('r' as u8), ('y' as u8)]
}

fn treasury_tag_bytes() -> (v: Vec<u8>)
    ensures
        v@ == treasury_tag(),
{
    let v: Vec<u8> = vec![('t' as u8), ('r' as u8), ('e' as u8), ('a' as u8), ('s' as u8), ('u' as u8), ('r' as u8), ('y' as u8)];
    assert(v@ =~= treasury_tag());
    v
}

/// The first seed of the reward mint account: the bytes of `"reward_mint"`.
pub open spec fn reward_mint_tag() -> Seq<u8> {
    seq![('r' as u8), ('e' as u8), ('w' as u8), ('a' as u8), ('r' as u8), ('d' as u8), ('_' as u8), ('m' as u8), ('i' as u8), ('n' as u8), ('t' as u8)]
}

fn reward_mint_tag_bytes() -> (v: Vec<u8>)
    ensures
        v@ == reward_mint_tag(),
{
    let v: Vec<u8> = vec![('r' as u8), ('e' as u8), ('w' as u8), ('a' as u8), ('r' as u8), ('d' as u8), ('_' as u8), ('m' as u8), ('i' as u8), ('n' as u8), ('t' as u8)];
    assert(v@ =~= reward_mint_tag());
    v
}

/// The first seed of the listing account: the bytes of `"listing"`.
pub open spec fn listing_tag() -> Seq<u8> {
    seq![('l' as u8), ('i' as u8), ('s' as u8), ('t' as u8), ('i' as u8), ('n' as u8), ('g' as u8)]
}

fn listing_tag_bytes() -> (v: Vec<u8>)
    ensures
        v@ == listing_tag(),
{
    let v: Vec<u8> = vec![('l' as u8), ('i' as u8), ('s' as u8), ('t' as u8), ('i' as u8), ('n' as u8), ('g' as u8)];
    assert(v@ =~= listing_tag());
    v
}

/// The first seed of the offer account: the bytes of `"offer"`.
pub open spec fn offer_tag() -> Seq<u8> {
    seq![('o' as u8), ('f' as u8), ('f' as u8), ('e' as u8), ('r' as u8)]
}

fn offer_tag_bytes() -> (v: Vec<u8>)
    ensures
        v@ == offer_tag(),
{
    let v: Vec<u8> = vec![('o' as u8), ('f' as u8), ('f' as u8), ('e' as u8), ('r' as u8)];
    assert(v@ =~= offer_tag());
    v
}

/// The first seed of the vault account: the bytes of `"offer_vault"`.
pub open spec fn vault_tag() -> Seq<u8> {
    seq![('o' as u8), ('f' as u8), ('f' as u8), ('e' as u8), ('r' as u8), ('_' as u8), ('v' as u8), ('a' as u8), ('u' as u8), ('l' as u8), ('t' as u8)]
}

fn vault_tag_bytes() -> (v: Vec<u8>)
    ensures
        v@ == vault_tag(),
{
    let v: Vec<u8> = vec![('o' as u8), ('f' as u8), ('f' as u8), ('e' as u8), ('r' as u8), ('_' as u8), ('v' as u8), ('a' as u8), ('u' as u8), ('l' as u8), ('t' as u8)];
    assert(v@ =~= vault_tag());
    v
}
/// The seeds of a marketplace: its tag and the UTF-8 bytes of its name.
pub open spec fn marketplace_seeds(name: Seq<char>) -> Seq<Seq<u8>> {
    seq![marketplace_tag(), encode_utf8(name)]
}

/// The seeds of a marketplace's treasury, which collects the fees.
pub open spec fn treasury_seeds(marketplace: Seq<u8>) -> Seq<Seq<u8>> {
    seq![treasury_tag(), marketplace]
}

/// The seeds of a marketplace's reward token mint.
pub open spec fn reward_mint_seeds(marketplace: Seq<u8>) -> Seq<Seq<u8>> {
    seq![reward_mint_tag(), marketplace]
}

/// The seeds of the listing of an asset.
pub open spec fn listing_seeds(asset: Seq<u8>) -> Seq<Seq<u8>> {
    seq![listing_tag(), asset]
}

/// The seeds of a buyer's offer on a listing.
pub open spec fn offer_seeds(listing: Seq<u8>, buyer: Seq<u8>) -> Seq<Seq<u8>> {
    seq![offer_tag(), listing, buyer]
}

/// The seeds of the vault that holds an offer's lamports.
pub open spec fn vault_seeds(offer: Seq<u8>) -> Seq<Seq<u8>> {
    seq![vault_tag(), offer]
}

/// The seeds, under the associated token program, of an owner's token account for a mint.
pub open spec fn token_account_seeds(owner: Seq<u8>, mint: Seq<u8>) -> Seq<Seq<u8>> {
    seq![owner, TOKEN_PROGRAM_ID@, mint]
}

/// Seeds followed by a bump: what the program signs with for a derived account.
pub open spec fn with_bump(seeds: Seq<Seq<u8>>, bump: u8) -> Seq<Seq<u8>> {
    seeds.push(seq![bump])
}

/// The most seeds, the bump seed among them, that an address can be derived from.
pub const MAX_SEEDS: usize = 16;

/// The longest seed, in bytes.
pub const MAX_SEED_LEN: usize = 32;

/// Whether seeds, with a bump seed after them, can derive an address at all.
pub open spec fn seeds_within_limits(seeds: Seq<Seq<u8>>) -> bool {
    &&& seeds.len() < MAX_SEEDS
    &&& forall|i: int| 0 <= i < seeds.len() ==> #[trigger] seeds[i].len() <= MAX_SEED_LEN
}

/// The program derived address of `seeds` under `program_id`, with its bump:
/// the address found by `Pubkey::try_find_program_address`.
pub uninterp spec fn program_address(seeds: Seq<Seq<u8>>, program_id: Seq<u8>) -> Option<(Seq<u8>, u8)>;

/// A found address and bump, by value.
pub open spec fn found_view(found: Option<(Address, u8)>) -> Option<(Seq<u8>, u8)> {
    match found {
        Some((address, bump)) => Some((address@, bump)),
        None => None,
    }
}

/// Calls `Pubkey::try_find_program_address` (anchor_lang, from solana-pubkey),
/// on seeds within the limits on their number and length only. Trusted: the
/// result is `program_address` of the seeds and program id, a function of them
/// alone. Which address and bump come out is not stated: that is a SHA-256
/// search off the ed25519 curve.
#[verifier::external_body]
fn find_program_address(seeds: &Vec<Vec<u8>>, program_id: &Address) -> (found: Option<(Address, u8)>)
    requires
        seeds_within_limits(seeds.deep_view()),
    ensures
        found_view(found) == program_address(seeds.deep_view(), program_id@),
{
    let seed_refs: Vec<&[u8]> = seeds.iter().map(|s| s.as_slice()).collect();
    Pubkey::try_find_program_address(&seed_refs, &Pubkey::new_from_array(program_id.bytes)).map(
        |(key, bump)| (Address { bytes: key.to_bytes() }, bump),
    )
}

/// Each tag is short enough to be a seed.
proof fn lemma_tags_within_limits()
    ensures
        marketplace_tag().len() <= MAX_SEED_LEN,
        treasury_tag().len() <= MAX_SEED_LEN,
        reward_mint_tag().len() <= MAX_SEED_LEN,
        listing_tag().len() <= MAX_SEED_LEN,
        offer_tag().len() <= MAX_SEED_LEN,
        vault_tag().len() <= MAX_SEED_LEN,
{
}

/// An address is as long as a seed may be.
proof fn lemma_address_len(a: Address)
    ensures
        a@.len() == MAX_SEED_LEN,
{
    vstd::array::array_len_matches_n(&a.bytes);
}

/// Two seeds of at most `MAX_SEED_LEN` bytes are within the limits.
proof fn lemma_two_within_limits(x: Seq<u8>, y: Seq<u8>)
    requires
        x.len() <= MAX_SEED_LEN,
        y.len() <= MAX_SEED_LEN,
    ensures
        seeds_within_limits(seq![x, y]),
{
    let s = seq![x, y];
    assert forall|i: int| 0 <= i < 2 implies #[trigger] s[i].len() <= MAX_SEED_LEN by {
        if i == 0 {
            assert(s[i] == x);
        } else {
            assert(s[i] == y);
        }
    }
}

/// Three seeds of at most `MAX_SEED_LEN` bytes are within the limits.
proof fn lemma_three_within_limits(x: Seq<u8>, y: Seq<u8>, z: Seq<u8>)
    requires
        x.len() <= MAX_SEED_LEN,
        y.len() <= MAX_SEED_LEN,
        z.len() <= MAX_SEED_LEN,
    ensures
        seeds_within_limits(seq![x, y, z]),
{
    let s = seq![x, y, z];
    assert forall|i: int| 0 <= i < 3 implies #[trigger] s[i].len() <= MAX_SEED_LEN by {
        if i == 0 {
            assert(s[i] == x);
        } else if i == 1 {
            assert(s[i] == y);
        } else {
            assert(s[i] == z);
        }
    }
}

proof fn lemma_bytes_deep_view(v: Vec<u8>)
    ensures
        v.deep_view() == v@,
{
    assert(v.deep_view() =~= v@);
}

/// Two seeds as a seed list.
fn seeds2(a: Vec<u8>, b: Vec<u8>) -> (s: Vec<Vec<u8>>)
    ensures
        s.deep_view() == seq![a@, b@],
{
    let ghost (va, vb) = (a@, b@);
    let mut s: Vec<Vec<u8>> = Vec::new();
    s.push(a);
    s.push(b);
    proof {
        lemma_bytes_deep_view(s@[0]);
        lemma_bytes_deep_view(s@[1]);
    }
    assert(s.deep_view() =~= seq![va, vb]);
    s
}

/// Three seeds as a seed list.
fn seeds3(a: Vec<u8>, b: Vec<u8>, c: Vec<u8>) -> (s: Vec<Vec<u8>>)
    ensures
        s.deep_view() == seq![a@, b@, c@],
{
    let ghost (va, vb, vc) = (a@, b@, c@);
    let mut s: Vec<Vec<u8>> = Vec::new();
    s.push(a);
    s.push(b);
    s.push(c);
    proof {
        lemma_bytes_deep_view(s@[0]);
        lemma_bytes_deep_view(s@[1]);
        lemma_bytes_deep_view(s@[2]);
    }
    assert(s.deep_view() =~= seq![va, vb, vc]);
    s
}

/// The UTF-8 bytes of a name.
fn name_bytes(name: &String) -> (v: Vec<u8>)
    ensures
        v@ == encode_utf8(name@),
{
    vstd::slice::slice_to_vec(name.as_str().as_bytes())
}

/// The seeds of the marketplace called `name`.
pub fn marketplace_seeds_of(name: &String) -> (s: Vec<Vec<u8>>)
    ensures
        s.deep_view() == marketplace_seeds(name@),
{
    seeds2(marketplace_tag_bytes(), name_bytes(name))
}

/// The seeds of a marketplace's treasury.
pub fn treasury_seeds_of(marketplace: &Address) -> (s: Vec<Vec<u8>>)
    ensures
        s.deep_view() == treasury_seeds(marketplace@),
{
    seeds2(treasury_tag_bytes(), marketplace.to_vec())
}

/// The seeds of a marketplace's reward mint.
pub fn reward_mint_seeds_of(marketplace: &Address) -> (s: Vec<Vec<u8>>)
    ensures
        s.deep_view() == reward_mint_seeds(marketplace@),
{
    seeds2(reward_mint_tag_bytes(), marketplace.to_vec())
}

/// The seeds of an asset's listing.
pub fn listing_seeds_of(asset: &Address) -> (s: Vec<Vec<u8>>)
    ensures
        s.deep_view() == listing_seeds(asset@),
{
    seeds2(listing_tag_bytes(), asset.to_vec())
}

/// The seeds of a buyer's offer on a listing.
pub fn offer_seeds_of(listing: &Address, buyer: &Address) -> (s: Vec<Vec<u8>>)
    ensures
        s.deep_view() == offer_seeds(listing@, buyer@),
{
    seeds3(offer_tag_bytes(), listing.to_vec(), buyer.to_vec())
}

/// The seeds of an offer's vault.
pub fn vault_seeds_of(offer: &Address) -> (s: Vec<Vec<u8>>)
    ensures
        s.deep_view() == vault_seeds(offer@),
{
    seeds2(vault_tag_bytes(), offer.to_vec())
}

/// The seeds of an owner's associated token account for a mint.
pub fn token_account_seeds_of(owner: &Address, mint: &Address) -> (s: Vec<Vec<u8>>)
    ensures
        s.deep_view() == token_account_seeds(owner@, mint@),
{
    seeds3(owner.to_vec(), Address::new(TOKEN_PROGRAM_ID).to_vec(), mint.to_vec())
}

/// The seeds followed by the bump seed.
pub fn push_bump(seeds: Vec<Vec<u8>>, bump: u8) -> (s: Vec<Vec<u8>>)
    ensures
        s.deep_view() == with_bump(seeds.deep_view(), bump),
{
    let ghost before = seeds;
    let mut s = seeds;
    let b: Vec<u8> = vec![bump];
    assert(b@ =~= seq![bump]);
    proof {
        lemma_bytes_deep_view(b);
    }
    s.push(b);
    assert forall|i: int| 0 <= i < before.len() implies #[trigger] s@[i] == before@[i] by {}
    assert(s.deep_view() =~= with_bump(before.deep_view(), bump));
    s
}

/// The address of the marketplace called `name`, with its bump: none for a
/// name of more than `MAX_SEED_LEN` bytes, which cannot be a seed.
pub open spec fn marketplace_address(name: Seq<char>) -> Option<(Seq<u8>, u8)> {
    if encode_utf8(name).len() > MAX_SEED_LEN {
        None
    } else {
        program_address(marketplace_seeds(name), PROGRAM_ID@)
    }
}

/// The address of the marketplace called `name`, with its bump.
pub fn find_marketplace_address(name: &String) -> (found: Option<(Address, u8)>)
    ensures
        found_view(found) == marketplace_address(name@),
{
    if name.as_str().as_bytes().len() > MAX_SEED_LEN {
        return None;
    }
    let seeds = marketplace_seeds_of(name);
    proof {
        lemma_tags_within_limits();
        lemma_two_within_limits(marketplace_tag(), encode_utf8(name@));
    }
    find_program_address(&seeds, &Address::new(PROGRAM_ID))
}

/// The address of a marketplace's treasury, with its bump.
pub fn find_treasury_address(marketplace: &Address) -> (found: Option<(Address, u8)>)
    ensures
        found_view(found) == program_address(treasury_seeds(marketplace@), PROGRAM_ID@),
{
    proof {
        lemma_tags_within_limits();
        lemma_address_len(*marketplace);
        lemma_two_within_limits(treasury_tag(), marketplace@);
    }
    find_program_address(&treasury_seeds_of(marketplace), &Address::new(PROGRAM_ID))
}

/// The address of a marketplace's reward mint, with its bump.
pub fn find_reward_mint_address(marketplace: &Address) -> (found: Option<(Address, u8)>)
    ensures
        found_view(found) == program_address(reward_mint_seeds(marketplace@), PROGRAM_ID@),
{
    proof {
        lemma_tags_within_limits();
        lemma_address_len(*marketplace);
        lemma_two_within_limits(reward_mint_tag(), marketplace@);
    }
    find_program_address(&reward_mint_seeds_of(marketplace), &Address::new(PROGRAM_ID))
}

/// The address of an asset's listing, with its bump.
pub fn find_listing_address(asset: &Address) -> (found: Option<(Address, u8)>)
    ensures
        found_view(found) == program_address(listing_seeds(asset@), PROGRAM_ID@),
{
    proof {
        lemma_tags_within_limits();
        lemma_address_len(*asset);
        lemma_two_within_limits(listing_tag(), asset@);
    }
    find_program_address(&listing_seeds_of(asset), &Address::new(PROGRAM_ID))
}

/// The address of a buyer's offer on a listing, with its bump.
pub fn find_offer_address(listing: &Address, buyer: &Address) -> (found: Option<(Address, u8)>)
    ensures
        found_view(found) == program_address(offer_seeds(listing@, buyer@), PROGRAM_ID@),
{
    proof {
        lemma_tags_within_limits();
        lemma_address_len(*listing);
        lemma_address_len(*buyer);
        lemma_three_within_limits(offer_tag(), listing@, buyer@);
    }
    find_program_address(&offer_seeds_of(listing, buyer), &Address::new(PROGRAM_ID))
}

/// The address of an offer's vault, with its bump.
pub fn find_vault_address(offer: &Address) -> (found: Option<(Address, u8)>)
    ensures
        found_view(found) == program_address(vault_seeds(offer@), PROGRAM_ID@),
{
    proof {
        lemma_tags_within_limits();
        lemma_address_len(*offer);
        lemma_two_within_limits(vault_tag(), offer@);
    }
    find_program_address(&vault_seeds_of(offer), &Address::new(PROGRAM_ID))
}

/// The address of an owner's associated token account for a mint.
pub fn find_token_account_address(owner: &Address, mint: &Address) -> (found: Option<(Address, u8)>)
    ensures
        found_view(found) == program_address(
            token_account_seeds(owner@, mint@),
            ASSOCIATED_TOKEN_PROGRAM_ID@,
        ),
{
    proof {
        lemma_address_len(*owner);
        lemma_address_len(*mint);
        lemma_address_len(Address { bytes: TOKEN_PROGRAM_ID });
        lemma_three_within_limits(owner@, TOKEN_PROGRAM_ID@, mint@);
    }
    find_program_address(
        &token_account_seeds_of(owner, mint),
        &Address::new(ASSOCIATED_TOKEN_PROGRAM_ID),
    )
}

/// What the seeds check gives for an account at `key` when the derivation
/// found `found`: the bump when the address is the account's, else a refusal.
pub open spec fn seeds_check(key: Seq<u8>, found: Option<(Seq<u8>, u8)>) -> Result<u8, MarketError> {
    match found {
        Some((address, bump)) => if address == key {
            Ok(bump)
        } else {
            Err(MarketError::ConstraintSeeds)
        },
        None => Err(MarketError::ConstraintSeeds),
    }
}

/// Checks that the account at `key` is the derived address `found`, and gives its bump.
pub fn check_seeds(key: &Address, found: Option<(Address, u8)>) -> (r: Result<u8, MarketError>)
    ensures
        r == seeds_check(key@, found_view(found)),
{
    match found {
        Some((address, bump)) => if address.same(key) {
            Ok(bump)
        } else {
            Err(MarketError::ConstraintSeeds)
        },
        None => Err(MarketError::ConstraintSeeds),
    }
}

/// What the seeds check gives for an account whose record keeps the bump
/// `stored`: as `seeds_check`, and refused unless the kept bump is the one
/// found, so that the account's record signs with its own seeds.
pub open spec fn stored_bump_check(key: Seq<u8>, found: Option<(Seq<u8>, u8)>, stored: u8) -> Result<u8, MarketError> {
    match seeds_check(key, found) {
        Ok(bump) => if bump == stored {
            Ok(bump)
        } else {
            Err(MarketError::ConstraintSeeds)
        },
        Err(e) => Err(e),
    }
}

/// Checks that the account at `key` is the derived address `found`, found
/// with the bump `stored` that its record keeps, and gives that bump.
pub fn check_stored_bump(key: &Address, found: Option<(Address, u8)>, stored: u8) -> (r: Result<u8, MarketError>)
    ensures
        r == stored_bump_check(key@, found_view(found), stored),
{
    match check_seeds(key, found) {
        Ok(bump) => if bump == stored {
            Ok(bump)
        } else {
            Err(MarketError::ConstraintSeeds)
        },
        Err(e) => Err(e),
    }
}

} // verus!
