//! What an instruction asks the runtime to do once it has decided: lamport
//! payments, invocations of other programs, reward mints and account closings.
use vstd::prelude::*;
use crate::address::Address;
use crate::error::MarketError;
use crate::state::TOKEN_ACCOUNT_SPACE;

verus! {

/// An account that an instruction passes to a program.
#[derive(Clone, Copy, Debug)]
pub struct AccountMeta {
    pub pubkey: Address,
    pub is_signer: bool,
    pub is_writable: bool,
}

/// An account passed to a program, by value.
pub struct AccountMetaView {
    pub pubkey: Seq<u8>,
    pub is_signer: bool,
    pub is_writable: bool,
}

impl View for AccountMeta {
    type V = AccountMetaView;

    open spec fn view(&self) -> AccountMetaView {
        AccountMetaView { pubkey: self.pubkey@, is_signer: self.is_signer, is_writable: self.is_writable }
    }
}

/// An account passed to a program.
pub open spec fn meta(pubkey: Seq<u8>, is_signer: bool, is_writable: bool) -> AccountMetaView {
    AccountMetaView { pubkey, is_signer, is_writable }
}

/// An instruction for another program: its id, its accounts and its data.
#[derive(Debug)]
pub struct Instruction {
    pub program_id: Address,
    pub accounts: Vec<AccountMeta>,
    pub data: Vec<u8>,
}

/// An instruction, by value.
pub struct InstructionView {
    pub program_id: Seq<u8>,
    pub accounts: Seq<AccountMetaView>,
    pub data: Seq<u8>,
}

impl View for Instruction {
    type V = InstructionView;

    open spec fn view(&self) -> InstructionView {
        InstructionView {
            program_id: self.program_id@,
            accounts: self.accounts@.map_values(|m: AccountMeta| m@),
            data: self.data@,
        }
    }
}

/// One thing that an instruction has the runtime do. `signer_seeds` are the
/// seeds, bump last, with which this program signs for a derived account; they
/// are empty where a wallet signs for itself.
#[derive(Debug)]
pub enum Effect {
    /// A system-program transfer of `lamports` from `from` to `to`.
    Pay { from: Address, to: Address, lamports: u64, signer_seeds: Vec<Vec<u8>> },
    /// An invocation of another program.
    Invoke { instruction: Instruction, signer_seeds: Vec<Vec<u8>> },
    /// A mint of `amount` reward tokens from `mint` into the token account
    /// `to`, by the mint's `authority`.
    MintReward { mint: Address, to: Address, authority: Address, amount: u64, signer_seeds: Vec<Vec<u8>> },
    /// The closing of `account`, whose lamports go to `rent_to`.
    Close { account: Address, rent_to: Address },
    /// The creation of `account`, of `space` bytes and owned by `owner`, whose
    /// rent `payer` pays.
    CreateAccount { payer: Address, account: Address, space: u64, owner: Address, signer_seeds: Vec<Vec<u8>> },
    /// The initialisation of the token mint `mint`, with `decimals` and the mint
    /// authority `authority`.
    InitializeMint { mint: Address, decimals: u8, authority: Address },
    /// The creation, where it does not exist yet, of `owner`'s associated token
    /// account `account` for `mint`, whose rent `payer` pays.
    CreateTokenAccount { payer: Address, account: Address, owner: Address, mint: Address },
}

/// An effect, by value.
pub enum EffectView {
    Pay { from: Seq<u8>, to: Seq<u8>, lamports: u64, signer_seeds: Seq<Seq<u8>> },
    Invoke { instruction: InstructionView, signer_seeds: Seq<Seq<u8>> },
    MintReward { mint: Seq<u8>, to: Seq<u8>, authority: Seq<u8>, amount: u64, signer_seeds: Seq<Seq<u8>> },
    Close { account: Seq<u8>, rent_to: Seq<u8> },
    CreateAccount { payer: Seq<u8>, account: Seq<u8>, space: u64, owner: Seq<u8>, signer_seeds: Seq<Seq<u8>> },
    InitializeMint { mint: Seq<u8>, decimals: u8, authority: Seq<u8> },
    CreateTokenAccount { payer: Seq<u8>, account: Seq<u8>, owner: Seq<u8>, mint: Seq<u8> },
}

impl View for Effect {
    type V = EffectView;

    open spec fn view(&self) -> EffectView {
        match self {
            Effect::Pay { from, to, lamports, signer_seeds } => EffectView::Pay {
                from: from@,
                to: to@,
                lamports: *lamports,
                signer_seeds: signer_seeds.deep_view(),
            },
            Effect::Invoke { instruction, signer_seeds } => EffectView::Invoke {
                instruction: instruction@,
                signer_seeds: signer_seeds.deep_view(),
            },
            Effect::MintReward { mint, to, authority, amount, signer_seeds } => EffectView::MintReward {
                mint: mint@,
                to: to@,
                authority: authority@,
                amount: *amount,
                signer_seeds: signer_seeds.deep_view(),
            },
            Effect::Close { account, rent_to } => EffectView::Close {
                account: account@,
                rent_to: rent_to@,
            },
            Effect::CreateAccount { payer, account, space, owner, signer_seeds } => EffectView::CreateAccount {
                payer: payer@,
                account: account@,
                space: *space,
                owner: owner@,
                signer_seeds: signer_seeds.deep_view(),
            },
            Effect::InitializeMint { mint, decimals, authority } => EffectView::InitializeMint {
                mint: mint@,
                decimals: *decimals,
                authority: authority@,
            },
            Effect::CreateTokenAccount { payer, account, owner, mint } => EffectView::CreateTokenAccount {
                payer: payer@,
                account: account@,
                owner: owner@,
                mint: mint@,
            },
        }
    }
}

/// A list of effects, by value.
pub open spec fn effects_view(effects: Seq<Effect>) -> Seq<EffectView> {
    effects.map_values(|e: Effect| e@)
}

/// What an instruction gave back, by value: its effects, or why it was refused.
pub open spec fn outcome(r: Result<Vec<Effect>, MarketError>) -> Result<Seq<EffectView>, MarketError> {
    match r {
        Ok(effects) => Ok(effects_view(effects@)),
        Err(e) => Err(e),
    }
}

/// The sum of `f` over a list of effects.
pub open spec fn sum_over(effects: Seq<EffectView>, f: spec_fn(EffectView) -> int) -> int
    decreases effects.len(),
{
    if effects.len() == 0 {
        0
    } else {
        sum_over(effects.drop_last(), f) + f(effects.last())
    }
}

/// The lamports that an effect pays out of `account`.
pub open spec fn payment_from(account: Seq<u8>) -> spec_fn(EffectView) -> int {
    |e: EffectView|
        match e {
            EffectView::Pay { from, lamports, .. } => if from == account {
                lamports as int
            } else {
                0
            },
            _ => 0,
        }
}

/// The lamports that an effect pays into `account`.
pub open spec fn payment_to(account: Seq<u8>) -> spec_fn(EffectView) -> int {
    |e: EffectView|
        match e {
            EffectView::Pay { to, lamports, .. } => if to == account {
                lamports as int
            } else {
                0
            },
            _ => 0,
        }
}

/// The reward tokens that an effect mints into `account`.
pub open spec fn reward_to(account: Seq<u8>) -> spec_fn(EffectView) -> int {
    |e: EffectView|
        match e {
            EffectView::MintReward { to, amount, .. } => if to == account {
                amount as int
            } else {
                0
            },
            _ => 0,
        }
}

/// The lamports that `account` pays out in a list of effects.
pub open spec fn paid_by(effects: Seq<EffectView>, account: Seq<u8>) -> int {
    sum_over(effects, payment_from(account))
}

/// The lamports that `account` receives in a list of effects.
pub open spec fn paid_to(effects: Seq<EffectView>, account: Seq<u8>) -> int {
    sum_over(effects, payment_to(account))
}

/// The reward tokens minted into `account` in a list of effects.
pub open spec fn rewarded_to(effects: Seq<EffectView>, account: Seq<u8>) -> int {
    sum_over(effects, reward_to(account))
}

/// A sum over two lists of effects one after the other is the sum of the sums.
pub proof fn lemma_sum_over_concat(a: Seq<EffectView>, b: Seq<EffectView>, f: spec_fn(EffectView) -> int)
    ensures
        sum_over(a + b, f) == sum_over(a, f) + sum_over(b, f),
    decreases b.len(),
{
    if b.len() == 0 {
        assert(a + b =~= a);
    } else {
        lemma_sum_over_concat(a, b.drop_last(), f);
        assert((a + b).drop_last() =~= a + b.drop_last());
        assert((a + b).last() == b.last());
    }
}

/// A sum over one effect is its value.
pub proof fn lemma_sum_over_one(e: EffectView, f: spec_fn(EffectView) -> int)
    ensures
        sum_over(seq![e], f) == f(e),
{
    assert(seq![e].drop_last() =~= Seq::<EffectView>::empty());
    assert(sum_over(Seq::<EffectView>::empty(), f) == 0);
    assert(seq![e].last() == e);
}

/// Whether a list of effects closes `account`, whoever gets its lamports.
pub open spec fn closed_by(effects: Seq<EffectView>, account: Seq<u8>) -> bool {
    exists|i: int| 0 <= i < effects.len() && #[trigger] effects[i] is Close && effects[i]->Close_account == account
}

/// What an account holds after a list of effects: nothing once they close it.
pub open spec fn record_after<T>(effects: Seq<EffectView>, account: Seq<u8>, before: Option<T>) -> Option<T> {
    if closed_by(effects, account) {
        None
    } else {
        before
    }
}

/// What the payer of a new account pays into it: what the account lacks of
/// the rent `rent_due`, nothing where it already holds that much.
pub open spec fn top_up(rent_due: int, held: int) -> int {
    if held < rent_due {
        rent_due - held
    } else {
        0
    }
}

/// The lamports of each account after `payer` tops `account` up to the rent
/// `rent_due`.
pub open spec fn funded(
    balances: spec_fn(Seq<u8>) -> int,
    payer: Seq<u8>,
    account: Seq<u8>,
    rent_due: int,
) -> spec_fn(Seq<u8>) -> int {
    let amount = top_up(rent_due, balances(account));
    |k: Seq<u8>| balances(k) - (if k == payer { amount } else { 0 }) + (if k == account { amount } else { 0 })
}

/// The lamports of each account after one effect, where `balances` were the
/// lamports before and `rent(space)` is the rent of an account of `space`
/// bytes. Only this program's own moves of lamports count: payments, the rent
/// of created accounts, which their payer tops up to the rent, and the
/// lamports of closed accounts.
pub open spec fn lamports_after_one(
    e: EffectView,
    balances: spec_fn(Seq<u8>) -> int,
    rent: spec_fn(u64) -> int,
) -> spec_fn(Seq<u8>) -> int {
    match e {
        EffectView::Pay { from, to, lamports, .. } => |k: Seq<u8>|
            balances(k) - (if k == from { lamports as int } else { 0 }) + (if k == to { lamports as int } else { 0 }),
        EffectView::CreateAccount { payer, account, space, .. } => funded(balances, payer, account, rent(space)),
        EffectView::CreateTokenAccount { payer, account, .. } => funded(
            balances,
            payer,
            account,
            rent(TOKEN_ACCOUNT_SPACE),
        ),
        EffectView::Close { account, rent_to } => |k: Seq<u8>|
            if k == account {
                0
            } else if k == rent_to {
                balances(k) + balances(account)
            } else {
                balances(k)
            },
        _ => balances,
    }
}

/// The lamports of each account after a list of effects.
pub open spec fn lamports_after(
    effects: Seq<EffectView>,
    balances: spec_fn(Seq<u8>) -> int,
    rent: spec_fn(u64) -> int,
) -> spec_fn(Seq<u8>) -> int
    decreases effects.len(),
{
    if effects.len() == 0 {
        balances
    } else {
        lamports_after_one(effects.last(), lamports_after(effects.drop_last(), balances, rent), rent)
    }
}

/// Applying two lists of effects one after the other is applying the first,
/// then the second.
pub proof fn lemma_lamports_after_concat(
    a: Seq<EffectView>,
    b: Seq<EffectView>,
    balances: spec_fn(Seq<u8>) -> int,
    rent: spec_fn(u64) -> int,
)
    ensures
        lamports_after(a + b, balances, rent) == lamports_after(b, lamports_after(a, balances, rent), rent),
    decreases b.len(),
{
    if b.len() == 0 {
        assert(a + b =~= a);
    } else {
        lemma_lamports_after_concat(a, b.drop_last(), balances, rent);
        assert((a + b).drop_last() =~= a + b.drop_last());
        assert((a + b).last() == b.last());
    }
}

/// Whether an effect moves lamports of `k` otherwise than by a payment: by
/// creating an account, paying for one, or closing one.
pub open spec fn touched_otherwise(e: EffectView, k: Seq<u8>) -> bool {
    match e {
        EffectView::CreateAccount { payer, account, .. } => k == payer || k == account,
        EffectView::CreateTokenAccount { payer, account, .. } => k == payer || k == account,
        EffectView::Close { account, rent_to } => k == account || k == rent_to,
        _ => false,
    }
}

/// Where only payments move the lamports of `k`, its lamports after a list of
/// effects are those before, plus what it is paid, less what it pays.
pub proof fn lemma_lamports_by_payments(
    effects: Seq<EffectView>,
    balances: spec_fn(Seq<u8>) -> int,
    rent: spec_fn(u64) -> int,
    k: Seq<u8>,
)
    requires
        forall|i: int| 0 <= i < effects.len() ==> !touched_otherwise(#[trigger] effects[i], k),
    ensures
        lamports_after(effects, balances, rent)(k) == balances(k) + paid_to(effects, k) - paid_by(effects, k),
    decreases effects.len(),
{
    if effects.len() > 0 {
        let rest = effects.drop_last();
        assert forall|i: int| 0 <= i < rest.len() implies !touched_otherwise(#[trigger] rest[i], k) by {
            assert(rest[i] == effects[i]);
        }
        lemma_lamports_by_payments(rest, balances, rent, k);
        assert(!touched_otherwise(effects[effects.len() - 1], k));
    }
}

/// Whether a list of effects closes `account`, sending its lamports to `rent_to`.
pub open spec fn closes(effects: Seq<EffectView>, account: Seq<u8>, rent_to: Seq<u8>) -> bool {
    exists|i: int|
        0 <= i < effects.len() && #[trigger] effects[i] == (EffectView::Close { account, rent_to })
}

/// No signer seeds: a wallet signs for itself.
pub fn wallet_signs() -> (s: Vec<Vec<u8>>)
    ensures
        s.deep_view() == Seq::<Seq<u8>>::empty(),
{
    let s: Vec<Vec<u8>> = Vec::new();
    assert(s.deep_view() =~= Seq::<Seq<u8>>::empty());
    s
}

/// A payment of `lamports` from `from` to `to`.
pub fn pay(from: Address, to: Address, lamports: u64, signer_seeds: Vec<Vec<u8>>) -> (e: Effect)
    ensures
        e@ == (EffectView::Pay { from: from@, to: to@, lamports, signer_seeds: signer_seeds.deep_view() }),
{
    Effect::Pay { from, to, lamports, signer_seeds }
}

/// An invocation of `instruction`.
pub fn invoke(instruction: Instruction, signer_seeds: Vec<Vec<u8>>) -> (e: Effect)
    ensures
        e@ == (EffectView::Invoke { instruction: instruction@, signer_seeds: signer_seeds.deep_view() }),
{
    Effect::Invoke { instruction, signer_seeds }
}

/// A mint of `amount` reward tokens into `to`, by `authority`.
pub fn mint_reward(mint: Address, to: Address, authority: Address, amount: u64, signer_seeds: Vec<Vec<u8>>) -> (e: Effect)
    ensures
        e@ == (EffectView::MintReward {
            mint: mint@,
            to: to@,
            authority: authority@,
            amount,
            signer_seeds: signer_seeds.deep_view(),
        }),
{
    Effect::MintReward { mint, to, authority, amount, signer_seeds }
}

/// The closing of `account` in favour of `rent_to`.
pub fn close(account: Address, rent_to: Address) -> (e: Effect)
    ensures
        e@ == (EffectView::Close { account: account@, rent_to: rent_to@ }),
{
    Effect::Close { account, rent_to }
}

/// The creation of `account`, paid by `payer`.
pub fn create_account(payer: Address, account: Address, space: u64, owner: Address, signer_seeds: Vec<Vec<u8>>) -> (e: Effect)
    ensures
        e@ == (EffectView::CreateAccount {
            payer: payer@,
            account: account@,
            space,
            owner: owner@,
            signer_seeds: signer_seeds.deep_view(),
        }),
{
    Effect::CreateAccount { payer, account, space, owner, signer_seeds }
}

/// The initialisation of a mint.
pub fn initialize_mint(mint: Address, decimals: u8, authority: Address) -> (e: Effect)
    ensures
        e@ == (EffectView::InitializeMint { mint: mint@, decimals, authority: authority@ }),
{
    Effect::InitializeMint { mint, decimals, authority }
}

/// The creation, where missing, of an associated token account.
pub fn create_token_account(payer: Address, account: Address, owner: Address, mint: Address) -> (e: Effect)
    ensures
        e@ == (EffectView::CreateTokenAccount { payer: payer@, account: account@, owner: owner@, mint: mint@ }),
{
    Effect::CreateTokenAccount { payer, account, owner, mint }
}

/// A list of three effects.
pub fn three(a: Effect, b: Effect, c: Effect) -> (v: Vec<Effect>)
    ensures
        effects_view(v@) == seq![a@, b@, c@],
{
    let ghost (av, bv, cv) = (a@, b@, c@);
    let mut v: Vec<Effect> = Vec::new();
    v.push(a);
    v.push(b);
    v.push(c);
    assert(effects_view(v@) =~= seq![av, bv, cv]);
    v
}

/// A list of one effect.
pub fn one(e: Effect) -> (v: Vec<Effect>)
    ensures
        effects_view(v@) == seq![e@],
{
    let ghost ev = e@;
    let mut v: Vec<Effect> = Vec::new();
    v.push(e);
    assert(effects_view(v@) =~= seq![ev]);
    v
}

/// A list of two effects.
pub fn two(a: Effect, b: Effect) -> (v: Vec<Effect>)
    ensures
        effects_view(v@) == seq![a@, b@],
{
    let ghost (av, bv) = (a@, b@);
    let mut v: Vec<Effect> = Vec::new();
    v.push(a);
    v.push(b);
    assert(effects_view(v@) =~= seq![av, bv]);
    v
}

/// The effects of `first`, then those of `second`.
pub fn concat(first: Vec<Effect>, second: Vec<Effect>) -> (v: Vec<Effect>)
    ensures
        effects_view(v@) == effects_view(first@) + effects_view(second@),
{
    let ghost (fv, sv) = (first@, second@);
    let mut v = first;
    let mut rest = second;
    v.append(&mut rest);
    assert(effects_view(v@) =~= effects_view(fv) + effects_view(sv));
    v
}

} // verus!
