# solana_nft_marketplace

The rules of an NFT marketplace on Solana, verified with Verus.

A marketplace has an admin, a fee in basis points and a name. Makers list
Metaplex Core assets at a price; the listing account holds the asset in escrow.
A taker buys at the listing price, or a buyer bids into a vault and the maker
accepts the bid. Either way the treasury keeps the fee, the seller gets the
rest, the buyer gets the asset and reward tokens, and the listing is closed.
The admin withdraws collected fees from the treasury.

Layout:

- `src/` — the verified library. Each instruction (`instructions/`) checks its
  accounts and signatures, records the accounts it creates, and returns the
  effects (`effects.rs`: account creations and who pays for them, payments,
  invocations of Metaplex Core, the reward mint's initialisation, reward token
  accounts, reward mints, account closings) that the runtime carries out. `pda.rs` holds the seeds of every
  derived account and their derivation, `fee.rs` the fee arithmetic,
  `core_transfer.rs` the Core transfer instruction, and `laws.rs` the
  properties that span instructions.
- `tests/` — tests of the library on concrete accounts.
- `app/` — the on-chain program: it reads the accounts, calls the library,
  performs the effects, and writes the data of the accounts the library
  recorded.
