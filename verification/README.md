# onda

The decision logic of the Onda and Dexloan Solana programs, written in Verus
and proved against its contracts.

Each instruction is a function from the accounts it reads and its arguments
to the accounts it writes and the transfers it asks for.  The crate does not
build or send the cross-program invocations those answers call for (token
transfers, freezes, Bubblegum mints, merkle-tree appends): that needs the
Anchor, SPL and Metaplex crates, which this crate does not depend on.

Layout of `src/`:

- `pubkey`, `pda`, `metadata`: addresses, program-derived addresses (through
  `solana-program`) and the token-metadata fields the programs read.
- `listings`: the NFT listings program (loans, call options, rentals,
  collections) with its fee and escrow arithmetic.
- `dexloan`: the earlier listings program (loans, call options, hires,
  rentals).
- `compression`: the forum program: entry validation (URLs through `url`),
  gates and their evaluation, entry addresses and the Keccak hash of an
  entry's Borsh encoding (through `solana-program`).
- `awards`, `bloom`, `moderation`, `namespace`: the awards, plankton,
  moderation-team and namespace programs.

`app/` holds what the library cannot: conversions to Solana's address type
and the amounts the programs compute in floating point.
