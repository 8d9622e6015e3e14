# deposit

Verified account validation and instruction handlers of three on-chain
programs written for the Anchor framework on Solana:

- a lamport vault (`src/vault.rs`): an owner opens a vault at an address
  derived from a name, anyone pays into it, only the owner withdraws;
- a whitelist (`src/whitelist.rs`): an authority adds and removes users, each
  an account derived from the authority and the user;
- a deposit program (`src/deposit.rs`): a depositor opens a deposit account,
  pays lamports and tokens into vaults its program authority controls and
  takes them back provided the whitelist holds an entry for it; it also
  places and cancels orders on an order book and mints a token with metadata.

The framework's rules that the programs rely on are modelled and verified in
`src/anchor.rs` (account layout, the checks of each account constraint, the
write-back at the end of an instruction), `src/pda.rs` (derived addresses)
and `src/token.rs` (token accounts, mints, associated token accounts). Calls
into the runtime and token libraries stand behind small trusted wrappers whose
contracts state what those libraries document; instructions to other
programs are built in `src/instructions.rs`.

`app/` holds the runtime side: it reads the runtime's accounts into the
library's model, performs the calls into other programs the handlers return,
and writes the accounts back.
