# pinocchio_amm

A constant-product automated market maker for Solana (initialize, deposit,
withdraw, swap), with its logic verified by Verus.

- `src/` is the verified library. `processor` decodes an instruction;
  `instructions/*` run each instruction's checks over snapshots of its accounts
  (`account::AccountView`) and settle it into a list of token program calls
  (`instructions::TokenPlan`); `state` is the pool configuration, byte for byte
  as its account holds it; `token` reads the token program's account layouts;
  `runtime` holds the trusted calls into the Solana crates (program addresses,
  program-derived addresses, the clock); `laws` states properties that span
  functions.
- `app/` is the on-chain entry: it snapshots the accounts, calls the library,
  prices trades with the `constant-product-curve` crate, and performs the
  system and token program calls that the library planned. That crate is not
  in the registry available here, so it is not a dependency and `app/` does
  not type-check until it is added.
- `tests/` exercise the library on concrete pools.
