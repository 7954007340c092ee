# pinocchio_vault

Verified decision logic of two Solana programs built on `pinocchio`:

* the **vault** program: instruction `0` (followed by a little-endian `u64`
  amount) deposits lamports into the caller's vault at the program-derived
  address `["vault", owner]`, creating it first when it holds nothing;
  instruction `1` withdraws everything above the vault's rent-exempt minimum;
* the **storage** program: keeps the instruction data in the account at
  `["storage", owner]`, funded to exactly its rent-exempt minimum.

Layout:

* `src/` — the library, verified with Verus. Accounts are plain values
  (`account::Account`); each program function returns what must happen
  (an account to create, a transfer, new balances) rather than doing it.
  `effects.rs` says what the runtime does with those decisions and
  `laws.rs` proves properties across calls (instruction data round trips,
  deposit-then-withdraw, rent-exact funding, store twice, base58 text
  determining the address). The storage program reads the rent sysvar
  account in its yearly-rate-and-threshold layout; the rent-exempt minimum
  is computed in integers for the thresholds one and two, and for any other
  threshold `app/` scales the yearly rent in floating point and hands the
  result back to the library. The vault program uses the per-byte rate.
* `app/` — the on-chain side: reads `AccountView`s into the library's
  values, calls it, and performs the system-program calls and balance
  updates it asks for.
* `tests/` — tests of the library, including the end-to-end deposit and
  withdraw scenario run against a simulation of the runtime.
