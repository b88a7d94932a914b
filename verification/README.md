# escrow

A token escrow program for Solana, with its decision logic verified in Verus.

A maker opens an escrow (`make`): the program creates an escrow account at the
address derived from `"escrow"`, the maker's address and a bump, records the
offer in it (maker, the two mints, the amount asked, the amount deposited, the
bump) and moves the deposit into a vault owned by the escrow. A taker settles it
(`take`): it pays the maker's ask and receives the deposit. The maker can get the
deposit back (`refund`). Both settlements close the vault and the escrow account.

Layout:

- `src/` — the verified library. Each instruction is a function from the accounts
  (as plain values) and the instruction data to either an error or the list of
  steps (token transfers, account creation and closing) that the runtime is to
  carry out. `src/laws.rs` holds the properties that relate the instructions to
  one another, such as that a take or refund reads back what a make recorded and
  that the program signs only for the escrow account a make created.
- `app/` — the on-chain program: the entry point, the conversion of the runtime's
  accounts into the library's values, and the cross-program invocations that carry
  out the steps.
- `tests/` — tests of the library on concrete accounts.
