# pinocchio_escrow

A token escrow program for Solana, with its logic verified by Verus.

- `Make` (byte 0): the maker creates an escrow account at the program
  address derived from `"escrow"`, its key and a bump, records the offer in
  it, and deposits tokens of mint A into a vault owned by the escrow.
- `Take` (byte 1): the taker pays the maker the recorded amount of mint B and
  receives the vault; the vault and the escrow are closed to the maker.
- `Refund` (byte 2): the maker gets the vault back; both accounts are closed.

Layout:

- `src/` — the verified library. Each instruction is a state machine
  (`processor`, `instruction::{make, take, refund, release}`) that names the
  next outside action (derive an address, read an account, invoke the system
  or token program, move lamports) and takes back its outcome. `state` holds
  the escrow account's byte layout, `codec` little-endian and key helpers,
  `laws` the properties proved across steps and instructions.
- `app/` — the on-chain entrypoint, which carries out those actions with
  `pinocchio`, `pinocchio-system` and `pinocchio-token`.
- `tests/` — the instructions run against a small simulated runtime, and
  byte-level and step-level cases.
