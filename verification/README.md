# teachlink

The rules of the TeachLink contract (a cross-chain bridge with validator
consensus, atomic swaps, liquidity pools, message passing, rewards, escrow,
governance, social learning and more), written as state transitions over
plain data and proved with Verus.

- `src/` is the verified library. Each module holds the state of one part of
  the contract and its operations, each with a `requires`/`ensures`
  contract; the public `law_*` proof functions state properties that relate
  several operations. Addresses are `u64` ids and byte strings `Vec<u8>`;
  token movements and events are handed back to the caller instead of being
  performed.
- `tests/` runs the library on concrete values.
- `app/` is the contract-facing layer: it keeps the state, maps host
  addresses to ids, asks for authorisation, reads the ledger clock, moves
  tokens and publishes events, calling the library for every decision.
