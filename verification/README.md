# duelpvp

A two-player wagering game on chain: each player stakes the same bet in a
per-duel vault, and dice or a coin flip, driven by a verifiable random
function, decide who gets the pot less a 1% house fee.

- `src/` is the verified library. The instructions stand in `treasury`,
  `create`, `join`, `settle` and `close`; `accounts` says what their accounts
  have to satisfy; `address`, `vrf` and `loader` hold the calls into outside
  crates; `dice` and `lamports` do the arithmetic. `laws` states what holds of
  the game as a whole.
- `app/` is the on-chain program around it: account layouts, transfers, the
  request for randomness and events.
- `tests/` runs the library with the real address derivation and the real
  account layouts of the randomness service.
