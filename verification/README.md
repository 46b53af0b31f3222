# liquid_staking

A verified liquid staking ledger. Users stake the native currency and receive
a liquid token one for one; they unbond the liquid token and, once the staking
system's bonding duration has passed, withdraw the currency; and they may lock
liquid token in governance votes, which keeps it from being unbonded.

The currency, the assets, the staking system and governance are outside the
library. Each call is a state machine: it asks the runtime for one outside
operation at a time and decides what to do from the reply. Storage is written
only when a call succeeds.

- `src/model.rs`: the stored values, requests, replies, errors and events.
- `src/machine.rs`: the calls' steps as spec functions (`begin_*`, `next`).
- `src/pallet.rs`: the ledger (`Pallet`) and the executable steps, proved
  equal to the spec.
- `src/arith.rs`: per-billion ratios, computed by `sp_arithmetic::Perbill`.
- `src/laws.rs`: what holds of whole calls and of every step.
- `src/types.rs`: `BalanceOrAsset`, a native amount or an asset amount.
- `app/lib.rs`: runs calls against a FRAME runtime, in a storage transaction.
- `tests/`: an in-memory runtime, and the calls run against it.
