# gonka-thesoul-vesting

Time-locked GNK vesting for the Gonka chain, as a Verus-verified library with a
CosmWasm contract around it.

The contract holds GNK and releases it to a fixed recipient on a quarterly
schedule: 500,000 GNK at instantiation, then 150,000, 150,000 and 170,000 GNK
after 90, 180 and 270 days (970,000 GNK in all; 1 GNK = 10^9 ngonka). Anyone
may release an unlocked tranche; the admin (Gonka governance) may pause and
resume releases, change the recipient, and withdraw funds.

Layout:

- `src/` — the verified library. `state.rs` holds the schedule and the stored
  state with its well-formedness invariant; `contract.rs` every decision the
  contract makes (instantiation, each execute message, queries, migration),
  each stated as a spec function over the state's view and proved; `laws.rs`
  the properties that hold across calls (released tranches stay released, a
  tranche is released only after its unlock time and at most once, only the
  admin configures, pause blocks releases, ...); `decimal.rs` 256-bit amounts
  and their decimal notation; `response.rs` and `msg.rs` the messages and
  answers; `error.rs` the refusals.
- `app/` — the CosmWasm entry points: storage (`cw-storage-plus`, `cw2`),
  address validation and chain queries, protobuf and JSON encoding, and the
  serde/prost copies of the library's types.
- `tests/` — tests of the library.
