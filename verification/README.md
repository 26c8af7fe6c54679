# dapps_staking_mock

The test runtime of the dapps-staking pallet, with its logic verified by Verus.

- `src/clock.rs`: block, timestamp and session progression, and the step that
  drives the chain to the next era.
- `src/contracts.rs`: the contract-address and child-trie-id generators.
- `src/genesis.rs`: test accounts and the genesis state.
- `src/operator.rs`: staking parameters, code hashing and the check that an
  operated contract was registered.
- `src/runtime.rs`: runtime constants and the small pallet helpers.
- `src/substrate.rs`: the calls into `sp-core` and `sp-runtime`, with the
  contracts their sources show.
- `app/lib.rs`: the pallet wiring and the storage reads and writes around the
  library.
