# radix_engine_core

Verified core logic of the Radix engine and its simulator, written in Verus.

- `src/fee_table.rs`: the fee table and the cost of native functions and system calls, with laws on their monotonicity and tiers.
- `src/package.rs`, `src/substate.rs`, `src/abi_extractor.rs`: validated packages, publishing them, an in-memory substate store, and ABI export.
- `src/kernel.rs`: the kernel services that publishing calls, and an in-memory kernel.
- `src/resource_manager.rs`: the requests a blueprint sends to a resource manager, resource behaviours, resource addresses.
- `src/transaction_receipt.rs`: transaction receipts.
- `src/resim.rs`: the simulator's `${name}` placeholder expansion of manifests and token metadata.
- `app/`: command-line parsing, reading files and the environment, coloured receipt rendering.
