# grainlify

Verified core pieces of the Grainlify Soroban contracts, written in Verus.

- `src/error_registry.rs` — the error code registry of the core contract:
  duplicate detection, lookup by code, range validation and categories, and
  conflict checks against another contract's table.
- `src/registry_laws.rs` — proved properties of the registry (the registry is
  strictly ascending and has no duplicate code, every code is in range,
  lookups are sound and complete, conflicts are exactly the shared codes).
- `src/reentrancy_guard.rs` — the reentrancy flag's state machine and its laws.
- `app/lib.rs` — the Soroban instance-storage glue around the guard.
