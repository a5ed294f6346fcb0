# nono sandbox state

A verified library for the capability set of a sandbox and its persisted,
flat record (`SandboxState`).

- `src/capability.rs` – capabilities, the `CapabilitySet` with its view and
  invariant (every port range and platform rule in it was accepted).
- `src/state.rs` – the persisted record, recording a set (`from_caps`),
  restoring one (`to_caps`, given the outcome of resolving each recorded path),
  and the laws relating the two.
- `src/path.rs` – paths compared by components, as `std::path::Path` does.
- `src/resolve.rs` – which canonical path a recorded path resolves to, decided
  from what the filesystem says of it, and `to_caps_from_facts`, which restores
  a record from those facts.
- `src/error.rs`, `src/resource.rs` – errors and resource ceilings.
- `app/lib.rs` – JSON reading and writing through serde, and the look at the
  disk (canonicalize, metadata) that restoring a record needs.
