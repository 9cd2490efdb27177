# tag

The shared tag catalog: flat labels (name, optional taxonomy, optional
description) with a per-field change trail, owner-gated updates and deletes,
and a catalog search source for pickers.

- `src/` is the verified library (Verus). Each catalog operation is a run of
  steps: a step takes what storage answered and decides what to do next
  (fetch, write, append a history row, look up ownership, or finish). The
  history rows of a mutation, the ownership rule, the owner labels, the
  server-side request checks and the page decisions are plain functions with
  contracts. `src/laws.rs` holds the properties that span steps and
  operations.
- `app/` performs what the library decides: it runs the steps against the
  Valence store, serves the Leptos/Higgs server functions, and renders the
  admin pages and the catalog picker.
- `tests/` exercise the library, including whole runs against an in-memory
  store.
